use vstd::prelude::*;
use tokio::sync::mpsc::UnboundedSender;

verus! {

#[verifier::external_type_specification]
#[verifier::external_body]
#[verifier::reject_recursive_types(T)]
pub struct ExUnboundedSender<T>(UnboundedSender<T>);

/// The send-only end through which one connected client receives text frames.
pub type Outbound = UnboundedSender<String>;

/// The handles of `s` from position `i` on whose delivery succeeded, in order.
pub open spec fn kept_from<H>(s: Seq<H>, delivered: Seq<bool>, i: int) -> Seq<H>
    decreases s.len() - i,
{
    if i < 0 || i >= s.len() {
        Seq::empty()
    } else if delivered[i] {
        seq![s[i]] + kept_from(s, delivered, i + 1)
    } else {
        kept_from(s, delivered, i + 1)
    }
}

/// The handles of `s` whose delivery succeeded, in registration order.
pub open spec fn kept<H>(s: Seq<H>, delivered: Seq<bool>) -> Seq<H> {
    kept_from(s, delivered, 0)
}

/// The registry after `added` were registered one after another onto `s`.
pub open spec fn registered_all<H>(s: Seq<H>, added: Seq<H>) -> Seq<H>
    decreases added.len(),
{
    if added.len() == 0 {
        s
    } else {
        registered_all(s, added.drop_last()).push(added.last())
    }
}

proof fn lemma_registered_all_is_concat<H>(s: Seq<H>, added: Seq<H>)
    ensures
        registered_all(s, added) == s + added,
    decreases added.len(),
{
    if added.len() > 0 {
        lemma_registered_all_is_concat(s, added.drop_last());
        assert(s + added =~= (s + added.drop_last()).push(added.last()));
    }
}

/// No registration is lost: however many clients register, one after another
/// in whatever order the lock admits them, the registry grows by exactly that
/// many handles, appended in the order they were admitted.
pub proof fn lemma_no_lost_registration<H>(s: Seq<H>, added: Seq<H>)
    ensures
        registered_all(s, added).len() == s.len() + added.len(),
        registered_all(s, added) == s + added,
{
    lemma_registered_all_is_concat(s, added);
}

proof fn lemma_kept_from_members<H>(s: Seq<H>, delivered: Seq<bool>, i: int, x: H)
    requires
        0 <= i <= s.len(),
        delivered.len() == s.len(),
    ensures
        kept_from(s, delivered, i).contains(x)
            <==> exists|j: int| i <= j < s.len() && delivered[j] && s[j] == x,
    decreases s.len() - i,
{
    if i < s.len() {
        lemma_kept_from_members(s, delivered, i + 1, x);
        let rest = kept_from(s, delivered, i + 1);
        if delivered[i] {
            assert((seq![s[i]] + rest).contains(x) <==> (s[i] == x || rest.contains(x))) by {
                if (seq![s[i]] + rest).contains(x) {
                    let k = choose|k: int| 0 <= k < (seq![s[i]] + rest).len() && (seq![s[i]] + rest)[k] == x;
                    if k > 0 {
                        assert(rest[k - 1] == x);
                    }
                }
                if s[i] == x {
                    assert((seq![s[i]] + rest)[0] == x);
                }
                if rest.contains(x) {
                    let k = choose|k: int| 0 <= k < rest.len() && rest[k] == x;
                    assert((seq![s[i]] + rest)[k + 1] == x);
                }
            }
        }
        if exists|j: int| i <= j < s.len() && delivered[j] && s[j] == x {
            let j = choose|j: int| i <= j < s.len() && delivered[j] && s[j] == x;
            if j > i {
                assert(exists|j: int| i + 1 <= j < s.len() && delivered[j] && s[j] == x);
            }
        }
    }
}

/// A broadcast keeps exactly the handles that received the frame: a handle is
/// in the registry afterwards if and only if some position holding it had a
/// successful send, so a handle whose every send failed is gone, and each
/// receiver stays. The survivors are never more than the handles before.
pub proof fn lemma_broadcast_keeps_receivers<H>(s: Seq<H>, delivered: Seq<bool>, x: H)
    requires
        delivered.len() == s.len(),
    ensures
        kept(s, delivered).contains(x)
            <==> exists|j: int| 0 <= j < s.len() && delivered[j] && s[j] == x,
        kept(s, delivered).len() <= s.len(),
{
    lemma_kept_from_members(s, delivered, 0, x);
    lemma_kept_from_len(s, delivered, 0);
}

proof fn lemma_kept_from_len<H>(s: Seq<H>, delivered: Seq<bool>, i: int)
    requires
        0 <= i <= s.len(),
    ensures
        kept_from(s, delivered, i).len() <= s.len() - i,
    decreases s.len() - i,
{
    if i < s.len() {
        lemma_kept_from_len(s, delivered, i + 1);
    }
}

proof fn lemma_kept_from_all_delivered<H>(s: Seq<H>, delivered: Seq<bool>, i: int)
    requires
        0 <= i <= s.len(),
        delivered.len() == s.len(),
        forall|k: int| 0 <= k < s.len() ==> delivered[k],
    ensures
        kept_from(s, delivered, i) == s.subrange(i, s.len() as int),
    decreases s.len() - i,
{
    if i < s.len() {
        lemma_kept_from_all_delivered(s, delivered, i + 1);
        assert(seq![s[i]] + s.subrange(i + 1, s.len() as int) =~= s.subrange(i, s.len() as int));
    } else {
        assert(s.subrange(i, s.len() as int) =~= Seq::<H>::empty());
    }
}

/// Pruning is idempotent: when a second broadcast follows the first with no
/// connect in between and every survivor of the first receives it, the second
/// removes nothing, so no handle that received the first broadcast is lost.
pub proof fn lemma_second_broadcast_prunes_nothing<H>(
    s: Seq<H>,
    first: Seq<bool>,
    second: Seq<bool>,
)
    requires
        first.len() == s.len(),
        second.len() == kept(s, first).len(),
        forall|k: int| 0 <= k < second.len() ==> second[k],
    ensures
        kept(kept(s, first), second) == kept(s, first),
{
    let t = kept(s, first);
    lemma_kept_from_all_delivered(t, second, 0);
    assert(t.subrange(0, t.len() as int) =~= t);
}

/// The ordered collection of live outbound handles, in connection order.
pub struct Registry {
    handles: Vec<Outbound>,
}

impl View for Registry {
    type V = Seq<Outbound>;

    closed spec fn view(&self) -> Seq<Outbound> {
        self.handles@
    }
}

/// Relies on tokio's `UnboundedSender::send`: it enqueues the frame without
/// waiting and fails when the receiving half has been closed or dropped. Whether
/// that has happened depends on the other task, so nothing is stated of the result.
#[verifier::external_body]
fn send_text(handle: &Outbound, text: &str) -> (delivered: bool) {
    handle.send(text.to_string()).is_ok()
}

impl Registry {
    /// An empty registry.
    pub fn new() -> (r: Registry)
        ensures
            r@ == Seq::<Outbound>::empty(),
    {
        Registry { handles: Vec::new() }
    }

    /// The number of registered handles.
    pub fn len(&self) -> (n: usize)
        ensures
            n == self@.len(),
    {
        self.handles.len()
    }

    /// Appends the handle of a newly connected client.
    pub fn register(&mut self, handle: Outbound)
        ensures
            final(self)@ == old(self)@.push(handle),
    {
        self.handles.push(handle);
    }

    /// Removes every handle whose flag in `delivered` is false, keeping the order
    /// of the rest; entries are removed from the highest position down.
    pub fn prune(&mut self, delivered: &Vec<bool>)
        requires
            delivered@.len() == old(self)@.len(),
        ensures
            final(self)@ == kept(old(self)@, delivered@),
    {
        let ghost s = self.handles@;
        let mut i: usize = self.handles.len();
        while i > 0
            invariant
                i <= s.len(),
                delivered@.len() == s.len(),
                self.handles@ == s.subrange(0, i as int) + kept_from(s, delivered@, i as int),
            decreases i,
        {
            let j: usize = i - 1;
            proof {
                assert(s.subrange(0, i as int) == s.subrange(0, j as int).push(s[j as int]));
            }
            if !delivered[j] {
                self.handles.remove(j);
                proof {
                    assert(self.handles@ =~= s.subrange(0, j as int) + kept_from(s, delivered@, j as int));
                }
            } else {
                proof {
                    assert(self.handles@ =~= s.subrange(0, j as int) + kept_from(s, delivered@, j as int));
                }
            }
            i = j;
        }
        proof {
            assert(s.subrange(0, 0) + kept_from(s, delivered@, 0) =~= kept(s, delivered@));
        }
    }

    /// Sends `text` to every registered handle in connection order, then removes
    /// the handles whose send failed. The result holds, for each handle that was
    /// registered at the call, whether the frame was handed to it. The contract
    /// covers the pruning only: what reaches a channel is not visible here, and
    /// whether a send succeeds depends on the task that holds its receiver.
    pub fn broadcast(&mut self, text: &str) -> (delivered: Vec<bool>)
        ensures
            delivered@.len() == old(self)@.len(),
            final(self)@ == kept(old(self)@, delivered@),
    {
        let mut delivered: Vec<bool> = Vec::new();
        let n: usize = self.handles.len();
        let mut i: usize = 0;
        while i < n
            invariant
                n == self.handles@.len(),
                i <= n,
                delivered@.len() == i,
            decreases n - i,
        {
            let ok = send_text(&self.handles[i], text);
            delivered.push(ok);
            i = i + 1;
        }
        self.prune(&delivered);
        delivered
    }
}

} // verus!
