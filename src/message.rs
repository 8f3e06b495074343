use vstd::prelude::*;

verus! {

/// Credentials presented at login or registration.
pub struct User {
    pub username: String,
    pub password: String,
}

/// One chat message as it travels on the wire and is stored.
pub struct MessageBody {
    pub sender: String,
    pub receiver: String,
    pub message: String,
}

/// The two participants whose conversation a history query asks for.
pub struct HistoryQueryParams {
    pub user_from: String,
    pub user_to: String,
}

impl View for MessageBody {
    type V = (Seq<char>, Seq<char>, Seq<char>);

    open spec fn view(&self) -> (Seq<char>, Seq<char>, Seq<char>) {
        (self.sender@, self.receiver@, self.message@)
    }
}

impl MessageBody {
    /// A copy with the same sender, receiver and text.
    pub fn duplicate(&self) -> (r: MessageBody)
        ensures
            r@ == self@,
    {
        MessageBody {
            sender: self.sender.clone(),
            receiver: self.receiver.clone(),
            message: self.message.clone(),
        }
    }
}

/// Whether a message with sender `s` and receiver `r` belongs to the
/// conversation between `a` and `b`, in either direction.
pub open spec fn between(s: Seq<char>, r: Seq<char>, a: Seq<char>, b: Seq<char>) -> bool {
    (s == a && r == b) || (s == b && r == a)
}

/// The messages of `records` that belong to the conversation between `a` and
/// `b`, in the order of `records`.
pub open spec fn conversation(records: Seq<MessageBody>, a: Seq<char>, b: Seq<char>) -> Seq<
    (Seq<char>, Seq<char>, Seq<char>),
>
    decreases records.len(),
{
    if records.len() == 0 {
        Seq::empty()
    } else {
        let m = records.last();
        let rest = conversation(records.drop_last(), a, b);
        if between(m.sender@, m.receiver@, a, b) {
            rest.push(m@)
        } else {
            rest
        }
    }
}

/// A history query does not depend on which participant is named first: the
/// conversation between `a` and `b` is the conversation between `b` and `a`.
pub proof fn lemma_conversation_symmetric(records: Seq<MessageBody>, a: Seq<char>, b: Seq<char>)
    ensures
        conversation(records, a, b) == conversation(records, b, a),
    decreases records.len(),
{
    if records.len() > 0 {
        lemma_conversation_symmetric(records.drop_last(), a, b);
    }
}

impl HistoryQueryParams {
    /// Whether `m` was sent by one of the two participants to the other.
    pub fn involves(&self, m: &MessageBody) -> (r: bool)
        ensures
            r == between(m.sender@, m.receiver@, self.user_from@, self.user_to@),
    {
        (m.sender == self.user_from && m.receiver == self.user_to) || (m.sender == self.user_to
            && m.receiver == self.user_from)
    }

    /// The messages exchanged between the two participants, taken from
    /// `records` (ordered by the time they were stored) and kept in that order.
    pub fn history(&self, records: &Vec<MessageBody>) -> (r: Vec<MessageBody>)
        ensures
            r@.map_values(|m: MessageBody| m@) == conversation(
                records@,
                self.user_from@,
                self.user_to@,
            ),
    {
        let mut out: Vec<MessageBody> = Vec::new();
        let mut i: usize = 0;
        while i < records.len()
            invariant
                i <= records@.len(),
                out@.map_values(|m: MessageBody| m@) == conversation(
                    records@.take(i as int),
                    self.user_from@,
                    self.user_to@,
                ),
            decreases records@.len() - i,
        {
            let m = &records[i];
            proof {
                assert(records@.take(i + 1).drop_last() =~= records@.take(i as int));
                assert(records@.take(i + 1).last() == records@[i as int]);
            }
            if self.involves(m) {
                out.push(m.duplicate());
                proof {
                    assert(out@.map_values(|m: MessageBody| m@) =~= conversation(
                        records@.take(i as int),
                        self.user_from@,
                        self.user_to@,
                    ).push(records@[i as int]@));
                }
            }
            i = i + 1;
        }
        proof {
            assert(records@.take(records@.len() as int) =~= records@);
        }
        out
    }
}

} // verus!
