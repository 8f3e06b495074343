pub mod credentials;
pub mod message;
pub mod registry;
pub mod session;
