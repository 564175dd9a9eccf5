//! The behaviour of an actor: a value that owns its state and answers one
//! request at a time.

use vstd::prelude::*;

verus! {

/// Something that answers requests, one after another, each with exclusive
/// access to its own state. Nothing is asked of an answer.
pub trait Actor: Send + 'static {
    /// What is sent to the actor.
    type Req: Send + 'static;

    /// What the actor answers with.
    type Reply: Send + 'static;

    /// Answers one request. Waiting for requests and delivering the answer
    /// is the mailbox's business, not the actor's.
    fn handle(&mut self, msg: Self::Req) -> Self::Reply;
}

} // verus!
