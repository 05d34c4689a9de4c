use vstd::prelude::*;

use crate::message::{ids_of, messages_view, Message};

verus! {

/// How long to wait after a message is deleted before deleting the next one.
pub const DELETE_THROTTLE_MS: u64 = 1200;

/// What is added to the service's `retry_after` before asking again, to
/// absorb clock skew between client and service.
pub const RATE_LIMIT_MARGIN_MS: u64 = 1000;

/// A failed delete's body that the service sends when it limits the rate.
#[derive(PartialEq, Eq, Structural, Debug, Clone, Copy)]
pub struct RateLimitSignal {
    /// How many milliseconds to wait before asking again.
    pub retry_after: u64,
}

/// What came back from one delete request.
pub enum DeleteReply {
    /// No answer: a connection error or a timeout.
    TransportError,
    /// An answer with this body; `rate_limit` is what the body decodes to when
    /// it has the shape of a rate-limit signal.
    Body { text: String, rate_limit: Option<RateLimitSignal> },
}

/// What to do after a reply to a delete request.
#[derive(PartialEq, Eq, Structural, Debug, Clone, Copy)]
pub enum DeleteStep {
    /// The request did not get through: send it again at once.
    Resend,
    /// The body was neither empty nor a rate-limit signal: report it and send
    /// the request again at once.
    Unrecognized,
    /// Wait this many milliseconds, then send the request again.
    Backoff(u64),
    /// The message is gone: wait this many milliseconds, then go on to the next.
    Deleted(u64),
}

/// The wait after a rate-limit signal: `retry_after` plus the margin, held at
/// the largest `u64`.
pub open spec fn backoff_ms(retry_after: u64) -> u64 {
    if retry_after + RATE_LIMIT_MARGIN_MS <= u64::MAX {
        (retry_after + RATE_LIMIT_MARGIN_MS) as u64
    } else {
        u64::MAX
    }
}

/// The step that a reply calls for.
pub open spec fn step_for(reply: DeleteReply) -> DeleteStep {
    match reply {
        DeleteReply::TransportError => DeleteStep::Resend,
        DeleteReply::Body { text, rate_limit } => {
            if text@.len() == 0 {
                DeleteStep::Deleted(DELETE_THROTTLE_MS)
            } else {
                match rate_limit {
                    Some(signal) => DeleteStep::Backoff(backoff_ms(signal.retry_after)),
                    None => DeleteStep::Unrecognized,
                }
            }
        },
    }
}

/// No message is given up: a reply ends the work on a message exactly when
/// it is an answer with an empty body; every other reply leads to another
/// request for the same message, after a wait only on a rate-limit signal.
pub proof fn lemma_retries_until_empty_body(reply: DeleteReply)
    ensures
        step_for(reply) is Deleted <==> (reply is Body && reply->text@.len() == 0),
        step_for(reply) is Backoff <==> (reply is Body && reply->text@.len() > 0
            && reply->rate_limit is Some),
        step_for(reply) is Backoff ==> step_for(reply)->Backoff_0
            >= reply->rate_limit->0.retry_after,
{
}

/// The wait after a rate-limit signal that asks for `retry_after` milliseconds.
pub fn backoff_for(retry_after: u64) -> (r: u64)
    ensures
        r == backoff_ms(retry_after),
{
    retry_after.saturating_add(RATE_LIMIT_MARGIN_MS)
}

/// Reads a reply: an empty body means the message is gone, a rate-limit
/// signal means waiting, anything else means sending again.
pub fn interpret(reply: &DeleteReply) -> (step: DeleteStep)
    ensures
        step == step_for(*reply),
{
    match reply {
        DeleteReply::TransportError => DeleteStep::Resend,
        DeleteReply::Body { text, rate_limit } => {
            if text.as_str().is_empty() {
                DeleteStep::Deleted(DELETE_THROTTLE_MS)
            } else {
                match rate_limit {
                    Some(signal) => DeleteStep::Backoff(backoff_for(signal.retry_after)),
                    None => DeleteStep::Unrecognized,
                }
            }
        },
    }
}

/// Deletes messages one at a time, in order, each until the service confirms
/// that it is gone.
pub struct DeletionExecutor {
    /// The ids of the messages to delete, in order.
    pub ids: Vec<String>,
    /// How many of them are deleted; the next to delete is at this index.
    pub next: usize,
}

impl DeletionExecutor {
    pub fn new(messages: &Vec<Message>) -> (r: DeletionExecutor)
        ensures
            r.ids@.map_values(|s: String| s@) == ids_of(messages_view(messages@)),
            r.next == 0,
    {
        let ghost want = ids_of(messages_view(messages@));
        let mut ids: Vec<String> = Vec::new();
        let mut i: usize = 0;
        while i < messages.len()
            invariant
                i <= messages.len(),
                want == ids_of(messages_view(messages@)),
                ids@.len() == i,
                forall|j: int| 0 <= j < i ==> (#[trigger] ids@[j])@ == want[j],
            decreases messages.len() - i,
        {
            ids.push(messages[i].id.clone());
            assert(messages_view(messages@)[i as int] == messages@[i as int]@);
            i = i + 1;
        }
        assert(ids@.map_values(|s: String| s@) =~= want);
        DeletionExecutor { ids, next: 0 }
    }

    /// Whether every message is deleted.
    pub fn is_done(&self) -> (r: bool)
        ensures
            r == (self.next >= self.ids@.len()),
    {
        self.next >= self.ids.len()
    }

    /// The id of the message to delete now, if any is left.
    pub fn current(&self) -> (r: Option<&String>)
        ensures
            self.next < self.ids@.len() ==> r == Some(&self.ids@[self.next as int]),
            self.next >= self.ids@.len() ==> r is None,
    {
        if self.next < self.ids.len() {
            Some(&self.ids[self.next])
        } else {
            None
        }
    }

    /// Takes the reply to the delete request for the current message: only
    /// an empty body moves on to the next message.
    pub fn on_reply(&mut self, reply: &DeleteReply) -> (step: DeleteStep)
        requires
            old(self).next < old(self).ids@.len(),
        ensures
            step == step_for(*reply),
            final(self).ids == old(self).ids,
            step is Deleted ==> final(self).next == old(self).next + 1,
            !(step is Deleted) ==> final(self).next == old(self).next,
    {
        let step = interpret(reply);
        if let DeleteStep::Deleted(_) = step {
            if self.next < self.ids.len() {
                self.next = self.next + 1;
            }
        }
        step
    }
}

} // verus!
