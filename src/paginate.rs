use vstd::prelude::*;

use crate::message::{id_lt, lemma_id_lt_transitive, messages_view, Message, MessageView};

verus! {

/// How long to wait before asking again for a page that the service refused
/// with "too many requests".
pub const PAGE_RETRY_DELAY_MS: u64 = 5000;

/// How many messages one page request asks for.
pub const PAGE_SIZE: u64 = 100;

/// The cursor after a page: the id of its first (newest) message, or the old
/// cursor when the page is empty.
pub open spec fn next_cursor(cursor: Seq<char>, page: Seq<MessageView>) -> Seq<char> {
    if page.len() == 0 {
        cursor
    } else {
        page[0].id
    }
}

/// Ids strictly increase along `s`.
pub open spec fn ascending(s: Seq<MessageView>) -> bool {
    forall|i: int, j: int| 0 <= i < j < s.len() ==> id_lt(#[trigger] s[i].id, #[trigger] s[j].id)
}

/// Ids strictly decrease along `s`: newest first.
pub open spec fn descending(s: Seq<MessageView>) -> bool {
    forall|i: int, j: int| 0 <= i < j < s.len() ==> id_lt(#[trigger] s[j].id, #[trigger] s[i].id)
}

/// Every id of `s` is at most `bound`.
pub open spec fn all_at_most(s: Seq<MessageView>, bound: Seq<char>) -> bool {
    forall|i: int| 0 <= i < s.len() ==> (#[trigger] s[i].id == bound || id_lt(s[i].id, bound))
}

/// Every id of `s` is above `bound`.
pub open spec fn all_above(s: Seq<MessageView>, bound: Seq<char>) -> bool {
    forall|i: int| 0 <= i < s.len() ==> id_lt(bound, #[trigger] s[i].id)
}

/// What the service answered to a page request.
pub enum PageReply {
    /// A page of messages, newest first.
    Page(Vec<Message>),
    /// The request was refused with "too many requests".
    TooManyRequests,
    /// Any other failed status, or a body that is not a page.
    Failed,
}

/// What to do after a reply.
#[derive(PartialEq, Eq, Structural, Debug, Clone, Copy)]
pub enum PageStep {
    /// Ask for the page after the current cursor.
    Fetch,
    /// Wait this many milliseconds, then ask for the same page again.
    Wait(u64),
    /// The history is exhausted.
    Finished,
    /// The listing failed; the run ends with an error.
    Failed,
}

/// Walks a channel's history forward from a cursor, one page at a time,
/// keeping what it has seen oldest first.
pub struct Paginator {
    /// The id of the newest message seen, or the starting cursor.
    pub cursor: String,
    /// The messages seen so far, oldest first.
    pub messages: Vec<Message>,
    /// Whether an empty page has ended the walk.
    pub finished: bool,
}

impl Paginator {
    pub fn new(start: String) -> (r: Paginator)
        ensures
            r.cursor == start,
            r.messages@.len() == 0,
            !r.finished,
    {
        Paginator { cursor: start, messages: Vec::new(), finished: false }
    }

    /// Takes one page, newest first: an empty page ends the walk; any other
    /// moves the cursor to its newest id and appends it oldest first.
    pub fn on_page(&mut self, page: Vec<Message>) -> (step: PageStep)
        ensures
            !old(self).finished ==> final(self).cursor@ == next_cursor(
                old(self).cursor@,
                messages_view(page@),
            ),
            old(self).finished ==> *final(self) == *old(self) && step == PageStep::Finished,
            !old(self).finished && page@.len() == 0 ==> step == PageStep::Finished
                && final(self).finished && final(self).messages@ == old(self).messages@,
            !old(self).finished && page@.len() > 0 ==> step == PageStep::Fetch
                && !final(self).finished && messages_view(final(self).messages@) == messages_view(
                old(self).messages@,
            ) + messages_view(page@).reverse(),
    {
        if self.finished {
            return PageStep::Finished;
        }
        if page.len() == 0 {
            self.finished = true;
            return PageStep::Finished;
        }
        self.cursor = page[0].id.clone();
        let ghost start = messages_view(self.messages@);
        let ghost incoming = messages_view(page@);
        assert(incoming[0] == page@[0]@);
        let mut page = page;
        while page.len() > 0
            invariant
                incoming.len() > 0,
                self.cursor@ == incoming[0].id,
                !self.finished,
                messages_view(page@) == incoming.take(page@.len() as int),
                messages_view(self.messages@) == start + incoming.reverse().take(
                    incoming.len() - page@.len(),
                ),
                page@.len() <= incoming.len(),
            decreases page@.len(),
        {
            let ghost n = page@.len();
            let ghost before = self.messages@;
            let ghost old_page = page@;
            let m = page.pop().unwrap();
            assert(messages_view(old_page)[n - 1] == old_page[n - 1]@);
            assert(m@ == incoming[n - 1]);
            self.messages.push(m);
            proof {
                assert(messages_view(page@) =~= incoming.take(page@.len() as int));
                assert(messages_view(self.messages@) =~= messages_view(before).push(m@));
                assert(incoming.reverse()[incoming.len() - n] == incoming[n - 1]);
                assert(incoming.reverse().take(incoming.len() - page@.len()) =~= incoming.reverse().take(
                    incoming.len() - n,
                ).push(m@));
            }
        }
        assert(incoming.reverse().take(incoming.len() as int) =~= incoming.reverse());
        PageStep::Fetch
    }

    /// Takes the service's answer to the request for the page after the cursor.
    pub fn on_reply(&mut self, reply: PageReply) -> (step: PageStep)
        ensures
            old(self).finished ==> *final(self) == *old(self) && step == PageStep::Finished,
            !old(self).finished && reply is TooManyRequests ==> *final(self) == *old(self) && step
                == PageStep::Wait(PAGE_RETRY_DELAY_MS),
            !old(self).finished && reply is Failed ==> *final(self) == *old(self) && step
                == PageStep::Failed,
            !old(self).finished && reply is Page ==> final(self).cursor@ == next_cursor(
                old(self).cursor@,
                messages_view(reply->Page_0@),
            ) && (step == PageStep::Finished <==> reply->Page_0@.len() == 0) && (
            reply->Page_0@.len() == 0 ==> final(self).finished && final(self).messages@ == old(
                self,
            ).messages@) && (reply->Page_0@.len() > 0 ==> step == PageStep::Fetch
                && !final(self).finished && messages_view(final(self).messages@) == messages_view(
                old(self).messages@,
            ) + messages_view(reply->Page_0@).reverse()),
    {
        if self.finished {
            return PageStep::Finished;
        }
        match reply {
            PageReply::Page(page) => self.on_page(page),
            PageReply::TooManyRequests => PageStep::Wait(PAGE_RETRY_DELAY_MS),
            PageReply::Failed => PageStep::Failed,
        }
    }
}

/// On a page of ids above the cursor, as the service sends for a request after
/// that cursor, the cursor strictly advances.
pub proof fn lemma_cursor_advances(cursor: Seq<char>, page: Seq<MessageView>)
    requires
        page.len() > 0,
        all_above(page, cursor),
    ensures
        id_lt(cursor, next_cursor(cursor, page)),
{
    assert(id_lt(cursor, page[0].id));
}

/// Appending a newest-first page reversed to an oldest-first history, when the
/// page lies above the cursor and the history does not, keeps the history
/// oldest first, and the new cursor bounds it.
pub proof fn lemma_history_stays_ordered(
    history: Seq<MessageView>,
    cursor: Seq<char>,
    page: Seq<MessageView>,
)
    requires
        ascending(history),
        all_at_most(history, cursor),
        descending(page),
        all_above(page, cursor),
    ensures
        ascending(history + page.reverse()),
        all_at_most(history + page.reverse(), next_cursor(cursor, page)),
{
    let r = history + page.reverse();
    let n = page.len();
    let h = history.len();
    assert forall|i: int, j: int| 0 <= i < j < r.len() implies id_lt(
        #[trigger] r[i].id,
        #[trigger] r[j].id,
    ) by {
        if j >= h {
            assert(r[j] == page[n - 1 - (j - h)]);
            if i >= h {
                assert(r[i] == page[n - 1 - (i - h)]);
            } else {
                assert(r[i] == history[i]);
                assert(id_lt(cursor, page[n - 1 - (j - h)].id));
                if history[i].id != cursor {
                    lemma_id_lt_transitive(history[i].id, cursor, page[n - 1 - (j - h)].id);
                }
            }
        } else {
            assert(r[i] == history[i] && r[j] == history[j]);
        }
    }
    let c = next_cursor(cursor, page);
    assert forall|i: int| 0 <= i < r.len() implies (#[trigger] r[i].id == c || id_lt(r[i].id, c)) by {
        if n > 0 {
            if i >= h {
                assert(r[i] == page[n - 1 - (i - h)]);
                if n - 1 - (i - h) > 0 {
                    assert(id_lt(page[n - 1 - (i - h)].id, page[0].id));
                }
            } else {
                assert(r[i] == history[i]);
                assert(id_lt(cursor, page[0].id));
                if history[i].id != cursor {
                    lemma_id_lt_transitive(history[i].id, cursor, page[0].id);
                }
            }
        }
    }
}

} // verus!
