use vstd::prelude::*;

verus! {

/// Message type of an ordinary message.
pub const TYPE_DEFAULT: i32 = 0;

/// Message type of a channel-name change.
pub const TYPE_CHANNEL_NAME_CHANGE: i32 = 4;

/// Message type of a call event.
pub const TYPE_CALL: i32 = 6;

/// The types that the account's own client renders and can delete.
pub open spec fn is_content_type(kind: i32) -> bool {
    kind == TYPE_DEFAULT || kind == TYPE_CHANNEL_NAME_CHANGE || kind == TYPE_CALL
}

/// Lexical order on ids: a proper prefix comes first, else the first
/// differing character decides.
pub open spec fn id_lt(a: Seq<char>, b: Seq<char>) -> bool
    decreases a.len(),
{
    if b.len() == 0 {
        false
    } else if a.len() == 0 {
        true
    } else if a[0] != b[0] {
        a[0] < b[0]
    } else {
        id_lt(a.drop_first(), b.drop_first())
    }
}

/// The order on ids is transitive.
pub proof fn lemma_id_lt_transitive(a: Seq<char>, b: Seq<char>, c: Seq<char>)
    requires
        id_lt(a, b),
        id_lt(b, c),
    ensures
        id_lt(a, c),
    decreases a.len(),
{
    if a.len() > 0 && a[0] == b[0] && b[0] == c[0] {
        lemma_id_lt_transitive(a.drop_first(), b.drop_first(), c.drop_first());
    }
}

/// The account whose credentials are in use.
pub struct Identity {
    pub id: String,
    pub display_name: String,
}

/// A message of the channel's history.
pub struct Message {
    pub id: String,
    pub kind: i32,
    pub author_id: String,
    pub attachment_ids: Vec<String>,
}

/// What a message holds, as plain values.
pub struct MessageView {
    pub id: Seq<char>,
    pub kind: i32,
    pub author_id: Seq<char>,
    pub attachment_ids: Seq<Seq<char>>,
}

pub open spec fn strings_view(v: Seq<String>) -> Seq<Seq<char>> {
    v.map_values(|s: String| s@)
}

impl View for Message {
    type V = MessageView;

    open spec fn view(&self) -> MessageView {
        MessageView {
            id: self.id@,
            kind: self.kind,
            author_id: self.author_id@,
            attachment_ids: strings_view(self.attachment_ids@),
        }
    }
}

/// The views of a sequence of messages.
pub open spec fn messages_view(s: Seq<Message>) -> Seq<MessageView> {
    s.map_values(|m: Message| m@)
}

/// The ids of a sequence of messages, in order.
pub open spec fn ids_of(s: Seq<MessageView>) -> Seq<Seq<char>> {
    s.map_values(|m: MessageView| m.id)
}

impl Message {
    pub fn new(id: String, kind: i32, author_id: String, attachment_ids: Vec<String>) -> (r:
        Message)
        ensures
            r.id == id,
            r.kind == kind,
            r.author_id == author_id,
            r.attachment_ids == attachment_ids,
    {
        Message { id, kind, author_id, attachment_ids }
    }

    /// A copy that holds the same values.
    pub fn duplicate(&self) -> (r: Message)
        ensures
            r@ == self@,
    {
        let mut attachment_ids: Vec<String> = Vec::new();
        let mut i: usize = 0;
        while i < self.attachment_ids.len()
            invariant
                i <= self.attachment_ids.len(),
                attachment_ids@.len() == i,
                forall|j: int| 0 <= j < i ==> attachment_ids@[j]@ == self.attachment_ids@[j]@,
            decreases self.attachment_ids.len() - i,
        {
            attachment_ids.push(self.attachment_ids[i].clone());
            i = i + 1;
        }
        let r = Message {
            id: self.id.clone(),
            kind: self.kind,
            author_id: self.author_id.clone(),
            attachment_ids,
        };
        assert(strings_view(r.attachment_ids@) =~= strings_view(self.attachment_ids@));
        r
    }
}

} // verus!
