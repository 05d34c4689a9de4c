use vstd::prelude::*;

use crate::message::{
    is_content_type, messages_view, Message, MessageView, TYPE_CALL, TYPE_CHANNEL_NAME_CHANGE,
    TYPE_DEFAULT,
};

verus! {

/// A message survives the filter when the target wrote it, its type is one
/// that can be deleted, and its id is not excluded.
pub open spec fn keeps(m: MessageView, target: Seq<char>, excluded: Seq<Seq<char>>) -> bool {
    m.author_id == target && is_content_type(m.kind) && !excluded.contains(m.id)
}

/// The messages of `s` that survive the filter, in their order.
pub open spec fn kept(s: Seq<MessageView>, target: Seq<char>, excluded: Seq<Seq<char>>) -> Seq<
    MessageView,
>
    decreases s.len(),
{
    if s.len() == 0 {
        Seq::empty()
    } else {
        let rest = kept(s.drop_last(), target, excluded);
        if keeps(s.last(), target, excluded) {
            rest.push(s.last())
        } else {
            rest
        }
    }
}

/// A message is in the filtered sequence exactly when it is in the input and
/// survives the filter.
pub proof fn lemma_kept_contains(
    s: Seq<MessageView>,
    target: Seq<char>,
    excluded: Seq<Seq<char>>,
    m: MessageView,
)
    ensures
        kept(s, target, excluded).contains(m) <==> (s.contains(m) && keeps(m, target, excluded)),
    decreases s.len(),
{
    if s.len() > 0 {
        let rest = s.drop_last();
        lemma_kept_contains(rest, target, excluded, m);
        assert(s =~= rest.push(s.last()));
        if s.contains(m) && m != s.last() {
            let i = choose|i: int| 0 <= i < s.len() && s[i] == m;
            assert(rest[i] == m);
        }
        if rest.contains(m) {
            let i = choose|i: int| 0 <= i < rest.len() && rest[i] == m;
            assert(s[i] == m);
        }
        let k = kept(rest, target, excluded);
        if keeps(s.last(), target, excluded) {
            if k.contains(m) {
                let i = choose|i: int| 0 <= i < k.len() && k[i] == m;
                assert(k.push(s.last())[i] == m);
            }
            if k.push(s.last()).contains(m) && m != s.last() {
                let i = choose|i: int| 0 <= i < k.len() + 1 && k.push(s.last())[i] == m;
                assert(k[i] == m);
            }
            assert(k.push(s.last())[k.len() as int] == s.last());
        }
    }
}

/// Filtering twice with the same criteria gives what filtering once gives.
pub proof fn lemma_filter_idempotent(
    s: Seq<MessageView>,
    target: Seq<char>,
    excluded: Seq<Seq<char>>,
)
    ensures
        kept(kept(s, target, excluded), target, excluded) == kept(s, target, excluded),
    decreases s.len(),
{
    if s.len() > 0 {
        let rest = s.drop_last();
        lemma_filter_idempotent(rest, target, excluded);
        let k = kept(rest, target, excluded);
        if keeps(s.last(), target, excluded) {
            let p = k.push(s.last());
            assert(p.drop_last() =~= k);
        }
    }
}

/// Exclusion is a set difference: no excluded id is left, and every message
/// that is not excluded and matches author and type is kept.
pub proof fn lemma_exclusion_set_difference(
    s: Seq<MessageView>,
    target: Seq<char>,
    excluded: Seq<Seq<char>>,
)
    ensures
        forall|i: int|
            0 <= i < kept(s, target, excluded).len() ==> !excluded.contains(
                #[trigger] kept(s, target, excluded)[i].id,
            ),
        forall|i: int|
            0 <= i < s.len() && (#[trigger] s[i]).author_id == target && is_content_type(s[i].kind)
                && !excluded.contains(s[i].id) ==> kept(s, target, excluded).contains(s[i]),
{
    let k = kept(s, target, excluded);
    assert forall|i: int| 0 <= i < k.len() implies !excluded.contains(#[trigger] k[i].id) by {
        assert(k.contains(k[i]));
        lemma_kept_contains(s, target, excluded, k[i]);
    }
    assert forall|i: int|
        0 <= i < s.len() && (#[trigger] s[i]).author_id == target && is_content_type(s[i].kind)
            && !excluded.contains(s[i].id) implies k.contains(s[i]) by {
        assert(s.contains(s[i]));
        lemma_kept_contains(s, target, excluded, s[i]);
    }
}

/// Whether `ids` holds `id`.
fn contains_id(ids: &Vec<String>, id: &String) -> (r: bool)
    ensures
        r == ids@.map_values(|s: String| s@).contains(id@),
{
    let ghost v = ids@.map_values(|s: String| s@);
    let mut i: usize = 0;
    while i < ids.len()
        invariant
            i <= ids.len(),
            v == ids@.map_values(|s: String| s@),
            forall|j: int| 0 <= j < i ==> v[j] != id@,
        decreases ids.len() - i,
    {
        if ids[i] == *id {
            assert(v[i as int] == id@);
            return true;
        }
        i = i + 1;
    }
    proof {
        if v.contains(id@) {
            let j = choose|j: int| 0 <= j < v.len() && v[j] == id@;
            assert(v[j] != id@);
        }
    }
    false
}

/// The messages that `target` wrote, of a deletable type and whose id is not
/// in `excluded`, in their order.
pub fn filter_messages(messages: &Vec<Message>, target: &String, excluded: &Vec<String>) -> (r:
    Vec<Message>)
    ensures
        messages_view(r@) == kept(
            messages_view(messages@),
            target@,
            excluded@.map_values(|s: String| s@),
        ),
{
    let ghost ex = excluded@.map_values(|s: String| s@);
    let ghost all = messages_view(messages@);
    let mut r: Vec<Message> = Vec::new();
    let mut i: usize = 0;
    while i < messages.len()
        invariant
            i <= messages.len(),
            all == messages_view(messages@),
            ex == excluded@.map_values(|s: String| s@),
            messages_view(r@) == kept(all.take(i as int), target@, ex),
        decreases messages.len() - i,
    {
        let m = &messages[i];
        let wanted = m.author_id == *target && (m.kind == TYPE_DEFAULT || m.kind == TYPE_CHANNEL_NAME_CHANGE
            || m.kind == TYPE_CALL)
            && !contains_id(excluded, &m.id);
        proof {
            assert(all.take(i + 1).drop_last() =~= all.take(i as int));
            assert(all.take(i + 1).last() == m@);
        }
        if wanted {
            let c = m.duplicate();
            let ghost before = r@;
            r.push(c);
            assert(messages_view(r@) =~= messages_view(before).push(m@));
        }
        i = i + 1;
    }
    assert(all.take(messages.len() as int) =~= all);
    r
}

} // verus!
