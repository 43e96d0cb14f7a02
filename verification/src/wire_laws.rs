//! How the JSON that is written is read: which member of an object stands under
//! which name.

use crate::wire;
use vstd::prelude::*;

verus! {

/// Whether a member with this name and this value stands in a list of members,
/// between what comes before it and what comes behind it.
pub open spec fn stands_between(
    members: Seq<char>,
    before: Seq<char>,
    name: Seq<char>,
    value: Seq<char>,
    after: Seq<char>,
) -> bool {
    &&& members == before + seq!['"'] + name + seq!['"', ':'] + value + after
    &&& before.len() == 0 || before.last() == ','
    &&& after.len() == 0 || after[0] == ','
}

/// Whether a list of members has one with this name and this value.
#[verifier::opaque]
pub open spec fn lists(members: Seq<char>, name: Seq<char>, value: Seq<char>) -> bool {
    exists|before: Seq<char>, after: Seq<char>| #[trigger]
        stands_between(members, before, name, value, after)
}

/// Whether a text is a JSON object that has this value under this name.
#[verifier::opaque]
pub open spec fn tells(text: Seq<char>, name: Seq<char>, value: Seq<char>) -> bool {
    exists|members: Seq<char>|
        text == seq!['{'] + members + seq!['}'] && #[trigger] lists(members, name, value)
}

/// The member that was put last is there.
pub broadcast proof fn the_last_member_is_listed(members: Seq<char>, name: Seq<char>, value: Seq<char>)
    ensures
        #[trigger] lists(wire::with_member(members, name, value), name, value),
{
    reveal(lists);
    reveal_strlit(",");
    reveal_strlit("\"");
    reveal_strlit("\":");
    let all = wire::with_member(members, name, value);
    let before = if members.len() == 0 {
        members
    } else {
        members + seq![',']
    };
    assert(","@ =~= seq![',']);
    assert("\""@ =~= seq!['"']);
    assert("\":"@ =~= seq!['"', ':']);
    assert(all =~= before + seq!['"'] + name + seq!['"', ':'] + value + Seq::<char>::empty());
    assert(stands_between(all, before, name, value, Seq::empty()));
}

/// A member that was there stays when another is put behind it.
pub broadcast proof fn listed_members_stay(
    members: Seq<char>,
    other: Seq<char>,
    put: Seq<char>,
    name: Seq<char>,
    value: Seq<char>,
)
    requires
        lists(members, name, value),
    ensures
        #[trigger] lists(wire::with_member(members, other, put), name, value),
{
    reveal(lists);
    reveal_strlit(",");
    assert(","@ =~= seq![',']);
    let (before, after) = choose|before: Seq<char>, after: Seq<char>| #[trigger]
        stands_between(members, before, name, value, after);
    let all = wire::with_member(members, other, put);
    assert(members.len() > 0);
    let rest = after + seq![','] + "\""@ + other + "\":"@ + put;
    assert(all =~= before + seq!['"'] + name + seq!['"', ':'] + value + rest);
    assert(rest.len() > 0 && rest[0] == ',') by {
        if after.len() > 0 {
            assert(rest[0] == after[0]);
        }
    }
    assert(stands_between(all, before, name, value, rest));
}

/// An object has the members that it was made of.
pub broadcast proof fn objects_tell_their_members(members: Seq<char>, name: Seq<char>, value: Seq<char>)
    requires
        lists(members, name, value),
    ensures
        #[trigger] tells(wire::braces(members), name, value),
{
    reveal(tells);
    reveal_strlit("{");
    reveal_strlit("}");
    assert("{"@ =~= seq!['{']);
    assert("}"@ =~= seq!['}']);
    assert(wire::braces(members) =~= seq!['{'] + members + seq!['}']);
}

/// A member that is put where it is present is there then.
pub broadcast proof fn a_present_member_is_listed(
    members: Seq<char>,
    present: bool,
    name: Seq<char>,
    value: Seq<char>,
)
    requires
        present,
    ensures
        #[trigger] lists(wire::with_member_if(members, present, name, value), name, value),
{
    the_last_member_is_listed(members, name, value);
}

/// A member that was there stays, whether another is put behind it or not.
pub broadcast proof fn listed_members_stay_anyway(
    members: Seq<char>,
    present: bool,
    other: Seq<char>,
    put: Seq<char>,
    name: Seq<char>,
    value: Seq<char>,
)
    requires
        lists(members, name, value),
    ensures
        #[trigger] lists(wire::with_member_if(members, present, other, put), name, value),
{
    if present {
        listed_members_stay(members, other, put, name, value);
    }
}

pub broadcast group group_members {
    the_last_member_is_listed,
    listed_members_stay,
    objects_tell_their_members,
    a_present_member_is_listed,
    listed_members_stay_anyway,
}

/// The texts with a comma between each two.
pub open spec fn joined(texts: Seq<Seq<char>>) -> Seq<char>
    decreases texts.len(),
{
    if texts.len() == 0 {
        Seq::empty()
    } else if texts.len() == 1 {
        texts[0]
    } else {
        texts[0] + seq![','] + joined(texts.skip(1))
    }
}

/// The JSON array of values.
pub open spec fn array_of(texts: Seq<Seq<char>>) -> Seq<char> {
    seq!['['] + joined(texts) + seq![']']
}

/// One more value stands behind the others.
pub proof fn joined_push(texts: Seq<Seq<char>>, last: Seq<char>)
    ensures
        joined(texts.push(last)) == if texts.len() == 0 {
            last
        } else {
            joined(texts) + seq![','] + last
        },
    decreases texts.len(),
{
    let all = texts.push(last);
    if texts.len() == 0 {
        assert(all[0] == last);
    } else {
        joined_push(texts.skip(1), last);
        assert(all.skip(1) =~= texts.skip(1).push(last));
        assert(all[0] == texts[0]);
        if texts.len() == 1 {
            assert(joined(all.skip(1)) == last);
            assert(joined(texts) == texts[0]);
        } else {
            assert(joined(all) =~= joined(texts) + seq![','] + last);
        }
    }
}

/// Values that are put one behind another, none of them empty, make up the
/// array of them.
pub proof fn items_join(texts: Seq<Seq<char>>, last: Seq<char>)
    requires
        forall|i: int| 0 <= i < texts.len() ==> (#[trigger] texts[i]).len() > 0,
    ensures
        wire::with_item(joined(texts), last) == joined(texts.push(last)),
{
    reveal_strlit(",");
    assert(","@ =~= seq![',']);
    joined_push(texts, last);
    if texts.len() > 0 {
        assert(texts[0].len() > 0);
        assert(joined(texts).len() > 0);
    }
}

/// What stands between brackets is an array.
pub proof fn brackets_make_arrays(texts: Seq<Seq<char>>)
    ensures
        wire::brackets(joined(texts)) == array_of(texts),
{
    reveal_strlit("[");
    reveal_strlit("]");
    assert("["@ =~= seq!['[']);
    assert("]"@ =~= seq![']']);
}

/// The JSON of a truth value is its name.
pub proof fn truth_is_named(value: bool)
    ensures
        wire::json_bool(value) == (if value {
            "true"@
        } else {
            "false"@
        }),
{
}

proof fn lemma_escaped_front(s: Seq<char>)
    requires
        s.len() > 0,
    ensures
        wire::escaped(s) == wire::escaped_char(s[0]) + wire::escaped(s.skip(1)),
    decreases s.len(),
{
    if s.len() == 1 {
        assert(s.drop_last() =~= Seq::empty());
        assert(s.skip(1) =~= Seq::empty());
    } else {
        lemma_escaped_front(s.drop_last());
        assert(s.drop_last().skip(1) =~= s.skip(1).drop_last());
        assert(s.skip(1).last() == s.last());
        assert(wire::escaped(s) =~= wire::escaped_char(s[0]) + wire::escaped(s.skip(1)));
    }
}

proof fn lemma_one_escape(a: char, b: char, x: Seq<char>, y: Seq<char>)
    requires
        wire::escaped_char(a) + x == wire::escaped_char(b) + y,
    ensures
        a == b,
        x == y,
{
    let s = wire::escaped_char(a) + x;
    let t = wire::escaped_char(b) + y;
    assert(s[0] == t[0]);
    assert(s[0] == wire::escaped_char(a)[0] && t[0] == wire::escaped_char(b)[0]);
    if s[0] == '\\' {
        assert(s[1] == wire::escaped_char(a)[1] && t[1] == wire::escaped_char(b)[1]);
        if s[1] == 'u' {
            assert(s[4] == wire::escaped_char(a)[4] && t[4] == wire::escaped_char(b)[4]);
            assert(s[5] == wire::escaped_char(a)[5] && t[5] == wire::escaped_char(b)[5]);
        }
    }
    assert(a == b);
    assert(x =~= s.skip(wire::escaped_char(a).len() as int));
    assert(y =~= t.skip(wire::escaped_char(b).len() as int));
}

proof fn lemma_escaped_apart(a: Seq<char>, b: Seq<char>, x: Seq<char>, y: Seq<char>)
    requires
        wire::escaped(a) + seq!['"'] + x == wire::escaped(b) + seq!['"'] + y,
    ensures
        a == b,
        x == y,
    decreases a.len(),
{
    let s = wire::escaped(a) + seq!['"'] + x;
    let t = wire::escaped(b) + seq!['"'] + y;
    if a.len() == 0 && b.len() == 0 {
        assert(x =~= s.skip(1));
        assert(y =~= t.skip(1));
        assert(a =~= b);
    } else if a.len() == 0 {
        lemma_escaped_front(b);
        assert(s[0] == '"');
        assert(t[0] == wire::escaped_char(b[0])[0]);
    } else if b.len() == 0 {
        lemma_escaped_front(a);
        assert(t[0] == '"');
        assert(s[0] == wire::escaped_char(a[0])[0]);
    } else {
        lemma_escaped_front(a);
        lemma_escaped_front(b);
        let p = wire::escaped(a.skip(1)) + seq!['"'] + x;
        let q = wire::escaped(b.skip(1)) + seq!['"'] + y;
        assert(s =~= wire::escaped_char(a[0]) + p);
        assert(t =~= wire::escaped_char(b[0]) + q);
        lemma_one_escape(a[0], b[0], p, q);
        lemma_escaped_apart(a.skip(1), b.skip(1), x, y);
        assert(a =~= seq![a[0]] + a.skip(1));
        assert(b =~= seq![b[0]] + b.skip(1));
    }
}

/// A JSON string is read back in one way, whatever follows it: its text and
/// where it ends are told by the string alone.
pub proof fn strings_are_read_back(a: Seq<char>, b: Seq<char>, x: Seq<char>, y: Seq<char>)
    requires
        wire::json_quoted(a) + x == wire::json_quoted(b) + y,
    ensures
        a == b,
        x == y,
{
    let s = wire::json_quoted(a) + x;
    let t = wire::json_quoted(b) + y;
    assert(s.skip(1) =~= wire::escaped(a) + seq!['"'] + x);
    assert(t.skip(1) =~= wire::escaped(b) + seq!['"'] + y);
    lemma_escaped_apart(a, b, x, y);
}

/// A text without quotation marks, backslashes and control characters stands in
/// a JSON string as it is.
pub proof fn plain_texts_stand_as_they_are(s: Seq<char>)
    requires
        forall|i: int|
            0 <= i < s.len() ==> (#[trigger] s[i]) as int >= 32 && s[i] != '"' && s[i] != '\\',
    ensures
        wire::json_quoted(s) == seq!['"'] + s + seq!['"'],
    decreases s.len(),
{
    if s.len() > 0 {
        let front = s.drop_last();
        assert forall|i: int| 0 <= i < front.len() implies (#[trigger] front[i]) as int >= 32
            && front[i] != '"' && front[i] != '\\' by {
            assert(front[i] == s[i]);
        }
        plain_texts_stand_as_they_are(front);
        assert(wire::json_quoted(front).skip(1).drop_last() =~= wire::escaped(front));
        assert((seq!['"'] + front + seq!['"']).skip(1).drop_last() =~= front);
        assert(s[s.len() - 1] == s.last());
        assert(wire::escaped(s) =~= s);
    }
}

} // verus!
