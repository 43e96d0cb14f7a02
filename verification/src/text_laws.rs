//! What texts are read as: their words, lines and numbers, and the bytes and
//! values that they stand for.

use crate::encoding;
use crate::handlers;
use crate::http;
use crate::json;
use crate::json::{Json, JsonObject};
use crate::probe;
use crate::shard;
use crate::text;
use crate::text::Cut;
use crate::text_map::TextEntry;
use crate::wire;
use crate::wire_laws;
use vstd::prelude::*;

verus! {

/// Whether a text is nothing but white space.
pub open spec fn all_space(s: Seq<char>) -> bool {
    forall|i: int| 0 <= i < s.len() ==> text::is_space(#[trigger] s[i])
}

/// Whether a text is another with white space before and behind it.
pub open spec fn is_wrapped(s: Seq<char>, before: Seq<char>, inner: Seq<char>, after: Seq<char>) -> bool {
    all_space(before) && all_space(after) && s == before + inner + after
}

proof fn lemma_leading(s: Seq<char>) -> (before: Seq<char>)
    ensures
        all_space(before),
        s == before + text::without_leading(s),
        text::without_leading(s).len() > 0 ==> !text::is_space(text::without_leading(s)[0]),
    decreases s.len(),
{
    if s.len() > 0 && text::is_space(s[0]) {
        let rest = s.drop_first();
        let before = lemma_leading(rest);
        let whole = seq![s[0]] + before;
        assert forall|i: int| 0 <= i < whole.len() implies text::is_space(#[trigger] whole[i]) by {
            if i > 0 {
                assert(text::is_space(before[i - 1]));
            }
        }
        assert(s =~= seq![s[0]] + rest);
        assert(s =~= whole + text::without_leading(rest));
        whole
    } else {
        assert(s =~= Seq::<char>::empty() + s);
        Seq::empty()
    }
}

proof fn lemma_trailing(s: Seq<char>) -> (after: Seq<char>)
    ensures
        all_space(after),
        s == text::without_trailing(s) + after,
        text::without_trailing(s).len() > 0 ==> !text::is_space(text::without_trailing(s).last())
            && text::without_trailing(s)[0] == s[0],
    decreases s.len(),
{
    if s.len() > 0 && text::is_space(s.last()) {
        let rest = s.drop_last();
        let after = lemma_trailing(rest);
        let whole = after.push(s.last());
        assert forall|i: int| 0 <= i < whole.len() implies text::is_space(#[trigger] whole[i]) by {
            if i < after.len() {
                assert(text::is_space(after[i]));
            }
        }
        assert(s =~= rest.push(s.last()));
        assert(s =~= text::without_trailing(rest) + whole);
        whole
    } else {
        assert(s =~= s + Seq::<char>::empty());
        Seq::empty()
    }
}

/// A trimmed text lost nothing but white space at its ends, and has none left
/// there.
pub proof fn trimming_takes_the_ends(s: Seq<char>)
    ensures
        exists|before: Seq<char>, after: Seq<char>| #[trigger]
            is_wrapped(s, before, text::trimmed(s), after),
        text::trimmed(s).len() > 0 ==> !text::is_space(text::trimmed(s)[0]) && !text::is_space(
            text::trimmed(s).last(),
        ),
{
    let middle = text::without_leading(s);
    let before = lemma_leading(s);
    let after = lemma_trailing(middle);
    assert(s =~= before + text::trimmed(s) + after);
    assert(is_wrapped(s, before, text::trimmed(s), after));
}

/// The pieces of a text, with the separator between them, are the text, and none
/// of them holds the separator.
pub proof fn pieces_make_up_the_text(s: Seq<char>, separator: char)
    ensures
        text::pieces(s, Cut::At(separator)).len() > 0,
        with_between(text::pieces(s, Cut::At(separator)), separator) == s,
        forall|i: int, k: int|
            0 <= i < text::pieces(s, Cut::At(separator)).len() && 0 <= k < text::pieces(
                s,
                Cut::At(separator),
            )[i].len() ==> #[trigger] text::pieces(s, Cut::At(separator))[i][k] != separator,
    decreases s.len(),
{
    let parts = text::pieces(s, Cut::At(separator));
    if s.len() == 0 {
        assert(with_between(parts, separator) =~= s);
    } else {
        let front = s.drop_last();
        pieces_make_up_the_text(front, separator);
        let before = text::pieces(front, Cut::At(separator));
        if s.last() == separator {
            assert(parts.drop_last() =~= before);
            assert(with_between(parts, separator) =~= with_between(before, separator).push(
                separator,
            ) + Seq::<char>::empty());
            assert(s =~= front.push(separator));
        } else {
            assert(parts.drop_last() =~= before.drop_last());
            assert(parts.last() =~= before.last().push(s.last()));
            if before.len() == 1 {
                assert(with_between(parts, separator) =~= with_between(before, separator).push(
                    s.last(),
                ));
            } else {
                assert(with_between(parts, separator) =~= with_between(before, separator).push(
                    s.last(),
                ));
            }
            assert(s =~= front.push(s.last()));
        }
        assert forall|i: int, k: int|
            0 <= i < parts.len() && 0 <= k < parts[i].len() implies #[trigger] parts[i][k]
            != separator by {
            if i < before.len() && k < before[i].len() {
                assert(before[i][k] != separator);
                assert(parts[i][k] == before[i][k]);
            }
        }
    }
}

/// Pieces with a separator between them.
pub open spec fn with_between(parts: Seq<Seq<char>>, separator: char) -> Seq<char>
    decreases parts.len(),
{
    if parts.len() == 0 {
        Seq::empty()
    } else if parts.len() == 1 {
        parts[0]
    } else {
        with_between(parts.drop_last(), separator).push(separator) + parts.last()
    }
}

/// A letter and its capital are the same where case is ignored, and no two other
/// characters are.
pub proof fn case_is_ignored_for_letters(a: char, b: char)
    ensures
        text::same_ignoring_case(seq![a], seq![b]) <==> a == b || ('a' <= a <= 'z' && b as int
            == a as int - 32) || ('a' <= b <= 'z' && a as int == b as int - 32),
{
    let x = seq![a];
    let y = seq![b];
    if text::same_ignoring_case(x, y) {
        assert(text::upper_char(x[0]) == text::upper_char(y[0]));
    }
}

/// A truth value is written in one way each.
pub proof fn truth_is_written_one_way(s: Seq<char>)
    ensures
        text::read_bool(s) == Some(true) <==> s == "true"@,
        text::read_bool(s) == Some(false) <==> s == "false"@,
{
    reveal_strlit("true");
    reveal_strlit("false");
    assert("true"@.len() != "false"@.len());
}

/// Six bits are written by the registered alphabet.
pub proof fn bits_are_written_by_the_alphabet(value: int)
    requires
        0 <= value < 64,
    ensures
        encoding::base64_char(value, false)
            == "ABCDEFGHIJKLMNOPQRSTUVWXYZabcdefghijklmnopqrstuvwxyz0123456789+/"@[value],
        encoding::base64_char(value, true)
            == "ABCDEFGHIJKLMNOPQRSTUVWXYZabcdefghijklmnopqrstuvwxyz0123456789-_"@[value],
{
    reveal_strlit("ABCDEFGHIJKLMNOPQRSTUVWXYZabcdefghijklmnopqrstuvwxyz0123456789+/");
    reveal_strlit("ABCDEFGHIJKLMNOPQRSTUVWXYZabcdefghijklmnopqrstuvwxyz0123456789-_");
}

/// A process has what the first line of its field tells, in units of 1024.
pub proof fn fields_are_told_in_kibibytes(input: Seq<char>, field: Seq<char>, k: int, number: int)
    requires
        0 <= k < text::lines_of(input).len(),
        text::begins_with(text::lines_of(input)[k], field),
        forall|i: int|
            0 <= i < k ==> !text::begins_with(#[trigger] text::lines_of(input)[i], field),
        probe::first_number(text::lines_of(input)[k].skip(field.len() as int)) == Some(number),
        0 <= number <= 1_000_000_000_000,
    ensures
        probe::kib_field(input, field) == Some(number * 1_024),
{
    lemma_first_after(text::lines_of(input), field, k);
}

proof fn lemma_first_after(all: Seq<Seq<char>>, prefix: Seq<char>, k: int)
    requires
        0 <= k < all.len(),
        text::begins_with(all[k], prefix),
        forall|i: int| 0 <= i < k ==> !text::begins_with(#[trigger] all[i], prefix),
    ensures
        probe::first_after(all, prefix) == Some(all[k].skip(prefix.len() as int)),
    decreases all.len(),
{
    if k > 0 {
        assert(!text::begins_with(all[0], prefix));
        let rest = all.drop_first();
        assert(rest[k - 1] == all[k]);
        assert forall|i: int| 0 <= i < k - 1 implies !text::begins_with(
            #[trigger] rest[i],
            prefix,
        ) by {
            assert(rest[i] == all[i + 1]);
        }
        lemma_first_after(rest, prefix, k - 1);
    }
}

/// The machine was busy for all of its time but what it was idle or waited.
pub proof fn the_machine_is_busy_when_not_idle(input: Seq<char>, k: int)
    requires
        0 <= k < text::lines_of(input).len(),
        text::begins_with(text::lines_of(input)[k], "cpu "@),
        forall|i: int|
            0 <= i < k ==> !text::begins_with(#[trigger] text::lines_of(input)[i], "cpu "@),
    ensures
        ({
            let fields = probe::cpu_fields(text::lines_of(input)[k].skip("cpu "@.len() as int));
            &&& fields.len() <= 8
            &&& probe::system_cpu(input) matches Some((busy, total)) ==> busy + probe::number_at(
                fields,
                3,
            ) + probe::number_at(fields, 4) == total && total == probe::total_of(fields)
                && fields.len() >= 5
        }),
{
    lemma_first_after(text::lines_of(input), "cpu "@, k);
}

/// The smaller of two limits holds, and one where only one is known.
pub proof fn the_smaller_limit_holds(a: Option<int>, b: Option<int>)
    ensures
        a is Some && b is Some ==> probe::smaller(a, b) is Some && probe::smaller(a, b)->0 <= a->0
            && probe::smaller(a, b)->0 <= b->0 && (probe::smaller(a, b) == a || probe::smaller(a, b)
            == b),
        a is None ==> probe::smaller(a, b) == b,
        b is None ==> probe::smaller(a, b) == a,
{
}

/// The newer limit stands where it is one, and the older otherwise.
pub proof fn the_newer_limit_stands(v2: Option<Seq<char>>, v1: Option<Seq<char>>)
    ensures
        v2 is Some && probe::finite_limit(v2->0) is Some ==> probe::chosen_limit(v2, v1)
            == probe::finite_limit(v2->0),
        (v2 is None || probe::finite_limit(v2->0) is None) && v1 is Some ==> probe::chosen_limit(
            v2,
            v1,
        ) == probe::finite_limit(v1->0),
        v2 is None && v1 is None ==> probe::chosen_limit(v2, v1) is None,
{
}

/// Places that were taken are given back, but for the one that goes on being
/// held.
pub proof fn places_are_given_back(load: bool, held: bool, outbound: bool)
    ensures
        shard::outbound_returned(load, held, outbound) + (if outbound && (load || held) {
            1int
        } else {
            0
        }) == (if load {
            1int
        } else {
            0
        }) + (if held {
            1int
        } else {
            0
        }),
{
}

/// A value that holds others is one deeper than the deepest of them and counts
/// one more than all of them.
pub proof fn nesting_is_counted(values: Seq<Json>, value: Json)
    ensures
        json::list_elements(values.push(value)) == json::list_elements(values) + json::elements_of(
            value,
        ),
        json::list_depth(values.push(value)) >= json::depth_of(value),
        json::list_depth(values.push(value)) >= json::list_depth(values),
        json::list_depth(values.push(value)) == json::list_depth(values) || json::list_depth(
            values.push(value),
        ) == json::depth_of(value),
        value is Null || value is Bool || value is Number || value is Text ==> json::elements_of(
            value,
        ) == 1 && json::depth_of(value) == 1,
        value matches Json::List(parts) ==> json::elements_of(value) == 1 + json::list_elements(
            parts@,
        ) && json::depth_of(value) == 1 + json::list_depth(parts@),
{
    assert(values.push(value).drop_last() =~= values);
    assert(values.push(value).last() == value);
}

/// An object is kept exactly where it is not too deep, does not hold too much
/// and is not too long.
pub proof fn objects_are_kept_within_limits(object: JsonObject, policy: json::JsonPolicy)
    ensures
        object.entries@.len() > 0 ==> (json::retainable(object, policy) <==> json::member_depth(
            object.entries@,
        ) < policy.max_depth && json::member_elements(object.entries@) < policy.max_elements
            && text::byte_len(json::object_text(object)) <= policy.max_retained_bytes),
{
}

/// Whether this member is written in a list of members.
spec fn is_written(members: Seq<char>, entry: TextEntry<Json>) -> bool {
    wire_laws::lists(members, wire::escaped(entry.key@), json::json_text(entry.value))
}

proof fn lemma_member(before: Seq<char>, entry: TextEntry<Json>)
    requires
        before.len() == 0 || before.last() == ',',
    ensures
        is_written(before + json::member_text(entry), entry),
{
    reveal(wire_laws::lists);
    reveal_strlit("\"");
    reveal_strlit(":");
    let name = wire::escaped(entry.key@);
    let value = json::json_text(entry.value);
    assert("\""@ =~= seq!['"']);
    assert(":"@ =~= seq![':']);
    assert(before + json::member_text(entry) =~= before + seq!['"'] + name + seq!['"', ':'] + value
        + Seq::<char>::empty());
    assert(wire_laws::stands_between(
        before + json::member_text(entry),
        before,
        name,
        value,
        Seq::empty(),
    ));
}

proof fn lemma_member_stays(members: Seq<char>, entry: TextEntry<Json>, more: Seq<char>)
    requires
        is_written(members, entry),
        more.len() > 0 && more[0] == ',',
    ensures
        is_written(members + more, entry),
{
    reveal(wire_laws::lists);
    let name = wire::escaped(entry.key@);
    let value = json::json_text(entry.value);
    let (before, after) = choose|before: Seq<char>, after: Seq<char>| #[trigger]
        wire_laws::stands_between(members, before, name, value, after);
    assert(members + more =~= before + seq!['"'] + name + seq!['"', ':'] + value + (after + more));
    assert(wire_laws::stands_between(members + more, before, name, value, after + more));
}

proof fn lemma_members(entries: Seq<TextEntry<Json>>, i: int)
    requires
        0 <= i < entries.len(),
    ensures
        is_written(json::members_text(entries), entries[i]),
    decreases entries.len(),
{
    reveal_strlit(",");
    assert(","@ =~= seq![',']);
    if entries.len() == 1 {
        lemma_member(Seq::empty(), entries[0]);
        assert(Seq::<char>::empty() + json::member_text(entries[0]) =~= json::member_text(
            entries[0],
        ));
    } else {
        let front = entries.drop_last();
        let last = json::member_text(entries.last());
        let before = json::members_text(front) + ","@;
        if i == entries.len() - 1 {
            lemma_member(before, entries.last());
        } else {
            lemma_members(front, i);
            assert(front[i] == entries[i]);
            lemma_member_stays(json::members_text(front), entries[i], ","@ + last);
            assert(json::members_text(front) + (","@ + last) =~= before + last);
        }
    }
}

/// An object that a client gave is shown with each of its members.
pub proof fn given_objects_are_shown(object: JsonObject, i: int)
    requires
        0 <= i < object.entries@.len(),
    ensures
        wire_laws::tells(
            json::object_text(object),
            wire::escaped(object.entries@[i].key@),
            json::json_text(object.entries@[i].value),
        ),
{
    reveal(wire_laws::tells);
    reveal_strlit("{");
    reveal_strlit("}");
    assert("{"@ =~= seq!['{']);
    assert("}"@ =~= seq!['}']);
    lemma_members(object.entries@, i);
    let members = json::members_text(object.entries@);
    assert(json::object_text(object) == seq!['{'] + members + seq!['}']);
    assert(wire_laws::lists(
        members,
        wire::escaped(object.entries@[i].key@),
        json::json_text(object.entries@[i].value),
    ));
}

/// The value of hexadecimal digits.
pub open spec fn hex_value(s: Seq<char>) -> nat
    decreases s.len(),
{
    if s.len() == 0 {
        0
    } else {
        hex_value(s.drop_last()) * 16 + (if '0' <= s.last() <= '9' {
            s.last() as nat - '0' as nat
        } else {
            s.last() as nat - 'a' as nat + 10
        }) as nat
    }
}

/// A number that fits is written with as many hexadecimal digits as were asked
/// for, and they write it.
pub proof fn hexadecimal_digits_write_the_number(number: nat, width: nat)
    requires
        number < vstd::arithmetic::power::pow(16, width),
    ensures
        http::hex_digits(number, width).len() == width,
        hex_value(http::hex_digits(number, width)) == number,
    decreases width,
{
    if width == 0 {
        vstd::arithmetic::power::lemma_pow0(16);
    } else {
        let front = http::hex_digits(number / 16, (width - 1) as nat);
        vstd::arithmetic::power::lemma_pow1(16);
        vstd::arithmetic::power::lemma_pow_adds(16, (width - 1) as nat, 1);
        assert(number / 16 < vstd::arithmetic::power::pow(16, (width - 1) as nat));
        hexadecimal_digits_write_the_number(number / 16, (width - 1) as nat);
        assert(http::hex_digits(number, width).drop_last() =~= front);
    }
}

/// A query asks for a trace where one of its pieces says so, and only then.
pub proof fn a_trace_is_asked_for(query: Seq<char>, k: int)
    ensures
        !http::asks_trace(None),
        0 <= k < text::pieces(query, Cut::At('&')).len() && text::pieces(query, Cut::At('&'))[k]
            == "trace=true"@ ==> http::asks_trace(Some(query)),
        (forall|i: int|
            0 <= i < text::pieces(query, Cut::At('&')).len() ==> #[trigger] text::pieces(
                query,
                Cut::At('&'),
            )[i] != "trace=true"@) ==> !http::asks_trace(Some(query)),
{
}

/// The names that are refused stand one behind another, with a comma between
/// them.
pub proof fn refused_names_are_joined(names: Seq<&'static str>, name: &'static str)
    ensures
        names.len() == 0 ==> handlers::names_joined(names.push(name)) == name@,
        names.len() > 0 ==> handlers::names_joined(names.push(name)) == handlers::names_joined(names)
            + ", "@ + name@,
{
    assert(names.push(name).drop_last() =~= names);
    assert(names.push(name).last() == name);
}

/// Without a hierarchy of its own, a process looks for its memory limit where
/// the machine keeps it.
pub proof fn limits_are_kept_at_their_place()
    ensures
        probe::limit_file(None, probe::GroupVersion::V2) == "/sys/fs/cgroup/memory.max"@,
        probe::limit_file(None, probe::GroupVersion::V1)
            == "/sys/fs/cgroup/memory/memory.limit_in_bytes"@,
{
    reveal_strlit("/sys/fs/cgroup");
    reveal_strlit("/sys/fs/cgroup/memory");
    reveal_strlit("memory.max");
    reveal_strlit("memory.limit_in_bytes");
    reveal_strlit("/");
    reveal_strlit("/sys/fs/cgroup/memory.max");
    reveal_strlit("/sys/fs/cgroup/memory/memory.limit_in_bytes");
    assert(probe::limit_file(None, probe::GroupVersion::V2) =~= "/sys/fs/cgroup/memory.max"@);
    assert(probe::limit_file(None, probe::GroupVersion::V1)
        =~= "/sys/fs/cgroup/memory/memory.limit_in_bytes"@);
}

/// A path is put behind a directory with one slash between them.
pub proof fn paths_are_joined_by_one_slash(directory: Seq<char>, path: Seq<char>)
    ensures
        directory.len() > 0 && directory.last() != '/' ==> probe::path_join(directory, path)
            == directory.push('/') + path,
        directory.len() > 0 && directory.last() == '/' ==> probe::path_join(directory, path)
            == directory + path,
{
    reveal_strlit("/");
    if directory.len() > 0 && directory.last() != '/' {
        assert(probe::path_join(directory, path) =~= directory.push('/') + path);
    }
}

} // verus!
