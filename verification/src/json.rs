//! JSON values of untrusted origin, and the limits on their shape and size.

use crate::text;
use crate::text::owned;
use crate::text_map::{TextEntry, TextMap};
use crate::wire;
use crate::wire::quote;
use vstd::prelude::*;

verus! {

/// A JSON value. A number is held as its text.
#[derive(Debug, PartialEq, Eq)]
pub enum Json {
    Null,
    Bool(bool),
    Number(String),
    Text(String),
    List(Vec<Json>),
    Object(TextMap<Json>),
}

/// An object whose members stand in the order of their keys.
pub type JsonObject = TextMap<Json>;

/// The text of a value, without spaces.
pub open spec fn json_text(value: Json) -> Seq<char>
    decreases value,
{
    match value {
        Json::Null => "null"@,
        Json::Bool(value) => wire::json_bool(value),
        Json::Number(digits) => digits@,
        Json::Text(value) => wire::json_quoted(value@),
        Json::List(values) => "["@ + list_text(values@) + "]"@,
        Json::Object(members) => "{"@ + members_text(members.entries@) + "}"@,
    }
}

/// The texts of the values with commas between them.
pub open spec fn list_text(values: Seq<Json>) -> Seq<char>
    decreases values,
{
    if values.len() == 0 {
        Seq::empty()
    } else if values.len() == 1 {
        json_text(values[0])
    } else {
        list_text(values.drop_last()) + ","@ + json_text(values.last())
    }
}

/// The text of one member.
pub open spec fn member_text(entry: TextEntry<Json>) -> Seq<char>
    decreases entry,
{
    wire::json_quoted(entry.key@) + ":"@ + json_text(entry.value)
}

/// The texts of the members with commas between them.
pub open spec fn members_text(entries: Seq<TextEntry<Json>>) -> Seq<char>
    decreases entries,
{
    if entries.len() == 0 {
        Seq::empty()
    } else if entries.len() == 1 {
        member_text(entries[0])
    } else {
        members_text(entries.drop_last()) + ","@ + member_text(entries.last())
    }
}

/// The text of an object.
pub open spec fn object_text(object: JsonObject) -> Seq<char> {
    "{"@ + members_text(object.entries@) + "}"@
}

/// How many values a value is made of, itself among them.
pub open spec fn elements_of(value: Json) -> nat
    decreases value,
{
    match value {
        Json::List(values) => 1 + list_elements(values@),
        Json::Object(members) => 1 + member_elements(members.entries@),
        _ => 1,
    }
}

pub open spec fn list_elements(values: Seq<Json>) -> nat
    decreases values,
{
    if values.len() == 0 {
        0
    } else {
        list_elements(values.drop_last()) + elements_of(values.last())
    }
}

pub open spec fn member_elements(entries: Seq<TextEntry<Json>>) -> nat
    decreases entries,
{
    if entries.len() == 0 {
        0
    } else {
        member_elements(entries.drop_last()) + elements_of(entries.last().value)
    }
}

/// How deep a value is nested; a value without parts has depth one.
pub open spec fn depth_of(value: Json) -> nat
    decreases value,
{
    match value {
        Json::List(values) => 1 + list_depth(values@),
        Json::Object(members) => 1 + member_depth(members.entries@),
        _ => 1,
    }
}

pub open spec fn larger(a: nat, b: nat) -> nat {
    if a >= b {
        a
    } else {
        b
    }
}

pub open spec fn list_depth(values: Seq<Json>) -> nat
    decreases values,
{
    if values.len() == 0 {
        0
    } else {
        larger(list_depth(values.drop_last()), depth_of(values.last()))
    }
}

pub open spec fn member_depth(entries: Seq<TextEntry<Json>>) -> nat
    decreases entries,
{
    if entries.len() == 0 {
        0
    } else {
        larger(member_depth(entries.drop_last()), depth_of(entries.last().value))
    }
}

/// Writes the value's text.
pub fn write_json(value: &Json, out: &mut String)
    ensures
        final(out)@ == old(out)@ + json_text(*value),
    decreases *value,
{
    match value {
        Json::Null => out.append("null"),
        Json::Bool(true) => out.append("true"),
        Json::Bool(false) => out.append("false"),
        Json::Number(digits) => out.append(digits.as_str()),
        Json::Text(value) => out.append(quote(value.as_str()).as_str()),
        Json::List(values) => {
            out.append("[");
            let ghost before = out@;
            let mut i: usize = 0;
            while i < values.len()
                invariant
                    i <= values@.len(),
                    *value == Json::List(*values),
                    out@ == before + list_text(values@.take(i as int)),
                decreases values@.len() - i,
            {
                if i > 0 {
                    out.append(",");
                }
                assert(decreases_to!(*value => values@[i as int])) by {
                    assert(decreases_to!(*value => value->List_0));
                    assert(decreases_to!(*values => values@));
                    assert(decreases_to!(values@ => values@[i as int]));
                }
                write_json(&values[i], out);
                proof {
                    let shorter = values@.take(i as int);
                    let longer = values@.take(i + 1);
                    assert(longer.drop_last() =~= shorter);
                    assert(longer.last() == values@[i as int]);
                    assert(longer[0] == values@[0]);
                    if i == 0 {
                        assert(list_text(shorter) =~= Seq::empty());
                    }
                    assert(out@ =~= before + list_text(longer));
                }
                i = i + 1;
            }
            assert(values@.take(i as int) =~= values@);
            out.append("]");
        },
        Json::Object(members) => {
            out.append("{");
            let ghost before = out@;
            let mut i: usize = 0;
            while i < members.entries.len()
                invariant
                    i <= members.entries@.len(),
                    *value == Json::Object(*members),
                    out@ == before + members_text(members.entries@.take(i as int)),
                decreases members.entries@.len() - i,
            {
                if i > 0 {
                    out.append(",");
                }
                out.append(quote(members.entries[i].key.as_str()).as_str());
                out.append(":");
                assert(decreases_to!(*value => members.entries@[i as int].value)) by {
                    assert(decreases_to!(*value => value->Object_0));
                    assert(decreases_to!(*members => members.entries));
                    assert(decreases_to!(members.entries => members.entries@));
                    assert(decreases_to!(members.entries@ => members.entries@[i as int]));
                    assert(decreases_to!(members.entries@[i as int] => members.entries@[i as int].value));
                }
                write_json(&members.entries[i].value, out);
                proof {
                    let shorter = members.entries@.take(i as int);
                    let longer = members.entries@.take(i + 1);
                    assert(longer.drop_last() =~= shorter);
                    assert(longer.last() == members.entries@[i as int]);
                    assert(longer[0] == members.entries@[0]);
                    assert(member_text(longer.last()) == wire::json_quoted(longer.last().key@)
                        + ":"@ + json_text(longer.last().value));
                    if i == 0 {
                        assert(members_text(shorter) =~= Seq::empty());
                    }
                    assert(out@ =~= before + members_text(longer));
                }
                i = i + 1;
            }
            assert(members.entries@.take(i as int) =~= members.entries@);
            out.append("}");
        },
    }
    assert(out@ =~= old(out)@ + json_text(*value));
}

/// The text of an object.
pub fn object_json(object: &JsonObject) -> (r: String)
    ensures
        r@ == object_text(*object),
{
    let mut out = owned("{");
    let ghost before = out@;
    let mut i: usize = 0;
    while i < object.entries.len()
        invariant
            i <= object.entries@.len(),
            out@ == before + members_text(object.entries@.take(i as int)),
        decreases object.entries@.len() - i,
    {
        if i > 0 {
            out.append(",");
        }
        out.append(quote(object.entries[i].key.as_str()).as_str());
        out.append(":");
        write_json(&object.entries[i].value, &mut out);
        proof {
            let shorter = object.entries@.take(i as int);
            let longer = object.entries@.take(i + 1);
            assert(longer.drop_last() =~= shorter);
            assert(longer.last() == object.entries@[i as int]);
            assert(longer[0] == object.entries@[0]);
            assert(member_text(longer.last()) == wire::json_quoted(longer.last().key@) + ":"@
                + json_text(longer.last().value));
            if i == 0 {
                assert(members_text(shorter) =~= Seq::empty());
            }
            assert(out@ =~= before + members_text(longer));
        }
        i = i + 1;
    }
    assert(object.entries@.take(i as int) =~= object.entries@);
    out.append("}");
    assert(out@ =~= object_text(*object));
    out
}

/// The limits on JSON of untrusted origin.
#[derive(Clone, Copy, Debug, PartialEq, Eq, Structural)]
pub struct JsonPolicy {
    pub max_retained_bytes: usize,
    pub max_depth: usize,
    pub max_elements: usize,
}

/// JSON beyond a limit.
#[derive(Clone, Copy, Debug, PartialEq, Eq, Structural)]
pub struct JsonLimitError;

impl JsonLimitError {
    pub fn to_text(&self) -> (r: String)
        ensures
            r@ == "JSON exceeds the configured structural or retention limit"@,
    {
        owned("JSON exceeds the configured structural or retention limit")
    }
}

/// How many values were met, and how many may be.
#[derive(Clone, Copy, Debug, PartialEq, Eq, Structural)]
pub struct ParseBudget {
    pub elements: usize,
    pub policy: JsonPolicy,
}

impl ParseBudget {
    pub fn new(policy: JsonPolicy) -> (r: ParseBudget)
        ensures
            r == (ParseBudget { elements: 0, policy }),
    {
        ParseBudget { elements: 0, policy }
    }

    /// Counts one value at a depth.
    pub fn count(&mut self, depth: usize) -> (r: Result<(), JsonLimitError>)
        ensures
            final(self).policy == old(self).policy,
            r is Ok <==> depth <= old(self).policy.max_depth && old(self).elements + 1 <= old(
                self,
            ).policy.max_elements,
            final(self).elements == if depth > old(self).policy.max_depth || old(self).elements
                == usize::MAX {
                old(self).elements as int
            } else {
                old(self).elements + 1
            },
    {
        if depth > self.policy.max_depth {
            return Err(JsonLimitError);
        }
        match self.elements.checked_add(1) {
            Some(elements) => {
                self.elements = elements;
                if elements > self.policy.max_elements {
                    Err(JsonLimitError)
                } else {
                    Ok(())
                }
            },
            None => Err(JsonLimitError),
        }
    }
}

/// The keys that an object has so far.
pub struct ObjectKeys {
    pub keys: TextMap<()>,
}

impl ObjectKeys {
    pub fn new() -> (r: ObjectKeys)
        ensures
            r.keys.wf(),
            r.keys@.dom() == Set::<Seq<char>>::empty(),
    {
        let r = ObjectKeys { keys: TextMap::new() };
        assert(r.keys@.dom() =~= Set::<Seq<char>>::empty());
        r
    }

    /// Takes a key that is not there yet.
    pub fn take(&mut self, key: String) -> (r: Result<(), JsonLimitError>)
        requires
            old(self).keys.wf(),
        ensures
            final(self).keys.wf(),
            final(self).keys@.dom() == old(self).keys@.dom().insert(key@),
            r is Ok <==> !old(self).keys@.dom().contains(key@),
    {
        let known: bool = self.keys.contains_key(key.as_str());
        self.keys.insert(key, ());
        if known {
            Err(JsonLimitError)
        } else {
            Ok(())
        }
    }
}

/// Whether the value fits at a depth, after so many others.
pub open spec fn fits(value: Json, depth: int, elements: int, policy: JsonPolicy) -> bool {
    depth + depth_of(value) - 1 <= policy.max_depth && elements + elements_of(value)
        <= policy.max_elements
}

proof fn parts_are_within(values: Seq<Json>, i: int)
    requires
        0 <= i < values.len(),
    ensures
        list_elements(values.take(i)) + elements_of(values[i]) <= list_elements(values),
        depth_of(values[i]) <= list_depth(values),
        list_elements(values.take(i + 1)) == list_elements(values.take(i)) + elements_of(values[i]),
        list_depth(values.take(i + 1)) == larger(list_depth(values.take(i)), depth_of(values[i])),
    decreases values.len(),
{
    assert(values.take(i + 1).drop_last() =~= values.take(i));
    if i == values.len() - 1 {
        assert(values.take(i + 1) =~= values);
    } else {
        let shorter = values.drop_last();
        parts_are_within(shorter, i);
        assert(shorter.take(i) =~= values.take(i));
    }
}

proof fn members_are_within(entries: Seq<TextEntry<Json>>, i: int)
    requires
        0 <= i < entries.len(),
    ensures
        member_elements(entries.take(i)) + elements_of(entries[i].value) <= member_elements(
            entries,
        ),
        depth_of(entries[i].value) <= member_depth(entries),
        member_elements(entries.take(i + 1)) == member_elements(entries.take(i)) + elements_of(
            entries[i].value,
        ),
        member_depth(entries.take(i + 1)) == larger(
            member_depth(entries.take(i)),
            depth_of(entries[i].value),
        ),
    decreases entries.len(),
{
    assert(entries.take(i + 1).drop_last() =~= entries.take(i));
    if i == entries.len() - 1 {
        assert(entries.take(i + 1) =~= entries);
    } else {
        let shorter = entries.drop_last();
        members_are_within(shorter, i);
        assert(shorter.take(i) =~= entries.take(i));
    }
}

/// A value has at least itself.
pub proof fn a_value_counts(value: Json)
    ensures
        elements_of(value) >= 1,
        depth_of(value) >= 1,
{
}

/// Counts a value and its parts.
pub fn validate_value(value: &Json, depth: usize, budget: &mut ParseBudget) -> (r: Result<
    (),
    JsonLimitError,
>)
    ensures
        final(budget).policy == old(budget).policy,
        r is Ok <==> fits(*value, depth as int, old(budget).elements as int, old(budget).policy),
        r is Ok ==> final(budget).elements == old(budget).elements + elements_of(*value),
    decreases *value,
{
    let ghost start = budget.elements as int;
    proof {
        a_value_counts(*value);
    }
    if budget.count(depth).is_err() {
        return Err(JsonLimitError);
    }
    match value {
        Json::List(values) => {
            if values.len() > 0 && depth == usize::MAX {
                proof {
                    parts_are_within(values@, 0);
                    a_value_counts(values@[0]);
                }
                return Err(JsonLimitError);
            }
            let mut i: usize = 0;
            while i < values.len()
                invariant
                    i <= values@.len(),
                    *value == Json::List(*values),
                    values@.len() > 0 ==> depth < usize::MAX,
                    budget.policy == old(budget).policy,
                    budget.elements == start + 1 + list_elements(values@.take(i as int)),
                    start == old(budget).elements,
                    depth + list_depth(values@.take(i as int)) <= budget.policy.max_depth,
                    budget.elements <= budget.policy.max_elements,
                decreases values@.len() - i,
            {
                proof {
                    parts_are_within(values@, i as int);
                    a_value_counts(values@[i as int]);
                    assert(decreases_to!(*value => values@[i as int])) by {
                        assert(decreases_to!(*value => value->List_0));
                        assert(decreases_to!(*values => values@));
                        assert(decreases_to!(values@ => values@[i as int]));
                    }
                }
                if validate_value(&values[i], depth + 1, budget).is_err() {
                    return Err(JsonLimitError);
                }
                i = i + 1;
            }
            assert(values@.take(i as int) =~= values@);
            Ok(())
        },
        Json::Object(members) => {
            if members.entries.len() > 0 && depth == usize::MAX {
                proof {
                    members_are_within(members.entries@, 0);
                    a_value_counts(members.entries@[0].value);
                }
                return Err(JsonLimitError);
            }
            let mut i: usize = 0;
            while i < members.entries.len()
                invariant
                    i <= members.entries@.len(),
                    *value == Json::Object(*members),
                    members.entries@.len() > 0 ==> depth < usize::MAX,
                    budget.policy == old(budget).policy,
                    budget.elements == start + 1 + member_elements(members.entries@.take(i as int)),
                    start == old(budget).elements,
                    depth + member_depth(members.entries@.take(i as int))
                        <= budget.policy.max_depth,
                    budget.elements <= budget.policy.max_elements,
                decreases members.entries@.len() - i,
            {
                proof {
                    members_are_within(members.entries@, i as int);
                    a_value_counts(members.entries@[i as int].value);
                    assert(decreases_to!(*value => members.entries@[i as int].value)) by {
                        assert(decreases_to!(*value => value->Object_0));
                        assert(decreases_to!(*members => members.entries));
                        assert(decreases_to!(members.entries => members.entries@));
                        assert(decreases_to!(members.entries@ => members.entries@[i as int]));
                        assert(decreases_to!(members.entries@[i as int] => members.entries@[i as int].value));
                    }
                }
                if validate_value(&members.entries[i].value, depth + 1, budget).is_err() {
                    return Err(JsonLimitError);
                }
                i = i + 1;
            }
            assert(members.entries@.take(i as int) =~= members.entries@);
            Ok(())
        },
        _ => Ok(()),
    }
}

/// A count of bytes with a bound.
#[derive(Clone, Copy, Debug, PartialEq, Eq, Structural)]
pub struct LimitedWriter {
    pub written: usize,
    pub maximum: usize,
}

impl LimitedWriter {
    pub fn new(maximum: usize) -> (r: LimitedWriter)
        ensures
            r == (LimitedWriter { written: 0, maximum }),
    {
        LimitedWriter { written: 0, maximum }
    }

    /// Takes the bytes where they fit.
    pub fn write(&mut self, bytes: &[u8]) -> (r: Result<usize, JsonLimitError>)
        ensures
            final(self).maximum == old(self).maximum,
            old(self).written + bytes@.len() <= old(self).maximum ==> r == Ok::<
                usize,
                JsonLimitError,
            >(bytes@.len() as usize) && final(self).written == old(self).written + bytes@.len(),
            old(self).written + bytes@.len() > old(self).maximum ==> r is Err && *final(self)
                == *old(self),
    {
        match self.written.checked_add(bytes.len()) {
            Some(next) => {
                if next > self.maximum {
                    Err(JsonLimitError)
                } else {
                    self.written = next;
                    Ok(bytes.len())
                }
            },
            None => Err(JsonLimitError),
        }
    }
}

/// Whether an object may be kept.
pub open spec fn retainable(object: JsonObject, policy: JsonPolicy) -> bool {
    let entries = object.entries@;
    &&& entries.len() > 0 ==> 1 + member_depth(entries) <= policy.max_depth && 1 + member_elements(
        entries,
    ) <= policy.max_elements
    &&& text::byte_len(object_text(object)) <= policy.max_retained_bytes
}

/// Checks an object against the limits.
pub fn validate_json_object(object: &JsonObject, policy: JsonPolicy) -> (r: Result<
    (),
    JsonLimitError,
>)
    ensures
        r is Ok <==> retainable(*object, policy),
{
    let mut budget = ParseBudget { elements: 1, policy };
    let mut i: usize = 0;
    while i < object.entries.len()
        invariant
            i <= object.entries@.len(),
            budget.policy == policy,
            budget.elements == 1 + member_elements(object.entries@.take(i as int)),
            i > 0 ==> 1 + member_depth(object.entries@.take(i as int)) <= policy.max_depth,
            i > 0 ==> budget.elements <= policy.max_elements,
        decreases object.entries@.len() - i,
    {
        proof {
            members_are_within(object.entries@, i as int);
            a_value_counts(object.entries@[i as int].value);
        }
        if validate_value(&object.entries[i].value, 2, &mut budget).is_err() {
            return Err(JsonLimitError);
        }
        i = i + 1;
    }
    assert(object.entries@.take(i as int) =~= object.entries@);
    let text = object_json(object);
    let mut writer = LimitedWriter::new(policy.max_retained_bytes);
    match writer.write(text.as_str().as_bytes()) {
        Ok(_) => Ok(()),
        Err(error) => Err(error),
    }
}

/// A kept object stays kept under limits that are no tighter.
pub proof fn looser_limits_keep_more(object: JsonObject, policy: JsonPolicy, looser: JsonPolicy)
    requires
        retainable(object, policy),
        policy.max_depth <= looser.max_depth,
        policy.max_elements <= looser.max_elements,
        policy.max_retained_bytes <= looser.max_retained_bytes,
    ensures
        retainable(object, looser),
{
}

/// What is within the limits has no part beyond them.
pub proof fn parts_of_a_fitting_list_fit(
    values: Vec<Json>,
    depth: int,
    elements: int,
    policy: JsonPolicy,
    i: int,
)
    requires
        0 <= i < values@.len(),
        fits(Json::List(values), depth, elements, policy),
    ensures
        fits(
            values@[i],
            depth + 1,
            elements + 1 + list_elements(values@.take(i)),
            policy,
        ),
{
    parts_are_within(values@, i);
}

} // verus!
