//! JSON text: values written in place, members in a given order.

use crate::text::{decimal_text, owned, signed_decimal_text};
use crate::text;
use vstd::prelude::*;

verus! {

/// The two hexadecimal digits of a control character.
pub open spec fn hex_char(digit: int) -> char {
    if digit < 10 {
        (digit + 48) as char
    } else {
        (digit + 87) as char
    }
}

/// A character as it stands inside a JSON string.
pub open spec fn escaped_char(c: char) -> Seq<char> {
    let code = c as int;
    if c == '"' {
        seq!['\\', '"']
    } else if c == '\\' {
        seq!['\\', '\\']
    } else if code == 8 {
        seq!['\\', 'b']
    } else if code == 9 {
        seq!['\\', 't']
    } else if code == 10 {
        seq!['\\', 'n']
    } else if code == 12 {
        seq!['\\', 'f']
    } else if code == 13 {
        seq!['\\', 'r']
    } else if code < 32 {
        seq!['\\', 'u', '0', '0', hex_char(code / 16), hex_char(code % 16)]
    } else {
        seq![c]
    }
}

/// The characters of a text as they stand inside a JSON string.
pub open spec fn escaped(s: Seq<char>) -> Seq<char>
    decreases s.len(),
{
    if s.len() == 0 {
        s
    } else {
        escaped(s.drop_last()) + escaped_char(s.last())
    }
}

/// A text as a JSON string.
pub open spec fn json_quoted(s: Seq<char>) -> Seq<char> {
    seq!['"'] + escaped(s) + seq!['"']
}

/// `serde_json::Value`'s text of a string: the characters between quotation
/// marks, with quotation marks, backslashes and the characters below a space
/// escaped, and every other character as it is.
#[verifier::external_body]
pub(crate) fn quote(text: &str) -> (r: String)
    ensures
        r@ == json_quoted(text@),
{
    serde_json::Value::from(text).to_string()
}

/// A JSON string, or null.
pub open spec fn json_optional(text: Option<String>) -> Seq<char> {
    match text {
        Some(text) => json_quoted(text@),
        None => "null"@,
    }
}

pub fn quote_optional(text: &Option<String>) -> (r: String)
    ensures
        r@ == json_optional(*text),
{
    match text {
        Some(text) => quote(text.as_str()),
        None => owned("null"),
    }
}

pub open spec fn json_bool(value: bool) -> Seq<char> {
    if value {
        "true"@
    } else {
        "false"@
    }
}

pub fn bool_json(value: bool) -> (r: String)
    ensures
        r@ == json_bool(value),
{
    if value {
        owned("true")
    } else {
        owned("false")
    }
}

/// The members of an object with one more behind them. The key holds no
/// character that JSON escapes.
pub open spec fn with_member(members: Seq<char>, key: Seq<char>, value: Seq<char>) -> Seq<char> {
    (if members.len() == 0 {
        members
    } else {
        members + ","@
    }) + "\""@ + key + "\":"@ + value
}

/// Adds a member.
pub fn put(members: &mut String, key: &str, value: &str)
    ensures
        final(members)@ == with_member(old(members)@, key@, value@),
{
    if members.as_str().unicode_len() > 0 {
        members.append(",");
    }
    members.append("\"");
    members.append(key);
    members.append("\":");
    members.append(value);
}

/// The members with one more where it is present.
pub open spec fn with_member_if(
    members: Seq<char>,
    present: bool,
    key: Seq<char>,
    value: Seq<char>,
) -> Seq<char> {
    if present {
        with_member(members, key, value)
    } else {
        members
    }
}

pub fn put_if(members: &mut String, present: bool, key: &str, value: &str)
    ensures
        final(members)@ == with_member_if(old(members)@, present, key@, value@),
{
    if present {
        put(members, key, value);
    }
}

/// An object of the members.
pub open spec fn braces(members: Seq<char>) -> Seq<char> {
    "{"@ + members + "}"@
}

pub fn object(members: &str) -> (r: String)
    ensures
        r@ == braces(members@),
{
    let mut r = owned("{");
    r.append(members);
    r.append("}");
    r
}

/// The items of a list with one more behind them.
pub open spec fn with_item(items: Seq<char>, value: Seq<char>) -> Seq<char> {
    (if items.len() == 0 {
        items
    } else {
        items + ","@
    }) + value
}

/// Adds an item.
pub fn put_item(items: &mut String, value: &str)
    ensures
        final(items)@ == with_item(old(items)@, value@),
{
    if items.as_str().unicode_len() > 0 {
        items.append(",");
    }
    items.append(value);
}

/// A list of the items.
pub open spec fn brackets(items: Seq<char>) -> Seq<char> {
    "["@ + items + "]"@
}

pub fn list(items: &str) -> (r: String)
    ensures
        r@ == brackets(items@),
{
    let mut r = owned("[");
    r.append(items);
    r.append("]");
    r
}

/// Adds a member that holds a string.
pub fn put_text(members: &mut String, key: &str, value: &str)
    ensures
        final(members)@ == with_member(old(members)@, key@, json_quoted(value@)),
{
    put(members, key, quote(value).as_str());
}

/// Adds a member that holds a string or null.
pub fn put_optional(members: &mut String, key: &str, value: &Option<String>)
    ensures
        final(members)@ == with_member(old(members)@, key@, json_optional(*value)),
{
    put(members, key, quote_optional(value).as_str());
}

/// Adds a member that holds a boolean.
pub fn put_bool(members: &mut String, key: &str, value: bool)
    ensures
        final(members)@ == with_member(old(members)@, key@, json_bool(value)),
{
    put(members, key, bool_json(value).as_str());
}

/// Adds a member that holds a natural number.
pub fn put_number(members: &mut String, key: &str, value: u64)
    ensures
        final(members)@ == with_member(old(members)@, key@, text::decimal(value as nat)),
{
    put(members, key, decimal_text(value).as_str());
}

/// Adds a member that holds an integer.
pub fn put_signed(members: &mut String, key: &str, value: i64)
    ensures
        final(members)@ == with_member(old(members)@, key@, text::signed_decimal(value as int)),
{
    put(members, key, signed_decimal_text(value).as_str());
}

} // verus!
