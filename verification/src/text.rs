//! Text: comparison, white space, splitting and decimal numbers.

use vstd::prelude::*;
use vstd::string::*;

verus! {

broadcast use vstd::string::group_string_axioms;

/// `str::eq` of std: two texts are equal exactly where their characters are.
#[verifier::external_body]
pub(crate) fn same_text(a: &str, b: &str) -> (r: bool)
    ensures
        r == (a@ == b@),
{
    a == b
}

/// `String::push` of std: the character is put behind the text.
#[verifier::external_body]
pub(crate) fn push_char(text: &mut String, c: char)
    ensures
        final(text)@ == old(text)@.push(c),
{
    text.push(c)
}

/// The characters of a text, in order.
pub fn chars_of(text: &str) -> (r: Vec<char>)
    ensures
        r@ == text@,
{
    let mut out: Vec<char> = Vec::new();
    for c in it: text.chars()
        invariant
            out@.len() == it.index(),
            it.seq() == text@,
            forall|i: int| 0 <= i < out@.len() ==> out@[i] == it.seq()[i],
    {
        out.push(c);
    }
    assert(out@ =~= text@);
    out
}

/// The text made of the characters from `from` up to `to`.
pub fn text_of(chars: &Vec<char>, from: usize, to: usize) -> (r: String)
    requires
        from <= to <= chars@.len(),
    ensures
        r@ == chars@.subrange(from as int, to as int),
{
    let mut out: String = String::new();
    let mut i: usize = from;
    while i < to
        invariant
            from <= i <= to <= chars@.len(),
            out@ == chars@.subrange(from as int, i as int),
        decreases to - i,
    {
        push_char(&mut out, chars[i]);
        assert(chars@.subrange(from as int, i + 1) =~= chars@.subrange(from as int, i as int).push(
            chars@[i as int],
        ));
        i = i + 1;
    }
    out
}

/// Whether `a` comes before `b`: compared character by character, a proper
/// prefix before what it is a prefix of.
pub open spec fn text_before(a: Seq<char>, b: Seq<char>) -> bool
    decreases a.len(),
{
    if b.len() == 0 {
        false
    } else if a.len() == 0 {
        true
    } else if a[0] == b[0] {
        text_before(a.drop_first(), b.drop_first())
    } else {
        a[0] < b[0]
    }
}

/// No text comes before itself.
pub proof fn text_before_irreflexive(a: Seq<char>)
    ensures
        !text_before(a, a),
    decreases a.len(),
{
    if a.len() > 0 {
        text_before_irreflexive(a.drop_first());
    }
}

/// What comes before something that comes before a third comes before the third.
pub proof fn text_before_transitive(a: Seq<char>, b: Seq<char>, c: Seq<char>)
    requires
        text_before(a, b),
        text_before(b, c),
    ensures
        text_before(a, c),
    decreases a.len(),
{
    if a.len() > 0 && b.len() > 0 && c.len() > 0 && a[0] == b[0] && b[0] == c[0] {
        text_before_transitive(a.drop_first(), b.drop_first(), c.drop_first());
    }
}

/// Of two different texts one comes before the other.
pub proof fn text_before_total(a: Seq<char>, b: Seq<char>)
    ensures
        a == b || text_before(a, b) || text_before(b, a),
    decreases a.len(),
{
    if a.len() > 0 && b.len() > 0 && a[0] == b[0] {
        text_before_total(a.drop_first(), b.drop_first());
        if a.drop_first() == b.drop_first() {
            assert(a =~= seq![a[0]] + a.drop_first());
            assert(b =~= seq![b[0]] + b.drop_first());
        }
    } else if a.len() == 0 && b.len() == 0 {
        assert(a =~= b);
    }
}

/// Whether the first text comes before the second.
pub fn is_before(a: &str, b: &str) -> (r: bool)
    ensures
        r == text_before(a@, b@),
{
    let left: Vec<char> = chars_of(a);
    let right: Vec<char> = chars_of(b);
    let mut i: usize = 0;
    assert(left@ =~= left@.skip(0));
    assert(right@ =~= right@.skip(0));
    while i < left.len() && i < right.len() && left[i] == right[i]
        invariant
            i <= left@.len(),
            i <= right@.len(),
            text_before(left@, right@) == text_before(left@.skip(i as int), right@.skip(i as int)),
        decreases left@.len() - i,
    {
        assert(left@.skip(i as int).drop_first() =~= left@.skip(i + 1));
        assert(right@.skip(i as int).drop_first() =~= right@.skip(i + 1));
        i = i + 1;
    }
    if i >= right.len() {
        false
    } else if i >= left.len() {
        true
    } else {
        assert(left@.skip(i as int)[0] == left@[i as int]);
        assert(right@.skip(i as int)[0] == right@[i as int]);
        left[i] < right[i]
    }
}

/// The characters of each text.
pub open spec fn texts(parts: Seq<String>) -> Seq<Seq<char>> {
    parts.map_values(|part: String| part@)
}

/// Unicode white space.
pub open spec fn is_space(c: char) -> bool {
    let code = c as int;
    ||| 0x9 <= code <= 0xD
    ||| code == 0x20
    ||| code == 0x85
    ||| code == 0xA0
    ||| code == 0x1680
    ||| 0x2000 <= code <= 0x200A
    ||| code == 0x2028
    ||| code == 0x2029
    ||| code == 0x202F
    ||| code == 0x205F
    ||| code == 0x3000
}

pub fn is_whitespace(c: char) -> (r: bool)
    ensures
        r == is_space(c),
{
    let code: u32 = c as u32;
    (code >= 0x9 && code <= 0xD) || code == 0x20 || code == 0x85 || code == 0xA0 || code == 0x1680
        || (code >= 0x2000 && code <= 0x200A) || code == 0x2028 || code == 0x2029 || code == 0x202F
        || code == 0x205F || code == 0x3000
}

/// The control characters.
pub open spec fn is_control_char(c: char) -> bool {
    let code = c as int;
    code <= 0x1F || 0x7F <= code <= 0x9F
}

pub fn is_control(c: char) -> (r: bool)
    ensures
        r == is_control_char(c),
{
    let code: u32 = c as u32;
    code <= 0x1F || (code >= 0x7F && code <= 0x9F)
}

/// What remains behind leading white space.
pub open spec fn without_leading(s: Seq<char>) -> Seq<char>
    decreases s.len(),
{
    if s.len() > 0 && is_space(s[0]) {
        without_leading(s.drop_first())
    } else {
        s
    }
}

/// What remains before trailing white space.
pub open spec fn without_trailing(s: Seq<char>) -> Seq<char>
    decreases s.len(),
{
    if s.len() > 0 && is_space(s.last()) {
        without_trailing(s.drop_last())
    } else {
        s
    }
}

/// The text without white space at either end.
pub open spec fn trimmed(s: Seq<char>) -> Seq<char> {
    without_trailing(without_leading(s))
}

pub fn trim(text: &str) -> (r: String)
    ensures
        r@ == trimmed(text@),
{
    let chars: Vec<char> = chars_of(text);
    let mut from: usize = 0;
    assert(chars@.skip(0) =~= chars@);
    while from < chars.len() && is_whitespace(chars[from])
        invariant
            from <= chars@.len(),
            without_leading(chars@) == without_leading(chars@.skip(from as int)),
        decreases chars@.len() - from,
    {
        assert(chars@.skip(from as int).drop_first() =~= chars@.skip(from + 1));
        from = from + 1;
    }
    let ghost rest = chars@.skip(from as int);
    assert(without_leading(chars@) == rest);
    let mut to: usize = chars.len();
    assert(rest =~= chars@.subrange(from as int, to as int));
    while to > from && is_whitespace(chars[to - 1])
        invariant
            from <= to <= chars@.len(),
            without_trailing(rest) == without_trailing(chars@.subrange(from as int, to as int)),
        decreases to,
    {
        let ghost piece = chars@.subrange(from as int, to as int);
        assert(piece.last() == chars@[to - 1]);
        assert(piece.drop_last() =~= chars@.subrange(from as int, to - 1));
        to = to - 1;
    }
    proof {
        let piece = chars@.subrange(from as int, to as int);
        if piece.len() > 0 {
            assert(piece.last() == chars@[to - 1]);
        }
    }
    text_of(&chars, from, to)
}

/// Where a text is cut into pieces.
#[derive(Clone, Copy, Debug, PartialEq, Eq, Structural)]
pub enum Cut {
    /// At each occurrence of the character.
    At(char),
    /// At each white space character.
    AtSpace,
}

pub open spec fn cuts(cut: Cut, c: char) -> bool {
    match cut {
        Cut::At(separator) => c == separator,
        Cut::AtSpace => is_space(c),
    }
}

/// The pieces between the cuts, in order: one more than there are cuts.
pub open spec fn pieces(s: Seq<char>, cut: Cut) -> Seq<Seq<char>>
    decreases s.len(),
{
    if s.len() == 0 {
        seq![Seq::<char>::empty()]
    } else {
        let before = pieces(s.drop_last(), cut);
        if cuts(cut, s.last()) {
            before.push(Seq::empty())
        } else {
            before.drop_last().push(before.last().push(s.last()))
        }
    }
}

pub proof fn pieces_not_empty(s: Seq<char>, cut: Cut)
    ensures
        pieces(s, cut).len() > 0,
    decreases s.len(),
{
    if s.len() > 0 {
        pieces_not_empty(s.drop_last(), cut);
    }
}

pub fn split(text: &str, cut: Cut) -> (r: Vec<String>)
    ensures
        texts(r@) == pieces(text@, cut),
{
    let chars: Vec<char> = chars_of(text);
    let mut done: Vec<String> = Vec::new();
    let mut current: String = String::new();
    let mut i: usize = 0;
    proof {
        assert(chars@.take(0) =~= Seq::<char>::empty());
        assert(texts(done@).push(current@) =~= seq![Seq::<char>::empty()]);
    }
    while i < chars.len()
        invariant
            i <= chars@.len(),
            texts(done@).push(current@) == pieces(chars@.take(i as int), cut),
        decreases chars@.len() - i,
    {
        let c: char = chars[i];
        let is_cut: bool = match cut {
            Cut::At(separator) => c == separator,
            Cut::AtSpace => is_whitespace(c),
        };
        let ghost shown = texts(done@).push(current@);
        assert(chars@.take(i + 1).drop_last() =~= chars@.take(i as int));
        assert(chars@.take(i + 1).last() == c);
        if is_cut {
            let ghost closed = current@;
            let ghost earlier = done@;
            done.push(current);
            current = String::new();
            assert(texts(done@) =~= texts(earlier).push(closed));
        } else {
            push_char(&mut current, c);
            assert(shown.drop_last() =~= texts(done@));
        }
        i = i + 1;
    }
    assert(chars@.take(i as int) =~= chars@);
    let ghost earlier = done@;
    let ghost closed = current@;
    done.push(current);
    assert(texts(done@) =~= texts(earlier).push(closed));
    done
}

/// The pieces that hold at least one character.
pub open spec fn non_empty(parts: Seq<Seq<char>>) -> Seq<Seq<char>>
    decreases parts.len(),
{
    if parts.len() == 0 {
        Seq::empty()
    } else if parts.last().len() > 0 {
        non_empty(parts.drop_last()).push(parts.last())
    } else {
        non_empty(parts.drop_last())
    }
}

/// The pieces without white space at their ends.
pub open spec fn trimmed_parts(parts: Seq<Seq<char>>) -> Seq<Seq<char>> {
    parts.map_values(|part: Seq<char>| trimmed(part))
}

/// The entries of a comma-separated list: trimmed, empty ones left out.
pub open spec fn listed(s: Seq<char>) -> Seq<Seq<char>> {
    non_empty(trimmed_parts(pieces(s, Cut::At(','))))
}

pub fn comma_list(text: &str) -> (r: Vec<String>)
    ensures
        texts(r@) == listed(text@),
{
    let parts: Vec<String> = split(text, Cut::At(','));
    let ghost shown = trimmed_parts(pieces(text@, Cut::At(',')));
    let mut out: Vec<String> = Vec::new();
    let mut i: usize = 0;
    assert(shown.take(0) =~= Seq::<Seq<char>>::empty());
    assert(texts(out@) =~= Seq::<Seq<char>>::empty());
    while i < parts.len()
        invariant
            i <= parts@.len(),
            shown.len() == parts@.len(),
            texts(parts@) == pieces(text@, Cut::At(',')),
            shown == trimmed_parts(pieces(text@, Cut::At(','))),
            texts(out@) == non_empty(shown.take(i as int)),
        decreases parts@.len() - i,
    {
        let part: String = trim(parts[i].as_str());
        assert(texts(parts@)[i as int] == parts@[i as int]@);
        assert(shown[i as int] == part@);
        assert(shown.take(i + 1).drop_last() =~= shown.take(i as int));
        assert(shown.take(i + 1).last() == part@);
        let ghost earlier = out@;
        let ghost text_now = part@;
        if !part.as_str().is_empty() {
            out.push(part);
            assert(texts(out@) =~= texts(earlier).push(text_now));
        }
        i = i + 1;
    }
    assert(shown.take(i as int) =~= shown);
    out
}

/// The words: the longest runs without white space.
pub open spec fn words_of(s: Seq<char>) -> Seq<Seq<char>> {
    non_empty(pieces(s, Cut::AtSpace))
}

pub fn words(text: &str) -> (r: Vec<String>)
    ensures
        texts(r@) == words_of(text@),
{
    let parts: Vec<String> = split(text, Cut::AtSpace);
    let ghost shown = pieces(text@, Cut::AtSpace);
    let mut out: Vec<String> = Vec::new();
    let mut i: usize = 0;
    assert(shown.take(0) =~= Seq::<Seq<char>>::empty());
    assert(texts(out@) =~= Seq::<Seq<char>>::empty());
    while i < parts.len()
        invariant
            i <= parts@.len(),
            texts(parts@) == shown,
            texts(out@) == non_empty(shown.take(i as int)),
        decreases parts@.len() - i,
    {
        assert(texts(parts@)[i as int] == parts@[i as int]@);
        assert(shown.take(i + 1).drop_last() =~= shown.take(i as int));
        assert(shown.take(i + 1).last() == parts@[i as int]@);
        let ghost earlier = out@;
        if !parts[i].as_str().is_empty() {
            out.push(parts[i].clone());
            assert(texts(out@) =~= texts(earlier).push(parts@[i as int]@));
        }
        i = i + 1;
    }
    assert(shown.take(i as int) =~= shown);
    out
}

/// A line without the carriage return that stands before its line feed.
pub open spec fn without_return(line: Seq<char>) -> Seq<char> {
    if line.len() > 0 && line.last() == '\r' {
        line.drop_last()
    } else {
        line
    }
}

/// The lines of a text: ended by a line feed, or by a carriage return and a
/// line feed; what stands behind the last line feed is a line where it is not
/// empty.
pub open spec fn lines_of(s: Seq<char>) -> Seq<Seq<char>> {
    let parts = pieces(s, Cut::At('\n'));
    let ended = parts.drop_last().map_values(|line: Seq<char>| without_return(line));
    if parts.last().len() > 0 {
        ended.push(parts.last())
    } else {
        ended
    }
}

pub fn lines(text: &str) -> (r: Vec<String>)
    ensures
        texts(r@) == lines_of(text@),
{
    let parts: Vec<String> = split(text, Cut::At('\n'));
    let ghost shown = pieces(text@, Cut::At('\n'));
    proof {
        pieces_not_empty(text@, Cut::At('\n'));
        assert(texts(parts@).len() == parts@.len());
    }
    let last: usize = parts.len() - 1;
    let ghost ended = shown.drop_last().map_values(|line: Seq<char>| without_return(line));
    let mut out: Vec<String> = Vec::new();
    let mut i: usize = 0;
    assert(texts(out@) =~= ended.take(0));
    while i < last
        invariant
            i <= last,
            last + 1 == parts@.len(),
            texts(parts@) == shown,
            shown.len() == parts@.len(),
            ended == shown.drop_last().map_values(|line: Seq<char>| without_return(line)),
            texts(out@) == ended.take(i as int),
        decreases last - i,
    {
        assert(texts(parts@)[i as int] == parts@[i as int]@);
        let line: Vec<char> = chars_of(parts[i].as_str());
        let mut to: usize = line.len();
        if to > 0 && line[to - 1] == '\r' {
            to = to - 1;
        }
        let ghost earlier = out@;
        let kept: String = text_of(&line, 0, to);
        assert(kept@ =~= without_return(line@));
        let ghost kept_view = kept@;
        out.push(kept);
        assert(texts(out@) =~= texts(earlier).push(kept_view));
        assert(ended[i as int] == kept_view);
        assert(ended.take(i + 1) =~= ended.take(i as int).push(kept_view));
        i = i + 1;
    }
    assert(ended.take(i as int) =~= ended);
    assert(texts(parts@)[last as int] == parts@[last as int]@);
    if !parts[last].as_str().is_empty() {
        let ghost earlier = out@;
        out.push(parts[last].clone());
        assert(texts(out@) =~= texts(earlier).push(parts@[last as int]@));
    }
    out
}

/// Whether the text begins with the prefix.
pub open spec fn begins_with(s: Seq<char>, prefix: Seq<char>) -> bool {
    s.len() >= prefix.len() && s.take(prefix.len() as int) == prefix
}

/// What stands behind the prefix, where the text begins with it.
pub fn after_prefix(text: &str, prefix: &str) -> (r: Option<String>)
    ensures
        r is Some <==> begins_with(text@, prefix@),
        r matches Some(rest) ==> rest@ == text@.skip(prefix@.len() as int),
{
    let chars: Vec<char> = chars_of(text);
    let wanted: Vec<char> = chars_of(prefix);
    if chars.len() < wanted.len() {
        return None;
    }
    let mut i: usize = 0;
    while i < wanted.len()
        invariant
            i <= wanted@.len() <= chars@.len(),
            chars@ == text@,
            wanted@ == prefix@,
            forall|k: int| 0 <= k < i ==> chars@[k] == wanted@[k],
        decreases wanted@.len() - i,
    {
        if chars[i] != wanted[i] {
            assert(text@.take(prefix@.len() as int)[i as int] != prefix@[i as int]);
            return None;
        }
        i = i + 1;
    }
    assert(text@.take(prefix@.len() as int) =~= prefix@);
    let rest: String = text_of(&chars, wanted.len(), chars.len());
    assert(rest@ =~= text@.skip(prefix@.len() as int));
    Some(rest)
}

/// The capital of an ASCII letter, any other character as it is.
pub open spec fn upper_char(c: char) -> int {
    if 'a' <= c <= 'z' {
        c as int - 32
    } else {
        c as int
    }
}

/// Whether two texts are equal but for the case of ASCII letters.
pub open spec fn same_ignoring_case(a: Seq<char>, b: Seq<char>) -> bool {
    a.len() == b.len() && forall|i: int|
        0 <= i < a.len() ==> upper_char(#[trigger] a[i]) == upper_char(b[i])
}

fn upper_code(c: char) -> (r: u32)
    ensures
        r == upper_char(c),
{
    if 'a' <= c && c <= 'z' {
        c as u32 - 32
    } else {
        c as u32
    }
}

pub fn eq_ignore_case(a: &str, b: &str) -> (r: bool)
    ensures
        r == same_ignoring_case(a@, b@),
{
    let left: Vec<char> = chars_of(a);
    let right: Vec<char> = chars_of(b);
    if left.len() != right.len() {
        return false;
    }
    let mut i: usize = 0;
    while i < left.len()
        invariant
            i <= left@.len(),
            left@.len() == right@.len(),
            left@ == a@,
            right@ == b@,
            forall|k: int| 0 <= k < i ==> upper_char(#[trigger] left@[k]) == upper_char(right@[k]),
        decreases left@.len() - i,
    {
        if upper_code(left[i]) != upper_code(right[i]) {
            return false;
        }
        i = i + 1;
    }
    true
}

/// Whether the character is an ASCII digit.
pub open spec fn is_digit(c: char) -> bool {
    '0' <= c <= '9'
}

pub open spec fn all_digits(s: Seq<char>) -> bool {
    forall|i: int| 0 <= i < s.len() ==> is_digit(#[trigger] s[i])
}

/// The number that a run of digits writes.
pub open spec fn number_value(s: Seq<char>) -> nat
    decreases s.len(),
{
    if s.len() == 0 {
        0
    } else {
        number_value(s.drop_last()) * 10 + (s.last() as nat - '0' as nat) as nat
    }
}

/// The digits behind an optional plus sign.
pub open spec fn unsigned_digits(s: Seq<char>) -> Seq<char> {
    if s.len() > 0 && s[0] == '+' {
        s.drop_first()
    } else {
        s
    }
}

/// The number that the text writes, where it is one and not above `max`.
pub open spec fn read_unsigned(s: Seq<char>, max: int) -> Option<int> {
    let digits = unsigned_digits(s);
    if digits.len() > 0 && all_digits(digits) && number_value(digits) <= max {
        Some(number_value(digits) as int)
    } else {
        None
    }
}

/// The signed number that the text writes, where it is one within the bounds.
pub open spec fn read_signed(s: Seq<char>, min: int, max: int) -> Option<int> {
    if s.len() > 0 && s[0] == '-' {
        let digits = s.drop_first();
        if digits.len() > 0 && all_digits(digits) && number_value(digits) <= -min {
            Some(-(number_value(digits) as int))
        } else {
            None
        }
    } else {
        read_unsigned(s, max)
    }
}

/// The digits from `from` on, where they write a number not above `max`.
fn read_digits(chars: &Vec<char>, from: usize, max: u64) -> (r: Option<u64>)
    requires
        from <= chars@.len(),
    ensures
        ({
            let digits = chars@.skip(from as int);
            let valid = digits.len() > 0 && all_digits(digits) && number_value(digits) <= max;
            &&& r is Some <==> valid
            &&& r matches Some(value) ==> value == number_value(digits)
        }),
{
    let ghost digits = chars@.skip(from as int);
    if from == chars.len() {
        return None;
    }
    let mut value: u128 = 0;
    let mut over: bool = false;
    let mut i: usize = from;
    assert(digits.take(0) =~= Seq::<char>::empty());
    while i < chars.len()
        invariant
            from <= i <= chars@.len(),
            digits == chars@.skip(from as int),
            all_digits(digits.take(i - from)),
            !over ==> value == number_value(digits.take(i - from)) && value <= max,
            over ==> number_value(digits.take(i - from)) > max,
        decreases chars@.len() - i,
    {
        let c: char = chars[i];
        let ghost next = digits.take(i - from + 1);
        assert(next.drop_last() =~= digits.take(i - from));
        assert(next.last() == c);
        if !('0' <= c && c <= '9') {
            assert(!is_digit(digits[i - from]));
            return None;
        }
        assert forall|k: int| 0 <= k < next.len() implies is_digit(#[trigger] next[k]) by {
            if k < i - from {
                assert(next[k] == digits.take(i - from)[k]);
            }
        }
        if !over {
            let digit: u128 = (c as u32 - '0' as u32) as u128;
            value = value * 10 + digit;
            if value > max as u128 {
                over = true;
            }
        }
        i = i + 1;
    }
    assert(digits.take(i - from) =~= digits);
    if over {
        None
    } else {
        Some(value as u64)
    }
}

fn read_unsigned_text(text: &str, max: u64) -> (r: Option<u64>)
    ensures
        r is Some <==> read_unsigned(text@, max as int) is Some,
        r matches Some(value) ==> read_unsigned(text@, max as int) == Some(value as int),
{
    let chars: Vec<char> = chars_of(text);
    let from: usize = if chars.len() > 0 && chars[0] == '+' {
        1
    } else {
        0
    };
    assert(chars@.skip(from as int) =~= unsigned_digits(text@));
    read_digits(&chars, from, max)
}

pub fn parse_u64(text: &str) -> (r: Option<u64>)
    ensures
        r is Some <==> read_unsigned(text@, u64::MAX as int) is Some,
        r matches Some(value) ==> read_unsigned(text@, u64::MAX as int) == Some(value as int),
{
    read_unsigned_text(text, u64::MAX)
}

pub fn parse_usize(text: &str) -> (r: Option<usize>)
    ensures
        r is Some <==> read_unsigned(text@, usize::MAX as int) is Some,
        r matches Some(value) ==> read_unsigned(text@, usize::MAX as int) == Some(value as int),
{
    match read_unsigned_text(text, usize::MAX as u64) {
        Some(value) => Some(value as usize),
        None => None,
    }
}

pub fn parse_u16(text: &str) -> (r: Option<u16>)
    ensures
        r is Some <==> read_unsigned(text@, u16::MAX as int) is Some,
        r matches Some(value) ==> read_unsigned(text@, u16::MAX as int) == Some(value as int),
{
    match read_unsigned_text(text, 65_535) {
        Some(value) => Some(value as u16),
        None => None,
    }
}

pub fn parse_u8(text: &str) -> (r: Option<u8>)
    ensures
        r is Some <==> read_unsigned(text@, u8::MAX as int) is Some,
        r matches Some(value) ==> read_unsigned(text@, u8::MAX as int) == Some(value as int),
{
    match read_unsigned_text(text, 255) {
        Some(value) => Some(value as u8),
        None => None,
    }
}

pub fn parse_i64(text: &str) -> (r: Option<i64>)
    ensures
        r is Some <==> read_signed(text@, i64::MIN as int, i64::MAX as int) is Some,
        r matches Some(value) ==> read_signed(text@, i64::MIN as int, i64::MAX as int) == Some(
            value as int,
        ),
{
    let chars: Vec<char> = chars_of(text);
    if chars.len() > 0 && chars[0] == '-' {
        assert(chars@.skip(1) =~= text@.drop_first());
        match read_digits(&chars, 1, 9_223_372_036_854_775_808) {
            Some(value) => Some((0i128 - value as i128) as i64),
            None => None,
        }
    } else {
        match read_unsigned_text(text, 9_223_372_036_854_775_807) {
            Some(value) => Some(value as i64),
            None => None,
        }
    }
}

pub fn parse_i32(text: &str) -> (r: Option<i32>)
    ensures
        r is Some <==> read_signed(text@, i32::MIN as int, i32::MAX as int) is Some,
        r matches Some(value) ==> read_signed(text@, i32::MIN as int, i32::MAX as int) == Some(
            value as int,
        ),
{
    match parse_i64(text) {
        Some(value) => if value >= -2_147_483_648 && value <= 2_147_483_647 {
            Some(value as i32)
        } else {
            None
        },
        None => None,
    }
}

/// The truth value that the text writes.
pub open spec fn read_bool(s: Seq<char>) -> Option<bool> {
    if s == "true"@ {
        Some(true)
    } else if s == "false"@ {
        Some(false)
    } else {
        None
    }
}

pub fn parse_bool(text: &str) -> (r: Option<bool>)
    ensures
        r == read_bool(text@),
{
    if same_text(text, "true") {
        Some(true)
    } else if same_text(text, "false") {
        Some(false)
    } else {
        None
    }
}

/// The digit of a number below ten.
pub open spec fn digit_char(d: nat) -> char {
    ('0' as nat + d) as char
}

/// A number in decimal digits, without leading zeros.
pub open spec fn decimal(n: nat) -> Seq<char>
    decreases n,
{
    if n < 10 {
        seq![digit_char(n)]
    } else {
        decimal(n / 10).push(digit_char(n % 10))
    }
}

/// A signed number in decimal digits.
pub open spec fn signed_decimal(n: int) -> Seq<char> {
    if n < 0 {
        seq!['-'] + decimal((-n) as nat)
    } else {
        decimal(n as nat)
    }
}

/// The decimal digits of a number write that number.
pub proof fn decimal_reads_back(n: nat)
    ensures
        decimal(n).len() > 0,
        all_digits(decimal(n)),
        number_value(decimal(n)) == n,
    decreases n,
{
    if n < 10 {
        let s = decimal(n);
        assert(s.drop_last() =~= Seq::<char>::empty());
        assert(s.last() == digit_char(n));
        assert(number_value(Seq::<char>::empty()) == 0);
    } else {
        decimal_reads_back(n / 10);
        let s = decimal(n);
        assert(s.drop_last() =~= decimal(n / 10));
        assert(s.last() == digit_char(n % 10));
        assert forall|i: int| 0 <= i < s.len() implies is_digit(#[trigger] s[i]) by {
            if i < s.len() - 1 {
                assert(s[i] == decimal(n / 10)[i]);
            }
        }
    }
}

/// Reading a written signed number gives that number back.
pub proof fn signed_decimal_reads_back(n: int, min: int, max: int)
    requires
        min <= n <= max,
        min <= 0,
    ensures
        read_signed(signed_decimal(n), min, max) == Some(n),
{
    if n < 0 {
        decimal_reads_back((-n) as nat);
        assert(signed_decimal(n).drop_first() =~= decimal((-n) as nat));
    } else {
        decimal_reads_back(n as nat);
        let s = decimal(n as nat);
        assert(is_digit(s[0]));
        assert(unsigned_digits(s) == s);
    }
}

fn digit_of(d: u64) -> (r: char)
    requires
        d < 10,
    ensures
        r == digit_char(d as nat),
{
    if d == 0 {
        '0'
    } else if d == 1 {
        '1'
    } else if d == 2 {
        '2'
    } else if d == 3 {
        '3'
    } else if d == 4 {
        '4'
    } else if d == 5 {
        '5'
    } else if d == 6 {
        '6'
    } else if d == 7 {
        '7'
    } else if d == 8 {
        '8'
    } else {
        '9'
    }
}

pub fn decimal_text(value: u64) -> (r: String)
    ensures
        r@ == decimal(value as nat),
    decreases value,
{
    let mut out: String = if value < 10 {
        String::new()
    } else {
        decimal_text(value / 10)
    };
    push_char(&mut out, digit_of(value % 10));
    assert(value < 10 ==> out@ =~= seq![digit_char(value as nat)]);
    out
}

pub fn signed_decimal_text(value: i64) -> (r: String)
    ensures
        r@ == signed_decimal(value as int),
{
    if value < 0 {
        let mut out: String = String::new();
        push_char(&mut out, '-');
        let magnitude: u64 = (0i128 - value as i128) as u64;
        let digits: String = decimal_text(magnitude);
        out.append(digits.as_str());
        assert(out@ =~= seq!['-'] + decimal(magnitude as nat));
        out
    } else {
        decimal_text(value as u64)
    }
}

/// The length of a text in bytes.
pub open spec fn byte_len(s: Seq<char>) -> nat {
    vstd::utf8::encode_utf8(s).len()
}

pub fn bytes_in(text: &str) -> (r: usize)
    ensures
        r == byte_len(text@),
{
    text.as_bytes().len()
}

/// An owned copy.
pub fn owned(text: &str) -> (r: String)
    ensures
        r@ == text@,
{
    text.to_owned()
}

/// The two texts behind each other.
pub fn joined(a: &str, b: &str) -> (r: String)
    ensures
        r@ == a@ + b@,
{
    let mut out: String = a.to_owned();
    out.append(b);
    out
}

} // verus!
