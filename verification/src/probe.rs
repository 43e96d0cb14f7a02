//! Readings of the process, taken out of the texts that the system shows.

use crate::stats::ProbeSnapshot;
use crate::text;
use crate::text::{
    after_prefix, chars_of, joined, lines, parse_u64, same_text, split, text_of, trim, words, Cut,
};
use vstd::prelude::*;
use vstd::string::*;

verus! {

broadcast use vstd::string::group_string_axioms;

/// From this value on a memory limit stands for none.
pub const UNLIMITED_FROM: u64 = 1_152_921_504_606_846_976;

/// The limit that the text writes, where it is one.
pub open spec fn finite_limit(s: Seq<char>) -> Option<int> {
    match text::read_unsigned(text::trimmed(s), u64::MAX as int) {
        Some(value) => if value < UNLIMITED_FROM {
            Some(value)
        } else {
            None
        },
        None => None,
    }
}

pub fn parse_finite_limit(value: &str) -> (r: Option<u64>)
    ensures
        r is Some <==> finite_limit(value@) is Some,
        r matches Some(limit) ==> finite_limit(value@) == Some(limit as int),
{
    match parse_u64(trim(value).as_str()) {
        Some(limit) => if limit < UNLIMITED_FROM {
            Some(limit)
        } else {
            None
        },
        None => None,
    }
}

/// What stands behind the prefix in the first line that begins with it.
pub open spec fn first_after(all: Seq<Seq<char>>, prefix: Seq<char>) -> Option<Seq<char>>
    decreases all.len(),
{
    if all.len() == 0 {
        None
    } else if text::begins_with(all[0], prefix) {
        Some(all[0].skip(prefix.len() as int))
    } else {
        first_after(all.drop_first(), prefix)
    }
}

fn find_after(input: &str, prefix: &str) -> (r: Option<String>)
    ensures
        r is Some <==> first_after(text::lines_of(input@), prefix@) is Some,
        r matches Some(rest) ==> first_after(text::lines_of(input@), prefix@) == Some(rest@),
{
    let all: Vec<String> = lines(input);
    let ghost shown = text::lines_of(input@);
    let mut i: usize = 0;
    assert(shown.skip(0) =~= shown);
    while i < all.len()
        invariant
            i <= all@.len(),
            text::texts(all@) == shown,
            shown == text::lines_of(input@),
            first_after(shown, prefix@) == first_after(shown.skip(i as int), prefix@),
        decreases all@.len() - i,
    {
        assert(text::texts(all@)[i as int] == all@[i as int]@);
        assert(shown.skip(i as int)[0] == shown[i as int]);
        assert(shown.skip(i as int).drop_first() =~= shown.skip(i + 1));
        match after_prefix(all[i].as_str(), prefix) {
            Some(rest) => {
                return Some(rest);
            },
            None => {},
        }
        i = i + 1;
    }
    assert(shown.skip(i as int).len() == 0);
    None
}

/// The first word of a text as a number.
pub open spec fn first_number(s: Seq<char>) -> Option<int> {
    let all = text::words_of(s);
    if all.len() == 0 {
        None
    } else {
        text::read_unsigned(all[0], u64::MAX as int)
    }
}

fn read_first_number(input: &str) -> (r: Option<u64>)
    ensures
        r is Some <==> first_number(input@) is Some,
        r matches Some(value) ==> first_number(input@) == Some(value as int),
{
    let all: Vec<String> = words(input);
    assert(text::texts(all@).len() == all@.len());
    if all.len() == 0 {
        None
    } else {
        assert(text::texts(all@)[0] == all@[0]@);
        parse_u64(all[0].as_str())
    }
}

/// The bytes of a field that is shown in units of 1024.
pub open spec fn kib_field(input: Seq<char>, field: Seq<char>) -> Option<int> {
    match first_after(text::lines_of(input), field) {
        Some(rest) => match first_number(rest) {
            Some(value) => if value * 1024 <= u64::MAX {
                Some(value * 1024)
            } else {
                None
            },
            None => None,
        },
        None => None,
    }
}

pub fn parse_kib_field(input: &str, field: &str) -> (r: Option<u64>)
    ensures
        r is Some <==> kib_field(input@, field@) is Some,
        r matches Some(value) ==> kib_field(input@, field@) == Some(value as int),
{
    match find_after(input, field) {
        Some(rest) => match read_first_number(rest.as_str()) {
            Some(value) => value.checked_mul(1024),
            None => None,
        },
        None => None,
    }
}

/// Whether each of the words writes a number.
pub open spec fn all_numbers(all: Seq<Seq<char>>) -> bool {
    forall|i: int|
        0 <= i < all.len() ==> text::read_unsigned(#[trigger] all[i], u64::MAX as int) is Some
}

pub open spec fn number_at(all: Seq<Seq<char>>, i: int) -> int {
    text::read_unsigned(all[i], u64::MAX as int)->0
}

/// The sum of the numbers.
pub open spec fn total_of(all: Seq<Seq<char>>) -> int
    decreases all.len(),
{
    if all.len() == 0 {
        0
    } else {
        total_of(all.drop_last()) + number_at(all, all.len() - 1)
    }
}

/// At most the first eight fields.
pub open spec fn cpu_fields(rest: Seq<char>) -> Seq<Seq<char>> {
    let all = text::words_of(rest);
    if all.len() > 8 {
        all.take(8)
    } else {
        all
    }
}

/// Busy time and total time, where at least five fields are shown and their
/// sum fits.
pub open spec fn system_cpu(input: Seq<char>) -> Option<(int, int)> {
    match first_after(text::lines_of(input), "cpu "@) {
        Some(rest) => {
            let fields = cpu_fields(rest);
            if all_numbers(fields) && fields.len() >= 5 && total_of(fields) <= u64::MAX {
                Some(
                    (
                        total_of(fields) - (number_at(fields, 3) + number_at(fields, 4)),
                        total_of(fields),
                    ),
                )
            } else {
                None
            }
        },
        None => None,
    }
}

proof fn lemma_total_at_least(all: Seq<Seq<char>>, n: int)
    requires
        all_numbers(all),
        5 <= n <= all.len(),
    ensures
        total_of(all.take(n)) >= number_at(all, 3) + number_at(all, 4),
    decreases n,
{
    let part = all.take(n);
    assert(part.drop_last() =~= all.take(n - 1));
    assert(number_at(part, n - 1) == number_at(all, n - 1));
    assert(text::read_unsigned(all[n - 1], u64::MAX as int) is Some);
    if n > 5 {
        lemma_total_at_least(all, n - 1);
    } else {
        lemma_total_not_negative(all, 3);
        let before = all.take(4);
        assert(before.drop_last() =~= all.take(3));
        assert(number_at(before, 3) == number_at(all, 3));
    }
}

proof fn lemma_total_not_negative(all: Seq<Seq<char>>, n: int)
    requires
        all_numbers(all),
        0 <= n <= all.len(),
    ensures
        total_of(all.take(n)) >= 0,
    decreases n,
{
    if n > 0 {
        let part = all.take(n);
        assert(part.drop_last() =~= all.take(n - 1));
        assert(number_at(part, n - 1) == number_at(all, n - 1));
        assert(text::read_unsigned(all[n - 1], u64::MAX as int) is Some);
        lemma_total_not_negative(all, n - 1);
    }
}

/// Totals only grow.
proof fn lemma_total_grows(all: Seq<Seq<char>>, n: int)
    requires
        all_numbers(all),
        0 <= n <= all.len(),
    ensures
        total_of(all.take(n)) <= total_of(all),
    decreases all.len() - n,
{
    assert(all.take(all.len() as int) =~= all);
    if n < all.len() {
        let part = all.take(n + 1);
        assert(part.drop_last() =~= all.take(n));
        assert(number_at(part, n) == number_at(all, n));
        assert(text::read_unsigned(all[n], u64::MAX as int) is Some);
        lemma_total_grows(all, n + 1);
    }
}

pub fn parse_system_cpu(input: &str) -> (r: Option<(u64, u64)>)
    ensures
        r is Some <==> system_cpu(input@) is Some,
        r matches Some((busy, total)) ==> system_cpu(input@) == Some((busy as int, total as int)),
{
    let rest: String = match find_after(input, "cpu ") {
        Some(rest) => rest,
        None => {
            return None;
        },
    };
    let all: Vec<String> = words(rest.as_str());
    let ghost fields = cpu_fields(rest@);
    assert(text::texts(all@).len() == all@.len());
    let count: usize = if all.len() > 8 {
        8
    } else {
        all.len()
    };
    let mut numbers: Vec<u64> = Vec::new();
    let mut i: usize = 0;
    while i < count
        invariant
            i <= count <= all@.len(),
            fields.len() == count,
            fields == cpu_fields(rest@),
            first_after(text::lines_of(input@), "cpu "@) == Some(rest@),
            numbers@.len() == i,
            forall|k: int| 0 <= k < count ==> #[trigger] fields[k] == all@[k]@,
            forall|k: int|
                0 <= k < i ==> text::read_unsigned(#[trigger] fields[k], u64::MAX as int) == Some(
                    numbers@[k] as int,
                ),
        decreases count - i,
    {
        match parse_u64(all[i].as_str()) {
            Some(value) => {
                assert(fields[i as int] == all@[i as int]@);
                numbers.push(value);
            },
            None => {
                assert(fields[i as int] == all@[i as int]@);
                assert(!all_numbers(fields));
                return None;
            },
        }
        i = i + 1;
    }
    assert(all_numbers(fields));
    if numbers.len() < 5 {
        return None;
    }
    let mut total: u64 = 0;
    let mut k: usize = 0;
    assert(fields.take(0) =~= Seq::<Seq<char>>::empty());
    while k < numbers.len()
        invariant
            k <= numbers@.len(),
            numbers@.len() == fields.len(),
            all_numbers(fields),
            forall|j: int|
                0 <= j < fields.len() ==> text::read_unsigned(#[trigger] fields[j], u64::MAX as int)
                    == Some(numbers@[j] as int),
            total == total_of(fields.take(k as int)),
            system_cpu(input@) is Some ==> total_of(fields) <= u64::MAX,
            fields == cpu_fields(rest@),
            first_after(text::lines_of(input@), "cpu "@) == Some(rest@),
        decreases numbers@.len() - k,
    {
        proof {
            let part = fields.take(k + 1);
            assert(part.drop_last() =~= fields.take(k as int));
            assert(part[k as int] == fields[k as int]);
            assert(number_at(part, k as int) == numbers@[k as int]);
            lemma_total_grows(fields, k + 1);
        }
        match total.checked_add(numbers[k]) {
            Some(sum) => {
                total = sum;
            },
            None => {
                return None;
            },
        }
        k = k + 1;
    }
    proof {
        assert(fields.take(k as int) =~= fields);
        lemma_total_at_least(fields, fields.len() as int);
        assert(number_at(fields, 3) == numbers@[3]);
        assert(number_at(fields, 4) == numbers@[4]);
    }
    let idle: u64 = numbers[3] + numbers[4];
    Some((total - idle, total))
}

/// What stands behind leading slashes.
pub open spec fn without_slashes(s: Seq<char>) -> Seq<char>
    decreases s.len(),
{
    if s.len() > 0 && s[0] == '/' {
        without_slashes(s.drop_first())
    } else {
        s
    }
}

fn strip_slashes(input: &str) -> (r: String)
    ensures
        r@ == without_slashes(input@),
{
    let chars: Vec<char> = chars_of(input);
    let mut i: usize = 0;
    assert(chars@.skip(0) =~= chars@);
    while i < chars.len() && chars[i] == '/'
        invariant
            i <= chars@.len(),
            without_slashes(chars@) == without_slashes(chars@.skip(i as int)),
        decreases chars@.len() - i,
    {
        assert(chars@.skip(i as int).drop_first() =~= chars@.skip(i + 1));
        i = i + 1;
    }
    assert(chars@.skip(i as int) =~= chars@.subrange(i as int, chars@.len() as int));
    text_of(&chars, i, chars.len())
}

/// The three fields of a line of the hierarchy listing; the third is all that
/// stands behind the second colon.
pub open spec fn hierarchy_fields(line: Seq<char>) -> Option<(Seq<char>, Seq<char>, Seq<char>)> {
    let parts = text::pieces(line, Cut::At(':'));
    if parts.len() < 3 {
        None
    } else {
        Some((parts[0], parts[1], line.skip((parts[0].len() + parts[1].len() + 2) as int)))
    }
}

proof fn lemma_pieces_fit(s: Seq<char>, cut: Cut)
    ensures
        text::pieces(s, cut).len() >= 1,
        text::pieces(s, cut).len() >= 2 ==> text::pieces(s, cut)[0].len() + 1 <= s.len(),
        text::pieces(s, cut).len() >= 3 ==> text::pieces(s, cut)[0].len() + text::pieces(
            s,
            cut,
        )[1].len() + 2 <= s.len(),
        text::pieces(s, cut).len() == 1 ==> text::pieces(s, cut)[0].len() <= s.len(),
        text::pieces(s, cut).len() == 2 ==> text::pieces(s, cut)[0].len() + text::pieces(
            s,
            cut,
        )[1].len() + 1 <= s.len(),
    decreases s.len(),
{
    if s.len() > 0 {
        lemma_pieces_fit(s.drop_last(), cut);
    }
}

fn read_hierarchy_fields(line: &str) -> (r: Option<(String, String, String)>)
    ensures
        r is Some <==> hierarchy_fields(line@) is Some,
        r matches Some((a, b, c)) ==> hierarchy_fields(line@) == Some((a@, b@, c@)),
{
    let parts: Vec<String> = split(line, Cut::At(':'));
    assert(text::texts(parts@).len() == parts@.len());
    if parts.len() < 3 {
        return None;
    }
    proof {
        lemma_pieces_fit(line@, Cut::At(':'));
        assert(text::texts(parts@)[0] == parts@[0]@);
        assert(text::texts(parts@)[1] == parts@[1]@);
    }
    let chars: Vec<char> = chars_of(line);
    let total: usize = chars.len();
    let first: usize = chars_of(parts[0].as_str()).len();
    let second: usize = chars_of(parts[1].as_str()).len();
    assert(first == text::pieces(line@, Cut::At(':'))[0].len());
    assert(second == text::pieces(line@, Cut::At(':'))[1].len());
    assert(first + second + 2 <= chars@.len());
    let from: usize = first + second + 2;
    let rest: String = text_of(&chars, from, total);
    assert(rest@ =~= line@.skip(from as int));
    Some((parts[0].clone(), parts[1].clone(), rest))
}

/// Whether the word is among the pieces.
pub open spec fn names(parts: Seq<Seq<char>>, word: Seq<char>) -> bool {
    exists|i: int| 0 <= i < parts.len() && #[trigger] parts[i] == word
}

fn names_controller(controllers: &str, word: &str) -> (r: bool)
    ensures
        r == names(text::pieces(controllers@, Cut::At(',')), word@),
{
    let parts: Vec<String> = split(controllers, Cut::At(','));
    let ghost shown = text::pieces(controllers@, Cut::At(','));
    let mut i: usize = 0;
    while i < parts.len()
        invariant
            i <= parts@.len(),
            text::texts(parts@) == shown,
            shown == text::pieces(controllers@, Cut::At(',')),
            forall|k: int| 0 <= k < i ==> #[trigger] shown[k] != word@,
        decreases parts@.len() - i,
    {
        assert(text::texts(parts@)[i as int] == parts@[i as int]@);
        if same_text(parts[i].as_str(), word) {
            assert(shown[i as int] == word@);
            return true;
        }
        i = i + 1;
    }
    false
}

/// The two generations of control groups.
#[derive(Clone, Copy, Debug, PartialEq, Eq, Structural)]
pub enum GroupVersion {
    V1,
    V2,
}

/// The path that a line gives for the generation.
pub open spec fn line_path(line: Seq<char>, version: GroupVersion) -> Option<Seq<char>> {
    match hierarchy_fields(line) {
        Some((hierarchy, controllers, path)) => {
            let wanted = match version {
                GroupVersion::V2 => hierarchy == "0"@ && controllers.len() == 0,
                GroupVersion::V1 => names(text::pieces(controllers, Cut::At(',')), "memory"@),
            };
            if wanted {
                Some(without_slashes(path))
            } else {
                None
            }
        },
        None => None,
    }
}

/// The path in the first line that gives one.
pub open spec fn first_path(all: Seq<Seq<char>>, version: GroupVersion) -> Option<Seq<char>>
    decreases all.len(),
{
    if all.len() == 0 {
        None
    } else if line_path(all[0], version) is Some {
        line_path(all[0], version)
    } else {
        first_path(all.drop_first(), version)
    }
}

fn read_line_path(line: &str, version: GroupVersion) -> (r: Option<String>)
    ensures
        r is Some <==> line_path(line@, version) is Some,
        r matches Some(path) ==> line_path(line@, version) == Some(path@),
{
    match read_hierarchy_fields(line) {
        Some((hierarchy, controllers, path)) => {
            let wanted: bool = match version {
                GroupVersion::V2 => same_text(hierarchy.as_str(), "0")
                    && controllers.as_str().is_empty(),
                GroupVersion::V1 => names_controller(controllers.as_str(), "memory"),
            };
            if wanted {
                Some(strip_slashes(path.as_str()))
            } else {
                None
            }
        },
        None => None,
    }
}

fn find_path(contents: &str, version: GroupVersion) -> (r: Option<String>)
    ensures
        r is Some <==> first_path(text::lines_of(contents@), version) is Some,
        r matches Some(path) ==> first_path(text::lines_of(contents@), version) == Some(path@),
{
    let all: Vec<String> = lines(contents);
    let ghost shown = text::lines_of(contents@);
    let mut i: usize = 0;
    assert(shown.skip(0) =~= shown);
    while i < all.len()
        invariant
            i <= all@.len(),
            text::texts(all@) == shown,
            shown == text::lines_of(contents@),
            first_path(shown, version) == first_path(shown.skip(i as int), version),
        decreases all@.len() - i,
    {
        assert(text::texts(all@)[i as int] == all@[i as int]@);
        assert(shown.skip(i as int)[0] == shown[i as int]);
        assert(shown.skip(i as int).drop_first() =~= shown.skip(i + 1));
        match read_line_path(all[i].as_str(), version) {
            Some(path) => {
                return Some(path);
            },
            None => {},
        }
        i = i + 1;
    }
    assert(shown.skip(i as int).len() == 0);
    None
}

/// A relative path put behind a directory.
pub open spec fn path_join(directory: Seq<char>, path: Seq<char>) -> Seq<char> {
    if directory.len() == 0 || directory.last() == '/' {
        directory + path
    } else {
        directory + "/"@ + path
    }
}

fn join_path(directory: &str, path: &str) -> (r: String)
    ensures
        r@ == path_join(directory@, path@),
{
    let chars: Vec<char> = chars_of(directory);
    if chars.len() == 0 || chars[chars.len() - 1] == '/' {
        joined(directory, path)
    } else {
        joined(joined(directory, "/").as_str(), path)
    }
}

/// The file that holds the memory limit of the process.
pub open spec fn limit_file(hierarchy: Option<Seq<char>>, version: GroupVersion) -> Seq<char> {
    let directory = match version {
        GroupVersion::V2 => "/sys/fs/cgroup"@,
        GroupVersion::V1 => "/sys/fs/cgroup/memory"@,
    };
    let file = match version {
        GroupVersion::V2 => "memory.max"@,
        GroupVersion::V1 => "memory.limit_in_bytes"@,
    };
    match hierarchy {
        Some(contents) => match first_path(text::lines_of(contents), version) {
            Some(path) => path_join(path_join(directory, path), file),
            None => directory + "/"@ + file,
        },
        None => directory + "/"@ + file,
    }
}

pub open spec fn text_in(value: Option<&str>) -> Option<Seq<char>> {
    match value {
        Some(value) => Some(value@),
        None => None,
    }
}

/// The file to read the limit from, given the hierarchy listing of the process
/// where it could be read.
pub fn memory_limit_file(hierarchy: Option<&str>, version: GroupVersion) -> (r: String)
    ensures
        r@ == limit_file(text_in(hierarchy), version),
{
    let directory: &str = match version {
        GroupVersion::V2 => "/sys/fs/cgroup",
        GroupVersion::V1 => "/sys/fs/cgroup/memory",
    };
    let file: &str = match version {
        GroupVersion::V2 => "memory.max",
        GroupVersion::V1 => "memory.limit_in_bytes",
    };
    let path: Option<String> = match hierarchy {
        Some(contents) => find_path(contents, version),
        None => None,
    };
    match path {
        Some(path) => join_path(join_path(directory, path.as_str()).as_str(), file),
        None => joined(joined(directory, "/").as_str(), file),
    }
}

/// The limit: that of the newer generation before that of the older.
pub open spec fn chosen_limit(v2: Option<Seq<char>>, v1: Option<Seq<char>>) -> Option<int> {
    let newer = match v2 {
        Some(value) => finite_limit(value),
        None => None,
    };
    if newer is Some {
        newer
    } else {
        match v1 {
            Some(value) => finite_limit(value),
            None => None,
        }
    }
}

pub fn cgroup_memory_limit(v2: Option<&str>, v1: Option<&str>) -> (r: Option<u64>)
    ensures
        r is Some <==> chosen_limit(text_in(v2), text_in(v1)) is Some,
        r matches Some(limit) ==> chosen_limit(text_in(v2), text_in(v1)) == Some(limit as int),
{
    let newer: Option<u64> = match v2 {
        Some(value) => parse_finite_limit(value),
        None => None,
    };
    match newer {
        Some(limit) => Some(limit),
        None => match v1 {
            Some(value) => parse_finite_limit(value),
            None => None,
        },
    }
}

/// The texts that the system shows, each where it could be read.
pub struct ProbeTexts<'a> {
    /// The status of the process.
    pub status: Option<&'a str>,
    /// The memory of the machine.
    pub meminfo: Option<&'a str>,
    /// The processor times of the machine.
    pub stat: Option<&'a str>,
    /// The scheduling times of the process.
    pub schedstat: Option<&'a str>,
    /// The limit of the newer generation of control groups.
    pub limit_v2: Option<&'a str>,
    /// The limit of the older generation.
    pub limit_v1: Option<&'a str>,
}

/// A number that came out of a text, where there was one.
pub open spec fn is_reading(value: Option<u64>, expected: Option<int>) -> bool {
    match value {
        Some(value) => expected == Some(value as int),
        None => expected is None,
    }
}

pub open spec fn optional_field(contents: Option<&str>, field: Seq<char>) -> Option<int> {
    match contents {
        Some(contents) => kib_field(contents@, field),
        None => None,
    }
}

/// The smaller of two amounts, or the one that there is.
pub open spec fn smaller(a: Option<int>, b: Option<int>) -> Option<int> {
    match (a, b) {
        (Some(x), Some(y)) => Some(
            if x <= y {
                x
            } else {
                y
            },
        ),
        (Some(x), None) => Some(x),
        (None, y) => y,
    }
}

fn read_field(contents: Option<&str>, field: &str) -> (r: Option<u64>)
    ensures
        is_reading(r, optional_field(contents, field@)),
{
    match contents {
        Some(contents) => parse_kib_field(contents, field),
        None => None,
    }
}

/// One reading, put together from the texts.
pub fn native_probe(texts: &ProbeTexts<'_>) -> (r: ProbeSnapshot)
    ensures
        is_reading(r.resident_bytes, optional_field(texts.status, "VmRSS:"@)),
        is_reading(
            r.reservable_bytes,
            smaller(
                optional_field(texts.meminfo, "MemTotal:"@),
                chosen_limit(text_in(texts.limit_v2), text_in(texts.limit_v1)),
            ),
        ),
        match texts.stat {
            Some(contents) => match system_cpu(contents@) {
                Some((busy, total)) => is_reading(r.system_busy, Some(busy)) && is_reading(
                    r.system_total,
                    Some(total),
                ),
                None => r.system_busy is None && r.system_total is None,
            },
            None => r.system_busy is None && r.system_total is None,
        },
        match texts.schedstat {
            Some(contents) => is_reading(r.process_cpu_nanos, first_number(contents@)),
            None => r.process_cpu_nanos is None,
        },
{
    let resident_bytes: Option<u64> = read_field(texts.status, "VmRSS:");
    let physical: Option<u64> = read_field(texts.meminfo, "MemTotal:");
    let limit: Option<u64> = cgroup_memory_limit(texts.limit_v2, texts.limit_v1);
    let reservable_bytes: Option<u64> = match (physical, limit) {
        (Some(a), Some(b)) => if a <= b {
            Some(a)
        } else {
            Some(b)
        },
        (Some(a), None) => Some(a),
        (None, b) => b,
    };
    let cpu: Option<(u64, u64)> = match texts.stat {
        Some(contents) => parse_system_cpu(contents),
        None => None,
    };
    let process_cpu_nanos: Option<u64> = match texts.schedstat {
        Some(contents) => read_first_number(contents),
        None => None,
    };
    match cpu {
        Some((busy, total)) => ProbeSnapshot {
            resident_bytes,
            reservable_bytes,
            system_busy: Some(busy),
            system_total: Some(total),
            process_cpu_nanos,
        },
        None => ProbeSnapshot {
            resident_bytes,
            reservable_bytes,
            system_busy: None,
            system_total: None,
            process_cpu_nanos,
        },
    }
}

} // verus!
