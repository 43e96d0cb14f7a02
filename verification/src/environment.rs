//! Environment variables, as they were read at the start.

use crate::config::{Address, ConfigError};
use crate::text;
use crate::text::{parse_bool, parse_i32, parse_u16, parse_u64, parse_u8, parse_usize, same_text};
use vstd::prelude::*;

verus! {

/// A text that reads as a network address, and that address.
pub struct AddressText {
    pub text: String,
    pub address: Address,
}

/// One variable. Beside its value stand the readings of those of its texts, the
/// value itself and the entries of its comma-separated list, that are network
/// addresses.
pub struct EnvEntry {
    pub name: String,
    pub value: String,
    pub readings: Vec<AddressText>,
}

/// The address that a text reads as: that of its first reading.
pub open spec fn reading_of(readings: Seq<AddressText>, s: Seq<char>) -> Option<Address>
    decreases readings.len(),
{
    if readings.len() == 0 {
        None
    } else if readings[0].text@ == s {
        Some(readings[0].address)
    } else {
        reading_of(readings.drop_first(), s)
    }
}

pub fn find_reading(readings: &Vec<AddressText>, s: &str) -> (r: Option<Address>)
    ensures
        r == reading_of(readings@, s@),
{
    let mut i: usize = 0;
    assert(readings@.skip(0) =~= readings@);
    while i < readings.len()
        invariant
            i <= readings@.len(),
            reading_of(readings@, s@) == reading_of(readings@.skip(i as int), s@),
        decreases readings@.len() - i,
    {
        assert(readings@.skip(i as int)[0] == readings@[i as int]);
        assert(readings@.skip(i as int).drop_first() =~= readings@.skip(i + 1));
        if same_text(readings[i].text.as_str(), s) {
            return Some(readings[i].address);
        }
        i = i + 1;
    }
    assert(readings@.skip(i as int).len() == 0);
    None
}

/// The first entry with the name.
pub open spec fn entry_at(env: Seq<EnvEntry>, name: Seq<char>) -> Option<EnvEntry>
    decreases env.len(),
{
    if env.len() == 0 {
        None
    } else if env[0].name@ == name {
        Some(env[0])
    } else {
        entry_at(env.drop_first(), name)
    }
}

pub fn find_entry<'a>(env: &'a Vec<EnvEntry>, name: &'static str) -> (r: Option<&'a EnvEntry>)
    ensures
        r is Some <==> entry_at(env@, name@) is Some,
        r matches Some(entry) ==> entry_at(env@, name@) == Some(*entry),
{
    let mut i: usize = 0;
    assert(env@.skip(0) =~= env@);
    while i < env.len()
        invariant
            i <= env@.len(),
            entry_at(env@, name@) == entry_at(env@.skip(i as int), name@),
        decreases env@.len() - i,
    {
        assert(env@.skip(i as int)[0] == env@[i as int]);
        assert(env@.skip(i as int).drop_first() =~= env@.skip(i + 1));
        if same_text(env[i].name.as_str(), name) {
            return Some(&env[i]);
        }
        i = i + 1;
    }
    assert(env@.skip(i as int).len() == 0);
    None
}

/// The text of a variable.
pub open spec fn text_at(env: Seq<EnvEntry>, name: Seq<char>) -> Option<String> {
    match entry_at(env, name) {
        Some(entry) => Some(entry.value),
        None => None,
    }
}

pub fn env_text(env: &Vec<EnvEntry>, name: &'static str) -> (r: Option<String>)
    ensures
        r == text_at(env@, name@),
{
    match find_entry(env, name) {
        Some(entry) => Some(entry.value.clone()),
        None => None,
    }
}

/// The address of a variable.
pub open spec fn address_at(env: Seq<EnvEntry>, name: Seq<char>) -> Option<Address> {
    match entry_at(env, name) {
        Some(entry) => reading_of(entry.readings@, entry.value@),
        None => None,
    }
}

pub open spec fn bad_address(env: Seq<EnvEntry>, name: Seq<char>) -> bool {
    entry_at(env, name) matches Some(entry) && reading_of(
        entry.readings@,
        entry.value@,
    ) is None
}

/// The truth value of a variable.
pub open spec fn bool_at(env: Seq<EnvEntry>, name: Seq<char>) -> Option<bool> {
    match entry_at(env, name) {
        Some(entry) => text::read_bool(entry.value@),
        None => None,
    }
}

/// Whether the variable is there and no truth value.
pub open spec fn bad_bool(env: Seq<EnvEntry>, name: Seq<char>) -> bool {
    entry_at(env, name) matches Some(entry) && text::read_bool(entry.value@) is None
}

pub fn env_bool(env: &Vec<EnvEntry>, name: &'static str) -> (r: Result<Option<bool>, ConfigError>)
    ensures
        bad_bool(env@, name@) ==> crate::config::env_failed(r, name@),
        !bad_bool(env@, name@) ==> r == Ok::<Option<bool>, ConfigError>(bool_at(env@, name@)),
{
    match find_entry(env, name) {
        Some(entry) => match parse_bool(entry.value.as_str()) {
            Some(value) => Ok(Some(value)),
            None => Err(ConfigError::Environment(name)),
        },
        None => Ok(None),
    }
}

/// The number of a variable.
pub open spec fn u64_at(env: Seq<EnvEntry>, name: Seq<char>) -> Option<u64> {
    match entry_at(env, name) {
        Some(entry) => match text::read_unsigned(entry.value@, u64::MAX as int) {
            Some(value) => Some(value as u64),
            None => None,
        },
        None => None,
    }
}

/// Whether the variable is there and no such number.
pub open spec fn bad_u64(env: Seq<EnvEntry>, name: Seq<char>) -> bool {
    entry_at(env, name) matches Some(entry) && text::read_unsigned(entry.value@, u64::MAX as int) is None
}

pub fn env_u64(env: &Vec<EnvEntry>, name: &'static str) -> (r: Result<Option<u64>, ConfigError>)
    ensures
        bad_u64(env@, name@) ==> crate::config::env_failed(r, name@),
        !bad_u64(env@, name@) ==> r == Ok::<Option<u64>, ConfigError>(u64_at(env@, name@)),
{
    match find_entry(env, name) {
        Some(entry) => match parse_u64(entry.value.as_str()) {
            Some(value) => Ok(Some(value)),
            None => Err(ConfigError::Environment(name)),
        },
        None => Ok(None),
    }
}

/// The number of a variable.
pub open spec fn usize_at(env: Seq<EnvEntry>, name: Seq<char>) -> Option<usize> {
    match entry_at(env, name) {
        Some(entry) => match text::read_unsigned(entry.value@, usize::MAX as int) {
            Some(value) => Some(value as usize),
            None => None,
        },
        None => None,
    }
}

/// Whether the variable is there and no such number.
pub open spec fn bad_usize(env: Seq<EnvEntry>, name: Seq<char>) -> bool {
    entry_at(env, name) matches Some(entry) && text::read_unsigned(entry.value@, usize::MAX as int) is None
}

pub fn env_usize(env: &Vec<EnvEntry>, name: &'static str) -> (r: Result<Option<usize>, ConfigError>)
    ensures
        bad_usize(env@, name@) ==> crate::config::env_failed(r, name@),
        !bad_usize(env@, name@) ==> r == Ok::<Option<usize>, ConfigError>(usize_at(env@, name@)),
{
    match find_entry(env, name) {
        Some(entry) => match parse_usize(entry.value.as_str()) {
            Some(value) => Ok(Some(value)),
            None => Err(ConfigError::Environment(name)),
        },
        None => Ok(None),
    }
}

/// The number of a variable.
pub open spec fn u16_at(env: Seq<EnvEntry>, name: Seq<char>) -> Option<u16> {
    match entry_at(env, name) {
        Some(entry) => match text::read_unsigned(entry.value@, u16::MAX as int) {
            Some(value) => Some(value as u16),
            None => None,
        },
        None => None,
    }
}

/// Whether the variable is there and no such number.
pub open spec fn bad_u16(env: Seq<EnvEntry>, name: Seq<char>) -> bool {
    entry_at(env, name) matches Some(entry) && text::read_unsigned(entry.value@, u16::MAX as int) is None
}

pub fn env_u16(env: &Vec<EnvEntry>, name: &'static str) -> (r: Result<Option<u16>, ConfigError>)
    ensures
        bad_u16(env@, name@) ==> crate::config::env_failed(r, name@),
        !bad_u16(env@, name@) ==> r == Ok::<Option<u16>, ConfigError>(u16_at(env@, name@)),
{
    match find_entry(env, name) {
        Some(entry) => match parse_u16(entry.value.as_str()) {
            Some(value) => Ok(Some(value)),
            None => Err(ConfigError::Environment(name)),
        },
        None => Ok(None),
    }
}

/// The number of a variable.
pub open spec fn u8_at(env: Seq<EnvEntry>, name: Seq<char>) -> Option<u8> {
    match entry_at(env, name) {
        Some(entry) => match text::read_unsigned(entry.value@, u8::MAX as int) {
            Some(value) => Some(value as u8),
            None => None,
        },
        None => None,
    }
}

/// Whether the variable is there and no such number.
pub open spec fn bad_u8(env: Seq<EnvEntry>, name: Seq<char>) -> bool {
    entry_at(env, name) matches Some(entry) && text::read_unsigned(entry.value@, u8::MAX as int) is None
}

pub fn env_u8(env: &Vec<EnvEntry>, name: &'static str) -> (r: Result<Option<u8>, ConfigError>)
    ensures
        bad_u8(env@, name@) ==> crate::config::env_failed(r, name@),
        !bad_u8(env@, name@) ==> r == Ok::<Option<u8>, ConfigError>(u8_at(env@, name@)),
{
    match find_entry(env, name) {
        Some(entry) => match parse_u8(entry.value.as_str()) {
            Some(value) => Ok(Some(value)),
            None => Err(ConfigError::Environment(name)),
        },
        None => Ok(None),
    }
}

/// The number of a variable.
pub open spec fn i32_at(env: Seq<EnvEntry>, name: Seq<char>) -> Option<i32> {
    match entry_at(env, name) {
        Some(entry) => match text::read_signed(entry.value@, i32::MIN as int, i32::MAX as int) {
            Some(value) => Some(value as i32),
            None => None,
        },
        None => None,
    }
}

/// Whether the variable is there and no such number.
pub open spec fn bad_i32(env: Seq<EnvEntry>, name: Seq<char>) -> bool {
    entry_at(env, name) matches Some(entry) && text::read_signed(entry.value@, i32::MIN as int, i32::MAX as int) is None
}

pub fn env_i32(env: &Vec<EnvEntry>, name: &'static str) -> (r: Result<Option<i32>, ConfigError>)
    ensures
        bad_i32(env@, name@) ==> crate::config::env_failed(r, name@),
        !bad_i32(env@, name@) ==> r == Ok::<Option<i32>, ConfigError>(i32_at(env@, name@)),
{
    match find_entry(env, name) {
        Some(entry) => match parse_i32(entry.value.as_str()) {
            Some(value) => Ok(Some(value)),
            None => Err(ConfigError::Environment(name)),
        },
        None => Ok(None),
    }
}

} // verus!
