//! Tuning settings of the storage backends, read from environment values:
//! decimal integers as `str::parse` reads them, booleans, sizes in MiB.

use vstd::prelude::*;
use crate::text::{
    ascii_lower, chars_of, owned, push_str, str_eq, string_of, to_ascii_lower,
    trim_ws_chars, trim_ws_text,
};

verus! {

/// Why a decimal integer could not be read (as `std::num::IntErrorKind`).
#[derive(Clone, Copy, Debug, PartialEq, Eq, Structural)]
pub enum IntErrorKind {
    Empty,
    InvalidDigit,
    PosOverflow,
    NegOverflow,
}

/// The description `ParseIntError` gives of each kind.
pub open spec fn int_error_text(k: IntErrorKind) -> Seq<char> {
    match k {
        IntErrorKind::Empty => "cannot parse integer from empty string"@,
        IntErrorKind::InvalidDigit => "invalid digit found in string"@,
        IntErrorKind::PosOverflow => "number too large to fit in target type"@,
        IntErrorKind::NegOverflow => "number too small to fit in target type"@,
    }
}

impl IntErrorKind {
    /// The description `ParseIntError` gives.
    pub fn message(&self) -> (m: &'static str)
        ensures
            m@ == int_error_text(*self),
    {
        match self {
            IntErrorKind::Empty => "cannot parse integer from empty string",
            IntErrorKind::InvalidDigit => "invalid digit found in string",
            IntErrorKind::PosOverflow => "number too large to fit in target type",
            IntErrorKind::NegOverflow => "number too small to fit in target type",
        }
    }
}

/// Whether `c` is a decimal digit.
pub open spec fn is_digit(c: char) -> bool {
    '0' <= c <= '9'
}

/// Reads the digits `body` after the value `acc` read so far, going down
/// for a negative number, within `[min, max]`: the first character that is
/// not a digit, or the first digit that leaves the range, is the error.
pub open spec fn digits_value(body: Seq<char>, acc: int, neg: bool, min: int, max: int) -> Result<
    int,
    IntErrorKind,
>
    decreases body.len(),
{
    if body.len() == 0 {
        Ok(acc)
    } else if !is_digit(body[0]) {
        Err(IntErrorKind::InvalidDigit)
    } else {
        let d = body[0] as int - 48;
        let next = if neg {
            acc * 10 - d
        } else {
            acc * 10 + d
        };
        if next > max {
            Err(IntErrorKind::PosOverflow)
        } else if next < min {
            Err(IntErrorKind::NegOverflow)
        } else {
            digits_value(body.drop_first(), next, neg, min, max)
        }
    }
}

/// What `str::parse` gives for an integer type with range `[min, max]`
/// (`signed` when it takes a `-`): an optional sign, then decimal digits.
pub open spec fn parse_int_text(s: Seq<char>, signed: bool, min: int, max: int) -> Result<int, IntErrorKind> {
    if s.len() == 0 {
        Err(IntErrorKind::Empty)
    } else if s.len() == 1 && (s[0] == '+' || s[0] == '-') {
        Err(IntErrorKind::InvalidDigit)
    } else if s[0] == '+' {
        digits_value(s.drop_first(), 0, false, min, max)
    } else if signed && s[0] == '-' {
        digits_value(s.drop_first(), 0, true, min, max)
    } else {
        digits_value(s, 0, false, min, max)
    }
}

proof fn lemma_digits_value_range(body: Seq<char>, acc: int, neg: bool, min: int, max: int)
    requires
        min <= acc <= max,
    ensures
        digits_value(body, acc, neg, min, max) matches Ok(v) ==> min <= v <= max,
    decreases body.len(),
{
    if body.len() > 0 && is_digit(body[0]) {
        let d = body[0] as int - 48;
        let next = if neg {
            acc * 10 - d
        } else {
            acc * 10 + d
        };
        if min <= next <= max {
            lemma_digits_value_range(body.drop_first(), next, neg, min, max);
        }
    }
}

fn parse_decimal(s: &str, signed: bool, min: i128, max: i128) -> (r: Result<i128, IntErrorKind>)
    requires
        -0x1_0000_0000_0000_0000_0000 <= min <= 0 <= max <= 0x1_0000_0000_0000_0000_0000,
    ensures
        match (r, parse_int_text(s@, signed, min as int, max as int)) {
            (Ok(v), Ok(w)) => v == w,
            (Err(e), Err(f)) => e == f,
            _ => false,
        },
{
    let v = chars_of(s);
    if v.len() == 0 {
        return Err(IntErrorKind::Empty);
    }
    if v.len() == 1 && (v[0] == '+' || v[0] == '-') {
        return Err(IntErrorKind::InvalidDigit);
    }
    let (neg, start): (bool, usize) = if v[0] == '+' {
        (false, 1)
    } else if signed && v[0] == '-' {
        (true, 1)
    } else {
        (false, 0)
    };
    let ghost body = v@.skip(start as int);
    proof {
        if start == 1 {
            assert(body =~= s@.drop_first());
        } else {
            assert(body =~= s@);
        }
        assert(parse_int_text(s@, signed, min as int, max as int) == digits_value(
            body,
            0,
            neg,
            min as int,
            max as int,
        ));
    }
    let mut acc: i128 = 0;
    let mut i: usize = start;
    while i < v.len()
        invariant
            start <= i <= v.len(),
            min <= acc <= max,
            -0x1_0000_0000_0000_0000_0000 <= min <= 0 <= max <= 0x1_0000_0000_0000_0000_0000,
            digits_value(body, 0, neg, min as int, max as int) == digits_value(
                v@.skip(i as int),
                acc as int,
                neg,
                min as int,
                max as int,
            ),
            body == v@.skip(start as int),
            v@ == s@,
            parse_int_text(s@, signed, min as int, max as int) == digits_value(
                body,
                0,
                neg,
                min as int,
                max as int,
            ),
        decreases v.len() - i,
    {
        let c = v[i];
        assert(v@.skip(i as int)[0] == c);
        if !('0' <= c && c <= '9') {
            return Err(IntErrorKind::InvalidDigit);
        }
        let d = (c as u32 - 48) as i128;
        assert(d as int == c as int - 48);
        let next = if neg {
            acc * 10 - d
        } else {
            acc * 10 + d
        };
        if next > max {
            return Err(IntErrorKind::PosOverflow);
        }
        if next < min {
            return Err(IntErrorKind::NegOverflow);
        }
        assert(v@.skip(i as int).drop_first() =~= v@.skip(i + 1));
        acc = next;
        i += 1;
    }
    assert(v@.skip(i as int).len() == 0);
    Ok(acc)
}

/// `str::parse::<i32>`.
pub fn parse_i32(s: &str) -> (r: Result<i32, IntErrorKind>)
    ensures
        match (r, parse_int_text(s@, true, i32::MIN as int, i32::MAX as int)) {
            (Ok(v), Ok(w)) => v == w,
            (Err(e), Err(f)) => e == f,
            _ => false,
        },
{
    match parse_decimal(s, true, i32::MIN as i128, i32::MAX as i128) {
        Ok(v) => {
            proof {
                lemma_digits_value_range_of(s@, true, i32::MIN as int, i32::MAX as int);
            }
            Ok(v as i32)
        },
        Err(e) => Err(e),
    }
}

/// `str::parse::<u32>`.
pub fn parse_u32(s: &str) -> (r: Result<u32, IntErrorKind>)
    ensures
        match (r, parse_int_text(s@, false, 0, u32::MAX as int)) {
            (Ok(v), Ok(w)) => v == w,
            (Err(e), Err(f)) => e == f,
            _ => false,
        },
{
    match parse_decimal(s, false, 0, u32::MAX as i128) {
        Ok(v) => {
            proof {
                lemma_digits_value_range_of(s@, false, 0, u32::MAX as int);
            }
            Ok(v as u32)
        },
        Err(e) => Err(e),
    }
}

/// `str::parse::<u64>`.
pub fn parse_u64(s: &str) -> (r: Result<u64, IntErrorKind>)
    ensures
        match (r, parse_int_text(s@, false, 0, u64::MAX as int)) {
            (Ok(v), Ok(w)) => v == w,
            (Err(e), Err(f)) => e == f,
            _ => false,
        },
{
    match parse_decimal(s, false, 0, u64::MAX as i128) {
        Ok(v) => {
            proof {
                lemma_digits_value_range_of(s@, false, 0, u64::MAX as int);
            }
            Ok(v as u64)
        },
        Err(e) => Err(e),
    }
}

/// `str::parse::<usize>`.
pub fn parse_usize(s: &str) -> (r: Result<usize, IntErrorKind>)
    ensures
        match (r, parse_int_text(s@, false, 0, usize::MAX as int)) {
            (Ok(v), Ok(w)) => v == w,
            (Err(e), Err(f)) => e == f,
            _ => false,
        },
{
    match parse_decimal(s, false, 0, usize::MAX as i128) {
        Ok(v) => {
            proof {
                lemma_digits_value_range_of(s@, false, 0, usize::MAX as int);
            }
            Ok(v as usize)
        },
        Err(e) => Err(e),
    }
}

proof fn lemma_digits_value_range_of(s: Seq<char>, signed: bool, min: int, max: int)
    requires
        min <= 0 <= max,
    ensures
        parse_int_text(s, signed, min, max) matches Ok(v) ==> min <= v <= max,
{
    if s.len() > 0 {
        lemma_digits_value_range(s.drop_first(), 0, false, min, max);
        lemma_digits_value_range(s.drop_first(), 0, true, min, max);
        lemma_digits_value_range(s, 0, false, min, max);
    }
}

/// The text that `{:?}` writes for a string (quoted, with escapes).
pub uninterp spec fn debug_text(s: Seq<char>) -> Seq<char>;

/// `s` as `{:?}` writes a string: quoted, with escapes.
#[verifier::external_body]
fn debug_quoted(s: &str) -> (r: String)
    ensures
        r@ == debug_text(s@),
{
    format!("{s:?}")
}

/// What is wrong with a setting.
#[derive(Clone, Debug)]
pub enum SettingError {
    /// The value is not one of the boolean words.
    NotBoolean { name: String, value: String },
    /// The value is not a decimal integer.
    NotInteger { name: String, kind: IntErrorKind },
    /// The value is zero or negative.
    NotPositive { name: String },
    /// The value is not a decimal number of MiB.
    NotMib { name: String, kind: IntErrorKind },
    /// The number of MiB is more bytes than a `usize` holds.
    TooLarge { name: String },
    /// The compression is neither `lz4` nor `none`.
    BadCompression,
}

/// The description of a setting error.
pub open spec fn setting_error_text(e: SettingError) -> Seq<char> {
    match e {
        SettingError::NotBoolean { name, value } => name@ + " must be a boolean, got "@ + debug_text(value@),
        SettingError::NotInteger { name, kind } => name@ + " must be an integer: "@ + int_error_text(kind),
        SettingError::NotPositive { name } => name@ + " must be greater than zero"@,
        SettingError::NotMib { name, kind } => name@ + " must be an integer MiB value: "@ + int_error_text(kind),
        SettingError::TooLarge { name } => name@ + " value is too large"@,
        SettingError::BadCompression => "TALON_ROCKSDB_COMPRESSION must be 'lz4' or 'none'"@,
    }
}

impl SettingError {
    /// A description of the error.
    pub fn message(&self) -> (r: String)
        ensures
            r@ == setting_error_text(*self),
    {
        let mut m = String::new();
        match self {
            SettingError::NotBoolean { name, value } => {
                push_str(&mut m, name.as_str());
                push_str(&mut m, " must be a boolean, got ");
                push_str(&mut m, debug_quoted(value.as_str()).as_str());
            },
            SettingError::NotInteger { name, kind } => {
                push_str(&mut m, name.as_str());
                push_str(&mut m, " must be an integer: ");
                push_str(&mut m, kind.message());
            },
            SettingError::NotPositive { name } => {
                push_str(&mut m, name.as_str());
                push_str(&mut m, " must be greater than zero");
            },
            SettingError::NotMib { name, kind } => {
                push_str(&mut m, name.as_str());
                push_str(&mut m, " must be an integer MiB value: ");
                push_str(&mut m, kind.message());
            },
            SettingError::TooLarge { name } => {
                push_str(&mut m, name.as_str());
                push_str(&mut m, " value is too large");
            },
            SettingError::BadCompression => {
                push_str(&mut m, "TALON_ROCKSDB_COMPRESSION must be 'lz4' or 'none'");
            },
        }
        m
    }
}

/// `s` trimmed and with ASCII letters lower-cased.
pub open spec fn setting_word(s: Seq<char>) -> Seq<char> {
    trim_ws_text(s).map_values(|c: char| ascii_lower(c))
}

fn word_of(s: &str) -> (r: String)
    ensures
        r@ == setting_word(s@),
{
    let t = trim_ws_chars(&chars_of(s));
    let mut r = String::new();
    let mut i: usize = 0;
    while i < t.len()
        invariant
            i <= t.len(),
            r@ == t@.take(i as int).map_values(|c: char| ascii_lower(c)),
        decreases t.len() - i,
    {
        crate::text::push_char(&mut r, to_ascii_lower(t[i]));
        assert(t@.take(i + 1) =~= t@.take(i as int).push(t@[i as int]));
        assert(r@ =~= t@.take(i + 1).map_values(|c: char| ascii_lower(c)));
        i += 1;
    }
    assert(t@.take(t.len() as int) =~= t@);
    r
}

/// What a boolean setting reads as: `1`, `true`, `yes`, `on` and `0`,
/// `false`, `no`, `off`, in any case and trimmed.
pub open spec fn bool_word(w: Seq<char>) -> Option<bool> {
    if w == "1"@ || w == "true"@ || w == "yes"@ || w == "on"@ {
        Some(true)
    } else if w == "0"@ || w == "false"@ || w == "no"@ || w == "off"@ {
        Some(false)
    } else {
        None
    }
}

/// The boolean setting `name` with value `value`, if set, else `default`.
pub fn bool_setting(name: &str, value: Option<&str>, default: bool) -> (r: Result<bool, SettingError>)
    ensures
        match value {
            None => r == Ok::<bool, SettingError>(default),
            Some(v) => match bool_word(setting_word(v@)) {
                Some(b) => r == Ok::<bool, SettingError>(b),
                None => r matches Err(SettingError::NotBoolean { name: n, value: x }) && n@ == name@ && x@
                    == v@,
            },
        },
{
    let v = match value {
        Some(v) => v,
        None => {
            return Ok(default);
        },
    };
    let w = word_of(v);
    let w = w.as_str();
    if str_eq(w, "1") || str_eq(w, "true") || str_eq(w, "yes") || str_eq(w, "on") {
        Ok(true)
    } else if str_eq(w, "0") || str_eq(w, "false") || str_eq(w, "no") || str_eq(w, "off") {
        Ok(false)
    } else {
        Err(SettingError::NotBoolean { name: owned(name), value: owned(v) })
    }
}

/// The positive integer setting `name` with value `value`, if set.
pub fn positive_i32_setting(name: &str, value: Option<&str>) -> (r: Result<Option<i32>, SettingError>)
    ensures
        match value {
            None => r matches Ok(None),
            Some(v) => match parse_int_text(trim_ws_text(v@), true, i32::MIN as int, i32::MAX as int) {
                Err(k) => r matches Err(SettingError::NotInteger { name: n, kind }) && n@ == name@ && kind
                    == k,
                Ok(x) => if x <= 0 {
                    r matches Err(SettingError::NotPositive { name: n }) && n@ == name@
                } else {
                    r matches Ok(Some(y)) && y == x
                },
            },
        },
{
    let v = match value {
        Some(v) => v,
        None => {
            return Ok(None);
        },
    };
    let t = string_of(&trim_ws_chars(&chars_of(v)));
    match parse_i32(t.as_str()) {
        Err(kind) => Err(SettingError::NotInteger { name: owned(name), kind }),
        Ok(x) => if x <= 0 {
            Err(SettingError::NotPositive { name: owned(name) })
        } else {
            Ok(Some(x))
        },
    }
}

/// The positive integer setting `name` with value `value`, if set, else
/// `default`.
pub fn i32_setting(name: &str, value: Option<&str>, default: i32) -> (r: Result<i32, SettingError>)
    ensures
        match value {
            None => r == Ok::<i32, SettingError>(default),
            Some(v) => match parse_int_text(trim_ws_text(v@), true, i32::MIN as int, i32::MAX as int) {
                Err(_) => r is Err,
                Ok(x) => if x <= 0 {
                    r is Err
                } else {
                    r == Ok::<i32, SettingError>(x as i32)
                },
            },
        },
{
    match positive_i32_setting(name, value) {
        Ok(Some(x)) => Ok(x),
        Ok(None) => Ok(default),
        Err(e) => Err(e),
    }
}

/// The size setting `name` in MiB with value `value`, if set, in bytes.
pub fn mib_setting(name: &str, value: Option<&str>) -> (r: Result<Option<usize>, SettingError>)
    ensures
        match value {
            None => r matches Ok(None),
            Some(v) => match parse_int_text(trim_ws_text(v@), false, 0, usize::MAX as int) {
                Err(k) => r matches Err(SettingError::NotMib { name: n, kind }) && n@ == name@ && kind == k,
                Ok(x) => if x == 0 {
                    r matches Err(SettingError::NotPositive { name: n }) && n@ == name@
                } else if x * 1048576 > usize::MAX {
                    r matches Err(SettingError::TooLarge { name: n }) && n@ == name@
                } else {
                    r matches Ok(Some(y)) && y == x * 1048576
                },
            },
        },
{
    let v = match value {
        Some(v) => v,
        None => {
            return Ok(None);
        },
    };
    let t = string_of(&trim_ws_chars(&chars_of(v)));
    match parse_usize(t.as_str()) {
        Err(kind) => Err(SettingError::NotMib { name: owned(name), kind }),
        Ok(x) => if x == 0 {
            Err(SettingError::NotPositive { name: owned(name) })
        } else {
            match x.checked_mul(1048576) {
                Some(bytes) => Ok(Some(bytes)),
                None => Err(SettingError::TooLarge { name: owned(name) }),
            }
        },
    }
}

/// The compression of the RocksDB store.
#[derive(Clone, Copy, Debug, PartialEq, Eq, Structural)]
pub enum Compression {
    Off,
    Lz4,
}

/// The RocksDB compression for the setting value `value` (`lz4` when
/// unset): `none`, `off` or `no` turn it off; `lz4` turns it on.
pub fn rocksdb_compression(value: Option<&str>) -> (r: Result<Compression, SettingError>)
    ensures
        ({
            let w = setting_word(
                match value {
                    Some(v) => v@,
                    None => "lz4"@,
                },
            );
            if w == "none"@ || w == "off"@ || w == "no"@ {
                r == Ok::<Compression, SettingError>(Compression::Off)
            } else if w == "lz4"@ {
                r == Ok::<Compression, SettingError>(Compression::Lz4)
            } else {
                r matches Err(SettingError::BadCompression)
            }
        }),
{
    let w = match value {
        Some(v) => word_of(v),
        None => word_of("lz4"),
    };
    let w = w.as_str();
    if str_eq(w, "none") || str_eq(w, "off") || str_eq(w, "no") {
        Ok(Compression::Off)
    } else if str_eq(w, "lz4") {
        Ok(Compression::Lz4)
    } else {
        Err(SettingError::BadCompression)
    }
}

/// A positive count setting as the pool settings read it: the value parsed
/// as it is (not trimmed), when it is a positive `u32`, else `default`.
pub open spec fn pool_count(value: Option<Seq<char>>, default: u32) -> u32 {
    match value {
        Some(v) => match parse_int_text(v, false, 0, u32::MAX as int) {
            Ok(x) => if x > 0 {
                x as u32
            } else {
                default
            },
            Err(_) => default,
        },
        None => default,
    }
}

fn pool_count_of(value: Option<&str>, default: u32) -> (r: u32)
    ensures
        r == pool_count(
            match value {
                Some(v) => Some(v@),
                None => None,
            },
            default,
        ),
{
    match value {
        Some(v) => match parse_u32(v) {
            Ok(x) => if x > 0 {
                x
            } else {
                default
            },
            Err(_) => default,
        },
        None => default,
    }
}

/// The connection and busy-timeout settings of the SQLite pool: at most 5
/// connections and 5000 ms unless set to a positive count and a duration.
pub fn sqlite_pool_settings(max_connections: Option<&str>, busy_timeout_ms: Option<&str>) -> (r: (u32, u64))
    ensures
        r.0 == pool_count(
            match max_connections {
                Some(v) => Some(v@),
                None => None,
            },
            5,
        ),
        r.1 == match busy_timeout_ms {
            Some(v) => match parse_int_text(v@, false, 0, u64::MAX as int) {
                Ok(x) => x as u64,
                Err(_) => 5000,
            },
            None => 5000,
        },
{
    let connections = pool_count_of(max_connections, 5);
    let timeout = match busy_timeout_ms {
        Some(v) => match parse_u64(v) {
            Ok(x) => x,
            Err(_) => 5000,
        },
        None => 5000,
    };
    (connections, timeout)
}

/// The connection setting of the Postgres pool: at most 10 connections
/// unless set to a positive count.
pub fn postgres_max_connections(max_connections: Option<&str>) -> (r: u32)
    ensures
        r == pool_count(
            match max_connections {
                Some(v) => Some(v@),
                None => None,
            },
            10,
        ),
{
    pool_count_of(max_connections, 10)
}

} // verus!
