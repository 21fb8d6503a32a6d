//! The configuration value model: a plain tree of scalars, arrays and
//! hashes, as a YAML document yields after parsing. The daemon's outer
//! shell turns its document nodes into this tree; everything that reads
//! configuration works on it.

use vstd::prelude::*;

use crate::types::MetricsName;
use vstd::string::StrSliceExecFns;

verus! {

/// One configuration value node.
#[derive(Debug)]
pub enum YamlValue {
    Null,
    Bool(bool),
    Int(i64),
    Str(String),
    Array(Vec<YamlValue>),
    Hash(Vec<(YamlValue, YamlValue)>),
    /// A node this model does not carry (a float, an alias, a parse error).
    Invalid,
}

/// The errors configuration readers report.
#[derive(Clone, Copy, PartialEq, Eq, Structural, Debug)]
pub enum ConfigError {
    /// The node has the wrong kind for the key.
    InvalidValueType,
    /// The node has the right kind but an unusable value.
    InvalidValue,
    /// The key is not recognized here.
    InvalidKey,
    /// A numeric value is outside its allowed range.
    OutOfRange,
    /// A required key was never set.
    MissingField,
}

/// Reads a boolean node.
pub fn as_bool(v: &YamlValue) -> (r: Result<bool, ConfigError>)
    ensures
        r matches Ok(b) ==> *v == YamlValue::Bool(b),
        r is Err <==> !(*v is Bool),
        r matches Err(e) ==> e == ConfigError::InvalidValueType,
{
    match v {
        YamlValue::Bool(b) => Ok(*b),
        _ => Err(ConfigError::InvalidValueType),
    }
}

/// Reads a non-negative integer node as a `usize`.
pub fn as_usize(v: &YamlValue) -> (r: Result<usize, ConfigError>)
    ensures
        r matches Ok(n) ==> *v == YamlValue::Int(n as i64),
        (*v) matches YamlValue::Int(i) && 0 <= i <= usize::MAX ==> r is Ok,
        !(*v is Int) ==> r == Err::<usize, ConfigError>(ConfigError::InvalidValueType),
        (*v) matches YamlValue::Int(i) && !(0 <= i <= usize::MAX) ==> r == Err::<
            usize,
            ConfigError,
        >(ConfigError::OutOfRange),
{
    match v {
        YamlValue::Int(i) => {
            if *i >= 0 && (*i as u64) <= (usize::MAX as u64) {
                Ok(*i as usize)
            } else {
                Err(ConfigError::OutOfRange)
            }
        },
        _ => Err(ConfigError::InvalidValueType),
    }
}

/// Reads an integer node as a `u32`.
pub fn as_u32(v: &YamlValue) -> (r: Result<u32, ConfigError>)
    ensures
        r matches Ok(n) ==> *v == YamlValue::Int(n as i64),
        (*v) matches YamlValue::Int(i) && 0 <= i <= u32::MAX ==> r is Ok,
        !(*v is Int) ==> r == Err::<u32, ConfigError>(ConfigError::InvalidValueType),
        (*v) matches YamlValue::Int(i) && !(0 <= i <= u32::MAX) ==> r == Err::<u32, ConfigError>(
            ConfigError::OutOfRange,
        ),
{
    match v {
        YamlValue::Int(i) => {
            if 0 <= *i && *i <= 0xffff_ffff {
                Ok(*i as u32)
            } else {
                Err(ConfigError::OutOfRange)
            }
        },
        _ => Err(ConfigError::InvalidValueType),
    }
}

/// Reads an integer node as a `u16`.
pub fn as_u16(v: &YamlValue) -> (r: Result<u16, ConfigError>)
    ensures
        r matches Ok(n) ==> *v == YamlValue::Int(n as i64),
        (*v) matches YamlValue::Int(i) && 0 <= i <= u16::MAX ==> r is Ok,
        !(*v is Int) ==> r == Err::<u16, ConfigError>(ConfigError::InvalidValueType),
        (*v) matches YamlValue::Int(i) && !(0 <= i <= u16::MAX) ==> r == Err::<u16, ConfigError>(
            ConfigError::OutOfRange,
        ),
{
    match v {
        YamlValue::Int(i) => {
            if 0 <= *i && *i <= 0xffff {
                Ok(*i as u16)
            } else {
                Err(ConfigError::OutOfRange)
            }
        },
        _ => Err(ConfigError::InvalidValueType),
    }
}

/// Reads a string node.
pub fn as_string(v: &YamlValue) -> (r: Result<String, ConfigError>)
    ensures
        r matches Ok(s) ==> (*v) matches YamlValue::Str(t) && s@ == t@,
        r is Err <==> !(*v is Str),
        r matches Err(e) ==> e == ConfigError::InvalidValueType,
{
    match v {
        YamlValue::Str(s) => Ok(s.clone()),
        _ => Err(ConfigError::InvalidValueType),
    }
}

/// Reads a metrics name: a non-empty string.
pub fn as_metrics_name(v: &YamlValue) -> (r: Result<MetricsName, ConfigError>)
    ensures
        r matches Ok(n) ==> (*v) matches YamlValue::Str(t) && n.name@ == t@ && t@.len() > 0,
        (*v) matches YamlValue::Str(t) && t@.len() > 0 ==> r is Ok,
        !(*v is Str) ==> r == Err::<MetricsName, ConfigError>(ConfigError::InvalidValueType),
        (*v) matches YamlValue::Str(t) && t@.len() == 0 ==> r == Err::<MetricsName, ConfigError>(
            ConfigError::InvalidValue,
        ),
{
    match v {
        YamlValue::Str(s) => {
            if s.as_str().unicode_len() == 0 {
                Err(ConfigError::InvalidValue)
            } else {
                Ok(MetricsName::new(s.clone()))
            }
        },
        _ => Err(ConfigError::InvalidValueType),
    }
}


/// The byte multiplier of a size suffix: `K`, `M` and `G` are binary
/// multiples.
pub open spec fn humanize_mult(c: char) -> nat {
    if c == 'K' {
        1024
    } else if c == 'M' {
        1048576
    } else {
        1073741824
    }
}

pub open spec fn is_humanize_suffix(c: char) -> bool {
    c == 'K' || c == 'M' || c == 'G'
}

/// Humanized size text: up to fifteen decimal digits, optionally followed
/// by one suffix letter.
pub open spec fn humanize_text_ok(s: Seq<char>) -> bool {
    if s.len() == 0 {
        false
    } else if is_humanize_suffix(s.last()) {
        1 <= s.len() - 1 <= 15 && crate::net::all_digits(s.drop_last())
    } else {
        1 <= s.len() <= 15 && crate::net::all_digits(s)
    }
}

/// The byte count humanized size text denotes.
pub open spec fn humanize_text_val(s: Seq<char>) -> nat {
    if is_humanize_suffix(s.last()) {
        crate::net::dec_val(s.drop_last()) * humanize_mult(s.last())
    } else {
        crate::net::dec_val(s)
    }
}

/// Ten to the power `k`.
pub open spec fn pow10(k: nat) -> nat
    decreases k,
{
    if k == 0 {
        1
    } else {
        pow10((k - 1) as nat) * 10
    }
}

proof fn lemma_dec_val_below_pow10(s: Seq<char>)
    requires
        crate::net::all_digits(s),
    ensures
        crate::net::dec_val(s) < pow10(s.len()),
    decreases s.len(),
{
    if s.len() > 0 {
        assert(crate::net::all_digits(s.drop_last())) by {
            assert(forall|i: int|
                0 <= i < s.len() - 1 ==> crate::net::is_digit(#[trigger] s.drop_last()[i])
                    == crate::net::is_digit(s[i]));
        }
        lemma_dec_val_below_pow10(s.drop_last());
    }
}

proof fn lemma_pow10_15()
    ensures
        pow10(15) == 1000000000000000,
{
    assert(pow10(0) == 1);
    assert(pow10(1) == 10);
    assert(pow10(2) == 100);
    assert(pow10(3) == 1000);
    assert(pow10(4) == 10000);
    assert(pow10(5) == 100000);
    assert(pow10(6) == 1000000);
    assert(pow10(7) == 10000000);
    assert(pow10(8) == 100000000);
    assert(pow10(9) == 1000000000);
    assert(pow10(10) == 10000000000);
    assert(pow10(11) == 100000000000);
    assert(pow10(12) == 1000000000000);
    assert(pow10(13) == 10000000000000);
    assert(pow10(14) == 100000000000000);
    assert(pow10(15) == 1000000000000000);
}

proof fn lemma_pow10_mono_15(k: nat)
    requires
        k <= 15,
    ensures
        pow10(k) <= pow10(15),
    decreases 15 - k,
{
    if k < 15 {
        lemma_pow10_mono_15(k + 1);
    }
}

/// Reads a size: a plain integer counts bytes; size text may carry a `K`,
/// `M` or `G` suffix.
pub fn as_humanize_usize(v: &YamlValue) -> (r: Result<usize, ConfigError>)
    ensures
        (*v) matches YamlValue::Int(i) ==> (r is Ok <==> 0 <= i <= usize::MAX),
        (*v) matches YamlValue::Int(i) ==> ((0 <= i <= usize::MAX) ==> r == Ok::<
            usize,
            ConfigError,
        >(i as usize)),
        (*v) matches YamlValue::Str(s) ==> (r is Ok <==> humanize_text_ok(s@)
            && humanize_text_val(s@) <= usize::MAX),
        (*v) matches YamlValue::Str(s) ==> (r matches Ok(n) ==> n == humanize_text_val(s@)),
        !((*v) is Int || (*v) is Str) ==> r == Err::<usize, ConfigError>(
            ConfigError::InvalidValueType,
        ),
{
    match v {
        YamlValue::Int(raw) => {
            if *raw >= 0 && (*raw as u64) <= (usize::MAX as u64) {
                Ok(*raw as usize)
            } else {
                Err(ConfigError::OutOfRange)
            }
        },
        YamlValue::Str(s) => {
            let text = s.as_str();
            let n = text.unicode_len();
            if n == 0 {
                return Err(ConfigError::InvalidValue);
            }
            let last = text.get_char(n - 1);
            let (digits_end, mult): (usize, u64) = if last == 'K' {
                (n - 1, 1024)
            } else if last == 'M' {
                (n - 1, 1048576)
            } else if last == 'G' {
                (n - 1, 1073741824)
            } else {
                (n, 1)
            };
            let ghost digits = s@.subrange(0, digits_end as int);
            proof {
                if digits_end < n {
                    assert(digits =~= s@.drop_last());
                } else {
                    assert(digits =~= s@);
                }
            }
            if digits_end == 0 || digits_end > 15 {
                return Err(ConfigError::InvalidValue);
            }
            let mut acc: u64 = 0;
            let mut i: usize = 0;
            while i < digits_end
                invariant
                    i <= digits_end,
                    1 <= digits_end <= 15,
                    digits_end <= s@.len() == n,
                    (*v) matches YamlValue::Str(ss) && ss@ == s@,
                    text@ == s@,
                    digits == s@.subrange(0, digits_end as int),
                    humanize_text_ok(s@) <==> crate::net::all_digits(digits),
                    humanize_text_val(s@) == crate::net::dec_val(digits) * (mult as nat),
                    mult == 1 || mult == 1024 || mult == 1048576 || mult == 1073741824,
                    crate::net::all_digits(digits.subrange(0, i as int)),
                    acc == crate::net::dec_val(digits.subrange(0, i as int)),
                    acc < 1000000000000000,
                decreases digits_end - i,
            {
                let c = text.get_char(i);
                let cv = c as u32;
                let ghost sub = digits.subrange(0, i as int);
                let ghost sub1 = digits.subrange(0, i + 1);
                proof {
                    assert(sub1.drop_last() =~= sub);
                    assert(sub1.last() == digits[i as int]);
                    assert(digits[i as int] == s@[i as int]);
                }
                if cv < 48 || cv > 57 {
                    proof {
                        assert(!crate::net::is_digit(digits[i as int]));
                    }
                    return Err(ConfigError::InvalidValue);
                }
                proof {
                    assert forall|j: int|
                        0 <= j < sub1.len() implies crate::net::is_digit(#[trigger] sub1[j]) by {
                        if j < i {
                            assert(sub1[j] == sub[j]);
                        } else {
                            assert(sub1[j] == digits[i as int]);
                        }
                    }
                    lemma_dec_val_below_pow10(sub1);
                    lemma_pow10_mono_15(sub1.len() as nat);
                    lemma_pow10_15();
                }
                acc = acc * 10 + ((cv - 48) as u64);
                i = i + 1;
            }
            proof {
                assert(digits.subrange(0, digits_end as int) =~= digits);
            }
            let prod: u128 = (acc as u128) * (mult as u128);
            proof {
                assert((acc as u128) * (mult as u128) <= 1000000000000000u128 * 1073741824u128)
                    by (nonlinear_arith)
                    requires
                        acc <= 1000000000000000u64,
                        mult <= 1073741824u64,
                ;
            }
            if prod > (usize::MAX as u128) {
                return Err(ConfigError::OutOfRange);
            }
            Ok(prod as usize)
        },
        _ => Err(ConfigError::InvalidValueType),
    }
}

} // verus!
