//! The page size that a payload asks for in its vbmeta image.

use crate::avb::error::PvmfwVerifyError;
use crate::avb::slot::{spec_property_value, Property, VbmetaData};
use vstd::prelude::*;
use vstd::slice::slice_subrange;
use vstd::string::StringSliceAdditionalSpecFns;

verus! {

/// The key of the page-size property.
pub open spec fn page_size_key() -> Seq<u8> {
    "com.android.virt.page_size".spec_bytes()
}

/// Whether `b` is an ASCII decimal digit.
pub open spec fn is_digit(b: u8) -> bool {
    0x30 <= b <= 0x39
}

/// Whether `s` holds ASCII decimal digits only.
pub open spec fn all_digits(s: Seq<u8>) -> bool {
    forall|i: int| 0 <= i < s.len() ==> is_digit(#[trigger] s[i])
}

/// The number that a string of decimal digits denotes.
pub open spec fn spec_decimal(digits: Seq<u8>) -> nat
    decreases digits.len(),
{
    if digits.len() == 0 {
        0
    } else {
        (spec_decimal(digits.drop_last()) * 10 + (digits.last() - 0x30)) as nat
    }
}

/// What follows the optional `+` at the head of `s`.
pub open spec fn spec_unsigned(s: Seq<u8>) -> Seq<u8> {
    if s.len() > 0 && s[0] == 0x2b {
        s.drop_first()
    } else {
        s
    }
}

/// The number that `s` denotes in decimal: an optional `+`, then one digit or more,
/// and a value that a `usize` can hold.
pub open spec fn spec_parse_usize(s: Seq<u8>) -> Option<usize> {
    let digits = spec_unsigned(s);
    if digits.len() > 0 && all_digits(digits) && spec_decimal(digits) <= usize::MAX {
        Some(spec_decimal(digits) as usize)
    } else {
        None
    }
}

/// The page size in bytes that a property value of `kib` KiB stands for: a
/// multiple of 4 KiB other than zero.
pub open spec fn spec_page_size_of(kib: usize) -> Option<usize> {
    if kib != 0 && kib * 1024 <= usize::MAX && (kib * 1024) % 4096 == 0 {
        Some((kib * 1024) as usize)
    } else {
        None
    }
}

/// The page size that the properties of a vbmeta image ask for: none without the
/// page-size property, else the size that its value gives in KiB.
pub open spec fn spec_read_page_size(properties: Seq<Property>) -> Result<
    Option<usize>,
    PvmfwVerifyError,
> {
    match spec_property_value(properties, page_size_key()) {
        None => Ok(None),
        Some(value) => match spec_parse_usize(value) {
            None => Err(PvmfwVerifyError::InvalidPageSize),
            Some(kib) => match spec_page_size_of(kib) {
                None => Err(PvmfwVerifyError::InvalidPageSize),
                Some(size) => Ok(Some(size)),
            },
        },
    }
}

/// A string of digits denotes at least what any beginning of it denotes.
pub proof fn lemma_decimal_grows(digits: Seq<u8>, n: int)
    requires
        0 <= n <= digits.len(),
        all_digits(digits),
    ensures
        spec_decimal(digits.take(n)) <= spec_decimal(digits),
    decreases digits.len() - n,
{
    if n == digits.len() {
        assert(digits.take(n) =~= digits);
    } else {
        assert(digits.take(n + 1).drop_last() =~= digits.take(n));
        assert(is_digit(digits[n]));
        assert(digits.take(n + 1).last() == digits[n]);
        lemma_decimal_grows(digits, n + 1);
    }
}

/// Parses a decimal number as `str::parse::<usize>` reads it.
pub fn parse_usize(s: &[u8]) -> (r: Option<usize>)
    ensures
        r == spec_parse_usize(s@),
{
    let digits = if s.len() > 0 && s[0] == 0x2b {
        assert(s@.drop_first() =~= s@.subrange(1, s@.len() as int));
        slice_subrange(s, 1, s.len())
    } else {
        s
    };
    if digits.len() == 0 {
        return None;
    }
    let mut value: usize = 0;
    let mut i: usize = 0;
    assert(digits@.take(0) =~= Seq::<u8>::empty());
    while i < digits.len()
        invariant
            i <= digits.len(),
            digits@ == spec_unsigned(s@),
            all_digits(digits@.take(i as int)),
            value == spec_decimal(digits@.take(i as int)),
        decreases digits.len() - i,
    {
        let b = digits[i];
        if b < 0x30 || b > 0x39 {
            assert(!is_digit(digits@[i as int]));
            return None;
        }
        proof {
            assert(digits@.take(i + 1).drop_last() =~= digits@.take(i as int));
            assert(digits@.take(i + 1).last() == b);
            if all_digits(digits@) {
                lemma_decimal_grows(digits@, i + 1);
            }
        }
        let digit: usize = (b - 0x30) as usize;
        value = match value.checked_mul(10) {
            Some(tens) => match tens.checked_add(digit) {
                Some(next) => next,
                None => {
                    return None;
                },
            },
            None => {
                return None;
            },
        };
        assert(all_digits(digits@.take(i + 1))) by {
            assert forall|j: int| 0 <= j < i + 1 implies is_digit(
                #[trigger] digits@.take(i + 1)[j],
            ) by {
                if j < i {
                    assert(digits@.take(i as int)[j] == digits@[j]);
                }
            }
        }
        i += 1;
    }
    assert(digits@.take(i as int) =~= digits@);
    Some(value)
}

/// Returns the page size that the vbmeta image asks for, if it asks for one.
///
/// The property gives the size in KiB; the size in bytes must be a multiple of
/// 4 KiB other than zero.
pub fn read_page_size(vbmeta_data: &VbmetaData) -> (r: Result<Option<usize>, PvmfwVerifyError>)
    ensures
        r == spec_read_page_size(vbmeta_data.properties@),
{
    let property = match vbmeta_data.get_property_value("com.android.virt.page_size".as_bytes()) {
        Some(property) => property,
        None => {
            return Ok(None);
        },
    };
    let kib = match parse_usize(property) {
        Some(kib) => kib,
        None => {
            return Err(PvmfwVerifyError::InvalidPageSize);
        },
    };
    match kib.checked_mul(1024) {
        Some(size) => if size % 4096 == 0 && size != 0 {
            Ok(Some(size))
        } else {
            Err(PvmfwVerifyError::InvalidPageSize)
        },
        None => Err(PvmfwVerifyError::InvalidPageSize),
    }
}

} // verus!
