//! Decoding of X11 window properties.
use vstd::prelude::*;
use vstd::slice::slice_subrange;
use vstd::utf8::{decode_utf8, valid_utf8};

verus! {

/// Relies on `std::str::from_utf8`, which accepts exactly the valid UTF-8
/// byte strings; the text is then copied into a `String`.
#[verifier::external_body]
fn utf8_text(bytes: &[u8]) -> (r: Option<String>)
    ensures
        r is Some <==> valid_utf8(bytes@),
        r matches Some(s) ==> s@ == decode_utf8(bytes@),
{
    std::str::from_utf8(bytes).ok().map(|s| s.to_string())
}

/// Why a `WM_CLASS` property could not be read.
#[derive(Debug, Clone, Copy, PartialEq, Eq, Structural)]
pub enum WmClassError {
    /// The property is not made of 8-bit items.
    WrongFormat,
    /// No null byte ends the instance name.
    MissingNull,
    /// A name is not valid UTF-8.
    InvalidUtf8,
}

/// Position of the first zero byte of `v` at or after `i`, or -1.
pub open spec fn zero_from(v: Seq<u8>, i: int) -> int
    decreases v.len() - i,
{
    if i < 0 || i >= v.len() {
        -1
    } else if v[i] == 0 {
        i
    } else {
        zero_from(v, i + 1)
    }
}

/// The class part after the separating null byte, without its own
/// terminating null byte if it has one.
pub open spec fn class_bytes(v: Seq<u8>, m: int) -> Seq<u8> {
    let c = v.subrange(m + 1, v.len() as int);
    if c.len() > 0 && c[c.len() - 1] == 0 {
        c.subrange(0, c.len() - 1)
    } else {
        c
    }
}

/// What a `WM_CLASS` property of item size `format` and contents `value`
/// holds: the instance name and the class name, two null-terminated
/// strings.
pub open spec fn wm_class_of(format: u8, value: Seq<u8>) -> Result<(Seq<char>, Seq<char>), WmClassError> {
    let m = zero_from(value, 0);
    if format != 8 {
        Err(WmClassError::WrongFormat)
    } else if m < 0 {
        Err(WmClassError::MissingNull)
    } else if !valid_utf8(value.subrange(0, m)) || !valid_utf8(class_bytes(value, m)) {
        Err(WmClassError::InvalidUtf8)
    } else {
        Ok((decode_utf8(value.subrange(0, m)), decode_utf8(class_bytes(value, m))))
    }
}

/// Reads the instance and class names of a `WM_CLASS` property.
pub fn parse_wm_class(format: u8, value: &[u8]) -> (r: Result<(String, String), WmClassError>)
    ensures
        match wm_class_of(format, value@) {
            Ok((i, c)) => r matches Ok((ri, rc)) && ri@ == i && rc@ == c,
            Err(e) => r == Err::<(String, String), WmClassError>(e),
        },
{
    if format != 8 {
        return Err(WmClassError::WrongFormat);
    }
    let n = value.len();
    let mut m: usize = 0;
    while m < n && value[m] != 0
        invariant
            n == value@.len(),
            m <= n,
            zero_from(value@, 0) == zero_from(value@, m as int),
        decreases n - m,
    {
        m += 1;
    }
    if m == n {
        return Err(WmClassError::MissingNull);
    }
    let instance = slice_subrange(value, 0, m);
    let mut end = n;
    if value[n - 1] == 0 && n - 1 > m {
        end = n - 1;
    }
    let class = slice_subrange(value, m + 1, end);
    proof {
        let c = value@.subrange(m + 1, n as int);
        if c.len() > 0 && c[c.len() - 1] == 0 {
            assert(c[c.len() - 1] == value@[n - 1]);
            assert(c.subrange(0, c.len() - 1) =~= value@.subrange(m + 1, end as int));
        } else {
            assert(c =~= value@.subrange(m + 1, end as int));
        }
    }
    match (utf8_text(instance), utf8_text(class)) {
        (Some(i), Some(c)) => Ok((i, c)),
        _ => Err(WmClassError::InvalidUtf8),
    }
}

} // verus!
