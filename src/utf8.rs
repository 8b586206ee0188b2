//! Decoding of record payloads as UTF-8 text, and the description of a
//! payload that is not valid UTF-8.
use vstd::prelude::*;
use vstd::utf8::{valid_utf8, decode_utf8};
use crate::text::{decimal, decimal_text};

verus! {

/// Where and how a byte sequence stops being valid UTF-8.
#[derive(Debug, Clone, Copy, PartialEq, Eq)]
pub struct Utf8Fault {
    /// Length of the longest prefix that is valid UTF-8.
    pub valid_up_to: usize,
    /// Length of the invalid sequence found at `valid_up_to`, or `None`
    /// where the input ends in the middle of a character.
    pub error_len: Option<usize>,
}

/// The fault as plain numbers.
pub open spec fn fault_model(f: Utf8Fault) -> (int, Option<int>) {
    (
        f.valid_up_to as int,
        match f.error_len {
            Some(n) => Some(n as int),
            None => None,
        },
    )
}

/// What `std::str::from_utf8` reports about bytes that are not valid UTF-8.
pub uninterp spec fn utf8_fault_of(bytes: Seq<u8>) -> (int, Option<int>);

/// Relies on `std::str::from_utf8`: it succeeds exactly on valid UTF-8, with
/// the decoded characters; otherwise its error's `valid_up_to` and
/// `error_len` depend on the bytes alone.
#[verifier::external_body]
fn from_utf8(bytes: &[u8]) -> (r: Result<String, Utf8Fault>)
    ensures
        r is Ok <==> valid_utf8(bytes@),
        r is Ok ==> r->Ok_0@ == decode_utf8(bytes@),
        r is Err ==> fault_model(r->Err_0) == utf8_fault_of(bytes@),
{
    match std::str::from_utf8(bytes) {
        Ok(s) => Ok(s.to_string()),
        Err(e) => Err(Utf8Fault { valid_up_to: e.valid_up_to(), error_len: e.error_len() }),
    }
}

/// The outcome of decoding `bytes`: the text, or the fault.
pub open spec fn decoding(bytes: Seq<u8>) -> Result<Seq<char>, (int, Option<int>)> {
    if valid_utf8(bytes) {
        Ok(decode_utf8(bytes))
    } else {
        Err(utf8_fault_of(bytes))
    }
}

/// Decodes a payload as UTF-8.
pub fn decode_payload(bytes: &[u8]) -> (r: Result<String, Utf8Fault>)
    ensures
        match r {
            Ok(s) => decoding(bytes@) == Ok::<Seq<char>, (int, Option<int>)>(s@),
            Err(f) => decoding(bytes@) == Err::<Seq<char>, (int, Option<int>)>(fault_model(f)),
        },
{
    from_utf8(bytes)
}

/// Human-readable description of a decoding fault.
pub open spec fn fault_text(fault: (int, Option<int>)) -> Seq<char> {
    match fault.1 {
        Some(n) => "invalid utf-8 sequence of "@ + decimal(n as nat) + " bytes from index "@
            + decimal(fault.0 as nat),
        None => "incomplete utf-8 byte sequence from index "@ + decimal(fault.0 as nat),
    }
}

/// Describes a decoding fault in words.
pub fn describe_fault(fault: &Utf8Fault) -> (r: String)
    ensures
        r@ == fault_text(fault_model(*fault)),
{
    match fault.error_len {
        Some(n) => {
            let r = String::from_str("invalid utf-8 sequence of ");
            let r = r.concat(decimal_text(n).as_str());
            let r = r.concat(" bytes from index ");
            let r = r.concat(decimal_text(fault.valid_up_to).as_str());
            r
        },
        None => {
            let r = String::from_str("incomplete utf-8 byte sequence from index ");
            let r = r.concat(decimal_text(fault.valid_up_to).as_str());
            r
        },
    }
}

} // verus!
