//! The text form of a token: standard base64 with padding.

use crate::clock::{can_expire, expiry_after, expiry_of};
use vstd::prelude::*;

verus! {

/// The standard, padded base64 text of `data`, as `base64`'s `STANDARD`
/// engine writes it.
pub uninterp spec fn base64_standard(data: Seq<u8>) -> Seq<char>;

/// Whether the encoding of `len` bytes, four characters for every three
/// bytes or part of three, still fits in one allocation.
pub open spec fn encodable(len: nat) -> bool {
    (len + 2) / 3 * 4 <= isize::MAX
}

/// `Engine::encode` on `general_purpose::STANDARD`. The text it returns
/// depends on the bytes alone. It is not proved here what that text is; the
/// encoder's only failure is a buffer too large to allocate, which the
/// precondition excludes.
#[verifier::external_body]
fn encode_standard(data: &[u8]) -> (text: String)
    requires
        encodable(data@.len()),
    ensures
        text@ == base64_standard(data@),
{
    base64::Engine::encode(&base64::engine::general_purpose::STANDARD, data)
}

/// Tells whether a token of `len` raw bytes can be encoded.
pub fn fits_encoding(len: usize) -> (ok: bool)
    ensures
        ok == encodable(len as nat),
{
    let groups: usize = len / 3 + if len % 3 == 0 { 0 } else { 1 };
    groups <= (isize::MAX as usize) / 4
}

/// Turns the raw bytes of a token made at `now` into a cache entry: the
/// expiry it is keyed by and the text that is stored and served.
pub fn mint(now: u64, raw: &[u8]) -> (entry: (u64, String))
    requires
        can_expire(now as int),
        encodable(raw@.len()),
    ensures
        entry.0 == expiry_of(now as int),
        entry.1@ == base64_standard(raw@),
{
    let expiry = expiry_after(now);
    (expiry, encode_standard(raw))
}

} // verus!
