//! Text for the byte strings of a block: base64 for what the schema shows, and
//! the reading of an application hash as a block hash.

use vstd::prelude::*;
use std::str::FromStr;
use crate::text::digit_char;

verus! {

/// The text that base64 with the standard alphabet and padding gives for
/// `bytes`.
pub uninterp spec fn base64_standard(bytes: Seq<u8>) -> Seq<char>;

/// The length of the base64 text of `len` bytes, padding included: four
/// characters for every three bytes, begun or full.
pub open spec fn base64_len(len: nat) -> nat {
    (len / 3) * 4 + if len % 3 > 0 {
        4nat
    } else {
        0nat
    }
}

/// The base64 text of `len` bytes, padding included, is no longer than a
/// `usize` can say.
pub open spec fn base64_fits(len: nat) -> bool {
    base64_len(len) <= usize::MAX
}

/// Calls `base64::encode_config` with `base64::STANDARD`, the standard
/// alphabet with padding.
///
/// Trusted: the text returned is the encoding of exactly the bytes given, and
/// depends on nothing else, so it is named [`base64_standard`]; and it has
/// four characters for every three bytes, begun or full. The call panics
/// where the length of the text overflows a `usize`; `requires` leaves those
/// inputs out.
#[verifier::external_body]
fn encode_standard(bytes: &[u8]) -> (text: String)
    requires
        base64_fits(bytes@.len()),
    ensures
        text@ == base64_standard(bytes@),
        text@.len() == base64_len(bytes@.len()),
{
    base64::encode_config(bytes, base64::STANDARD)
}

/// Whether the base64 text of `len` bytes is no longer than a `usize` can say.
pub fn base64_would_fit(len: usize) -> (fits: bool)
    ensures
        fits == base64_fits(len as nat),
{
    let chunks = len / 3;
    let padded: usize = if len % 3 > 0 {
        4
    } else {
        0
    };
    chunks <= (usize::MAX - padded) / 4
}

/// The hash, or any other byte string of a block, as base64 text. An empty
/// byte string stands for a hash that is not there, and is written as the
/// empty text.
pub fn hash_to_base64string(hash: &Vec<u8>) -> (text: String)
    requires
        base64_fits(hash@.len()),
    ensures
        text@ == base64_standard(hash@),
        text@.len() == base64_len(hash@.len()),
        hash@.len() == 0 ==> text@ == Seq::<char>::empty(),
{
    let text = encode_standard(hash.as_slice());
    assert(hash@.len() == 0 ==> text@ =~= Seq::<char>::empty());
    text
}

/// The character that stands for one hexadecimal digit, in upper case.
pub open spec fn upper_hex_digit(d: nat) -> char
    recommends
        d < 16,
{
    if d < 10 {
        digit_char(d)
    } else if d == 10 {
        'A'
    } else if d == 11 {
        'B'
    } else if d == 12 {
        'C'
    } else if d == 13 {
        'D'
    } else if d == 14 {
        'E'
    } else {
        'F'
    }
}

/// Upper-case hexadecimal text: two digits for each byte, the high four bits
/// first.
pub open spec fn upper_hex(bytes: Seq<u8>) -> Seq<char>
    decreases bytes.len(),
{
    if bytes.len() == 0 {
        Seq::empty()
    } else {
        upper_hex(bytes.drop_last()).push(upper_hex_digit(bytes.last() as nat / 16)).push(
            upper_hex_digit(bytes.last() as nat % 16),
        )
    }
}

/// The bytes of the block hash that the chain reads from `text`, where it
/// reads one.
pub uninterp spec fn block_hash_of_text(text: Seq<char>) -> Option<Seq<u8>>;

/// The bytes of a hash that may be there or not.
pub open spec fn bytes_view(hash: Option<Vec<u8>>) -> Option<Seq<u8>> {
    match hash {
        Some(bytes) => Some(bytes@),
        None => None,
    }
}

/// The text of `len` bytes, two characters for each, is no longer than a
/// `usize` can say.
pub open spec fn hex_fits(len: nat) -> bool {
    2 * len <= usize::MAX
}

/// The application hash `bytes` read as a block hash: written as upper-case
/// hexadecimal text, and the text read back as a block hash. There is none
/// where the text is not that of a block hash, or would be too long to write.
pub open spec fn block_hash_of_app_hash(bytes: Seq<u8>) -> Option<Seq<u8>> {
    if hex_fits(bytes.len()) {
        block_hash_of_text(upper_hex(bytes))
    } else {
        None
    }
}

/// Makes a `tendermint::AppHash` of the bytes and calls its `to_string`.
///
/// Trusted: making the hash never fails, since it only wraps the bytes, and
/// its text is upper-case hexadecimal, two digits for each byte. Writing it
/// takes two characters for each byte; `requires` leaves out the lengths for
/// which that count overflows.
#[verifier::external_body]
fn app_hash_to_text(bytes: &Vec<u8>) -> (text: Option<String>)
    requires
        hex_fits(bytes@.len()),
    ensures
        text.deep_view() == Some(upper_hex(bytes@)),
{
    match tendermint::AppHash::try_from(bytes.clone()) {
        Ok(hash) => Some(hash.to_string()),
        Err(_) => None,
    }
}

/// Calls `tendermint::Hash::from_str`, and `as_bytes` on the hash read.
///
/// Trusted: whether a hash is read, and which, depends on the text alone, so
/// the outcome is named [`block_hash_of_text`]. A hash that was read has
/// either no bytes or 32, and the empty text reads as the hash of no bytes.
#[verifier::external_body]
fn block_hash_from_text(text: &String) -> (hash: Option<Vec<u8>>)
    ensures
        bytes_view(hash) == block_hash_of_text(text@),
        hash matches Some(bytes) ==> bytes@.len() == 0 || bytes@.len() == 32,
        text@.len() == 0 ==> bytes_view(hash) == Some(Seq::<u8>::empty()),
{
    match tendermint::Hash::from_str(text) {
        Ok(hash) => Some(hash.as_bytes().to_vec()),
        Err(_) => None,
    }
}

/// Reads an application hash as a block hash, as the chain's own types do:
/// the hash is written as text and the text read back. Where that gives no
/// block hash, none is returned. An application hash of no bytes reads as
/// the block hash of no bytes.
pub fn app_hash_as_block_hash(app_hash: &Vec<u8>) -> (hash: Option<Vec<u8>>)
    ensures
        bytes_view(hash) == block_hash_of_app_hash(app_hash@),
        hash matches Some(bytes) ==> base64_fits(bytes@.len()),
        app_hash@.len() == 0 ==> bytes_view(hash) == Some(Seq::<u8>::empty()),
{
    if app_hash.len() > usize::MAX / 2 {
        return None;
    }
    match app_hash_to_text(app_hash) {
        Some(text) => block_hash_from_text(&text),
        None => None,
    }
}

} // verus!
