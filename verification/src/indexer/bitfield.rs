//! Aggregation bitfields: from hex text to one flag per committee seat.

use crate::error::IndexError;
use vstd::prelude::*;
use vstd::slice::*;
use vstd::string::*;

verus! {

/// The value of an ASCII hex digit, upper or lower case.
pub open spec fn hex_digit(c: u8) -> Option<int> {
    if 0x30 <= c <= 0x39 {
        Some(c - 0x30)
    } else if 0x41 <= c <= 0x46 {
        Some(c - 0x41 + 10)
    } else if 0x61 <= c <= 0x66 {
        Some(c - 0x61 + 10)
    } else {
        None
    }
}

/// Whether `text` is an even number of hex digits.
pub open spec fn is_hex(text: Seq<u8>) -> bool {
    &&& text.len() % 2 == 0
    &&& forall|i: int| 0 <= i < text.len() ==> hex_digit(#[trigger] text[i]) is Some
}

/// The bytes that hex text stands for: two digits per byte, the high
/// nibble first.
pub open spec fn hex_bytes(text: Seq<u8>) -> Seq<u8> {
    Seq::new(
        text.len() / 2,
        |i: int| (hex_digit(text[2 * i]).unwrap() * 16 + hex_digit(text[2 * i + 1]).unwrap()) as u8,
    )
}

/// The weight of the bit that stands `place` places after the most
/// significant bit of a byte.
pub open spec fn weight(place: int) -> int {
    if place == 0 {
        128
    } else if place == 1 {
        64
    } else if place == 2 {
        32
    } else if place == 3 {
        16
    } else if place == 4 {
        8
    } else if place == 5 {
        4
    } else if place == 6 {
        2
    } else {
        1
    }
}

/// Bit `i` of a byte-packed bit vector: byte `i / 8`, counting from the most
/// significant bit of each byte.
pub open spec fn bit_at(bytes: Seq<u8>, i: int) -> bool {
    (bytes[i / 8] as int / weight(i % 8)) % 2 == 1
}

/// The bit vector that `bytes` packs: eight bits per byte.
pub open spec fn bits_of(bytes: Seq<u8>) -> Seq<bool> {
    Seq::new(bytes.len() * 8, |i: int| bit_at(bytes, i))
}

/// The bitfield text without its optional `0x` prefix.
pub open spec fn payload(text: Seq<u8>) -> Seq<u8> {
    if text.len() >= 2 && text[0] == 0x30 && text[1] == 0x78 {
        text.skip(2)
    } else {
        text
    }
}

/// `hex::FromHexError`, the error of `hex::decode`.  Nothing is read from
/// it.
#[verifier::external_type_specification]
#[verifier::external_body]
pub struct ExFromHexError(hex::FromHexError);

/// `bit_vec::BitVec`, a growable vector of bits.
#[verifier::external_type_specification]
#[verifier::external_body]
#[verifier::reject_recursive_types(B)]
pub struct ExBitVec<B>(bit_vec::BitVec<B>);

/// The bits that a `bit_vec::BitVec` holds, in index order.
pub uninterp spec fn bit_vec_bits(v: bit_vec::BitVec<u32>) -> Seq<bool>;

/// `hex::decode`: succeeds exactly on an even number of hex digits of either
/// case, and then gives one byte per pair of digits, the first digit being
/// the high nibble.
#[verifier::external_body]
fn hex_decode(text: &[u8]) -> (res: Result<Vec<u8>, hex::FromHexError>)
    ensures
        res is Ok <==> is_hex(text@),
        res matches Ok(bytes) ==> bytes@ == hex_bytes(text@),
{
    hex::decode(text)
}

/// `bit_vec::BitVec::from_bytes`: each byte becomes eight bits, the most
/// significant bit first.  The outside function panics when the number of
/// bits does not fit in `usize`.
#[verifier::external_body]
fn bit_vec_from_bytes(bytes: &[u8]) -> (v: bit_vec::BitVec<u32>)
    requires
        bytes@.len() * 8 <= usize::MAX,
    ensures
        bit_vec_bits(v) == bits_of(bytes@),
{
    bit_vec::BitVec::from_bytes(bytes)
}

/// `bit_vec::BitVec::get`: the bit at index `i`, or `None` when `i` is not
/// below the length.
#[verifier::external_body]
fn bit_vec_get(v: &bit_vec::BitVec<u32>, i: usize) -> (bit: Option<bool>)
    ensures
        bit == if i < bit_vec_bits(*v).len() {
            Some(bit_vec_bits(*v)[i as int])
        } else {
            None
        },
{
    v.get(i)
}

/// Which flag each committee seat gets: seat `i` is paired with bit `i`.
pub open spec fn seats(bytes: Seq<u8>, validators: Seq<u64>) -> Seq<(u64, bool)> {
    Seq::new(validators.len(), |i: int| (validators[i], bit_at(bytes, i)))
}

/// What decoding `text` against a committee gives.
pub open spec fn decoded(text: Seq<u8>, validators: Seq<u64>) -> Result<Seq<(u64, bool)>, IndexError> {
    let digits = payload(text);
    if !is_hex(digits) || hex_bytes(digits).len() * 8 > usize::MAX {
        Err(IndexError::Format)
    } else if validators.len() > hex_bytes(digits).len() * 8 {
        Err(IndexError::Consistency)
    } else {
        Ok(seats(hex_bytes(digits), validators))
    }
}

/// Strips the optional `0x` prefix.
fn strip_prefix(text: &[u8]) -> (digits: &[u8])
    ensures
        digits@ == payload(text@),
{
    if text.len() >= 2 && text[0] == 0x30 && text[1] == 0x78 {
        slice_subrange(text, 2, text.len())
    } else {
        text
    }
}

/// Decodes an aggregation bitfield against the committee it was made by.
///
/// The text is hex, optionally prefixed with `0x`, of a byte-packed bit
/// vector.  Seat `i` of the committee is paired with bit `i`, counting from
/// the most significant bit of each byte.  Text that is not hex is a
/// `Format` error; a committee with more seats than the vector has bits is
/// a `Consistency` error.
pub fn decode(aggregation_bits: &str, validators: &Vec<u64>) -> (res: Result<Vec<(u64, bool)>, IndexError>)
    ensures
        match decoded(aggregation_bits.spec_bytes(), validators@) {
            Ok(pairs) => res matches Ok(v) && v@ == pairs,
            Err(e) => res == Err::<Vec<(u64, bool)>, IndexError>(e),
        },
{
    let digits = strip_prefix(aggregation_bits.as_bytes());
    let bytes = match hex_decode(digits) {
        Ok(bytes) => bytes,
        Err(_) => {
            return Err(IndexError::Format);
        },
    };
    if bytes.len() > usize::MAX / 8 {
        return Err(IndexError::Format);
    }
    let bits = bit_vec_from_bytes(bytes.as_slice());
    let mut pairs: Vec<(u64, bool)> = Vec::new();
    let mut i: usize = 0;
    while i < validators.len()
        invariant
            i <= validators.len(),
            is_hex(digits@),
            digits@ == payload(aggregation_bits.spec_bytes()),
            bytes@ == hex_bytes(digits@),
            bytes@.len() * 8 <= usize::MAX,
            i <= bytes@.len() * 8,
            bit_vec_bits(bits) == bits_of(bytes@),
            pairs@ == seats(bytes@, validators@.take(i as int)),
        decreases validators.len() - i,
    {
        match bit_vec_get(&bits, i) {
            Some(attested) => {
                pairs.push((validators[i], attested));
            },
            None => {
                return Err(IndexError::Consistency);
            },
        }
        i = i + 1;
        assert(pairs@ =~= seats(bytes@, validators@.take(i as int)));
    }
    assert(validators@.take(validators.len() as int) == validators@);
    Ok(pairs)
}

/// A bitfield of exactly as many bits as the committee has seats decodes to
/// one pair per seat, in seat order: the validator of seat `i` with bit `i`.
pub proof fn lemma_decode_covers_committee(text: Seq<u8>, validators: Seq<u64>)
    requires
        is_hex(payload(text)),
        bits_of(hex_bytes(payload(text))).len() == validators.len(),
        validators.len() <= usize::MAX,
    ensures
        decoded(text, validators) matches Ok(pairs) && pairs.len() == validators.len() && forall|i: int|
            0 <= i < validators.len() ==> #[trigger] pairs[i] == (
                validators[i],
                bits_of(hex_bytes(payload(text)))[i],
            ),
{
}

/// Text that, without its optional prefix, is not an even number of hex
/// digits decodes to a `Format` error, whatever the committee.
pub proof fn lemma_malformed_is_format_error(text: Seq<u8>, validators: Seq<u64>)
    requires
        !is_hex(payload(text)),
    ensures
        decoded(text, validators) == Err::<Seq<(u64, bool)>, IndexError>(IndexError::Format),
{
}

/// A committee with more seats than the bitfield has bits decodes to an
/// error, never to fewer pairs than seats.
pub proof fn lemma_short_bitfield_is_error(text: Seq<u8>, validators: Seq<u64>)
    requires
        validators.len() > bits_of(hex_bytes(payload(text))).len(),
    ensures
        decoded(text, validators) is Err,
        is_hex(payload(text)) && validators.len() <= usize::MAX ==> decoded(text, validators) == Err::<
            Seq<(u64, bool)>,
            IndexError,
        >(IndexError::Consistency),
{
}

} // verus!
