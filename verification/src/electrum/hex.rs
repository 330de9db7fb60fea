//! Bytes as hexadecimal numerals, and transactions as bytes.

use vstd::prelude::*;

verus! {

/// The outside type of transactions.
#[verifier::external_type_specification]
#[verifier::external_body]
pub struct ExTransaction(bitcoin::Transaction);

/// The transaction that `bitcoin` reads out of bytes, if they are one.
pub uninterp spec fn transaction_of(bytes: Seq<u8>) -> Option<bitcoin::Transaction>;

/// The bytes that `bitcoin` writes a transaction as.
pub uninterp spec fn transaction_bytes(transaction: bitcoin::Transaction) -> Seq<u8>;

/// The lower-case digit that stands for `d`.
pub open spec fn hex_digit(d: int) -> char {
    if d < 10 {
        (d + 48) as char
    } else {
        (d + 87) as char
    }
}

/// What a digit, in lower case or in upper case, stands for.
pub open spec fn digit_value(c: char) -> Option<int> {
    let u = c as int;
    if 48 <= u <= 57 {
        Some(u - 48)
    } else if 97 <= u <= 102 {
        Some(u - 87)
    } else if 65 <= u <= 70 {
        Some(u - 55)
    } else {
        None
    }
}

/// Two lower-case digits for each byte.
pub open spec fn hex_text(bytes: Seq<u8>) -> Seq<char> {
    Seq::new(
        2 * bytes.len(),
        |i: int|
            if i % 2 == 0 {
                hex_digit(bytes[i / 2] as int / 16)
            } else {
                hex_digit(bytes[i / 2] as int % 16)
            },
    )
}

/// The bytes for which digits stand two by two.
pub open spec fn hex_bytes(text: Seq<char>) -> Option<Seq<u8>> {
    if text.len() % 2 == 0 && forall|i: int|
        0 <= i < text.len() ==> digit_value(#[trigger] text[i]) is Some {
        Some(
            Seq::new(
                text.len() / 2,
                |i: int|
                    (digit_value(text[2 * i])->0 * 16 + digit_value(text[2 * i + 1])->0) as u8,
            ),
        )
    } else {
        None
    }
}

proof fn digit_round_trip(d: int)
    requires
        0 <= d < 16,
    ensures
        digit_value(hex_digit(d)) == Some(d),
{
}

/// Bytes read back from their digits are the same bytes.
pub proof fn hex_round_trip(bytes: Seq<u8>)
    ensures
        hex_bytes(hex_text(bytes)) == Some(bytes),
{
    let text = hex_text(bytes);
    assert forall|i: int| 0 <= i < text.len() implies digit_value(#[trigger] text[i]) is Some by {
        digit_round_trip(bytes[i / 2] as int / 16);
        digit_round_trip(bytes[i / 2] as int % 16);
    }
    assert forall|i: int| 0 <= i < bytes.len() implies hex_bytes(text)->0[i] == bytes[i] by {
        let b = bytes[i] as int;
        assert((2 * i) % 2 == 0 && (2 * i) / 2 == i);
        assert((2 * i + 1) % 2 == 1 && (2 * i + 1) / 2 == i);
        digit_round_trip(b / 16);
        digit_round_trip(b % 16);
        assert(digit_value(text[2 * i]) == Some(b / 16));
        assert(digit_value(text[2 * i + 1]) == Some(b % 16));
        assert(b / 16 * 16 + b % 16 == b);
    }
    assert(hex_bytes(text)->0 =~= bytes);
}

/// Each byte is two digits, the high half first, and no digit is an upper-case one.
pub proof fn byte_is_two_digits(bytes: Seq<u8>, i: int)
    requires
        0 <= i < bytes.len(),
    ensures
        hex_text(bytes).len() == 2 * bytes.len(),
        digit_value(hex_text(bytes)[2 * i]) == Some(bytes[i] as int / 16),
        digit_value(hex_text(bytes)[2 * i + 1]) == Some(bytes[i] as int % 16),
        !('A' <= hex_text(bytes)[2 * i] <= 'F'),
        !('A' <= hex_text(bytes)[2 * i + 1] <= 'F'),
{
    assert((2 * i) % 2 == 0 && (2 * i) / 2 == i);
    assert((2 * i + 1) % 2 == 1 && (2 * i + 1) / 2 == i);
    digit_round_trip(bytes[i] as int / 16);
    digit_round_trip(bytes[i] as int % 16);
}

/// Bytes are read out of an even number of characters between `0` and `9`, `a` and `f`, or `A` and
/// `F`, and out of nothing else.
pub proof fn digits_are_read(text: Seq<char>, i: int)
    requires
        0 <= i < text.len(),
    ensures
        hex_bytes(text) is Some ==> {
            &&& 2 * hex_bytes(text)->0.len() == text.len()
            &&& '0' <= text[i] <= '9' || 'a' <= text[i] <= 'f' || 'A' <= text[i] <= 'F'
        },
        hex_bytes(text) is None ==> text.len() % 2 == 1 || exists|k: int|
            0 <= k < text.len() && !('0' <= #[trigger] text[k] <= '9' || 'a' <= text[k] <= 'f'
                || 'A' <= text[k] <= 'F'),
{
    if hex_bytes(text) is None && text.len() % 2 == 0 {
        let k = choose|k: int| 0 <= k < text.len() && !(digit_value(#[trigger] text[k]) is Some);
        assert(!('0' <= text[k] <= '9' || 'a' <= text[k] <= 'f' || 'A' <= text[k] <= 'F'));
    }
}

/// `bitcoin::hashes::hex::ToHex::to_hex` on bytes: two lower-case digits for each byte.
#[verifier::external_body]
pub(crate) fn to_hex(bytes: &[u8]) -> (text: String)
    ensures
        text@ == hex_text(bytes@),
{
    bitcoin::hashes::hex::ToHex::to_hex(bytes)
}

/// `bitcoin::hashes::hex::FromHex::from_hex` for bytes: takes digits of either case, two for each
/// byte, and refuses an odd number of them and everything else.
#[verifier::external_body]
pub(crate) fn from_hex(text: &str) -> (bytes: Option<Vec<u8>>)
    ensures
        match bytes {
            Some(bytes) => hex_bytes(text@) == Some(bytes@),
            None => hex_bytes(text@) is None,
        },
{
    let bytes: Result<Vec<u8>, bitcoin::hashes::hex::Error> =
        bitcoin::hashes::hex::FromHex::from_hex(text);
    bytes.ok()
}

/// `bitcoin::consensus::deserialize` for a transaction. What it reads depends on the bytes alone.
#[verifier::external_body]
pub(crate) fn read_transaction(bytes: &[u8]) -> (transaction: Option<bitcoin::Transaction>)
    ensures
        transaction == transaction_of(bytes@),
{
    bitcoin::consensus::deserialize(bytes).ok()
}

/// `bitcoin::consensus::serialize` on a transaction. What it writes depends on the transaction
/// alone.
#[verifier::external_body]
pub(crate) fn write_transaction(transaction: &bitcoin::Transaction) -> (bytes: Vec<u8>)
    ensures
        bytes@ == transaction_bytes(*transaction),
{
    bitcoin::consensus::serialize(transaction)
}

} // verus!
