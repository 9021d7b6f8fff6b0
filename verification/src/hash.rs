//! Block hashes given as text: when the text stands for a hash, and what is
//! reported when it does not.

use vstd::prelude::*;
use vstd::utf8::{
    char_is_scalar, char_u32_cast, encode_scalar, encode_utf8, is_ascii_chars,
    is_ascii_chars_encode_utf8,
};
use std::str::FromStr;
use bitcoincore_rpc::bitcoin::hashes::hex;
use bitcoincore_rpc::bitcoin::BlockHash;
use crate::error::{RpcError, RpcErrorCode, RpcErrorView};

verus! {

/// Why a text does not stand for a hash. The faults are those that the
/// decoder of the `bitcoin` crate tells apart, under its names for them.
#[derive(Clone, Copy, Debug, PartialEq, Eq, Structural)]
pub enum HexError {
    /// The text holds this byte, which is no hexadecimal digit.
    InvalidChar(u8),
    /// The text has this odd number of bytes.
    OddLengthString(usize),
    /// The text should have as many bytes as the first number says and has
    /// as many as the second.
    InvalidLength(usize, usize),
}

/// Whether a byte is a hexadecimal digit, in either case.
pub open spec fn is_hex_digit(b: u8) -> bool {
    ||| 0x30 <= b <= 0x39
    ||| 0x41 <= b <= 0x46
    ||| 0x61 <= b <= 0x66
}

/// The place in the text of the byte that is examined in turn `k`, counted
/// from 0. The pairs of digits are taken from the last pair to the first, and
/// in each pair the upper digit before the lower one.
pub open spec fn scan_position(k: int) -> int {
    62 - 2 * (k / 2) + k % 2
}

/// The first byte that is no hexadecimal digit among those examined from turn
/// `k` on, in a text of 64 bytes.
pub open spec fn first_invalid_from(bytes: Seq<u8>, k: int) -> Option<u8>
    decreases 64 - k,
{
    if k < 0 || k >= 64 {
        None
    } else if !is_hex_digit(bytes[scan_position(k)]) {
        Some(bytes[scan_position(k)])
    } else {
        first_invalid_from(bytes, k + 1)
    }
}

/// Why the given bytes do not stand for a block hash, or `None` if they do.
/// An odd length is reported first, then a length other than 64, then the
/// first byte that is no hexadecimal digit.
pub open spec fn hex_fault(bytes: Seq<u8>) -> Option<HexError> {
    if bytes.len() % 2 != 0 {
        Some(HexError::OddLengthString(bytes.len() as usize))
    } else if bytes.len() != 64 {
        Some(HexError::InvalidLength(64, bytes.len() as usize))
    } else {
        match first_invalid_from(bytes, 0) {
            Some(b) => Some(HexError::InvalidChar(b)),
            None => None,
        }
    }
}

/// Why a text does not stand for a block hash, or `None` if it does. The
/// text is judged by the bytes of its UTF-8 encoding.
pub open spec fn block_hash_fault(text: Seq<char>) -> Option<HexError> {
    hex_fault(encode_utf8(text))
}

/// Whether a character is a hexadecimal digit, in either case.
pub open spec fn is_hex_char(c: char) -> bool {
    ||| '0' <= c <= '9'
    ||| 'A' <= c <= 'F'
    ||| 'a' <= c <= 'f'
}

/// Whether a text is the text of a block hash: 64 hexadecimal digits.
pub open spec fn is_block_hash_text(text: Seq<char>) -> bool {
    &&& text.len() == 64
    &&& forall|i: int| 0 <= i < text.len() ==> is_hex_char(#[trigger] text[i])
}

/// From turn `k` on, no invalid byte is found exactly if every byte examined
/// from then on is a hexadecimal digit.
proof fn lemma_first_invalid_none(bytes: Seq<u8>, k: int)
    requires
        0 <= k <= 64,
    ensures
        first_invalid_from(bytes, k) is None <==> forall|j: int|
            k <= j < 64 ==> is_hex_digit(#[trigger] bytes[scan_position(j)]),
    decreases 64 - k,
{
    if k < 64 {
        lemma_first_invalid_none(bytes, k + 1);
    }
}

/// Every place of a text of 64 bytes is examined in some turn.
proof fn lemma_scan_reaches(i: int) -> (k: int)
    requires
        0 <= i < 64,
    ensures
        0 <= k < 64,
        scan_position(k) == i,
{
    62 - (i - i % 2) + i % 2
}

/// A text whose encoding holds no byte from 128 on holds only characters
/// below 128.
proof fn lemma_low_bytes_are_ascii(text: Seq<char>)
    requires
        forall|i: int| 0 <= i < encode_utf8(text).len() ==> #[trigger] encode_utf8(text)[i] < 0x80,
    ensures
        is_ascii_chars(text),
    decreases text.len(),
{
    if text.len() > 0 {
        let c = text[0] as u32;
        char_is_scalar(text[0]);
        let first = encode_scalar(c);
        let rest = encode_utf8(text.drop_first());
        assert(encode_utf8(text) == first + rest);
        assert(first.len() >= 1);
        assert(encode_utf8(text)[0] == first[0]);
        assert(c > 0x7f ==> (0xC0u8 | ((c >> 6) & 0x1F) as u8) >= 0x80 && (0xE0u8 | ((c >> 12)
            & 0x0F) as u8) >= 0x80 && (0xF0u8 | ((c >> 18) & 0x7) as u8) >= 0x80) by (bit_vector);
        assert(c <= 0x7f);
        assert(first.len() == 1);
        assert forall|i: int| 0 <= i < rest.len() implies #[trigger] rest[i] < 0x80 by {
            assert(rest[i] == encode_utf8(text)[i + 1]);
        }
        lemma_low_bytes_are_ascii(text.drop_first());
        assert forall|i: int| 0 <= i < text.len() implies '\0' <= #[trigger] text[i]
            <= '\u{7f}' by {
            if i > 0 {
                assert(text[i] == text.drop_first()[i - 1]);
            } else {
                char_u32_cast(text[0], c);
                assert(c as char <= '\u{7f}');
            }
        }
    }
}

/// A text stands for a block hash exactly if it is made of 64 hexadecimal
/// digits.
pub proof fn lemma_block_hash_text(text: Seq<char>)
    ensures
        block_hash_fault(text) is None <==> is_block_hash_text(text),
{
    let bytes = encode_utf8(text);
    lemma_first_invalid_none(bytes, 0);
    if is_block_hash_text(text) {
        assert(is_ascii_chars(text));
        is_ascii_chars_encode_utf8(text);
        assert forall|j: int| 0 <= j < 64 implies is_hex_digit(
            #[trigger] bytes[scan_position(j)],
        ) by {
            let i = scan_position(j);
            assert(0 <= i < 64);
            assert(is_hex_char(text[i]));
            assert(text[i] as u8 == bytes[i]);
        }
    }
    if block_hash_fault(text) is None {
        assert(bytes.len() == 64);
        assert forall|i: int| 0 <= i < bytes.len() implies is_hex_digit(#[trigger] bytes[i]) by {
            let k = lemma_scan_reaches(i);
            assert(is_hex_digit(bytes[scan_position(k)]));
        }
        lemma_low_bytes_are_ascii(text);
        is_ascii_chars_encode_utf8(text);
        assert forall|i: int| 0 <= i < text.len() implies is_hex_char(#[trigger] text[i]) by {
            assert(text[i] as u8 == bytes[i]);
            assert(is_hex_digit(bytes[i]));
        }
    }
}

/// The block hash that a text stands for.
pub uninterp spec fn parsed_block_hash(text: Seq<char>) -> BlockHash;

/// `BlockHash::from_str`, the hexadecimal decoder of the `bitcoin` crate's
/// hash types. It succeeds exactly on 64 hexadecimal digits, and the same text
/// always gives the same hash. Otherwise it reports an odd number of bytes,
/// else a number of bytes other than 64, else the first byte that is no
/// hexadecimal digit, where it reads the pairs of digits from the last to the
/// first and the upper digit of each pair first.
#[verifier::external_body]
fn parse_block_hash(text: &str) -> (r: Result<BlockHash, HexError>)
    ensures
        match r {
            Ok(hash) => block_hash_fault(text@) is None && hash == parsed_block_hash(text@),
            Err(e) => block_hash_fault(text@) == Some(e),
        },
{
    match BlockHash::from_str(text) {
        Ok(hash) => Ok(hash),
        Err(hex::Error::InvalidChar(b)) => Err(HexError::InvalidChar(b)),
        Err(hex::Error::OddLengthString(n)) => Err(HexError::OddLengthString(n)),
        Err(hex::Error::InvalidLength(want, got)) => Err(HexError::InvalidLength(want, got)),
    }
}

/// The character that stands for a digit below ten.
pub open spec fn digit_char(d: nat) -> char
    recommends
        d < 10,
{
    ((48 + d) as u8) as char
}

/// A number written in decimal digits, without a sign or leading zeros.
pub open spec fn decimal(n: nat) -> Seq<char>
    decreases n,
{
    if n < 10 {
        seq![digit_char(n)]
    } else {
        decimal(n / 10).push(digit_char(n % 10))
    }
}

/// Appends a number to a text, in decimal digits.
pub fn append_decimal(out: &mut String, n: usize)
    ensures
        final(out)@ == old(out)@ + decimal(n as nat),
    decreases n,
{
    if n >= 10 {
        append_decimal(out, n / 10);
    }
    let d: usize = n % 10;
    let digits = "0123456789";
    proof {
        reveal_strlit("0123456789");
    }
    out.append(digits.substring_ascii(d, d + 1));
    assert(digits@.subrange(d as int, d + 1) =~= seq![digit_char(d as nat)]);
    assert(out@ =~= old(out)@ + decimal(n as nat));
}

impl HexError {
    /// This fault as the message of a failure shows it, which is how `Debug`
    /// writes it: the name of its kind, then its numbers in round brackets.
    pub open spec fn debug_text(self) -> Seq<char> {
        match self {
            HexError::InvalidChar(b) => "InvalidChar("@ + decimal(b as nat) + ")"@,
            HexError::OddLengthString(n) => "OddLengthString("@ + decimal(n as nat) + ")"@,
            HexError::InvalidLength(want, got) => "InvalidLength("@ + decimal(want as nat) + ", "@
                + decimal(got as nat) + ")"@,
        }
    }

    /// Appends this fault to a text, as the message of a failure shows it.
    pub fn append_debug_text(&self, out: &mut String)
        ensures
            final(out)@ == old(out)@ + self.debug_text(),
    {
        match *self {
            HexError::InvalidChar(b) => {
                out.append("InvalidChar(");
                append_decimal(out, b as usize);
            },
            HexError::OddLengthString(n) => {
                out.append("OddLengthString(");
                append_decimal(out, n);
            },
            HexError::InvalidLength(want, got) => {
                out.append("InvalidLength(");
                append_decimal(out, want);
                out.append(", ");
                append_decimal(out, got);
            },
        }
        out.append(")");
        assert(out@ =~= old(out)@ + self.debug_text());
    }
}

/// The message of the failure to convert a text to a block hash: it names the
/// text and the fault found in it.
pub open spec fn parse_failure_message(text: Seq<char>, fault: HexError) -> Seq<char> {
    "cannot convert hash "@ + text + " to BlockHash structure; "@ + fault.debug_text()
}

/// The envelope of the failure to convert a text to a block hash.
pub open spec fn parse_error_view(text: Seq<char>, fault: HexError) -> RpcErrorView {
    RpcErrorView {
        code: RpcErrorCode::ParseError,
        message: parse_failure_message(text, fault),
        data: None,
    }
}

/// Builds the envelope of the failure to convert a text to a block hash.
pub fn parse_error(text: &str, fault: HexError) -> (e: RpcError)
    ensures
        e@ == parse_error_view(text@, fault),
{
    let mut message = String::new();
    message.append("cannot convert hash ");
    message.append(text);
    message.append(" to BlockHash structure; ");
    fault.append_debug_text(&mut message);
    assert(message@ =~= parse_failure_message(text@, fault));
    RpcError { code: RpcErrorCode::ParseError, message, data: None }
}

/// Converts the text of a block hash to the hash. A text that does not stand
/// for a hash is reported as a parse failure that names the text and the
/// fault.
pub fn to_block_hash(block_hash: String) -> (r: Result<BlockHash, RpcError>)
    ensures
        match block_hash_fault(block_hash@) {
            None => r == Ok::<BlockHash, RpcError>(parsed_block_hash(block_hash@)),
            Some(fault) => r is Err && r->Err_0@ == parse_error_view(block_hash@, fault),
        },
{
    match parse_block_hash(block_hash.as_str()) {
        Ok(hash) => Ok(hash),
        Err(fault) => Err(parse_error(block_hash.as_str(), fault)),
    }
}

} // verus!
