//! Text forms of numbers and byte strings, as the document's keys spell them.

use vstd::prelude::*;
use vstd::string::*;

verus! {

/// The sixteen digits, in the order of their values.
pub const DIGITS: &'static str = "0123456789abcdef";

/// The character that stands for a digit's value.
pub open spec fn digit_char(value: int) -> char {
    DIGITS@[value]
}

/// Lower-case hexadecimal text of a byte string: two digits per byte, the high one first.
pub open spec fn hex_text(bytes: Seq<u8>) -> Seq<char> {
    Seq::new(
        2 * bytes.len(),
        |i: int|
            digit_char(
                if i % 2 == 0 {
                    bytes[i / 2] as int / 16
                } else {
                    bytes[i / 2] as int % 16
                },
            ),
    )
}

/// Decimal text of a number, without leading zeros.
pub open spec fn decimal_text(n: nat) -> Seq<char>
    decreases n,
{
    if n < 10 {
        seq![digit_char(n as int)]
    } else {
        decimal_text(n / 10).push(digit_char((n % 10) as int))
    }
}

/// True when every character is below 128.
pub open spec fn is_ascii_text(text: Seq<char>) -> bool {
    vstd::utf8::is_ascii_chars(text)
}

/// The bytes of a text whose characters are all below 128: one byte per character.
pub open spec fn ascii_bytes(text: Seq<char>) -> Seq<u8> {
    Seq::new(text.len(), |i: int| text[i] as u8)
}

/// The text that a byte string is read as: `String::from_utf8_lossy` of it.
pub uninterp spec fn utf8_lossy_text(bytes: Seq<u8>) -> Seq<char>;

/// Calls `String::from_utf8_lossy`.
///
/// Trusted: the result is the one named by [`utf8_lossy_text`], and valid
/// UTF-8 is decoded as it stands.
#[verifier::external_body]
fn lossy_text(bytes: &[u8]) -> (r: String)
    ensures
        r@ == utf8_lossy_text(bytes@),
        vstd::utf8::valid_utf8(bytes@) ==> r@ == vstd::utf8::decode_utf8(bytes@),
{
    String::from_utf8_lossy(bytes).into_owned()
}

/// The text that a byte string is read as: its decoding where it is valid
/// UTF-8, and the lossy reading of it where it is not.
pub open spec fn text_of_bytes(bytes: Seq<u8>) -> Seq<char> {
    if vstd::utf8::valid_utf8(bytes) {
        vstd::utf8::decode_utf8(bytes)
    } else {
        utf8_lossy_text(bytes)
    }
}

/// Reads a byte string as text, with a replacement character for what is no UTF-8.
pub fn bytes_to_text(bytes: &[u8]) -> (r: String)
    ensures
        r@ == text_of_bytes(bytes@),
{
    lossy_text(bytes)
}

/// A label followed by a reason.
pub fn labelled(label: &str, reason: &str) -> (r: String)
    ensures
        r@ == label@ + reason@,
{
    let mut out = label.to_owned();
    out.append(reason);
    out
}

/// The text `who: reason` behind a label.
pub open spec fn about_text(label: Seq<char>, who: Seq<char>, reason: Seq<char>) -> Seq<char> {
    label + who + ": "@ + reason
}

/// A label followed by a name, a colon and a reason.
pub fn about(label: &str, who: &str, reason: &str) -> (r: String)
    ensures
        r@ == about_text(label@, who@, reason@),
{
    let mut out = label.to_owned();
    out.append(who);
    out.append(": ");
    out.append(reason);
    out
}

/// Compares two 32-byte strings.
pub fn same_bytes(a: &[u8; 32], b: &[u8; 32]) -> (r: bool)
    ensures
        r == (a@ == b@),
{
    let mut i: usize = 0;
    while i < 32
        invariant
            i <= 32,
            forall|j: int| 0 <= j < i ==> a@[j] == b@[j],
        decreases 32 - i,
    {
        if a[i] != b[i] {
            return false;
        }
        i = i + 1;
    }
    assert(a@ =~= b@);
    true
}

/// The bytes of a text: its UTF-8 encoding.
pub open spec fn utf8_bytes(text: Seq<char>) -> Seq<u8> {
    vstd::utf8::encode_utf8(text)
}

/// A text of characters below 128 is written one byte per character.
pub proof fn lemma_ascii_utf8(text: Seq<char>)
    requires
        is_ascii_text(text),
    ensures
        utf8_bytes(text) == ascii_bytes(text),
{
    vstd::utf8::is_ascii_chars_encode_utf8(text);
    assert(vstd::utf8::encode_utf8(text) =~= ascii_bytes(text));
}

/// The bytes of a text: one byte per character where all are below 128.
pub fn text_to_bytes(text: &str) -> (r: Vec<u8>)
    ensures
        r@ == utf8_bytes(text@),
        is_ascii_text(text@) ==> r@ == ascii_bytes(text@),
{
    proof {
        if is_ascii_text(text@) {
            lemma_ascii_utf8(text@);
        }
    }
    text.as_bytes_vec()
}

/// Bytes written from a text of characters below 128 are read back as that text.
pub proof fn lemma_ascii_bytes_read_back(text: Seq<char>)
    requires
        is_ascii_text(text),
    ensures
        vstd::utf8::valid_utf8(ascii_bytes(text)),
        vstd::utf8::decode_utf8(ascii_bytes(text)) == text,
{
    vstd::utf8::is_ascii_chars_encode_utf8(text);
    assert(vstd::utf8::encode_utf8(text) =~= ascii_bytes(text));
    vstd::utf8::encode_utf8_valid_utf8(text);
    vstd::utf8::encode_utf8_decode_utf8(text);
}

/// A text of characters below 128 that is written as bytes is read back unchanged.
pub proof fn lemma_text_of_ascii_bytes(text: Seq<char>)
    requires
        is_ascii_text(text),
    ensures
        text_of_bytes(ascii_bytes(text)) == text,
{
    lemma_ascii_bytes_read_back(text);
}

/// The bytes of two texts joined are the bytes of each, joined.
pub proof fn lemma_ascii_bytes_concat(a: Seq<char>, b: Seq<char>)
    ensures
        ascii_bytes(a + b) == ascii_bytes(a) + ascii_bytes(b),
{
    assert(ascii_bytes(a + b) =~= ascii_bytes(a) + ascii_bytes(b));
}

/// The one-character text of a digit.
pub fn digit_str(value: u8) -> (r: &'static str)
    requires
        value < 16,
    ensures
        r@ == seq![digit_char(value as int)],
{
    proof {
        reveal_strlit("0123456789abcdef");
    }
    let at: usize = value as usize;
    let r = DIGITS.substring_ascii(at, at + 1);
    assert(r@ =~= seq![digit_char(value as int)]);
    r
}

/// Writes a byte string as lower-case hexadecimal text.
pub fn to_hex(bytes: &[u8]) -> (r: String)
    ensures
        r@ == hex_text(bytes@),
{
    let mut out = String::new();
    let mut i: usize = 0;
    assert(out@ =~= hex_text(bytes@.take(0)));
    while i < bytes.len()
        invariant
            i <= bytes.len(),
            out@ == hex_text(bytes@.take(i as int)),
        decreases bytes.len() - i,
    {
        let b: u8 = bytes[i];
        let ghost before = out@;
        out.append(digit_str(b / 16));
        out.append(digit_str(b % 16));
        proof {
            let next = bytes@.take(i + 1);
            let prev = bytes@.take(i as int);
            assert forall|k: int| 0 <= k < 2 * (i + 1) implies out@[k] == hex_text(next)[k] by {
                if k < 2 * i {
                    assert(before[k] == hex_text(prev)[k]);
                    assert(prev[k / 2] == next[k / 2]);
                } else if k == 2 * i {
                    assert(next[k / 2] == b);
                } else {
                    assert(k == 2 * i + 1);
                    assert(next[k / 2] == b);
                }
            }
            assert(out@ =~= hex_text(next));
        }
        i = i + 1;
    }
    assert(bytes@.take(i as int) =~= bytes@);
    out
}

/// Writes a number in decimal.
pub fn to_decimal(n: u64) -> (r: String)
    ensures
        r@ == decimal_text(n as nat),
    decreases n,
{
    if n < 10 {
        let r = String::from_str(digit_str(n as u8));
        r
    } else {
        let mut out = to_decimal(n / 10);
        out.append(digit_str((n % 10) as u8));
        assert(out@ =~= decimal_text(n as nat));
        out
    }
}

/// Hexadecimal text holds digits only.
pub proof fn lemma_hex_text_is_ascii(bytes: Seq<u8>)
    ensures
        is_ascii_text(hex_text(bytes)),
        hex_text(bytes).len() == 2 * bytes.len(),
{
    reveal_strlit("0123456789abcdef");
    assert forall|i: int| 0 <= i < hex_text(bytes).len() implies '\0' <= #[trigger] hex_text(
        bytes,
    )[i] <= '\u{7f}' by {
        let v = if i % 2 == 0 {
            bytes[i / 2] as int / 16
        } else {
            bytes[i / 2] as int % 16
        };
        assert(0 <= v < 16);
        assert(hex_text(bytes)[i] == DIGITS@[v]);
    }
}

/// Decimal text holds the digits `0` to `9` only, and at least one of them.
pub proof fn lemma_decimal_text_digits(n: nat)
    ensures
        decimal_text(n).len() >= 1,
        forall|i: int| 0 <= i < decimal_text(n).len() ==> '0' <= #[trigger] decimal_text(n)[i] <= '9',
        is_ascii_text(decimal_text(n)),
    decreases n,
{
    reveal_strlit("0123456789abcdef");
    if n < 10 {
    } else {
        lemma_decimal_text_digits(n / 10);
    }
}

} // verus!
