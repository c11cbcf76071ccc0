//! Hexadecimal text: digits, digit pairs and even-length runs of digits.
use vstd::prelude::*;
use vstd::utf8::{encode_utf8, is_ascii_chars, is_ascii_chars_encode_utf8};

verus! {

/// Failure to turn hexadecimal text into a value.
#[derive(Debug)]
pub enum ConvertError {
    /// The text does not have the length the value needs: an odd number of
    /// digits, or an address of the wrong width. Holds the text.
    OddStringLength(String),
    /// The decoded bytes do not have the width of the target value.
    SliceToBytes,
    /// A byte that is not one of `0-9a-fA-F` stood where a digit was expected.
    OutOfHexRange(u8),
}

/// What a `ConvertError` says, with the text as a sequence of characters.
pub enum ConvertErrorView {
    OddStringLength(Seq<char>),
    SliceToBytes,
    OutOfHexRange(u8),
}

impl View for ConvertError {
    type V = ConvertErrorView;

    open spec fn view(&self) -> ConvertErrorView {
        match self {
            ConvertError::OddStringLength(s) => ConvertErrorView::OddStringLength(s@),
            ConvertError::SliceToBytes => ConvertErrorView::SliceToBytes,
            ConvertError::OutOfHexRange(b) => ConvertErrorView::OutOfHexRange(*b),
        }
    }
}

/// `b` is the ASCII code of one of `0-9`, `a-f`, `A-F`.
pub open spec fn is_hex_digit(b: u8) -> bool {
    (0x30 <= b <= 0x39) || (0x61 <= b <= 0x66) || (0x41 <= b <= 0x46)
}

/// The value of the hexadecimal digit `b`.
pub open spec fn nibble_value(b: u8) -> u8
    recommends
        is_hex_digit(b),
{
    if 0x30 <= b <= 0x39 {
        (b - 0x30) as u8
    } else if 0x61 <= b <= 0x66 {
        (b - 0x61 + 10) as u8
    } else {
        (b - 0x41 + 10) as u8
    }
}

/// The byte written by the high digit `hi` followed by the low digit `lo`.
pub open spec fn pair_value(hi: u8, lo: u8) -> u8 {
    (nibble_value(hi) * 16 + nibble_value(lo)) as u8
}

/// The first byte of `b`, from the left, that is not a hexadecimal digit.
pub open spec fn first_non_hex(b: Seq<u8>) -> Option<u8>
    decreases b.len(),
{
    if b.len() == 0 {
        None
    } else {
        match first_non_hex(b.drop_last()) {
            Some(x) => Some(x),
            None => if is_hex_digit(b.last()) {
                None
            } else {
                Some(b.last())
            },
        }
    }
}

/// The bytes written by the consecutive digit pairs of `b`, in order.
pub open spec fn pairs_value(b: Seq<u8>) -> Seq<u8> {
    Seq::new(b.len() / 2, |i: int| pair_value(b[2 * i], b[2 * i + 1]))
}

/// Decoding of the hexadecimal text `t` (as UTF-8 bytes) into bytes.
pub open spec fn hex_text_decode(t: Seq<char>) -> Result<Seq<u8>, ConvertErrorView> {
    let b = encode_utf8(t);
    if b.len() % 2 != 0 {
        Err(ConvertErrorView::OddStringLength(t))
    } else {
        match first_non_hex(b) {
            Some(c) => Err(ConvertErrorView::OutOfHexRange(c)),
            None => Ok(pairs_value(b)),
        }
    }
}

/// A non-digit in a prefix is the first non-digit of the whole sequence.
proof fn lemma_first_non_hex_prefix(b: Seq<u8>, k: int)
    requires
        0 <= k <= b.len(),
        first_non_hex(b.subrange(0, k)) is Some,
    ensures
        first_non_hex(b) == first_non_hex(b.subrange(0, k)),
    decreases b.len(),
{
    if k == b.len() {
        assert(b.subrange(0, k) =~= b);
    } else {
        assert(b.drop_last().subrange(0, k) =~= b.subrange(0, k));
        lemma_first_non_hex_prefix(b.drop_last(), k);
    }
}

/// `first_non_hex` finds nothing exactly when every byte is a digit, and what
/// it finds is not a digit.
proof fn lemma_first_non_hex_found(b: Seq<u8>)
    ensures
        first_non_hex(b) is None <==> forall|i: int| 0 <= i < b.len() ==> is_hex_digit(b[i]),
        first_non_hex(b) is Some ==> !is_hex_digit(first_non_hex(b)->0),
    decreases b.len(),
{
    if b.len() > 0 {
        let p = b.drop_last();
        lemma_first_non_hex_found(p);
        if first_non_hex(p) is None && is_hex_digit(b.last()) {
            assert forall|i: int| 0 <= i < b.len() implies is_hex_digit(b[i]) by {
                if i < p.len() {
                    assert(p[i] == b[i]);
                }
            }
        }
        if first_non_hex(p) is Some {
            let j = choose|j: int| 0 <= j < p.len() && !is_hex_digit(p[j]);
            assert(p[j] == b[j]);
        }
    }
}

/// Every even-length run of hexadecimal digits decodes, to half as many
/// bytes; every odd-length text fails with `OddStringLength`.
pub proof fn lemma_decode_total(t: Seq<char>)
    ensures
        encode_utf8(t).len() % 2 == 0 && (forall|i: int|
            0 <= i < encode_utf8(t).len() ==> is_hex_digit(#[trigger] encode_utf8(t)[i]))
            ==> hex_text_decode(t) is Ok && hex_text_decode(t)->Ok_0.len() == encode_utf8(
            t,
        ).len() / 2,
        encode_utf8(t).len() % 2 != 0 ==> hex_text_decode(t) == Err::<
            Seq<u8>,
            ConvertErrorView,
        >(ConvertErrorView::OddStringLength(t)),
{
    lemma_first_non_hex_found(encode_utf8(t));
}

/// A byte that is not a hexadecimal digit makes the whole text fail; when the
/// length is even, the error is `OutOfHexRange` of such a byte.
pub proof fn lemma_non_hex_fails(t: Seq<char>, i: int)
    requires
        0 <= i < encode_utf8(t).len(),
        !is_hex_digit(encode_utf8(t)[i]),
    ensures
        hex_text_decode(t) is Err,
        encode_utf8(t).len() % 2 == 0 ==> hex_text_decode(t)->Err_0 is OutOfHexRange
            && !is_hex_digit(hex_text_decode(t)->Err_0->OutOfHexRange_0),
{
    lemma_first_non_hex_found(encode_utf8(t));
}

/// The digit for a value below sixteen, in upper or lower case.
pub open spec fn digit_of(v: u8, upper: bool) -> u8 {
    if v < 10 {
        (0x30 + v) as u8
    } else if upper {
        (0x41 + v - 10) as u8
    } else {
        (0x61 + v - 10) as u8
    }
}

/// The hexadecimal text of `b`, two digits per byte, high digit first, in
/// upper or lower case.
pub open spec fn hex_encode(b: Seq<u8>, upper: bool) -> Seq<char> {
    Seq::new(
        2 * b.len(),
        |i: int|
            (if i % 2 == 0 {
                digit_of(b[i / 2] / 16, upper)
            } else {
                digit_of(b[i / 2] % 16, upper)
            }) as char,
    )
}

/// Decoding the hexadecimal text of any byte sequence, in either case, gives
/// the bytes back.
pub proof fn lemma_round_trip(b: Seq<u8>, upper: bool)
    ensures
        hex_text_decode(hex_encode(b, upper)) == Ok::<Seq<u8>, ConvertErrorView>(b),
{
    let t = hex_encode(b, upper);
    assert forall|i: int| 0 <= i < t.len() implies '\0' <= #[trigger] t[i] <= '\u{7f}' by {
        let d = if i % 2 == 0 {
            digit_of(b[i / 2] / 16, upper)
        } else {
            digit_of(b[i / 2] % 16, upper)
        };
        assert(d < 0x80);
        assert(t[i] == d as char);
    }
    assert(is_ascii_chars(t));
    is_ascii_chars_encode_utf8(t);
    let e = encode_utf8(t);
    assert forall|i: int| 0 <= i < e.len() implies is_hex_digit(e[i]) && e[i] == (if i % 2 == 0 {
        digit_of(b[i / 2] / 16, upper)
    } else {
        digit_of(b[i / 2] % 16, upper)
    }) by {
        assert(t[i] as u8 == e[i]);
    }
    lemma_first_non_hex_found(e);
    assert(pairs_value(e) =~= b);
}

/// Decodes one hexadecimal digit into its value.
pub fn hex_char_to_u8(hex: u8) -> (r: Result<u8, ConvertError>)
    ensures
        match r {
            Ok(v) => is_hex_digit(hex) && v == nibble_value(hex) && v < 16,
            Err(e) => !is_hex_digit(hex) && e@ == ConvertErrorView::OutOfHexRange(hex),
        },
{
    if 0x30 <= hex && hex <= 0x39 {
        Ok(hex - 0x30)
    } else if 0x61 <= hex && hex <= 0x66 {
        Ok(hex - 0x61 + 10)
    } else if 0x41 <= hex && hex <= 0x46 {
        Ok(hex - 0x41 + 10)
    } else {
        Err(ConvertError::OutOfHexRange(hex))
    }
}

/// Decodes a high digit and a low digit into one byte; the first digit that
/// fails decides the error.
pub fn hex_char_pair_to_byte(double_chars: [u8; 2]) -> (r: Result<u8, ConvertError>)
    ensures
        match r {
            Ok(v) => is_hex_digit(double_chars@[0]) && is_hex_digit(double_chars@[1]) && v
                == pair_value(double_chars@[0], double_chars@[1]),
            Err(e) => if !is_hex_digit(double_chars@[0]) {
                e@ == ConvertErrorView::OutOfHexRange(double_chars@[0])
            } else {
                !is_hex_digit(double_chars@[1]) && e@ == ConvertErrorView::OutOfHexRange(
                    double_chars@[1],
                )
            },
        },
{
    let high = double_chars[0];
    let low = double_chars[1];
    let h = match hex_char_to_u8(high) {
        Ok(h) => h,
        Err(e) => return Err(e),
    };
    let l = match hex_char_to_u8(low) {
        Ok(l) => l,
        Err(e) => return Err(e),
    };
    assert((h << 4u8) | l == h * 16 + l) by (bit_vector)
        requires
            h < 16,
            l < 16,
    ;
    Ok(h << 4 | l)
}

/// Decodes an even-length run of hexadecimal digits into bytes, two digits
/// per byte, left to right.
pub fn hex_str_to_bytes(text: &str) -> (r: Result<Vec<u8>, ConvertError>)
    ensures
        match r {
            Ok(v) => hex_text_decode(text@) == Ok::<Seq<u8>, ConvertErrorView>(v@),
            Err(e) => hex_text_decode(text@) == Err::<Seq<u8>, ConvertErrorView>(e@),
        },
{
    let bytes = text.as_bytes();
    let n = bytes.len();
    if n % 2 != 0 {
        return Err(ConvertError::OddStringLength(text.to_owned()));
    }
    let mut buf: Vec<u8> = Vec::with_capacity(n / 2);
    let mut i: usize = 0;
    while i < n / 2
        invariant
            bytes@ == encode_utf8(text@),
            n == bytes@.len(),
            n % 2 == 0,
            i <= n / 2,
            buf@ == pairs_value(bytes@.subrange(0, 2 * i)),
            first_non_hex(bytes@.subrange(0, 2 * i)) is None,
        decreases n / 2 - i,
    {
        let pair = [bytes[2 * i], bytes[2 * i + 1]];
        let ghost b = bytes@;
        let ghost k = 2 * i;
        assert(b.subrange(0, k + 1).drop_last() =~= b.subrange(0, k));
        assert(b.subrange(0, k + 2).drop_last() =~= b.subrange(0, k + 1));
        match hex_char_pair_to_byte(pair) {
            Ok(v) => {
                buf.push(v);
                assert(buf@ =~= pairs_value(b.subrange(0, k + 2)));
            },
            Err(e) => {
                proof {
                    if !is_hex_digit(b[k]) {
                        lemma_first_non_hex_prefix(b, k + 1);
                    } else {
                        lemma_first_non_hex_prefix(b, k + 2);
                    }
                }
                return Err(e);
            },
        }
        i += 1;
    }
    assert(bytes@.subrange(0, n as int) =~= bytes@);
    Ok(buf)
}

} // verus!
