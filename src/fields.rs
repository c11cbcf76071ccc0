//! The whitespace-separated fields of a line, and the decoding of the
//! fixed-width ones.
use vstd::prelude::*;
use vstd::utf8::encode_utf8;
use crate::addr::{be_u16_value, be_u32_value, u16_from_be, u32_from_be};
use crate::hex::{
    hex_char_pair_to_byte, hex_str_to_bytes, hex_text_decode, is_hex_digit, pair_value,
    ConvertErrorView,
};
use crate::{RouteParseError, RouteParseErrorView};
use vstd::std_specs::iter::IteratorSpec;
use vstd::string::{axiom_spec_iter, next_postcondition, StrSliceExecFns};

verus! {

/// `c` is white space in the Unicode sense, as `char::is_whitespace` has it.
pub open spec fn is_space(c: char) -> bool {
    let u = c as u32;
    (0x09 <= u <= 0x0d) || u == 0x20 || u == 0x85 || u == 0xa0 || u == 0x1680 || (0x2000 <= u
        <= 0x200a) || u == 0x2028 || u == 0x2029 || u == 0x202f || u == 0x205f || u == 0x3000
}

/// The maximal runs of non-space characters of `s`, left to right.
pub open spec fn words(s: Seq<char>) -> Seq<Seq<char>>
    decreases s.len(),
{
    if s.len() == 0 {
        seq![]
    } else {
        let w = words(s.drop_last());
        let c = s.last();
        if is_space(c) {
            w
        } else if s.len() >= 2 && !is_space(s[s.len() - 2]) && w.len() > 0 {
            w.drop_last().push(w.last().push(c))
        } else {
            w.push(seq![c])
        }
    }
}

/// Tells white space apart, as `is_space` does.
pub fn is_space_char(c: char) -> (r: bool)
    ensures
        r == is_space(c),
{
    let u = c as u32;
    (0x09 <= u && u <= 0x0d) || u == 0x20 || u == 0x85 || u == 0xa0 || u == 0x1680 || (0x2000
        <= u && u <= 0x200a) || u == 0x2028 || u == 0x2029 || u == 0x202f || u == 0x205f || u
        == 0x3000
}

/// The whitespace-separated fields of `line`, in order.
pub fn split_fields(line: &str) -> (r: Vec<&str>)
    ensures
        r@.len() == words(line@).len(),
        forall|k: int| 0 <= k < r@.len() ==> (#[trigger] r@[k])@ == words(line@)[k],
{
    broadcast use axiom_spec_iter, next_postcondition;

    let ghost s = line@;
    let n = line.unicode_len();
    let mut ranges: Vec<(usize, usize)> = Vec::new();
    let mut chars = line.chars();
    let mut i: usize = 0;
    let mut prev_space = true;
    loop
        invariant
            s == line@,
            chars.obeys_prophetic_iter_laws(),
            chars.remaining() == s.subrange(i as int, s.len() as int),
            0 <= i <= s.len(),
            ranges@.len() == words(s.subrange(0, i as int)).len(),
            forall|k: int|
                0 <= k < ranges@.len() ==> (#[trigger] ranges@[k]).0 <= ranges@[k].1
                    && ranges@[k].1 <= i,
            forall|k: int|
                0 <= k < ranges@.len() ==> s.subrange(ranges@[k].0 as int, ranges@[k].1 as int)
                    == #[trigger] words(s.subrange(0, i as int))[k],
            prev_space == (i == 0 || is_space(s[i - 1])),
            !prev_space ==> ranges@.len() > 0 && ranges@.last().1 == i,
            n == s.len(),
        ensures
            i == s.len(),
            ranges@.len() == words(s).len(),
            forall|k: int|
                0 <= k < ranges@.len() ==> (#[trigger] ranges@[k]).0 <= ranges@[k].1
                    && ranges@[k].1 <= i,
            forall|k: int|
                0 <= k < ranges@.len() ==> s.subrange(ranges@[k].0 as int, ranges@[k].1 as int)
                    == #[trigger] words(s)[k],
        decreases s.len() - i,
    {
        let ghost w = words(s.subrange(0, i as int));
        let ghost old_ranges = ranges@;
        match chars.next() {
            None => {
                assert(s.subrange(0, i as int) =~= s);
                assert(w == words(s));
                break ;
            },
            Some(c) => {
                assert(c == s[i as int]);
                let ghost t = s.subrange(0, i + 1);
                assert(t.drop_last() =~= s.subrange(0, i as int));
                assert(t.last() == c);
                let space = is_space_char(c);
                if space {
                    assert(words(t) == w);
                } else if !prev_space {
                    let last = ranges.len() - 1;
                    let start = ranges[last].0;
                    assert(s.subrange(start as int, i as int) == w[last as int]);
                    assert(t[t.len() - 2] == s[i - 1]);
                    assert(words(t) == w.drop_last().push(w.last().push(c)));
                    ranges.set(last, (start, i + 1));
                    assert(s.subrange(start as int, i + 1) =~= s.subrange(
                        start as int,
                        i as int,
                    ).push(c));
                    assert forall|k: int| 0 <= k < ranges@.len() implies ranges@[k].0
                        <= ranges@[k].1 && ranges@[k].1 <= i + 1 && s.subrange(
                        ranges@[k].0 as int,
                        ranges@[k].1 as int,
                    ) == #[trigger] words(t)[k] by {
                        if k != last {
                            assert(old_ranges[k] == ranges@[k]);
                            assert(s.subrange(old_ranges[k].0 as int, old_ranges[k].1 as int)
                                == w[k]);
                        }
                    }
                } else {
                    assert(words(t) == w.push(seq![c]));
                    ranges.push((i, i + 1));
                    assert(s.subrange(i as int, i + 1) =~= seq![c]);
                    assert forall|k: int| 0 <= k < ranges@.len() implies ranges@[k].0
                        <= ranges@[k].1 && ranges@[k].1 <= i + 1 && s.subrange(
                        ranges@[k].0 as int,
                        ranges@[k].1 as int,
                    ) == #[trigger] words(t)[k] by {
                        if k < old_ranges.len() {
                            assert(old_ranges[k] == ranges@[k]);
                            assert(s.subrange(old_ranges[k].0 as int, old_ranges[k].1 as int)
                                == w[k]);
                        }
                    }
                }
                prev_space = space;
                i = i + 1;
            },
        }
    }
    let mut fields: Vec<&str> = Vec::new();
    let mut k: usize = 0;
    while k < ranges.len()
        invariant
            s == line@,
            i == s.len(),
            ranges@.len() == words(s).len(),
            forall|j: int|
                0 <= j < ranges@.len() ==> (#[trigger] ranges@[j]).0 <= ranges@[j].1 <= s.len(),
            forall|j: int|
                0 <= j < ranges@.len() ==> s.subrange(ranges@[j].0 as int, ranges@[j].1 as int)
                    == #[trigger] words(s)[j],
            k <= ranges@.len(),
            fields@.len() == k,
            forall|j: int| 0 <= j < k ==> (#[trigger] fields@[j])@ == words(s)[j],
        decreases ranges@.len() - k,
    {
        let (a, b) = ranges[k];
        assert(s.subrange(a as int, b as int) == words(s)[k as int]);
        fields.push(line.substring_char(a, b));
        k += 1;
    }
    fields
}

/// A field of two digits as one byte; any other length is a width mismatch.
pub open spec fn pair_field_decode(t: Seq<char>) -> Result<u8, RouteParseErrorView> {
    let b = encode_utf8(t);
    if b.len() != 2 {
        Err(RouteParseErrorView::SliceToBytes)
    } else if !is_hex_digit(b[0]) {
        Err(RouteParseErrorView::Convert(ConvertErrorView::OutOfHexRange(b[0])))
    } else if !is_hex_digit(b[1]) {
        Err(RouteParseErrorView::Convert(ConvertErrorView::OutOfHexRange(b[1])))
    } else {
        Ok(pair_value(b[0], b[1]))
    }
}

/// A field of four digits as a big-endian 16-bit integer.
pub open spec fn u16_field_decode(t: Seq<char>) -> Result<u16, RouteParseErrorView> {
    match hex_text_decode(t) {
        Err(e) => Err(RouteParseErrorView::Convert(e)),
        Ok(v) => if v.len() != 2 {
            Err(RouteParseErrorView::SliceToBytes)
        } else {
            Ok(be_u16_value(v))
        },
    }
}

/// A field of eight digits as a big-endian 32-bit integer.
pub open spec fn u32_field_decode(t: Seq<char>) -> Result<u32, RouteParseErrorView> {
    match hex_text_decode(t) {
        Err(e) => Err(RouteParseErrorView::Convert(e)),
        Ok(v) => if v.len() != 4 {
            Err(RouteParseErrorView::SliceToBytes)
        } else {
            Ok(be_u32_value(v))
        },
    }
}

/// Decodes a field of exactly two hexadecimal digits into one byte.
pub fn pair_field(field: &str) -> (r: Result<u8, RouteParseError>)
    ensures
        match r {
            Ok(v) => pair_field_decode(field@) == Ok::<u8, RouteParseErrorView>(v),
            Err(e) => pair_field_decode(field@) == Err::<u8, RouteParseErrorView>(e@),
        },
{
    let b = field.as_bytes();
    if b.len() != 2 {
        return Err(RouteParseError::SliceToBytes);
    }
    match hex_char_pair_to_byte([b[0], b[1]]) {
        Ok(v) => Ok(v),
        Err(e) => Err(RouteParseError::Convert(e)),
    }
}

/// Decodes a field of four hexadecimal digits into a big-endian 16-bit integer.
pub fn u16_field(field: &str) -> (r: Result<u16, RouteParseError>)
    ensures
        match r {
            Ok(v) => u16_field_decode(field@) == Ok::<u16, RouteParseErrorView>(v),
            Err(e) => u16_field_decode(field@) == Err::<u16, RouteParseErrorView>(e@),
        },
{
    let v = match hex_str_to_bytes(field) {
        Ok(v) => v,
        Err(e) => return Err(RouteParseError::Convert(e)),
    };
    if v.len() != 2 {
        return Err(RouteParseError::SliceToBytes);
    }
    Ok(u16_from_be(v.as_slice()))
}

/// Decodes a field of eight hexadecimal digits into a big-endian 32-bit integer.
pub fn u32_field(field: &str) -> (r: Result<u32, RouteParseError>)
    ensures
        match r {
            Ok(v) => u32_field_decode(field@) == Ok::<u32, RouteParseErrorView>(v),
            Err(e) => u32_field_decode(field@) == Err::<u32, RouteParseErrorView>(e@),
        },
{
    let v = match hex_str_to_bytes(field) {
        Ok(v) => v,
        Err(e) => return Err(RouteParseError::Convert(e)),
    };
    if v.len() != 4 {
        return Err(RouteParseError::SliceToBytes);
    }
    Ok(u32_from_be(v.as_slice()))
}

} // verus!
