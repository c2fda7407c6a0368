use vstd::prelude::*;

use vstd::string::StrSliceExecFns;

use crate::error::ConsoleError;

verus! {

/// The UTF-16 encoding of one Unicode scalar value: a single code unit for
/// scalars below `0x10000`, and a surrogate pair for the rest.
pub open spec fn utf16_units_of_char(c: char) -> Seq<u16> {
    let v = c as u32;
    if v < 0x10000 {
        seq![v as u16]
    } else {
        seq![
            (0xD800 + (v - 0x10000) / 0x400) as u16,
            (0xDC00 + (v - 0x10000) % 0x400) as u16,
        ]
    }
}

/// The UTF-16 encoding of a character sequence: the code units of each
/// character, in order.
pub open spec fn utf16_encode(s: Seq<char>) -> Seq<u16>
    decreases s.len(),
{
    if s.len() == 0 {
        Seq::empty()
    } else {
        utf16_encode(s.drop_last()) + utf16_units_of_char(s.last())
    }
}

/// Encodes a string as UTF-16, exactly as [`utf16_encode`] describes it.
pub fn encode_utf16(s: &str) -> (r: Vec<u16>)
    ensures
        r@ == utf16_encode(s@),
{
    let n = s.unicode_len();
    let mut out: Vec<u16> = Vec::new();
    let mut i: usize = 0;
    while i < n
        invariant
            i <= n,
            n == s@.len(),
            out@ == utf16_encode(s@.take(i as int)),
        decreases n - i,
    {
        let c = s.get_char(i);
        let v = c as u32;
        proof {
            vstd::utf8::char_is_scalar(c);
        }
        if v < 0x10000 {
            out.push(v as u16);
        } else {
            let offset = v - 0x10000;
            out.push(0xD800 + (offset / 0x400) as u16);
            out.push(0xDC00 + (offset % 0x400) as u16);
        }
        proof {
            assert(s@.take(i + 1).drop_last() =~= s@.take(i as int));
            assert(s@.take(i + 1).last() == s@[i as int]);
        }
        i += 1;
    }
    proof {
        assert(s@.take(n as int) =~= s@);
    }
    out
}

/// Relies on `char::from_u32`: it returns the character with the given
/// code point exactly when the value is a Unicode scalar — neither a
/// surrogate nor above 0x10FFFF — and `None` otherwise.
pub assume_specification[ char::from_u32 ](v: u32) -> (r: Option<char>)
    ensures
        r is Some <==> vstd::utf8::is_scalar(v),
        r matches Some(c) ==> c as u32 == v,
;

/// Relies on `String::push`: it appends the given character to the end of
/// the string.
pub assume_specification[ String::push ](s: &mut String, ch: char)
    ensures
        final(s)@ == old(s)@ + seq![ch],
;

/// Reads the UTF-8 encoding of one Unicode scalar at position `p` of
/// `bytes`: its value and the width of its encoding, or `None` when no
/// well-formed scalar encoding starts there.
fn decode_first_scalar_at(bytes: &Vec<u8>, p: usize) -> (r: Option<(u32, usize)>)
    requires
        p < bytes@.len(),
    ensures
        ({
            let s = bytes@.subrange(p as int, bytes@.len() as int);
            match r {
                Some((cp, w)) => {
                    &&& vstd::utf8::valid_first_scalar(s)
                    &&& cp == vstd::utf8::decode_first_scalar(s)
                    &&& w == vstd::utf8::length_of_first_scalar(s)
                    &&& vstd::utf8::is_scalar(cp)
                    &&& 1 <= w && p + w <= bytes@.len()
                },
                None => !vstd::utf8::valid_first_scalar(s),
            }
        }),
{
    let ghost s = bytes@.subrange(p as int, bytes@.len() as int);
    let n = bytes.len();
    let b0 = bytes[p];
    if b0 < 0x80 {
        // One byte: 0xxxxxxx.
        Some(((b0 & 0x7F) as u32, 1))
    } else if 0xC0 <= b0 && b0 <= 0xDF {
        // Two bytes: 110xxxxx 10xxxxxx.
        if n - p < 2 {
            return None;
        }
        let b1 = bytes[p + 1];
        if !(0x80 <= b1 && b1 <= 0xBF) {
            return None;
        }
        let cp = (((b0 & 0x1F) as u32) << 6) | ((b1 & 0x3F) as u32);
        if cp < 0x80 {
            // An overlong encoding.
            return None;
        }
        proof {
            assert(cp <= 0x7FF) by (bit_vector)
                requires
                    cp == (((b0 & 0x1F) as u32) << 6) | ((b1 & 0x3F) as u32),
            ;
        }
        Some((cp, 2))
    } else if 0xE0 <= b0 && b0 <= 0xEF {
        // Three bytes: 1110xxxx 10xxxxxx 10xxxxxx.
        if n - p < 3 {
            return None;
        }
        let b1 = bytes[p + 1];
        let b2 = bytes[p + 2];
        if !(0x80 <= b1 && b1 <= 0xBF) || !(0x80 <= b2 && b2 <= 0xBF) {
            return None;
        }
        let cp = (((b0 & 0x0F) as u32) << 12) | (((b1 & 0x3F) as u32) << 6) | ((b2 & 0x3F) as u32);
        if cp < 0x800 {
            // An overlong encoding.
            return None;
        }
        if 0xD800 <= cp && cp <= 0xDFFF {
            // The encoding of a surrogate, which no scalar is.
            return None;
        }
        proof {
            assert(cp <= 0xFFFF) by (bit_vector)
                requires
                    cp == (((b0 & 0x0F) as u32) << 12) | (((b1 & 0x3F) as u32) << 6) | ((b2
                        & 0x3F) as u32),
            ;
        }
        Some((cp, 3))
    } else if 0xF0 <= b0 && b0 <= 0xF7 {
        // Four bytes: 11110xxx 10xxxxxx 10xxxxxx 10xxxxxx.
        if n - p < 4 {
            return None;
        }
        let b1 = bytes[p + 1];
        let b2 = bytes[p + 2];
        let b3 = bytes[p + 3];
        if !(0x80 <= b1 && b1 <= 0xBF) || !(0x80 <= b2 && b2 <= 0xBF) || !(0x80 <= b3 && b3
            <= 0xBF) {
            return None;
        }
        let cp = (((b0 & 0x07) as u32) << 18) | (((b1 & 0x3F) as u32) << 12) | (((b2
            & 0x3F) as u32) << 6) | ((b3 & 0x3F) as u32);
        if cp < 0x10000 || cp > 0x10FFFF {
            // An overlong encoding, or a value beyond the last scalar.
            return None;
        }
        Some((cp, 4))
    } else {
        // A stray continuation byte, or a byte no encoding uses.
        None
    }
}

/// Decodes the raw bytes handed across the host boundary.
///
/// Succeeds exactly when the bytes are valid UTF-8, returning their decoded
/// characters; any other byte sequence is rejected with
/// [`ConsoleError::InvalidUtf8`].
pub fn text_of_bytes(bytes: Vec<u8>) -> (r: Result<String, ConsoleError>)
    ensures
        r is Ok <==> vstd::utf8::valid_utf8(bytes@),
        r matches Ok(s) ==> s@ == vstd::utf8::decode_utf8(bytes@),
        r is Err ==> r == Err::<String, ConsoleError>(ConsoleError::InvalidUtf8),
{
    let n = bytes.len();
    let mut out = String::new();
    let mut p: usize = 0;
    proof {
        assert(bytes@.subrange(0, n as int) =~= bytes@);
        assert(Seq::<char>::empty() + vstd::utf8::decode_utf8(bytes@) =~= vstd::utf8::decode_utf8(
            bytes@,
        ));
    }
    while p < n
        invariant
            p <= n,
            n == bytes@.len(),
            vstd::utf8::valid_utf8(bytes@) <==> vstd::utf8::valid_utf8(
                bytes@.subrange(p as int, n as int),
            ),
            vstd::utf8::valid_utf8(bytes@) ==> vstd::utf8::decode_utf8(bytes@) == out@
                + vstd::utf8::decode_utf8(bytes@.subrange(p as int, n as int)),
        decreases n - p,
    {
        let ghost s = bytes@.subrange(p as int, n as int);
        match decode_first_scalar_at(&bytes, p) {
            None => {
                proof {
                    assert(!vstd::utf8::valid_utf8(s));
                }
                return Err(ConsoleError::InvalidUtf8);
            },
            Some((cp, w)) => {
                let c = match char::from_u32(cp) {
                    Some(c) => c,
                    None => {
                        proof {
                            assert(false);
                        }
                        return Err(ConsoleError::InvalidUtf8);
                    },
                };
                let ghost out0 = out@;
                out.push(c);
                proof {
                    vstd::utf8::char_u32_cast(c, cp);
                    assert(vstd::utf8::pop_first_scalar(s) =~= bytes@.subrange(
                        p + w,
                        n as int,
                    ));
                    if vstd::utf8::valid_utf8(bytes@) {
                        assert(vstd::utf8::decode_utf8(s) == seq![
                            vstd::utf8::decode_first_scalar(s) as char,
                        ] + vstd::utf8::decode_utf8(vstd::utf8::pop_first_scalar(s)));
                        assert(out@ == out0 + seq![c]);
                    }
                }
                p = p + w;
            },
        }
    }
    proof {
        assert(bytes@.subrange(p as int, n as int) =~= Seq::<u8>::empty());
    }
    Ok(out)
}

} // verus!
