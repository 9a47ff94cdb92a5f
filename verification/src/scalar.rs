use vstd::prelude::*;
use vstd::utf8::{
    decode_first_codepoint, decode_first_scalar, is_continuation_byte, is_leading_byte_width_1,
    is_leading_byte_width_2, is_leading_byte_width_3, is_leading_byte_width_4, is_scalar,
    length_of_first_scalar, valid_first_scalar, valid_leading_and_continuation_bytes_first_codepoint,
};

verus! {

/// ASCII whitespace in Rust's sense: space, tab, line feed, form feed,
/// carriage return (not vertical tab).
pub open spec fn is_ascii_ws(c: u32) -> bool {
    c == 32 || c == 9 || c == 10 || c == 12 || c == 13
}

/// ASCII whitespace as a byte. A byte of a multi-byte UTF-8 encoding is
/// never ASCII whitespace, so byte-level runs agree with character-level
/// runs.
pub open spec fn is_ascii_ws_byte(b: u8) -> bool {
    is_ascii_ws(b as u32)
}

/// The scalar values with the Unicode `White_Space` property.
pub open spec fn is_unicode_ws(c: u32) -> bool {
    ||| is_ascii_ws(c)
    ||| c == 0x0b
    ||| c == 0x85
    ||| c == 0xa0
    ||| c == 0x1680
    ||| (0x2000 <= c && c <= 0x200a)
    ||| c == 0x2028
    ||| c == 0x2029
    ||| c == 0x202f
    ||| c == 0x205f
    ||| c == 0x3000
}

/// Control characters: the C0 range, delete, and the C1 range.
pub open spec fn is_control_scalar(c: u32) -> bool {
    c <= 0x1f || (0x7f <= c && c <= 0x9f)
}

/// The substitution table: the visible glyph shown for an invisible
/// character, if it has one.
pub open spec fn glyph_of(c: u32) -> Option<Seq<char>> {
    if c == 32 {
        Some(seq!['\u{00b7}'])
    } else if c == 13 {
        Some(seq!['\u{240d}'])
    } else if c == 10 {
        Some(seq!['\u{23ce}'])
    } else if c == 9 {
        Some(seq!['\u{2192}', ' '])
    } else if c == 0 {
        Some(seq!['\u{2400}'])
    } else if c == 0x0b {
        Some(seq!['\u{240b}'])
    } else if c == 0x08 {
        Some(seq!['\u{232b}'])
    } else if c == 0x0c {
        Some(seq!['\u{21a1}'])
    } else {
        None
    }
}

/// Byte length of the scalar encoded at byte `i` of `s`, or 1 where the
/// bytes at `i` are not a well-formed UTF-8 encoding.
pub open spec fn scalar_len_at(s: Seq<u8>, i: int) -> int {
    let t = s.subrange(i, s.len() as int);
    if valid_first_scalar(t) {
        length_of_first_scalar(t)
    } else {
        1
    }
}

/// The scalar encoded at byte `i` of `s`, or the byte's own value where
/// the bytes at `i` are not a well-formed UTF-8 encoding.
pub open spec fn scalar_at(s: Seq<u8>, i: int) -> u32
    recommends
        0 <= i < s.len(),
{
    let t = s.subrange(i, s.len() as int);
    if valid_first_scalar(t) {
        decode_first_scalar(t)
    } else {
        s[i] as u32
    }
}

/// Relies on char::from_u32: every Unicode scalar value converts to the
/// char with that value.
#[verifier::external_body]
fn char_of_scalar(v: u32) -> (c: char)
    requires
        is_scalar(v),
    ensures
        c as u32 == v,
{
    char::from_u32(v).unwrap_or('\u{fffd}')
}

/// Decodes the character starting at byte `i`: the character and its byte
/// length. An ill-formed byte is taken alone, with its own value.
pub fn decode_scalar(text: &Vec<u8>, i: usize) -> (r: (char, usize))
    requires
        i < text@.len(),
    ensures
        r.0 as u32 == scalar_at(text@, i as int),
        r.1 as int == scalar_len_at(text@, i as int),
        1 <= r.1,
        i + r.1 <= text@.len(),
{
    let ghost t = text@.subrange(i as int, text@.len() as int);
    let n = text.len();
    let b0 = text[i];
    proof {
        assert(t.len() == n - i);
        assert(t[0] == b0);
    }
    if b0 <= 0x7f {
        proof {
            assert(is_leading_byte_width_1(t[0]));
            assert(valid_first_scalar(t));
            assert(b0 & 0x7f == b0) by (bit_vector)
                requires
                    b0 <= 0x7f,
            ;
            assert(decode_first_scalar(t) == b0 as u32);
            assert(is_scalar(b0 as u32));
        }
        (char_of_scalar(b0 as u32), 1)
    } else if 0xc0 <= b0 && b0 <= 0xdf && n - i > 1 {
        let b1 = text[i + 1];
        proof {
            assert(t[1] == b1);
        }
        if 0x80 <= b1 && b1 <= 0xbf {
            let c: u32 = (((b0 & 0x1f) as u32) << 6) | ((b1 & 0x3f) as u32);
            proof {
                assert(c <= 0x7ff) by (bit_vector)
                    requires
                        c == (((b0 & 0x1f) as u32) << 6) | ((b1 & 0x3f) as u32),
                ;
                assert(decode_first_codepoint(t) == c);
            }
            if c >= 0x80 {
                proof {
                    assert(valid_first_scalar(t));
                    assert(is_scalar(c));
                }
                (char_of_scalar(c), 2)
            } else {
                proof {
                    assert(!valid_first_scalar(t));
                }
                (char_of_scalar(b0 as u32), 1)
            }
        } else {
            proof {
                assert(!valid_leading_and_continuation_bytes_first_codepoint(t));
            }
            (char_of_scalar(b0 as u32), 1)
        }
    } else if 0xe0 <= b0 && b0 <= 0xef && n - i > 2 {
        let b1 = text[i + 1];
        let b2 = text[i + 2];
        proof {
            assert(t[1] == b1);
            assert(t[2] == b2);
        }
        if 0x80 <= b1 && b1 <= 0xbf && 0x80 <= b2 && b2 <= 0xbf {
            let c: u32 = (((b0 & 0x0f) as u32) << 12) | (((b1 & 0x3f) as u32) << 6) | ((b2
                & 0x3f) as u32);
            proof {
                assert(c <= 0xffff) by (bit_vector)
                    requires
                        c == (((b0 & 0x0f) as u32) << 12) | (((b1 & 0x3f) as u32) << 6) | ((b2
                            & 0x3f) as u32),
                ;
                assert(decode_first_codepoint(t) == c);
            }
            if c >= 0x800 && !(0xd800 <= c && c <= 0xdfff) {
                proof {
                    assert(valid_first_scalar(t));
                    assert(is_scalar(c));
                }
                (char_of_scalar(c), 3)
            } else {
                proof {
                    assert(!valid_first_scalar(t));
                }
                (char_of_scalar(b0 as u32), 1)
            }
        } else {
            proof {
                assert(!valid_leading_and_continuation_bytes_first_codepoint(t));
            }
            (char_of_scalar(b0 as u32), 1)
        }
    } else if 0xf0 <= b0 && b0 <= 0xf7 && n - i > 3 {
        let b1 = text[i + 1];
        let b2 = text[i + 2];
        let b3 = text[i + 3];
        proof {
            assert(t[1] == b1);
            assert(t[2] == b2);
            assert(t[3] == b3);
        }
        if 0x80 <= b1 && b1 <= 0xbf && 0x80 <= b2 && b2 <= 0xbf && 0x80 <= b3 && b3 <= 0xbf {
            let c: u32 = (((b0 & 0x07) as u32) << 18) | (((b1 & 0x3f) as u32) << 12) | (((b2
                & 0x3f) as u32) << 6) | ((b3 & 0x3f) as u32);
            proof {
                assert(decode_first_codepoint(t) == c);
            }
            if c >= 0x10000 && c <= 0x10ffff {
                proof {
                    assert(valid_first_scalar(t));
                    assert(is_scalar(c));
                }
                (char_of_scalar(c), 4)
            } else {
                proof {
                    assert(!valid_first_scalar(t));
                }
                (char_of_scalar(b0 as u32), 1)
            }
        } else {
            proof {
                assert(!valid_leading_and_continuation_bytes_first_codepoint(t));
            }
            (char_of_scalar(b0 as u32), 1)
        }
    } else {
        proof {
            assert(!valid_leading_and_continuation_bytes_first_codepoint(t));
        }
        (char_of_scalar(b0 as u32), 1)
    }
}

/// Whether a byte is ASCII whitespace.
pub fn ascii_ws_byte(b: u8) -> (r: bool)
    ensures
        r == is_ascii_ws_byte(b),
{
    b == 32 || b == 9 || b == 10 || b == 12 || b == 13
}

/// Whether a character is ASCII whitespace.
pub fn ascii_ws_char(c: char) -> (r: bool)
    ensures
        r == is_ascii_ws(c as u32),
{
    let u = c as u32;
    u == 32 || u == 9 || u == 10 || u == 12 || u == 13
}

/// Whether a character has the Unicode `White_Space` property.
pub fn unicode_ws_char(c: char) -> (r: bool)
    ensures
        r == is_unicode_ws(c as u32),
{
    let u = c as u32;
    u == 32 || u == 9 || u == 10 || u == 12 || u == 13 || u == 0x0b || u == 0x85 || u == 0xa0 || u
        == 0x1680 || (0x2000 <= u && u <= 0x200a) || u == 0x2028 || u == 0x2029 || u == 0x202f || u
        == 0x205f || u == 0x3000
}

/// Whether a character is a control character.
pub fn control_char(c: char) -> (r: bool)
    ensures
        r == is_control_scalar(c as u32),
{
    let u = c as u32;
    u <= 0x1f || (0x7f <= u && u <= 0x9f)
}

/// The glyph substituted for a character, as characters.
pub fn glyph_chars(c: char) -> (r: Option<Vec<char>>)
    ensures
        match r {
            Some(v) => glyph_of(c as u32) matches Some(g) && v@ == g,
            None => glyph_of(c as u32) is None,
        },
{
    let u = c as u32;
    if u == 32 {
        let mut v: Vec<char> = Vec::new();
        v.push('\u{00b7}');
        proof {
            assert(v@ =~= seq!['\u{00b7}']);
        }
        Some(v)
    } else if u == 13 {
        let mut v: Vec<char> = Vec::new();
        v.push('\u{240d}');
        proof {
            assert(v@ =~= seq!['\u{240d}']);
        }
        Some(v)
    } else if u == 10 {
        let mut v: Vec<char> = Vec::new();
        v.push('\u{23ce}');
        proof {
            assert(v@ =~= seq!['\u{23ce}']);
        }
        Some(v)
    } else if u == 9 {
        let mut v: Vec<char> = Vec::new();
        v.push('\u{2192}');
        v.push(' ');
        proof {
            assert(v@ =~= seq!['\u{2192}', ' ']);
        }
        Some(v)
    } else if u == 0 {
        let mut v: Vec<char> = Vec::new();
        v.push('\u{2400}');
        proof {
            assert(v@ =~= seq!['\u{2400}']);
        }
        Some(v)
    } else if u == 0x0b {
        let mut v: Vec<char> = Vec::new();
        v.push('\u{240b}');
        proof {
            assert(v@ =~= seq!['\u{240b}']);
        }
        Some(v)
    } else if u == 0x08 {
        let mut v: Vec<char> = Vec::new();
        v.push('\u{232b}');
        proof {
            assert(v@ =~= seq!['\u{232b}']);
        }
        Some(v)
    } else if u == 0x0c {
        let mut v: Vec<char> = Vec::new();
        v.push('\u{21a1}');
        proof {
            assert(v@ =~= seq!['\u{21a1}']);
        }
        Some(v)
    } else {
        None
    }
}

/// The visible substitute for an invisible character, if it has one:
/// middle dot for the space, symbols for the control characters in the
/// table, an arrow for the tab.
pub fn show_invisible_char(c: char) -> (r: Option<&'static str>)
    ensures
        match r {
            Some(s) => glyph_of(c as u32) matches Some(g) && s@ == g,
            None => glyph_of(c as u32) is None,
        },
{
    let u = c as u32;
    if u == 32 {
        proof {
            reveal_strlit("\u{00b7}");
            assert("\u{00b7}"@ =~= seq!['\u{00b7}']);
        }
        Some("\u{00b7}")
    } else if u == 13 {
        proof {
            reveal_strlit("\u{240d}");
            assert("\u{240d}"@ =~= seq!['\u{240d}']);
        }
        Some("\u{240d}")
    } else if u == 10 {
        proof {
            reveal_strlit("\u{23ce}");
            assert("\u{23ce}"@ =~= seq!['\u{23ce}']);
        }
        Some("\u{23ce}")
    } else if u == 9 {
        proof {
            reveal_strlit("\u{2192} ");
            assert("\u{2192} "@ =~= seq!['\u{2192}', ' ']);
        }
        Some("\u{2192} ")
    } else if u == 0 {
        proof {
            reveal_strlit("\u{2400}");
            assert("\u{2400}"@ =~= seq!['\u{2400}']);
        }
        Some("\u{2400}")
    } else if u == 0x0b {
        proof {
            reveal_strlit("\u{240b}");
            assert("\u{240b}"@ =~= seq!['\u{240b}']);
        }
        Some("\u{240b}")
    } else if u == 0x08 {
        proof {
            reveal_strlit("\u{232b}");
            assert("\u{232b}"@ =~= seq!['\u{232b}']);
        }
        Some("\u{232b}")
    } else if u == 0x0c {
        proof {
            reveal_strlit("\u{21a1}");
            assert("\u{21a1}"@ =~= seq!['\u{21a1}']);
        }
        Some("\u{21a1}")
    } else {
        None
    }
}

/// Decimal digit characters of `n`, most significant first.
pub open spec fn dec_chars(n: int) -> Seq<char>
    recommends
        n >= 0,
    decreases n,
{
    if n < 10 {
        seq![((48 + if n >= 0 { n } else { 0 }) as u8) as char]
    } else {
        dec_chars(n / 10).push(((48 + n % 10) as u8) as char)
    }
}

/// Lowercase hexadecimal digit characters of `n`, most significant first.
pub open spec fn hex_chars(n: int) -> Seq<char>
    recommends
        n >= 0,
    decreases n,
{
    let d = if 0 <= n % 16 && n % 16 < 10 {
        48 + n % 16
    } else {
        87 + n % 16
    };
    if n < 16 {
        let d0 = if 0 <= n && n < 10 {
            48 + n
        } else if n < 16 {
            87 + n
        } else {
            48
        };
        seq![(d0 as u8) as char]
    } else {
        hex_chars(n / 16).push((d as u8) as char)
    }
}

/// Appends the decimal digits of `n` to `out`.
pub fn push_dec(out: &mut Vec<char>, n: usize)
    ensures
        final(out)@ == old(out)@ + dec_chars(n as int),
    decreases n,
{
    let ghost before = out@;
    if n >= 10 {
        push_dec(out, n / 10);
    }
    let d: u8 = (48 + (n % 10)) as u8;
    out.push(d as char);
    proof {
        if n >= 10 {
            assert(before + dec_chars(n as int / 10) + seq![((48 + n as int % 10) as u8) as char]
                =~= before + dec_chars(n as int));
        } else {
            assert(before + seq![((48 + n as int) as u8) as char] =~= before + dec_chars(n as int));
        }
    }
}

/// Appends the lowercase hexadecimal digits of `n` to `out`.
pub fn push_hex(out: &mut Vec<char>, n: u32)
    ensures
        final(out)@ == old(out)@ + hex_chars(n as int),
    decreases n,
{
    let ghost before = out@;
    if n >= 16 {
        push_hex(out, n / 16);
    }
    let r = n % 16;
    let d: u8 = if r < 10 {
        (48 + r) as u8
    } else {
        (87 + r) as u8
    };
    out.push(d as char);
    proof {
        if n >= 16 {
            let dd = if n as int % 16 < 10 {
                48 + n as int % 16
            } else {
                87 + n as int % 16
            };
            assert(before + hex_chars(n as int / 16) + seq![(dd as u8) as char] =~= before
                + hex_chars(n as int));
        } else {
            let dd = if n < 10 {
                48 + n as int
            } else {
                87 + n as int
            };
            assert(before + seq![(dd as u8) as char] =~= before + hex_chars(n as int));
        }
    }
}

} // verus!
