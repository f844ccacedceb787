//! Measuring a JSON text before it is parsed.
//!
//! The parser that the library calls descends once for each array or object
//! that opens inside another, keeps the keys of the objects that are open in
//! a buffer that it addresses with 16 bits, counts the items of an array in
//! 32 bits, raises ten to an exponent with a function whose last digits the
//! standard library leaves open, and loses its place where a comma stands
//! before the `}` of an object inside another value. So a text is measured
//! first, and one that is too large, nests too deeply, has too long a key,
//! has an exponent, or has a comma before a `}` is refused. The measure reads
//! bytes: the marks of JSON are ASCII, and no byte of a longer UTF-8 sequence
//! is.

use vstd::prelude::*;
use vstd::slice::*;
use vstd::utf8::encode_utf8;

verus! {

/// The deepest nesting that a text may have to be parsed.
pub const NESTING_LIMIT: usize = 128;

/// The most bytes that a key may have between its quotes. The keys of all
/// open objects together then stay below 65536 bytes.
pub const KEY_LIMIT: usize = 511;

/// The most digits that an exponent may have: none, so that no number of a
/// text has an exponent.
pub const EXPONENT_LIMIT: usize = 0;

/// The most bytes that a text may have. An array then has fewer items than
/// 32 bits count.
pub const SIZE_LIMIT: usize = 0x7fff_ffff;

/// Where a scan of a text stands.
pub struct Scan {
    /// The brackets that are open.
    pub open: nat,
    /// The most brackets that were open at once.
    pub deepest: nat,
    /// Whether the scan is inside a string.
    pub quoted: bool,
    /// Whether the byte before was a backslash that escapes the next one.
    pub escaped: bool,
    /// The bytes between the quotes of the string that was opened last.
    pub length: nat,
    /// Whether a string has closed and only blanks have come since.
    pub closed: bool,
    /// The most bytes of a string that a colon followed.
    pub longest_key: nat,
    /// Whether the bytes since the last `e` or `E` are a sign at most, and
    /// digits.
    pub exponent: bool,
    /// Whether the byte before was that `e` or `E`.
    pub bare: bool,
    /// The digits since that `e` or `E`.
    pub digits: nat,
    /// The most digits that followed one `e` or `E`.
    pub longest_exponent: nat,
    /// Whether a comma has come and only blanks since.
    pub comma: bool,
    /// Whether a `}` has followed a comma, blanks aside.
    pub dangling: bool,
}

/// A scan that has read nothing.
pub open spec fn scan_start() -> Scan {
    Scan {
        open: 0,
        deepest: 0,
        quoted: false,
        escaped: false,
        length: 0,
        closed: false,
        longest_key: 0,
        exponent: false,
        bare: false,
        digits: 0,
        longest_exponent: 0,
        comma: false,
        dangling: false,
    }
}

/// Whether a byte is one that the parser passes over between tokens.
pub open spec fn is_blank(b: u8) -> bool {
    b == 0x20 || b == 0x0a || b == 0x09 || b == 0x0d
}

/// A scan inside a string after one more byte: only the closing quote and the
/// backslash count; every other byte belongs to the string.
pub open spec fn scan_inside(s: Scan, b: u8) -> Scan {
    if s.escaped {
        Scan { escaped: false, length: s.length + 1, ..s }
    } else if b == 0x5c {
        Scan { escaped: true, length: s.length + 1, ..s }
    } else if b == 0x22 {
        Scan { quoted: false, closed: true, ..s }
    } else {
        Scan { length: s.length + 1, ..s }
    }
}

/// A scan outside a string after one more byte. A quote opens a string; `[`
/// and `{` open a bracket, `]` and `}` close one; a colon makes the string
/// before it a key; `e` or `E` starts an exponent, which a sign and digits
/// carry on; a `}` after a comma is noted.
pub open spec fn scan_outside(s: Scan, b: u8) -> Scan {
    let opens = b == 0x5b || b == 0x7b;
    let closes = (b == 0x5d || b == 0x7d) && s.open > 0;
    let open: nat = if opens {
        s.open + 1
    } else if closes {
        (s.open - 1) as nat
    } else {
        s.open
    };
    let is_key = b == 0x3a && s.closed;
    let starts = b == 0x65 || b == 0x45;
    let sign = s.exponent && s.bare && (b == 0x2b || b == 0x2d);
    let digit = s.exponent && 0x30 <= b <= 0x39;
    let digits: nat = if digit {
        s.digits + 1
    } else {
        0
    };
    Scan {
        open,
        deepest: if open > s.deepest {
            open
        } else {
            s.deepest
        },
        quoted: b == 0x22,
        escaped: false,
        length: if b == 0x22 {
            0
        } else {
            s.length
        },
        closed: s.closed && is_blank(b),
        longest_key: if is_key && s.length > s.longest_key {
            s.length
        } else {
            s.longest_key
        },
        exponent: starts || sign || digit,
        bare: starts,
        digits,
        longest_exponent: if digits > s.longest_exponent {
            digits
        } else {
            s.longest_exponent
        },
        comma: b == 0x2c || (s.comma && is_blank(b)),
        dangling: s.dangling || (b == 0x7d && s.comma),
    }
}

/// A scan after one more byte.
pub open spec fn scan_byte(s: Scan, b: u8) -> Scan {
    if s.quoted {
        scan_inside(s, b)
    } else {
        scan_outside(s, b)
    }
}

/// A scan after all of `bytes`.
pub open spec fn scan(bytes: Seq<u8>) -> Scan
    decreases bytes.len(),
{
    if bytes.len() == 0 {
        scan_start()
    } else {
        scan_byte(scan(bytes.drop_last()), bytes.last())
    }
}

/// The most brackets that are open at once in a text, outside its strings.
pub open spec fn nesting(text: Seq<char>) -> nat {
    scan(encode_utf8(text)).deepest
}

/// The most bytes between the quotes of a string of the text that a colon
/// follows.
pub open spec fn longest_key(text: Seq<char>) -> nat {
    scan(encode_utf8(text)).longest_key
}

/// The most digits that follow one `e` or `E`, and a sign, outside the
/// strings of a text.
pub open spec fn longest_exponent(text: Seq<char>) -> nat {
    scan(encode_utf8(text)).longest_exponent
}

/// Whether a `}` follows a comma somewhere in a text, blanks aside and
/// outside its strings.
pub open spec fn dangling_comma(text: Seq<char>) -> bool {
    scan(encode_utf8(text)).dangling
}

/// The bytes of a text.
pub open spec fn size(text: Seq<char>) -> nat {
    encode_utf8(text).len()
}

/// Whether a text is within the limits and has no comma before a `}`.
pub open spec fn within_limits(text: Seq<char>) -> bool {
    &&& size(text) <= SIZE_LIMIT
    &&& nesting(text) <= NESTING_LIMIT
    &&& longest_key(text) <= KEY_LIMIT
    &&& longest_exponent(text) <= EXPONENT_LIMIT
    &&& !dangling_comma(text)
}

/// What was measured of a text.
#[derive(Clone, Copy, Debug, PartialEq, Eq)]
pub struct Measure {
    pub size: usize,
    pub nesting: usize,
    pub longest_key: usize,
    pub longest_exponent: usize,
    pub dangling_comma: bool,
}

/// Measures a text: its size, its nesting, its longest key, its longest
/// exponent, and whether a comma stands before a `}`.
pub fn measure(text: &str) -> (found: Measure)
    ensures
        found.size == size(text@),
        found.dangling_comma == dangling_comma(text@),
        found.nesting == nesting(text@),
        found.longest_key == longest_key(text@),
        found.longest_exponent == longest_exponent(text@),
{
    let bytes = text.as_bytes();
    let mut open: usize = 0;
    let mut deepest: usize = 0;
    let mut quoted = false;
    let mut escaped = false;
    let mut length: usize = 0;
    let mut closed = false;
    let mut longest_key: usize = 0;
    let mut exponent = false;
    let mut bare = false;
    let mut digits: usize = 0;
    let mut longest_exponent: usize = 0;
    let mut comma = false;
    let mut dangling = false;
    let mut i: usize = 0;
    assert(bytes@.take(0) =~= Seq::<u8>::empty());
    while i < bytes.len()
        invariant
            bytes@ == encode_utf8(text@),
            i <= bytes.len(),
            open <= i,
            deepest <= i,
            length <= i,
            longest_key <= i,
            digits <= i,
            longest_exponent <= i,
            scan(bytes@.take(i as int)) == (Scan {
                open: open as nat,
                deepest: deepest as nat,
                quoted,
                escaped,
                length: length as nat,
                closed,
                longest_key: longest_key as nat,
                exponent,
                bare,
                digits: digits as nat,
                longest_exponent: longest_exponent as nat,
                comma,
                dangling,
            }),
        decreases bytes.len() - i,
    {
        let b = bytes[i];
        proof {
            let before = bytes@.take(i as int);
            let after = bytes@.take(i + 1);
            assert(after.drop_last() =~= before);
            assert(after.last() == b);
        }
        if quoted {
            if escaped {
                escaped = false;
                length += 1;
            } else if b == 0x5c {
                escaped = true;
                length += 1;
            } else if b == 0x22 {
                quoted = false;
                closed = true;
            } else {
                length += 1;
            }
        } else {
            dangling = dangling || (b == 0x7d && comma);
            comma = b == 0x2c || (comma && (b == 0x20 || b == 0x0a || b == 0x09 || b == 0x0d));
            if b == 0x5b || b == 0x7b {
                open += 1;
            } else if (b == 0x5d || b == 0x7d) && open > 0 {
                open -= 1;
            }
            if open > deepest {
                deepest = open;
            }
            if b == 0x3a && closed && length > longest_key {
                longest_key = length;
            }
            closed = closed && (b == 0x20 || b == 0x0a || b == 0x09 || b == 0x0d);
            let starts = b == 0x65 || b == 0x45;
            let sign = exponent && bare && (b == 0x2b || b == 0x2d);
            let digit = exponent && 0x30 <= b && b <= 0x39;
            if digit {
                digits += 1;
            } else {
                digits = 0;
            }
            if digits > longest_exponent {
                longest_exponent = digits;
            }
            exponent = starts || sign || digit;
            bare = starts;
            if b == 0x22 {
                quoted = true;
                length = 0;
            }
        }
        i += 1;
    }
    assert(bytes@.take(i as int) =~= bytes@);
    Measure {
        size: bytes.len(),
        nesting: deepest,
        longest_key,
        longest_exponent,
        dangling_comma: dangling,
    }
}

/// Whether a text is within the limits and has no comma before a `}`.
pub fn is_within_limits(text: &str) -> (ok: bool)
    ensures
        ok == within_limits(text@),
{
    let found = measure(text);
    found.size <= SIZE_LIMIT && found.nesting <= NESTING_LIMIT && found.longest_key <= KEY_LIMIT
        && found.longest_exponent <= EXPONENT_LIMIT && !found.dangling_comma
}

} // verus!
