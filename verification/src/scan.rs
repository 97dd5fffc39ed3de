//! Which texts are handed to the JSON parser: a scan that follows the
//! strings of a text as the parser does and tells whether the parser stays
//! within what it can take.

use vstd::prelude::*;
use vstd::utf8::encode_utf8;

verus! {

/// The most bytes that a text may have. The parser counts the elements of
/// an array in 32 bits.
pub const MAX_BYTES: usize = 4294967295;

/// The most containers that may be open at once. The parser calls itself
/// once for each level of nesting.
pub const MAX_DEPTH: usize = 128;

/// The most bytes that the keys of a text may have together. The parser
/// keeps the keys of the members that it is inside in one buffer, and finds
/// them by 16-bit places.
pub const MAX_KEY_BYTES: usize = 65535;

/// The greatest exponent that a number may have. The parser adds the digits
/// of an exponent up in a machine word without a check.
pub const MAX_EXPONENT: u64 = 4294967295;

/// Where the scan stands in a text.
#[derive(Clone, Copy, Debug, PartialEq, Eq)]
pub enum Place {
    /// Outside every string.
    Outside,
    /// Inside a string.
    InString,
    /// Inside a string, behind a backslash.
    Escaped,
}

/// Where the scan stands in the exponent of a number.
#[derive(Clone, Copy, Debug, PartialEq, Eq)]
pub enum Exponent {
    /// In no exponent.
    Absent,
    /// Behind `e` or `E`.
    Marked,
    /// Behind the sign that follows the mark.
    Signed,
    /// Among the digits.
    Digits,
}

/// What the scan knows after a part of a text.
#[derive(Clone, Copy, Debug, PartialEq, Eq)]
pub struct Scan {
    /// Whether every bound has been kept so far.
    pub within: bool,
    pub place: Place,
    /// How many containers are open.
    pub depth: usize,
    /// Whether a comma came last outside the strings, white space aside.
    pub comma: bool,
    /// Whether the end of a string came last, white space aside.
    pub closed: bool,
    /// The bytes between the quotes of the string that is open or came
    /// last, counted no further than one past `MAX_KEY_BYTES`.
    pub string_bytes: usize,
    /// The bytes between the quotes of all keys so far: of the strings that
    /// a colon follows.
    pub key_bytes: usize,
    pub exponent: Exponent,
    /// The number that the digits of the exponent denote so far.
    pub exponent_value: u64,
}

/// Whether a byte is `[` or `{`.
pub open spec fn is_opener(byte: u8) -> bool {
    byte == 0x5b || byte == 0x7b
}

/// Whether a byte is `]` or `}`.
pub open spec fn is_closer(byte: u8) -> bool {
    byte == 0x5d || byte == 0x7d
}

/// Whether a byte is white space to the parser: a space, a line feed, a tab
/// or a carriage return.
pub open spec fn is_space(byte: u8) -> bool {
    byte == 0x20 || byte == 0x0a || byte == 0x09 || byte == 0x0d
}

/// Whether a byte is a decimal digit.
pub open spec fn is_digit_byte(byte: u8) -> bool {
    0x30 <= byte <= 0x39
}

/// Whether a byte is `e` or `E`, which begin an exponent.
pub open spec fn is_exponent_mark(byte: u8) -> bool {
    byte == 0x65 || byte == 0x45
}

/// Whether a byte is `+` or `-`.
pub open spec fn is_sign(byte: u8) -> bool {
    byte == 0x2b || byte == 0x2d
}

/// Whether the counts of a scan are within their bounds.
pub open spec fn bounded(scan: Scan) -> bool {
    &&& scan.depth <= MAX_DEPTH
    &&& scan.string_bytes <= MAX_KEY_BYTES + 1
    &&& scan.key_bytes <= MAX_KEY_BYTES
    &&& scan.exponent_value <= MAX_EXPONENT
}

/// The scan before the first byte.
pub open spec fn scan_start() -> Scan {
    Scan {
        within: true,
        place: Place::Outside,
        depth: 0,
        comma: false,
        closed: false,
        string_bytes: 0,
        key_bytes: 0,
        exponent: Exponent::Absent,
        exponent_value: 0,
    }
}

/// The scan with a bound passed.
pub open spec fn refused(scan: Scan) -> Scan {
    Scan { within: false, ..scan }
}

/// The scan with one more byte between the quotes of a string.
pub open spec fn counted(scan: Scan) -> Scan {
    if scan.string_bytes <= MAX_KEY_BYTES {
        Scan { string_bytes: (scan.string_bytes + 1) as usize, ..scan }
    } else {
        scan
    }
}

/// The scan after a byte outside the strings that is no white space.
///
/// - A quote opens a string.
/// - A colon behind a string makes that string a key, and the keys may
///   not have more than `MAX_KEY_BYTES` together.
/// - `[` and `{` open a container, and no more than `MAX_DEPTH` may be
///   open; `]` and `}` close one.
/// - `}` may not follow a comma.
/// - `e` and `E` begin an exponent, a sign may follow, and the digits that
///   come then may not denote more than `MAX_EXPONENT`.
pub open spec fn after_mark(scan: Scan, byte: u8) -> Scan {
    let plain = Scan {
        comma: byte == 0x2c,
        closed: false,
        exponent: Exponent::Absent,
        exponent_value: 0,
        ..scan
    };
    if byte == 0x22 {
        Scan { place: Place::InString, string_bytes: 0, ..plain }
    } else if byte == 0x3a && scan.closed {
        if scan.key_bytes + scan.string_bytes > MAX_KEY_BYTES {
            refused(plain)
        } else {
            Scan { key_bytes: (scan.key_bytes + scan.string_bytes) as usize, ..plain }
        }
    } else if is_opener(byte) {
        if scan.depth >= MAX_DEPTH {
            refused(plain)
        } else {
            Scan { depth: (scan.depth + 1) as usize, ..plain }
        }
    } else if byte == 0x7d && scan.comma {
        refused(plain)
    } else if is_closer(byte) {
        if scan.depth > 0 {
            Scan { depth: (scan.depth - 1) as usize, ..plain }
        } else {
            plain
        }
    } else if is_exponent_mark(byte) {
        Scan { exponent: Exponent::Marked, ..plain }
    } else if is_sign(byte) && scan.exponent is Marked {
        Scan { exponent: Exponent::Signed, ..plain }
    } else if is_digit_byte(byte) && !(scan.exponent is Absent) {
        if scan.exponent_value * 10 + (byte - 0x30) > MAX_EXPONENT {
            refused(plain)
        } else {
            Scan {
                exponent: Exponent::Digits,
                exponent_value: (scan.exponent_value * 10 + (byte - 0x30)) as u64,
                ..plain
            }
        }
    } else {
        plain
    }
}

/// The scan after one more byte. Once a bound is passed nothing changes.
/// Inside a string a quote ends the string, a backslash takes the byte that
/// follows it along, and every byte between the quotes is counted. Outside
/// the strings white space ends an exponent and is passed over.
pub open spec fn after(scan: Scan, byte: u8) -> Scan {
    if !scan.within {
        scan
    } else {
        match scan.place {
            Place::Escaped => Scan { place: Place::InString, ..counted(scan) },
            Place::InString => if byte == 0x22 {
                Scan { place: Place::Outside, closed: true, ..scan }
            } else if byte == 0x5c {
                Scan { place: Place::Escaped, ..counted(scan) }
            } else {
                counted(scan)
            },
            Place::Outside => if is_space(byte) {
                Scan { exponent: Exponent::Absent, exponent_value: 0, ..scan }
            } else {
                after_mark(scan, byte)
            },
        }
    }
}

/// The scan after all the bytes.
pub open spec fn scanned(bytes: Seq<u8>) -> Scan
    decreases bytes.len(),
{
    if bytes.len() == 0 {
        scan_start()
    } else {
        after(scanned(bytes.drop_last()), bytes.last())
    }
}

/// Whether the bytes are within the bounds of the parser: there are no more
/// than `MAX_BYTES` of them, and the scan passes no bound.
pub open spec fn parsable_bytes(bytes: Seq<u8>) -> bool {
    bytes.len() <= MAX_BYTES && scanned(bytes).within
}

/// Whether a text is within the bounds of the parser: its UTF-8 bytes are.
pub open spec fn parsable(text: Seq<char>) -> bool {
    parsable_bytes(encode_utf8(text))
}

fn count(scan: Scan) -> (out: Scan)
    requires
        bounded(scan),
    ensures
        out == counted(scan),
        bounded(out),
{
    if scan.string_bytes <= MAX_KEY_BYTES {
        Scan { string_bytes: scan.string_bytes + 1, ..scan }
    } else {
        scan
    }
}

fn pass_mark(scan: Scan, byte: u8) -> (out: Scan)
    requires
        bounded(scan),
    ensures
        out == after_mark(scan, byte),
        bounded(out),
{
    let plain = Scan {
        comma: byte == 0x2c,
        closed: false,
        exponent: Exponent::Absent,
        exponent_value: 0,
        ..scan
    };
    if byte == 0x22 {
        Scan { place: Place::InString, string_bytes: 0, ..plain }
    } else if byte == 0x3a && scan.closed {
        if scan.key_bytes + scan.string_bytes > MAX_KEY_BYTES {
            Scan { within: false, ..plain }
        } else {
            Scan { key_bytes: scan.key_bytes + scan.string_bytes, ..plain }
        }
    } else if byte == 0x5b || byte == 0x7b {
        if scan.depth >= MAX_DEPTH {
            Scan { within: false, ..plain }
        } else {
            Scan { depth: scan.depth + 1, ..plain }
        }
    } else if byte == 0x7d && scan.comma {
        Scan { within: false, ..plain }
    } else if byte == 0x5d || byte == 0x7d {
        if scan.depth > 0 {
            Scan { depth: scan.depth - 1, ..plain }
        } else {
            plain
        }
    } else if byte == 0x65 || byte == 0x45 {
        Scan { exponent: Exponent::Marked, ..plain }
    } else if (byte == 0x2b || byte == 0x2d) && matches!(scan.exponent, Exponent::Marked) {
        Scan { exponent: Exponent::Signed, ..plain }
    } else if 0x30 <= byte && byte <= 0x39 && !matches!(scan.exponent, Exponent::Absent) {
        let digit: u64 = (byte - 0x30) as u64;
        let value: u64 = scan.exponent_value * 10 + digit;
        if value > MAX_EXPONENT {
            Scan { within: false, ..plain }
        } else {
            Scan { exponent: Exponent::Digits, exponent_value: value, ..plain }
        }
    } else {
        plain
    }
}

fn pass(scan: Scan, byte: u8) -> (out: Scan)
    requires
        bounded(scan),
    ensures
        out == after(scan, byte),
        bounded(out),
{
    if !scan.within {
        scan
    } else {
        match scan.place {
            Place::Escaped => Scan { place: Place::InString, ..count(scan) },
            Place::InString => if byte == 0x22 {
                Scan { place: Place::Outside, closed: true, ..scan }
            } else if byte == 0x5c {
                Scan { place: Place::Escaped, ..count(scan) }
            } else {
                count(scan)
            },
            Place::Outside => if byte == 0x20 || byte == 0x0a || byte == 0x09 || byte == 0x0d {
                Scan { exponent: Exponent::Absent, exponent_value: 0, ..scan }
            } else {
                pass_mark(scan, byte)
            },
        }
    }
}

/// Scans the bytes of a text.
pub fn scan_bytes(bytes: &[u8]) -> (out: Scan)
    ensures
        out == scanned(bytes@),
{
    let mut scan = Scan {
        within: true,
        place: Place::Outside,
        depth: 0,
        comma: false,
        closed: false,
        string_bytes: 0,
        key_bytes: 0,
        exponent: Exponent::Absent,
        exponent_value: 0,
    };
    let mut at: usize = 0;
    while at < bytes.len()
        invariant
            at <= bytes.len(),
            scan == scanned(bytes@.take(at as int)),
            bounded(scan),
        decreases bytes.len() - at,
    {
        proof {
            assert(bytes@.take(at + 1).drop_last() =~= bytes@.take(at as int));
        }
        scan = pass(scan, bytes[at]);
        at += 1;
    }
    proof {
        assert(bytes@.take(at as int) =~= bytes@);
    }
    scan
}

/// Tests the bounds on the bytes of a text.
pub fn is_parsable_bytes(bytes: &[u8]) -> (out: bool)
    ensures
        out == parsable_bytes(bytes@),
{
    bytes.len() <= MAX_BYTES && scan_bytes(bytes).within
}

/// Tests the bounds on a text.
pub fn is_parsable(text: &str) -> (out: bool)
    ensures
        out == parsable(text@),
{
    is_parsable_bytes(text.as_bytes())
}

} // verus!
