//! Bytes, numbers and strings of content streams.

use vstd::prelude::*;

use crate::content::number::{
    digits_value, has_exponent, is_negative, is_number_lexeme, mantissa_of, parse_exponent,
    plain_magnitude, read_mantissa,
};

verus! {

/// Whether a byte is PDF white space.
pub open spec fn whitespace(byte: u8) -> bool {
    byte == 0 || byte == 9 || byte == 10 || byte == 12 || byte == 13 || byte == 32
}

/// Whether a byte ends a regular token: white space, a bracket, a slash or a percent sign.
pub open spec fn delimiter(byte: u8) -> bool {
    whitespace(byte) || byte == 0x28 || byte == 0x29 || byte == 0x3c || byte == 0x3e || byte == 0x5b
        || byte == 0x5d || byte == 0x7b || byte == 0x7d || byte == 0x2f || byte == 0x25
}

/// Whether a byte can start a number.
pub open spec fn number_start(byte: u8) -> bool {
    0x30 <= byte <= 0x39 || byte == 0x2b || byte == 0x2d || byte == 0x2e
}

/// Whether a byte is an octal digit.
pub open spec fn octal(byte: u8) -> bool {
    0x30 <= byte <= 0x37
}

/// The value of a hexadecimal digit.
pub open spec fn hex_of(byte: u8) -> Option<u8> {
    if 0x30 <= byte <= 0x39 {
        Some((byte - 0x30) as u8)
    } else if 0x61 <= byte <= 0x66 {
        Some((byte - 0x61 + 10) as u8)
    } else if 0x41 <= byte <= 0x46 {
        Some((byte - 0x41 + 10) as u8)
    } else {
        None
    }
}

/// Reports whether a byte is PDF white space.
pub fn is_pdf_whitespace(byte: u8) -> (yes: bool)
    ensures
        yes == whitespace(byte),
{
    byte == 0 || byte == 9 || byte == 10 || byte == 12 || byte == 13 || byte == 32
}

/// Reports whether a byte ends a regular token.
pub fn is_delimiter(byte: u8) -> (yes: bool)
    ensures
        yes == delimiter(byte),
{
    is_pdf_whitespace(byte) || byte == 0x28 || byte == 0x29 || byte == 0x3c || byte == 0x3e || byte
        == 0x5b || byte == 0x5d || byte == 0x7b || byte == 0x7d || byte == 0x2f || byte == 0x25
}

/// Reports whether a byte can start a number.
pub fn is_number_start(byte: u8) -> (yes: bool)
    ensures
        yes == number_start(byte),
{
    (byte >= 0x30 && byte <= 0x39) || byte == 0x2b || byte == 0x2d || byte == 0x2e
}

/// Reports whether a byte is an octal digit.
pub fn is_octal(byte: u8) -> (yes: bool)
    ensures
        yes == octal(byte),
{
    byte >= 0x30 && byte <= 0x37
}

/// Returns the value of a hexadecimal digit.
pub fn hex_value(byte: u8) -> (value: Option<u8>)
    ensures
        value == hex_of(byte),
{
    if byte >= 0x30 && byte <= 0x39 {
        Some(byte - 0x30)
    } else if byte >= 0x61 && byte <= 0x66 {
        Some(byte - 0x61 + 10)
    } else if byte >= 0x41 && byte <= 0x46 {
        Some(byte - 0x41 + 10)
    } else {
        None
    }
}

/// A scanned number: an integer by value, or a real by its lexeme.
#[derive(Clone, Copy, PartialEq, Eq, Structural)]
pub enum ParsedNumber {
    Integer(i64),
    Real,
}

/// What kind of number a lexeme is. An integer beyond the 64-bit range is none.
pub open spec fn scanned_number(raw: Seq<u8>) -> Option<ParsedNumber> {
    if !is_number_lexeme(raw) {
        None
    } else if mantissa_of(raw).contains(0x2e) || has_exponent(raw) {
        Some(ParsedNumber::Real)
    } else {
        let magnitude = digits_value(mantissa_of(raw)) as int;
        let value = if is_negative(raw) {
            -magnitude
        } else {
            magnitude
        };
        if i64::MIN <= value <= i64::MAX {
            Some(ParsedNumber::Integer(value as i64))
        } else {
            None
        }
    }
}

/// Classifies a number lexeme.
pub fn parse_number(raw: &[u8]) -> (number: Option<ParsedNumber>)
    ensures
        number == scanned_number(raw@),
{
    if raw.len() == 0 {
        assert(mantissa_of(raw@) =~= Seq::empty());
        return None;
    }
    let negative = raw[0] == 0x2d;
    let start: usize = if raw[0] == 0x2d || raw[0] == 0x2b {
        1
    } else {
        0
    };
    assert(raw@.skip(0) =~= raw@);
    let (state, end, exact) = match read_mantissa(raw, start) {
        Some(read) => read,
        None => {
            return None;
        },
    };
    if state.digits == 0 {
        return None;
    }
    if end < raw.len() {
        let tail = vstd::slice::slice_subrange(raw, end + 1, raw.len());
        assert(tail@ =~= crate::content::number::exponent_lexeme(raw@));
        if parse_exponent(tail).is_none() {
            return None;
        }
        return Some(ParsedNumber::Real);
    }
    if state.point {
        return Some(ParsedNumber::Real);
    }
    match plain_magnitude(&state, Ghost(mantissa_of(raw@)), exact) {
        None => None,
        Some(magnitude) => {
            let largest: u128 = 0x7fff_ffff_ffff_ffff;
            if !negative {
                if magnitude > largest {
                    None
                } else {
                    Some(ParsedNumber::Integer(magnitude as i64))
                }
            } else if magnitude > largest + 1 {
                None
            } else if magnitude == largest + 1 {
                Some(ParsedNumber::Integer(i64::MIN))
            } else {
                Some(ParsedNumber::Integer(-(magnitude as i64)))
            }
        },
    }
}

/// Whether `bytes` holds `byte` at `i`.
pub open spec fn byte_at(bytes: Seq<u8>, i: int, byte: u8) -> bool {
    0 <= i < bytes.len() && bytes[i] == byte
}

/// How many of at most three octal digits stand at `i`.
pub open spec fn octal_run(bytes: Seq<u8>, i: int) -> int {
    if !(0 <= i < bytes.len() && octal(bytes[i])) {
        0
    } else if !(i + 1 < bytes.len() && octal(bytes[i + 1])) {
        1
    } else if !(i + 2 < bytes.len() && octal(bytes[i + 2])) {
        2
    } else {
        3
    }
}

/// How many bytes the escape at `i`, behind its backslash, takes.
pub open spec fn escape_len(bytes: Seq<u8>, i: int) -> int {
    if bytes[i] == 13 {
        if byte_at(bytes, i + 1, 10) {
            2
        } else {
            1
        }
    } else if octal(bytes[i]) {
        octal_run(bytes, i)
    } else {
        1
    }
}

/// How many bytes one element of a literal string takes.
pub open spec fn literal_element_len(bytes: Seq<u8>, i: int) -> int {
    if bytes[i] == 0x5c {
        if i + 1 < bytes.len() {
            1 + escape_len(bytes, i + 1)
        } else {
            1
        }
    } else if bytes[i] == 13 && byte_at(bytes, i + 1, 10) {
        2
    } else {
        1
    }
}

/// Position behind the parenthesis that closes a literal string, given how many are open.
pub open spec fn literal_end(bytes: Seq<u8>, i: int, open: int) -> Option<int>
    decreases bytes.len() - i,
{
    if i < 0 || i >= bytes.len() {
        None
    } else if bytes[i] == 0x28 {
        literal_end(bytes, i + 1, open + 1)
    } else if bytes[i] == 0x29 {
        if open == 1 {
            Some(i + 1)
        } else {
            literal_end(bytes, i + 1, open - 1)
        }
    } else {
        literal_end(bytes, i + literal_element_len(bytes, i), open)
    }
}

/// The byte that up to three octal digits denote, high-order overflow left out.
pub open spec fn octal_byte(bytes: Seq<u8>, i: int, run: int) -> u8 {
    if run == 1 {
        (bytes[i] - 0x30) as u8
    } else if run == 2 {
        ((bytes[i] - 0x30) * 8 + (bytes[i + 1] - 0x30)) as u8
    } else {
        (((bytes[i] - 0x30) * 64 + (bytes[i + 1] - 0x30) * 8 + (bytes[i + 2] - 0x30)) % 256) as u8
    }
}

/// What one element of a literal string denotes.
pub open spec fn literal_element(raw: Seq<u8>, i: int) -> Seq<u8> {
    if raw[i] == 0x5c {
        if i + 1 >= raw.len() {
            Seq::empty()
        } else if raw[i + 1] == 0x6e {
            seq![10u8]
        } else if raw[i + 1] == 0x72 {
            seq![13u8]
        } else if raw[i + 1] == 0x74 {
            seq![9u8]
        } else if raw[i + 1] == 0x62 {
            seq![8u8]
        } else if raw[i + 1] == 0x66 {
            seq![12u8]
        } else if raw[i + 1] == 13 || raw[i + 1] == 10 {
            Seq::empty()
        } else if octal(raw[i + 1]) {
            seq![octal_byte(raw, i + 1, octal_run(raw, i + 1))]
        } else {
            seq![raw[i + 1]]
        }
    } else if raw[i] == 13 {
        seq![10u8]
    } else {
        seq![raw[i]]
    }
}

/// What the inside of a literal string denotes, from `i` on: escapes resolved, ends of line
/// normalized to a line feed.
pub open spec fn literal_value(raw: Seq<u8>, i: int) -> Seq<u8>
    decreases raw.len() - i,
{
    if i < 0 || i >= raw.len() {
        Seq::empty()
    } else {
        literal_element(raw, i) + literal_value(raw, i + literal_element_len(raw, i))
    }
}

/// Appends what the inside of a literal string denotes.
pub(crate) fn decode_literal(raw: &[u8], output: &mut Vec<u8>)
    ensures
        final(output)@ == old(output)@ + literal_value(raw@, 0),
{
    let mut index: usize = 0;
    assert(output@ + literal_value(raw@, 0) =~= old(output)@ + literal_value(raw@, 0));
    while index < raw.len()
        invariant
            index <= raw@.len(),
            output@ + literal_value(raw@, index as int) == old(output)@ + literal_value(raw@, 0),
        decreases raw@.len() - index,
    {
        let ghost earlier = output@;
        let ghost at = index as int;
        let byte: u8 = raw[index];
        if byte == 0x5c {
            index = index + 1;
            if index < raw.len() {
                let escaped: u8 = raw[index];
                if escaped == 13 {
                    index = index + 1;
                    if index < raw.len() && raw[index] == 10 {
                        index = index + 1;
                    }
                } else if escaped == 10 {
                    index = index + 1;
                } else if is_octal(escaped) {
                    let mut value: u32 = (escaped - 0x30) as u32;
                    index = index + 1;
                    if index < raw.len() && is_octal(raw[index]) {
                        value = value * 8 + (raw[index] - 0x30) as u32;
                        index = index + 1;
                        if index < raw.len() && is_octal(raw[index]) {
                            value = value * 8 + (raw[index] - 0x30) as u32;
                            index = index + 1;
                        }
                    }
                    output.push((value % 256) as u8);
                } else {
                    let decoded: u8 = if escaped == 0x6e {
                        10
                    } else if escaped == 0x72 {
                        13
                    } else if escaped == 0x74 {
                        9
                    } else if escaped == 0x62 {
                        8
                    } else if escaped == 0x66 {
                        12
                    } else {
                        escaped
                    };
                    output.push(decoded);
                    index = index + 1;
                }
            }
        } else if byte == 13 {
            output.push(10);
            index = index + 1;
            if index < raw.len() && raw[index] == 10 {
                index = index + 1;
            }
        } else {
            output.push(byte);
            index = index + 1;
        }
        proof {
            let element = literal_element(raw@, at);
            assert(index == at + literal_element_len(raw@, at));
            assert(output@ =~= earlier + element);
            assert(earlier + literal_value(raw@, at) =~= output@ + literal_value(
                raw@,
                index as int,
            ));
        }
    }
    assert(literal_value(raw@, index as int) =~= Seq::empty());
    assert(output@ + literal_value(raw@, index as int) =~= output@);
}

/// The digits of a hexadecimal string, white space left out.
pub open spec fn hex_digits(raw: Seq<u8>) -> Seq<u8>
    decreases raw.len(),
{
    if raw.len() == 0 {
        Seq::empty()
    } else {
        match hex_of(raw.last()) {
            Some(value) => hex_digits(raw.drop_last()).push(value),
            None => hex_digits(raw.drop_last()),
        }
    }
}

/// Digits in pairs; a single last digit counts as the high one of its pair.
pub open spec fn packed(digits: Seq<u8>) -> Seq<u8> {
    Seq::new(
        ((digits.len() + 1) / 2) as nat,
        |k: int|
            (digits[2 * k] * 16 + (if 2 * k + 1 < digits.len() {
                digits[2 * k + 1] as int
            } else {
                0
            })) as u8,
    )
}

/// What the inside of a hexadecimal string denotes.
pub open spec fn hex_value_of(raw: Seq<u8>) -> Seq<u8> {
    packed(hex_digits(raw))
}

proof fn hex_digits_are_small(raw: Seq<u8>)
    ensures
        forall|i: int| 0 <= i < hex_digits(raw).len() ==> #[trigger] hex_digits(raw)[i] < 16,
        hex_digits(raw).len() <= raw.len(),
    decreases raw.len(),
{
    if raw.len() > 0 {
        hex_digits_are_small(raw.drop_last());
    }
}

/// Appends what the inside of a hexadecimal string denotes.
pub(crate) fn decode_hex(raw: &[u8], output: &mut Vec<u8>)
    ensures
        final(output)@ == old(output)@ + hex_value_of(raw@),
{
    let mut high: Option<u8> = None;
    let mut i: usize = 0;
    assert(hex_digits(raw@.take(0)) =~= Seq::empty());
    assert(output@ =~= old(output)@ + packed(Seq::empty()));
    while i < raw.len()
        invariant
            i <= raw@.len(),
            ({
                let digits = hex_digits(raw@.take(i as int));
                match high {
                    None => digits.len() % 2 == 0 && output@ == old(output)@ + packed(digits),
                    Some(value) => digits.len() % 2 == 1 && value == digits.last() && output@
                        == old(output)@ + packed(digits.drop_last()),
                }
            }),
        decreases raw@.len() - i,
    {
        let ghost digits = hex_digits(raw@.take(i as int));
        proof {
            assert(raw@.take(i + 1).drop_last() =~= raw@.take(i as int));
            hex_digits_are_small(raw@.take(i as int));
        }
        match hex_value(raw[i]) {
            Some(nibble) => {
                match high {
                    Some(previous) => {
                        assert(previous < 16);
                        let byte: u8 = previous * 16 + nibble;
                        output.push(byte);
                        high = None;
                        proof {
                            let now = digits.push(nibble);
                            assert(packed(now) =~= packed(digits.drop_last()).push(byte));
                            assert(output@ =~= old(output)@ + packed(now));
                        }
                    },
                    None => {
                        high = Some(nibble);
                        assert(digits.push(nibble).drop_last() =~= digits);
                    },
                }
            },
            None => {},
        }
        i = i + 1;
    }
    let ghost digits = hex_digits(raw@);
    proof {
        assert(raw@.take(i as int) =~= raw@);
        hex_digits_are_small(raw@);
    }
    if let Some(previous) = high {
        assert(previous < 16);
        let byte: u8 = previous * 16;
        output.push(byte);
        proof {
            assert(packed(digits) =~= packed(digits.drop_last()).push(byte));
            assert(output@ =~= old(output)@ + packed(digits));
        }
    }
}

/// What the bytes of a name denote, from `i` on: escapes resolved.
pub open spec fn name_value(raw: Seq<u8>, i: int) -> Seq<u8>
    decreases raw.len() - i,
{
    if i < 0 || i >= raw.len() {
        Seq::empty()
    } else if raw[i] == 0x23 && i + 2 < raw.len() {
        seq![((hex_of(raw[i + 1])->0) * 16 + hex_of(raw[i + 2])->0) as u8] + name_value(raw, i + 3)
    } else {
        seq![raw[i]] + name_value(raw, i + 1)
    }
}

/// A name without an escape denotes its own bytes.
pub proof fn plain_names_denote_themselves(raw: Seq<u8>, i: int)
    requires
        0 <= i <= raw.len(),
        forall|k: int| 0 <= k < raw.len() ==> #[trigger] raw[k] != 0x23,
    ensures
        name_value(raw, i) == raw.skip(i),
    decreases raw.len() - i,
{
    if i < raw.len() {
        plain_names_denote_themselves(raw, i + 1);
        assert(seq![raw[i]] + raw.skip(i + 1) =~= raw.skip(i));
    } else {
        assert(raw.skip(i) =~= Seq::empty());
    }
}

/// A literal string without a backslash or a carriage return denotes its own bytes.
pub proof fn plain_literals_denote_themselves(raw: Seq<u8>, i: int)
    requires
        0 <= i <= raw.len(),
        forall|k: int| 0 <= k < raw.len() ==> #[trigger] raw[k] != 0x5c && raw[k] != 13,
    ensures
        literal_value(raw, i) == raw.skip(i),
    decreases raw.len() - i,
{
    if i < raw.len() {
        plain_literals_denote_themselves(raw, i + 1);
        assert(seq![raw[i]] + raw.skip(i + 1) =~= raw.skip(i));
    } else {
        assert(raw.skip(i) =~= Seq::empty());
    }
}

} // verus!
