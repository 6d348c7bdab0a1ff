//! Laws of tokens, names and strings.

use vstd::prelude::*;

use crate::content::lexical::{
    delimiter, hex_digits, hex_of, hex_value_of, literal_element_len, literal_end, literal_value,
    name_value, packed, whitespace,
};
use crate::content::scan_model::{comment_len, hex_stop, regular_len};

verus! {

/// White space is the null byte, tab, line feed, form feed, carriage return and space. A token ends
/// before white space, a bracket of any kind, a slash or a percent sign, and nowhere else.
pub proof fn tokens_end_at_white_space_and_brackets(byte: u8)
    ensures
        whitespace(byte) <==> byte == 0x00 || byte == 0x09 || byte == 0x0a || byte == 0x0c || byte
            == 0x0d || byte == 0x20,
        delimiter(byte) && !whitespace(byte) <==> byte == 0x28 || byte == 0x29 || byte == 0x3c
            || byte == 0x3e || byte == 0x5b || byte == 0x5d || byte == 0x7b || byte == 0x7d || byte
            == 0x2f || byte == 0x25,
{
}

/// A regular token is as long as it can be: its bytes are no delimiters, and the byte after it is
/// one, or there is none.
pub proof fn regular_tokens_are_maximal(bytes: Seq<u8>, i: int)
    requires
        0 <= i <= bytes.len(),
    ensures
        ({
            let end = i + regular_len(bytes, i);
            &&& end <= bytes.len()
            &&& forall|k: int| i <= k < end ==> !delimiter(#[trigger] bytes[k])
            &&& end < bytes.len() ==> delimiter(bytes[end])
        }),
    decreases bytes.len() - i,
{
    if i < bytes.len() && !delimiter(bytes[i]) {
        regular_tokens_are_maximal(bytes, i + 1);
    }
}

/// A comment runs to the end of its line, which it takes with it, or to the end of the bytes.
pub proof fn comments_run_to_the_end_of_their_line(bytes: Seq<u8>, i: int)
    requires
        0 <= i <= bytes.len(),
    ensures
        ({
            let end = i + comment_len(bytes, i);
            &&& end <= bytes.len()
            &&& forall|k: int|
                i <= k < end - 1 ==> #[trigger] bytes[k] != 0x0d && bytes[k] != 0x0a
            &&& end < bytes.len() ==> end > i && (bytes[end - 1] == 0x0d || bytes[end - 1] == 0x0a)
        }),
    decreases bytes.len() - i,
{
    if i < bytes.len() && bytes[i] != 13 && bytes[i] != 10 {
        comments_run_to_the_end_of_their_line(bytes, i + 1);
    }
}

/// A hexadecimal digit has the value of its place among the digits; the letters go on from ten, in
/// either case. No other byte is one.
pub proof fn hexadecimal_digits_have_their_value(byte: u8, value: u8)
    ensures
        hex_of(byte) == Some(value) <==> value < 10 && byte == 0x30 + value || 10 <= value < 16 && (
        byte == 0x41 + value - 10 || byte == 0x61 + value - 10),
{
}

proof fn digits_of_a_sum(left: Seq<u8>, right: Seq<u8>)
    ensures
        hex_digits(left + right) == hex_digits(left) + hex_digits(right),
    decreases right.len(),
{
    if right.len() == 0 {
        assert(left + right =~= left);
        assert(hex_digits(left) + hex_digits(right) =~= hex_digits(left));
    } else {
        digits_of_a_sum(left, right.drop_last());
        assert((left + right).drop_last() =~= left + right.drop_last());
        assert(hex_digits(left + right) =~= hex_digits(left) + hex_digits(right));
    }
}

proof fn digits_of_one(byte: u8)
    ensures
        hex_digits(seq![byte]) == match hex_of(byte) {
            Some(value) => seq![value],
            None => Seq::empty(),
        },
{
    assert(seq![byte].drop_last() =~= Seq::empty());
    assert(hex_digits(Seq::<u8>::empty()) =~= Seq::empty());
    assert(Seq::<u8>::empty().push(hex_of(byte)->0) =~= seq![hex_of(byte)->0]);
}

/// Two digits of a hexadecimal string make one byte, the first one its high half, and what follows
/// goes on after it.
pub proof fn two_digits_make_a_byte(first: u8, second: u8, rest: Seq<u8>)
    requires
        hex_of(first) is Some,
        hex_of(second) is Some,
    ensures
        hex_value_of(seq![first, second] + rest) == seq![
            (hex_of(first)->0 * 16 + hex_of(second)->0) as u8,
        ] + hex_value_of(rest),
{
    let a = hex_of(first)->0;
    let b = hex_of(second)->0;
    digits_of_one(first);
    digits_of_one(second);
    digits_of_a_sum(seq![first], seq![second]);
    assert(seq![first] + seq![second] =~= seq![first, second]);
    digits_of_a_sum(seq![first, second], rest);
    let digits = hex_digits(rest);
    assert(hex_digits(seq![first, second] + rest) =~= seq![a, b] + digits);
    let whole = packed(seq![a, b] + digits);
    let tail = packed(digits);
    assert(whole.len() == tail.len() + 1);
    assert forall|k: int| 0 <= k < tail.len() implies whole[k + 1] == tail[k] by {
        assert((seq![a, b] + digits)[2 * (k + 1)] == digits[2 * k]);
    }
    assert(whole =~= seq![(a * 16 + b) as u8] + tail);
}

/// A single last digit is the high half of its byte, and the low half is zero.
pub proof fn a_single_digit_is_the_high_half(digit: u8)
    requires
        hex_of(digit) is Some,
    ensures
        hex_value_of(seq![digit]) == seq![(hex_of(digit)->0 * 16) as u8],
{
    digits_of_one(digit);
    assert(packed(seq![hex_of(digit)->0]) =~= seq![(hex_of(digit)->0 * 16) as u8]);
}

/// White space inside a hexadecimal string means nothing, wherever it stands.
pub proof fn white_space_in_hexadecimal_strings_means_nothing(
    left: Seq<u8>,
    space: u8,
    right: Seq<u8>,
)
    requires
        whitespace(space),
    ensures
        hex_value_of(left + seq![space] + right) == hex_value_of(left + right),
{
    digits_of_one(space);
    digits_of_a_sum(left, seq![space]);
    digits_of_a_sum(left + seq![space], right);
    digits_of_a_sum(left, right);
    assert(hex_digits(left) + Seq::<u8>::empty() =~= hex_digits(left));
}

/// A hexadecimal string holds digits and white space up to where it stops.
pub proof fn hexadecimal_strings_hold_digits(bytes: Seq<u8>, i: int)
    requires
        0 <= i <= bytes.len(),
    ensures
        ({
            let stop = hex_stop(bytes, i);
            &&& i <= stop <= bytes.len()
            &&& forall|k: int|
                i <= k < stop ==> whitespace(#[trigger] bytes[k]) || hex_of(bytes[k]) is Some
            &&& stop < bytes.len() ==> !whitespace(bytes[stop]) && hex_of(bytes[stop]) is None
        }),
    decreases bytes.len() - i,
{
    if i < bytes.len() && (whitespace(bytes[i]) || hex_of(bytes[i]) is Some) {
        hexadecimal_strings_hold_digits(bytes, i + 1);
    }
}

proof fn names_shift(front: Seq<u8>, rest: Seq<u8>, i: int)
    requires
        0 <= i <= rest.len(),
    ensures
        name_value(front + rest, front.len() + i) == name_value(rest, i),
    decreases rest.len() - i,
{
    let whole = front + rest;
    if i < rest.len() {
        assert(whole[front.len() + i] == rest[i]);
        if rest[i] == 0x23 && i + 2 < rest.len() {
            assert(whole[front.len() + i + 1] == rest[i + 1]);
            assert(whole[front.len() + i + 2] == rest[i + 2]);
            names_shift(front, rest, i + 3);
        } else {
            names_shift(front, rest, i + 1);
        }
    }
}

/// A number sign in a name stands with its two digits for one byte, the first digit for its high
/// half; any other byte stands for itself. What follows goes on after it.
pub proof fn name_escapes_stand_for_one_byte(byte: u8, first: u8, second: u8, rest: Seq<u8>)
    requires
        hex_of(first) is Some,
        hex_of(second) is Some,
        byte != 0x23,
    ensures
        name_value(seq![0x23u8, first, second] + rest, 0) == seq![
            (hex_of(first)->0 * 16 + hex_of(second)->0) as u8,
        ] + name_value(rest, 0),
        name_value(seq![byte] + rest, 0) == seq![byte] + name_value(rest, 0),
{
    names_shift(seq![0x23u8, first, second], rest, 0);
    names_shift(seq![byte], rest, 0);
}

proof fn literals_shift(front: Seq<u8>, rest: Seq<u8>, i: int)
    requires
        0 <= i <= rest.len(),
    ensures
        literal_value(front + rest, front.len() + i) == literal_value(rest, i),
    decreases rest.len() - i,
{
    let whole = front + rest;
    let at = front.len() + i;
    if i < rest.len() {
        assert forall|k: int| 0 <= k < rest.len() implies #[trigger] whole[front.len() + k]
            == rest[k] by {}
        assert(whole[at] == rest[i]);
        if i + 1 < rest.len() {
            assert(whole[front.len() + (i + 1)] == rest[i + 1]);
        }
        if i + 2 < rest.len() {
            assert(whole[front.len() + (i + 2)] == rest[i + 2]);
        }
        if i + 3 < rest.len() {
            assert(whole[front.len() + (i + 3)] == rest[i + 3]);
        }
        let len = literal_element_len(rest, i);
        assert(literal_element_len(whole, at) == len);
        if i + len <= rest.len() {
            literals_shift(front, rest, i + len);
        }
    }
}

/// Whether a byte is an octal digit.
pub open spec fn is_octal_digit(byte: u8) -> bool {
    0x30 <= byte <= 0x37
}

/// A backslash in a literal string makes the letters n, r, t, b and f a line feed, a carriage return,
/// a tab, a backspace and a form feed, and leaves any other byte but a digit and an end of line as
/// it is. What follows goes on after it.
pub proof fn escaped_letters_are_control_bytes(letter: u8, rest: Seq<u8>)
    requires
        !is_octal_digit(letter),
        letter != 0x0d,
        letter != 0x0a,
    ensures
        literal_value(seq![0x5cu8, letter] + rest, 0) == seq![
            if letter == 0x6e {
                0x0au8
            } else if letter == 0x72 {
                0x0du8
            } else if letter == 0x74 {
                0x09u8
            } else if letter == 0x62 {
                0x08u8
            } else if letter == 0x66 {
                0x0cu8
            } else {
                letter
            },
        ] + literal_value(rest, 0),
{
    let front = seq![0x5cu8, letter];
    let whole = front + rest;
    assert(whole[0] == 0x5c && whole[1] == letter);
    literals_shift(front, rest, 0);
}

/// An end of line behind a backslash means nothing: a carriage return, a line feed, or both.
pub proof fn escaped_ends_of_line_mean_nothing(rest: Seq<u8>)
    ensures
        literal_value(seq![0x5cu8, 0x0au8] + rest, 0) == literal_value(rest, 0),
        literal_value(seq![0x5cu8, 0x0du8, 0x0au8] + rest, 0) == literal_value(rest, 0),
        rest.len() == 0 || rest[0] != 0x0a ==> literal_value(seq![0x5cu8, 0x0du8] + rest, 0)
            == literal_value(rest, 0),
{
    let feed = seq![0x5cu8, 0x0au8];
    let both = seq![0x5cu8, 0x0du8, 0x0au8];
    let back = seq![0x5cu8, 0x0du8];
    assert((feed + rest)[0] == 0x5c && (feed + rest)[1] == 0x0a);
    assert((both + rest)[0] == 0x5c && (both + rest)[1] == 0x0d && (both + rest)[2] == 0x0a);
    assert((back + rest)[0] == 0x5c && (back + rest)[1] == 0x0d);
    if rest.len() > 0 {
        assert((back + rest)[2] == rest[0]);
    }
    literals_shift(feed, rest, 0);
    literals_shift(both, rest, 0);
    literals_shift(back, rest, 0);
    assert(Seq::<u8>::empty() + literal_value(rest, 0) =~= literal_value(rest, 0));
}

/// An end of line in a literal string is a line feed, however it is written; any byte but a
/// backslash and a carriage return stands for itself.
pub proof fn ends_of_line_are_line_feeds(byte: u8, rest: Seq<u8>)
    requires
        byte != 0x5c,
        byte != 0x0d,
    ensures
        literal_value(seq![0x0du8, 0x0au8] + rest, 0) == seq![0x0au8] + literal_value(rest, 0),
        rest.len() == 0 || rest[0] != 0x0a ==> literal_value(seq![0x0du8] + rest, 0) == seq![0x0au8]
            + literal_value(rest, 0),
        literal_value(seq![byte] + rest, 0) == seq![byte] + literal_value(rest, 0),
{
    let both = seq![0x0du8, 0x0au8];
    let back = seq![0x0du8];
    assert((both + rest)[0] == 0x0d && (both + rest)[1] == 0x0a);
    assert((back + rest)[0] == 0x0d);
    if rest.len() > 0 {
        assert((back + rest)[1] == rest[0]);
    }
    assert((seq![byte] + rest)[0] == byte);
    literals_shift(both, rest, 0);
    literals_shift(back, rest, 0);
    literals_shift(seq![byte], rest, 0);
}

/// Up to three octal digits behind a backslash are one byte: each digit is worth eight of the next
/// one, and what does not fit a byte is left out. A byte that is no octal digit ends them.
pub proof fn octal_digits_are_one_byte(a: u8, b: u8, c: u8, rest: Seq<u8>)
    requires
        is_octal_digit(a),
        is_octal_digit(b),
        is_octal_digit(c),
    ensures
        literal_value(seq![0x5cu8, a, b, c] + rest, 0) == seq![
            (((a - 0x30) * 64 + (b - 0x30) * 8 + (c - 0x30)) % 256) as u8,
        ] + literal_value(rest, 0),
        rest.len() == 0 || !is_octal_digit(rest[0]) ==> {
            &&& literal_value(seq![0x5cu8, a, b] + rest, 0) == seq![
                ((a - 0x30) * 8 + (b - 0x30)) as u8,
            ] + literal_value(rest, 0)
            &&& literal_value(seq![0x5cu8, a] + rest, 0) == seq![(a - 0x30) as u8] + literal_value(
                rest,
                0,
            )
        },
{
    let three = seq![0x5cu8, a, b, c];
    let two = seq![0x5cu8, a, b];
    let one = seq![0x5cu8, a];
    let whole = three + rest;
    assert(whole[0] == 0x5c && whole[1] == a && whole[2] == b && whole[3] == c);
    let whole = two + rest;
    assert(whole[0] == 0x5c && whole[1] == a && whole[2] == b);
    if rest.len() > 0 {
        assert((two + rest)[3] == rest[0]);
        assert((one + rest)[2] == rest[0]);
    }
    let whole = one + rest;
    assert(whole[0] == 0x5c && whole[1] == a);
    literals_shift(three, rest, 0);
    literals_shift(two, rest, 0);
    literals_shift(one, rest, 0);
}

/// A literal string ends behind the first parenthesis that closes it, where nothing in between is
/// escaped or nested.
pub proof fn literals_end_at_their_parenthesis(bytes: Seq<u8>, i: int, end: int)
    requires
        0 <= i <= end < bytes.len(),
        bytes[end] == 0x29,
        forall|k: int|
            i <= k < end ==> #[trigger] bytes[k] != 0x28 && bytes[k] != 0x29 && bytes[k] != 0x5c
                && bytes[k] != 0x0d,
    ensures
        literal_end(bytes, i, 1) == Some(end + 1),
    decreases end - i,
{
    if i < end {
        assert(bytes[i] != 0x28);
        literals_end_at_their_parenthesis(bytes, i + 1, end);
    }
}

/// Each open parenthesis needs one that closes it: with one more open, a string ends where it would
/// end from behind its first end on.
pub proof fn parentheses_are_closed_one_by_one(bytes: Seq<u8>, i: int, open: int)
    requires
        0 <= i <= bytes.len(),
        open >= 1,
    ensures
        literal_end(bytes, i, open + 1) == match literal_end(bytes, i, open) {
            Some(end) => literal_end(bytes, end, 1),
            None => None,
        },
        i < bytes.len() && bytes[i] == 0x28 ==> literal_end(bytes, i, open) == match literal_end(
            bytes,
            i + 1,
            1,
        ) {
            Some(end) => literal_end(bytes, end, open),
            None => None,
        },
    decreases bytes.len() - i, open,
{
    if i < bytes.len() {
        if bytes[i] == 0x28 {
            parentheses_are_closed_one_by_one(bytes, i + 1, open + 1);
            nested_ends_add_up(bytes, i + 1, open);
        } else if bytes[i] == 0x29 {
            if open > 1 {
                parentheses_are_closed_one_by_one(bytes, i + 1, open - 1);
            }
        } else {
            let next = i + literal_element_len(bytes, i);
            if next <= bytes.len() {
                parentheses_are_closed_one_by_one(bytes, next, open);
            }
        }
    }
}

proof fn nested_ends_add_up(bytes: Seq<u8>, i: int, open: int)
    requires
        0 <= i <= bytes.len(),
        open >= 1,
    ensures
        literal_end(bytes, i, open + 1) == match literal_end(bytes, i, 1) {
            Some(end) => literal_end(bytes, end, open),
            None => None,
        },
    decreases bytes.len() - i, open,
{
    if i < bytes.len() {
        if bytes[i] == 0x28 {
            nested_ends_add_up(bytes, i + 1, open + 1);
            nested_ends_add_up(bytes, i + 1, 1);
            if let Some(end) = literal_end(bytes, i + 1, 1) {
                ends_lie_behind(bytes, i + 1, 1);
                nested_ends_add_up(bytes, end, open);
            }
        } else if bytes[i] != 0x29 {
            let next = i + literal_element_len(bytes, i);
            if next <= bytes.len() {
                nested_ends_add_up(bytes, next, open);
            }
        }
    }
}

proof fn ends_lie_behind(bytes: Seq<u8>, i: int, open: int)
    requires
        0 <= i <= bytes.len(),
        open >= 1,
    ensures
        literal_end(bytes, i, open) matches Some(end) ==> i < end <= bytes.len(),
    decreases bytes.len() - i,
{
    if i < bytes.len() {
        if bytes[i] == 0x28 {
            ends_lie_behind(bytes, i + 1, open + 1);
        } else if bytes[i] == 0x29 {
            if open > 1 {
                ends_lie_behind(bytes, i + 1, open - 1);
            }
        } else {
            let next = i + literal_element_len(bytes, i);
            if next <= bytes.len() {
                ends_lie_behind(bytes, next, open);
            }
        }
    }
}

} // verus!
