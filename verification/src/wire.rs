//! The wire form of a cue on the push channel, and the viewer-side decoder.
//!
//! A cue is pushed as one text frame: nothing at all when no kind is cued,
//! the kind letter alone when there is no ordinal, and the kind letter
//! followed by the decimal ordinal, with no separator, otherwise.

use vstd::prelude::*;
use vstd::string::*;

use crate::section::SectionState;

verus! {

/// A character is a decimal digit.
pub open spec fn is_digit(c: char) -> bool {
    48 <= c as u32 <= 57
}

/// The numeric value of a digit character.
pub open spec fn digit_val(c: char) -> nat
    recommends
        is_digit(c),
{
    (c as u32 - 48) as nat
}

/// The digit character for a value below ten.
pub open spec fn char_of_digit(d: nat) -> char
    recommends
        d < 10,
{
    if d == 0 {
        '0'
    } else if d == 1 {
        '1'
    } else if d == 2 {
        '2'
    } else if d == 3 {
        '3'
    } else if d == 4 {
        '4'
    } else if d == 5 {
        '5'
    } else if d == 6 {
        '6'
    } else if d == 7 {
        '7'
    } else if d == 8 {
        '8'
    } else {
        '9'
    }
}

/// The decimal numeral of `n`: most significant digit first, no sign, no
/// leading zero (a lone `'0'` when `n` is zero).
pub open spec fn spec_decimal(n: nat) -> Seq<char>
    decreases n,
{
    if n < 10 {
        seq![char_of_digit(n)]
    } else {
        spec_decimal(n / 10).push(char_of_digit(n % 10))
    }
}

/// Every character of `s` is a decimal digit.
pub open spec fn all_digits(s: Seq<char>) -> bool {
    forall|i: int| 0 <= i < s.len() ==> is_digit(#[trigger] s[i])
}

/// The number a digit string denotes, most significant digit first.
pub open spec fn digits_value(s: Seq<char>) -> nat
    decreases s.len(),
{
    if s.len() == 0 {
        0
    } else {
        digits_value(s.drop_last()) * 10 + digit_val(s.last())
    }
}

/// The wire form of a cue. A pair without a kind serializes to the empty
/// string whatever its ordinal field holds: clearing the kind clears the
/// whole cue as far as any viewer can see.
pub open spec fn spec_serialize(s: SectionState) -> Seq<char> {
    match s.kind {
        Some(k) => match s.ordinal {
            Some(n) => seq![k] + spec_decimal(n as nat),
            None => seq![k],
        },
        None => Seq::empty(),
    }
}

/// The ordinal a viewer reads back from the tail of a message: present only
/// when the tail is a nonempty digit string whose value is positive and fits
/// the machine word.
pub open spec fn spec_parse_ordinal(s: Seq<char>) -> Option<usize> {
    if s.len() > 0 && all_digits(s) && 1 <= digits_value(s) <= usize::MAX {
        Some(digits_value(s) as usize)
    } else {
        None
    }
}

/// The pair a viewer decodes from one pushed message: the first character is
/// the kind, the rest of the message the ordinal.
pub open spec fn spec_parse(s: Seq<char>) -> SectionState {
    if s.len() == 0 {
        SectionState { kind: None, ordinal: None }
    } else {
        SectionState { kind: Some(s[0]), ordinal: spec_parse_ordinal(s.skip(1)) }
    }
}

/// Relies on `String::push`: appends exactly the one character.
#[verifier::external_body]
fn push_char(s: &mut String, c: char)
    ensures
        final(s)@ == old(s)@.push(c),
{
    s.push(c);
}

/// The digit character for `d`.
fn digit_to_char(d: usize) -> (c: char)
    requires
        d < 10,
    ensures
        c == char_of_digit(d as nat),
        is_digit(c),
        digit_val(c) == d,
{
    if d == 0 {
        '0'
    } else if d == 1 {
        '1'
    } else if d == 2 {
        '2'
    } else if d == 3 {
        '3'
    } else if d == 4 {
        '4'
    } else if d == 5 {
        '5'
    } else if d == 6 {
        '6'
    } else if d == 7 {
        '7'
    } else if d == 8 {
        '8'
    } else {
        '9'
    }
}

/// Appends the decimal numeral of `n`.
fn push_decimal(s: &mut String, n: usize)
    ensures
        final(s)@ == old(s)@ + spec_decimal(n as nat),
    decreases n,
{
    if n < 10 {
        let c = digit_to_char(n);
        push_char(s, c);
        assert(old(s)@.push(c) =~= old(s)@ + spec_decimal(n as nat));
    } else {
        push_decimal(s, n / 10);
        let c = digit_to_char(n % 10);
        push_char(s, c);
        assert((old(s)@ + spec_decimal((n / 10) as nat)).push(c) =~= old(s)@ + spec_decimal(
            n as nat,
        ));
    }
}

/// Serializes a cue for the push channel: the empty string, the kind letter,
/// or the kind letter followed by the decimal ordinal.
pub fn section_segments_to_string(segments: &SectionState) -> (r: String)
    ensures
        r@ == spec_serialize(*segments),
{
    let mut out = String::new();
    if let Some(k) = segments.kind {
        push_char(&mut out, k);
        if let Some(n) = segments.ordinal {
            push_decimal(&mut out, n);
            assert(Seq::<char>::empty().push(k) + spec_decimal(n as nat) =~= spec_serialize(
                *segments,
            ));
        } else {
            assert(Seq::<char>::empty().push(k) =~= spec_serialize(*segments));
        }
    }
    out
}

/// What a consumer renders for a cue: its wire form, or a zero-width space
/// when the wire form is empty, so the display keeps its vertical space
/// while showing nothing. Only the rendering differs; the wire value of an
/// empty cue stays empty.
pub fn section_display_text(state: &SectionState) -> (r: String)
    ensures
        spec_serialize(*state).len() == 0 ==> r@ == seq!['\u{200b}'],
        spec_serialize(*state).len() > 0 ==> r@ == spec_serialize(*state),
{
    if state.kind.is_none() {
        let mut out = String::new();
        push_char(&mut out, '\u{200b}');
        proof {
            assert(Seq::<char>::empty().push('\u{200b}') =~= seq!['\u{200b}']);
        }
        out
    } else {
        section_segments_to_string(state)
    }
}

/// Reads the ordinal off the tail of a message, `start` characters in:
/// `Some` exactly when the tail is a nonempty string of digits denoting a
/// positive value that fits the machine word, as `spec_parse_ordinal` says.
fn parse_ordinal(message: &str, start: usize) -> (r: Option<usize>)
    requires
        1 <= start <= message@.len(),
    ensures
        r == spec_parse_ordinal(message@.skip(start as int)),
{
    let ghost tail = message@.skip(start as int);
    let len = message.unicode_len();
    if start == len {
        return None;
    }
    let mut i = start;
    let mut value: usize = 0;
    let mut overflowed = false;
    while i < len
        invariant
            start <= i <= len,
            start < len,
            len == message@.len(),
            tail == message@.skip(start as int),
            1 <= start,
            all_digits(tail.take(i - start)),
            !overflowed ==> value == digits_value(tail.take(i - start)),
            overflowed ==> digits_value(tail.take(i - start)) > usize::MAX,
        decreases len - i,
    {
        let c = message.get_char(i);
        let u = c as u32;
        let ghost prefix = tail.take(i - start);
        let ghost extended = tail.take(i + 1 - start);
        proof {
            assert(extended.drop_last() =~= prefix);
            assert(extended.last() == message@[i as int]);
        }
        if u < 48 || u > 57 {
            proof {
                assert(!is_digit(tail[i - start]));
                assert(!all_digits(tail));
            }
            return None;
        }
        let d = (u - 48) as usize;
        proof {
            assert(is_digit(c) && digit_val(c) == d);
            assert(forall|j: int|
                0 <= j < extended.len() ==> is_digit(#[trigger] extended[j]));
            assert(digits_value(extended) == digits_value(prefix) * 10 + d);
        }
        if overflowed {
            proof {
                assert(digits_value(prefix) * 10 >= digits_value(prefix));
            }
        } else {
            let stepped = value.checked_mul(10);
            match stepped {
                Some(v10) => {
                    match v10.checked_add(d) {
                        Some(v) => {
                            value = v;
                        },
                        None => {
                            overflowed = true;
                        },
                    }
                },
                None => {
                    overflowed = true;
                    proof {
                        assert(digits_value(extended) > usize::MAX);
                    }
                },
            }
        }
        i += 1;
    }
    proof {
        assert(tail.take(len - start) =~= tail);
    }
    if overflowed {
        return None;
    }
    if value == 0 {
        return None;
    }
    Some(value)
}

/// Decodes one pushed message back into the pair it carries: the first
/// character is the kind, the rest, when it is a positive decimal numeral,
/// the ordinal.
pub fn parse_section_message(message: &str) -> (r: SectionState)
    ensures
        r == spec_parse(message@),
{
    if message.is_empty() {
        SectionState { kind: None, ordinal: None }
    } else {
        let kind = message.get_char(0);
        let ordinal = parse_ordinal(message, 1);
        SectionState { kind: Some(kind), ordinal }
    }
}

/// The digit character of a value below ten is a digit and denotes it.
proof fn lemma_digit_char(d: nat)
    requires
        d < 10,
    ensures
        is_digit(char_of_digit(d)),
        digit_val(char_of_digit(d)) == d,
{
}

/// The decimal numeral of any number is a nonempty digit string denoting
/// that number.
pub proof fn lemma_decimal_denotes(n: nat)
    ensures
        spec_decimal(n).len() >= 1,
        all_digits(spec_decimal(n)),
        digits_value(spec_decimal(n)) == n,
    decreases n,
{
    if n < 10 {
        lemma_digit_char(n);
        assert(spec_decimal(n).drop_last() =~= Seq::<char>::empty());
        assert(digits_value(spec_decimal(n).drop_last()) == 0);
    } else {
        lemma_decimal_denotes(n / 10);
        lemma_digit_char(n % 10);
        let s = spec_decimal(n / 10);
        let c = char_of_digit(n % 10);
        assert(s.push(c).drop_last() =~= s);
        assert(all_digits(s.push(c)));
        assert(digits_value(s.push(c)) == (n / 10) * 10 + n % 10);
        vstd::arithmetic::div_mod::lemma_fundamental_div_mod(n as int, 10);
        assert((n / 10) * 10 + n % 10 == n);
    }
}

/// Round trip: a viewer that decodes a pushed frame recovers exactly the
/// pair the director submitted, for every fully formed pair.
pub proof fn lemma_parse_serialize(s: SectionState)
    requires
        s.wf(),
    ensures
        spec_parse(spec_serialize(s)) == s,
{
    match s.kind {
        None => {
        },
        Some(k) => {
            match s.ordinal {
                None => {
                    assert(seq![k].skip(1) =~= Seq::<char>::empty());
                },
                Some(n) => {
                    lemma_decimal_denotes(n as nat);
                    let w = spec_serialize(s);
                    assert(w.skip(1) =~= spec_decimal(n as nat));
                },
            }
        },
    }
}

} // verus!
