//! Text as the configuration reads it: names compared without regard to the
//! case of ASCII letters, decimal numbers, and lists joined for a message.

use core::num::ParseIntError;
use vstd::prelude::*;

verus! {

/// `core::num::ParseIntError`: why a text is no number. It is carried, never read.
#[verifier::external_type_specification]
#[verifier::external_body]
pub struct ExParseIntError(core::num::ParseIntError);

/// The lower-case form of an ASCII capital letter; any other character is itself.
pub open spec fn ascii_lower(c: char) -> char {
    if 'A' <= c && c <= 'Z' {
        ((c as u8 + 32) as u8) as char
    } else {
        c
    }
}

/// A text with every ASCII capital letter replaced by its lower-case form.
pub open spec fn folded(s: Seq<char>) -> Seq<char> {
    s.map_values(|c: char| ascii_lower(c))
}

/// Two texts that differ at most in the case of their ASCII letters.
pub open spec fn same_ignoring_case(a: Seq<char>, b: Seq<char>) -> bool {
    folded(a) == folded(b)
}

/// The views of a sequence of strings.
pub open spec fn texts(strings: Seq<String>) -> Seq<Seq<char>> {
    strings.map_values(|s: String| s@)
}

/// The view of a string that may be absent.
pub open spec fn optional_text(string: Option<String>) -> Option<Seq<char>> {
    match string {
        Some(s) => Some(s@),
        None => None,
    }
}

/// Whether every character of `s` is one of the ten ASCII digits.
pub open spec fn all_digits(s: Seq<char>) -> bool {
    forall|i: int| 0 <= i < s.len() ==> '0' <= #[trigger] s[i] && s[i] <= '9'
}

/// The number that a run of ASCII digits writes in base ten.
pub open spec fn digits_value(s: Seq<char>) -> nat
    decreases s.len(),
{
    if s.len() == 0 {
        0
    } else {
        10 * digits_value(s.drop_last()) + (s.last() as u8 - '0' as u8) as nat
    }
}

/// The number that `s` writes: an optional `+`, then one or more ASCII digits
/// and nothing else. Any other text writes no number.
pub open spec fn decimal(s: Seq<char>) -> Option<nat> {
    let digits = if s.len() > 0 && s[0] == '+' {
        s.drop_first()
    } else {
        s
    };
    if digits.len() > 0 && all_digits(digits) {
        Some(digits_value(digits))
    } else {
        None
    }
}

/// The number that `s` writes, if it writes one that is at most `max`.
pub open spec fn decimal_within(s: Seq<char>, max: nat) -> Option<nat> {
    match decimal(s) {
        Some(n) => if n <= max {
            Some(n)
        } else {
            None
        },
        None => None,
    }
}

/// The texts of `parts` in order, with `separator` between each two neighbours.
pub open spec fn joined(parts: Seq<Seq<char>>, separator: Seq<char>) -> Seq<char>
    decreases parts.len(),
{
    if parts.len() == 0 {
        Seq::<char>::empty()
    } else if parts.len() == 1 {
        parts[0]
    } else {
        joined(parts.drop_last(), separator) + separator + parts.last()
    }
}

/// Whether `part` stands somewhere in `whole`, unbroken.
pub open spec fn occurs_in(part: Seq<char>, whole: Seq<char>) -> bool {
    exists|start: int|
        0 <= start && start + part.len() <= whole.len() && #[trigger] whole.subrange(
            start,
            start + part.len(),
        ) == part
}

/// `str::eq_ignore_ascii_case`: true exactly when the two strings are equal
/// once every ASCII capital letter is replaced by its lower-case form.
#[verifier::external_body]
pub(crate) fn eq_ignore_ascii_case(a: &str, b: &str) -> (same: bool)
    ensures
        same == same_ignoring_case(a@, b@),
{
    a.eq_ignore_ascii_case(b)
}

/// `u16::from_str`: the number that the string writes in base ten, an error
/// where it writes none or one above `u16::MAX`.
#[verifier::external_body]
pub(crate) fn parse_u16(s: &str) -> (number: Result<u16, ParseIntError>)
    ensures
        match number {
            Ok(n) => decimal_within(s@, u16::MAX as nat) == Some(n as nat),
            Err(_) => decimal_within(s@, u16::MAX as nat) is None,
        },
{
    s.parse::<u16>()
}

/// `u32::from_str`: the number that the string writes in base ten, an error
/// where it writes none or one above `u32::MAX`.
#[verifier::external_body]
pub(crate) fn parse_u32(s: &str) -> (number: Result<u32, ParseIntError>)
    ensures
        match number {
            Ok(n) => decimal_within(s@, u32::MAX as nat) == Some(n as nat),
            Err(_) => decimal_within(s@, u32::MAX as nat) is None,
        },
{
    s.parse::<u32>()
}

/// `u64::from_str`: the number that the string writes in base ten, an error
/// where it writes none or one above `u64::MAX`.
#[verifier::external_body]
pub(crate) fn parse_u64(s: &str) -> (number: Result<u64, ParseIntError>)
    ensures
        match number {
            Ok(n) => decimal_within(s@, u64::MAX as nat) == Some(n as nat),
            Err(_) => decimal_within(s@, u64::MAX as nat) is None,
        },
{
    s.parse::<u64>()
}

/// `usize::from_str`: the number that the string writes in base ten, an error
/// where it writes none or one above `usize::MAX`.
#[verifier::external_body]
pub(crate) fn parse_usize(s: &str) -> (number: Result<usize, ParseIntError>)
    ensures
        match number {
            Ok(n) => decimal_within(s@, usize::MAX as nat) == Some(n as nat),
            Err(_) => decimal_within(s@, usize::MAX as nat) is None,
        },
{
    s.parse::<usize>()
}

/// Joins `parts` into one string, with `separator` between each two neighbours.
pub fn join(parts: &Vec<String>, separator: &str) -> (whole: String)
    ensures
        whole@ == joined(texts(parts@), separator@),
{
    let mut whole = String::new();
    let mut i: usize = 0;
    while i < parts.len()
        invariant
            i <= parts.len(),
            whole@ == joined(texts(parts@).take(i as int), separator@),
        decreases parts.len() - i,
    {
        let ghost before = texts(parts@).take(i as int);
        let ghost after = texts(parts@).take(i + 1);
        proof {
            assert(after.drop_last() =~= before);
            assert(after.last() == parts@[i as int]@);
        }
        if i > 0 {
            whole.append(separator);
        }
        whole.append(parts[i].as_str());
        proof {
            if i == 0 {
                assert(joined(after, separator@) == parts@[0]@);
                assert(whole@ =~= parts@[0]@);
            } else {
                assert(whole@ =~= joined(before, separator@) + separator@ + after.last());
            }
        }
        i += 1;
    }
    proof {
        assert(texts(parts@).take(parts.len() as int) =~= texts(parts@));
    }
    whole
}

/// Every part of a joined text stands in it, unbroken.
pub proof fn lemma_joined_holds_each(parts: Seq<Seq<char>>, separator: Seq<char>, i: int)
    requires
        0 <= i < parts.len(),
    ensures
        occurs_in(parts[i], joined(parts, separator)),
    decreases parts.len(),
{
    let whole = joined(parts, separator);
    if parts.len() == 1 {
        assert(whole.subrange(0int, 0int + parts[i].len()) =~= parts[i]);
    } else {
        let front = joined(parts.drop_last(), separator);
        if i == parts.len() - 1 {
            let start: int = (front.len() + separator.len()) as int;
            assert(whole.subrange(start, start + parts[i].len()) =~= parts[i]);
        } else {
            lemma_joined_holds_each(parts.drop_last(), separator, i);
            let start = choose|start: int|
                0 <= start && start + parts[i].len() <= front.len() && #[trigger] front.subrange(
                    start,
                    start + parts[i].len(),
                ) == parts[i];
            assert(whole.subrange(start, start + parts[i].len()) =~= front.subrange(
                start,
                start + parts[i].len(),
            ));
        }
    }
}

} // verus!
