//! What the helpers on texts give.
use vstd::prelude::*;

use crate::hashing::hex;
use crate::text::{decimal, has_part, occurs_at, replaced, trimmed_end, trimmed_start};

verus! {

/// A run of `n` times the character `c`.
pub open spec fn run_of(c: char, n: nat) -> Seq<char> {
    Seq::new(n, |i: int| c)
}

/// Trimming the start of a text takes away the whole run of the character that it starts with, and
/// nothing else.
pub proof fn law_trimming_the_start(c: char, n: nat, rest: Seq<char>)
    requires
        rest.len() > 0 ==> rest[0] != c,
    ensures
        trimmed_start(run_of(c, n) + rest, c) == rest,
    decreases n,
{
    let s = run_of(c, n) + rest;
    if n == 0 {
        assert(s =~= rest);
    } else {
        assert(s.drop_first() =~= run_of(c, (n - 1) as nat) + rest);
        law_trimming_the_start(c, (n - 1) as nat, rest);
    }
}

/// Trimming the end of a text takes away the whole run of the character that it ends with, and
/// nothing else.
pub proof fn law_trimming_the_end(c: char, n: nat, rest: Seq<char>)
    requires
        rest.len() > 0 ==> rest.last() != c,
    ensures
        trimmed_end(rest + run_of(c, n), c) == rest,
    decreases n,
{
    let s = rest + run_of(c, n);
    if n == 0 {
        assert(s =~= rest);
    } else {
        assert(s.drop_last() =~= rest + run_of(c, (n - 1) as nat));
        law_trimming_the_end(c, (n - 1) as nat, rest);
    }
}

/// A text occurs in another at a position if and only if the latter is what comes before, the text,
/// and what comes after.
pub proof fn law_occurrences(before: Seq<char>, part: Seq<char>, after: Seq<char>, at: int)
    ensures
        occurs_at(before + part + after, part, before.len() as int),
        has_part(before + part + after, part),
        occurs_at(after, part, at) ==> 0 <= at && at + part.len() <= after.len() && after
            == after.take(at) + part + after.skip(at + part.len()),
{
    let s = before + part + after;
    assert(s.subrange(before.len() as int, (before.len() + part.len()) as int) =~= part);
    assert(occurs_at(s, part, before.len() as int));
    if occurs_at(after, part, at) {
        assert(after =~= after.take(at) + after.subrange(at, at + part.len()) + after.skip(
            at + part.len(),
        ));
    }
}

/// Replacing a character keeps the length of a text and all its other characters.
pub proof fn law_replacing(s: Seq<char>, from: char, to: char)
    ensures
        replaced(s, from, to).len() == s.len(),
        forall|i: int|
            0 <= i < s.len() ==> #[trigger] replaced(s, from, to)[i] == (if s[i] == from {
                to
            } else {
                s[i]
            }),
{
}

/// The number that decimal digits stand for.
pub open spec fn number(digits: Seq<char>) -> int
    decreases digits.len(),
{
    if digits.len() == 0 {
        0
    } else {
        10 * number(digits.drop_last()) + (digits.last() as int - 48)
    }
}

/// The decimal form of a number is made of decimal digits, has no leading zero but that of zero
/// itself, and stands for the number.
pub proof fn law_decimal_form(n: nat)
    ensures
        number(decimal(n)) == n,
        decimal(n).len() > 0,
        forall|i: int| 0 <= i < decimal(n).len() ==> '0' <= #[trigger] decimal(n)[i] <= '9',
        n > 0 ==> decimal(n)[0] != '0',
        n == 0 ==> decimal(n).len() == 1,
    decreases n,
{
    if n < 10 {
        assert(decimal(n).drop_last() =~= Seq::<char>::empty());
        assert(number(decimal(n).drop_last()) == 0);
    } else {
        law_decimal_form(n / 10);
        assert(decimal(n).drop_last() =~= decimal(n / 10));
        assert forall|i: int| 0 <= i < decimal(n).len() implies '0' <= #[trigger] decimal(n)[i]
            <= '9' by {
            if i < decimal(n / 10).len() {
                assert(decimal(n)[i] == decimal(n / 10)[i]);
            }
        }
        assert(decimal(n)[0] == decimal(n / 10)[0]);
    }
}

/// The number that a lower-case hexadecimal digit stands for.
pub open spec fn nibble(c: char) -> int {
    if '0' <= c <= '9' {
        c as int - 48
    } else {
        c as int - 87
    }
}

/// The hexadecimal form of bytes has two digits for each of them, in lower case, which stand for
/// its high and its low half.
pub proof fn law_hexadecimal_form(bytes: Seq<u8>, i: int)
    requires
        0 <= i < bytes.len(),
    ensures
        hex(bytes).len() == 2 * bytes.len(),
        bytes[i] == 16 * nibble(hex(bytes)[2 * i]) + nibble(hex(bytes)[2 * i + 1]),
        '0' <= hex(bytes)[2 * i] <= '9' || 'a' <= hex(bytes)[2 * i] <= 'f',
        '0' <= hex(bytes)[2 * i + 1] <= '9' || 'a' <= hex(bytes)[2 * i + 1] <= 'f',
{
    assert((2 * i) / 2 == i && (2 * i) % 2 == 0);
    assert((2 * i + 1) / 2 == i && (2 * i + 1) % 2 == 1);
}

} // verus!
