//! Character-level helpers for the strings the library reads and builds.
use vstd::prelude::*;
use vstd::string::*;

verus! {

/// `String::push` of std: appends one character at the end of the string.
pub assume_specification[ String::push ](s: &mut String, c: char)
    ensures
        final(s)@ == old(s)@.push(c),
;

/// `s` without the run of `c` that it starts with.
pub open spec fn trimmed_start(s: Seq<char>, c: char) -> Seq<char>
    decreases s.len(),
{
    if s.len() > 0 && s[0] == c {
        trimmed_start(s.drop_first(), c)
    } else {
        s
    }
}

/// `s` without the run of `c` that it ends with.
pub open spec fn trimmed_end(s: Seq<char>, c: char) -> Seq<char>
    decreases s.len(),
{
    if s.len() > 0 && s.last() == c {
        trimmed_end(s.drop_last(), c)
    } else {
        s
    }
}

/// `part` occurs in `s` as a contiguous run of characters.
pub open spec fn has_part(s: Seq<char>, part: Seq<char>) -> bool {
    exists|at: int| #[trigger] occurs_at(s, part, at)
}

/// `part` occurs in `s` at position `at`.
pub open spec fn occurs_at(s: Seq<char>, part: Seq<char>, at: int) -> bool {
    &&& 0 <= at
    &&& at + part.len() <= s.len()
    &&& s.subrange(at, at + part.len()) == part
}

/// `s` with every `from` replaced by `to`.
pub open spec fn replaced(s: Seq<char>, from: char, to: char) -> Seq<char> {
    s.map_values(|c: char| if c == from { to } else { c })
}

/// The decimal digit of a number below ten.
pub open spec fn digit(d: nat) -> char {
    ('0' as nat + d) as char
}

/// The decimal representation of `n`, without leading zeros.
pub open spec fn decimal(n: nat) -> Seq<char>
    decreases n,
{
    if n < 10 {
        seq![digit(n)]
    } else {
        decimal(n / 10).push(digit(n % 10))
    }
}

/// The characters of a string.
pub fn chars_of(s: &str) -> (chars: Vec<char>)
    ensures
        chars@ == s@,
{
    let mut chars: Vec<char> = Vec::new();
    for c in it: s.chars()
        invariant
            chars@ == it.seq().take(it.index()),
            it.seq() == s@,
    {
        chars.push(c);
    }
    chars
}

/// The string made of the characters from `from` up to `to`.
pub fn string_of(chars: &[char], from: usize, to: usize) -> (s: String)
    requires
        from <= to <= chars@.len(),
    ensures
        s@ == chars@.subrange(from as int, to as int),
{
    let mut s = String::new();
    let mut i: usize = from;
    while i < to
        invariant
            from <= i <= to <= chars@.len(),
            s@ == chars@.subrange(from as int, i as int),
        decreases to - i,
    {
        s.push(chars[i]);
        i = i + 1;
    }
    s
}

/// Trimming the start of `s` is cutting off its first `n` characters, when those are all `c`
/// and the next one is not.
proof fn lemma_trimmed_start(s: Seq<char>, c: char, n: int)
    requires
        0 <= n <= s.len(),
        forall|i: int| 0 <= i < n ==> s[i] == c,
        n < s.len() ==> s[n] != c,
    ensures
        trimmed_start(s, c) == s.subrange(n, s.len() as int),
    decreases n,
{
    if n > 0 {
        lemma_trimmed_start(s.drop_first(), c, n - 1);
        assert(s.drop_first().subrange(n - 1, s.len() - 1) =~= s.subrange(n, s.len() as int));
    } else {
        assert(s.subrange(0, s.len() as int) =~= s);
    }
}

/// Trimming the end of `s` is keeping its first `n` characters, when the others are all `c`
/// and the last one kept is not.
proof fn lemma_trimmed_end(s: Seq<char>, c: char, n: int)
    requires
        0 <= n <= s.len(),
        forall|i: int| n <= i < s.len() ==> s[i] == c,
        n > 0 ==> s[n - 1] != c,
    ensures
        trimmed_end(s, c) == s.subrange(0, n),
    decreases s.len(),
{
    if n < s.len() {
        lemma_trimmed_end(s.drop_last(), c, n);
        assert(s.drop_last().subrange(0, n) =~= s.subrange(0, n));
    } else {
        assert(s.subrange(0, n) =~= s);
    }
}

/// `s` without its leading `c`s.
pub fn trim_start(s: &str, c: char) -> (trimmed: String)
    ensures
        trimmed@ == trimmed_start(s@, c),
{
    let chars = chars_of(s);
    let mut n: usize = 0;
    while n < chars.len() && chars[n] == c
        invariant
            n <= chars.len(),
            forall|i: int| 0 <= i < n ==> chars@[i] == c,
        decreases chars.len() - n,
    {
        n = n + 1;
    }
    proof {
        lemma_trimmed_start(s@, c, n as int);
    }
    string_of(chars.as_slice(), n, chars.len())
}

/// `s` without its trailing `c`s.
pub fn trim_end(s: &str, c: char) -> (trimmed: String)
    ensures
        trimmed@ == trimmed_end(s@, c),
{
    let chars = chars_of(s);
    let mut n: usize = chars.len();
    while n > 0 && chars[n - 1] == c
        invariant
            n <= chars.len(),
            forall|i: int| n <= i < chars.len() ==> chars@[i] == c,
        decreases n,
    {
        n = n - 1;
    }
    proof {
        lemma_trimmed_end(s@, c, n as int);
    }
    string_of(chars.as_slice(), 0, n)
}

/// Whether two strings hold the same characters.
pub fn same(a: &str, b: &str) -> (equal: bool)
    ensures
        equal == (a@ == b@),
{
    a.to_owned() == b.to_owned()
}

/// Whether `part` occurs in `s` at position `at`.
pub fn is_at(s: &[char], part: &[char], at: usize) -> (found: bool)
    requires
        at <= s@.len(),
    ensures
        found == occurs_at(s@, part@, at as int),
{
    let size: usize = s.len();
    if part.len() > size - at {
        return false;
    }
    let mut i: usize = 0;
    while i < part.len()
        invariant
            i <= part@.len(),
            at + part@.len() <= size,
            size == s@.len(),
            s@.subrange(at as int, at + i) == part@.subrange(0, i as int),
        decreases part@.len() - i,
    {
        if s[at + i] != part[i] {
            assert(s@.subrange(at as int, at + part@.len())[i as int] != part@[i as int]);
            return false;
        }
        assert(s@.subrange(at as int, at + i + 1) =~= s@.subrange(at as int, at + i).push(
            s@[at + i],
        ));
        assert(part@.subrange(0, i + 1) =~= part@.subrange(0, i as int).push(part@[i as int]));
        i = i + 1;
    }
    assert(part@.subrange(0, part@.len() as int) =~= part@);
    true
}

/// Whether `part` occurs anywhere in `s`.
pub fn contains(s: &[char], part: &[char]) -> (found: bool)
    ensures
        found == has_part(s@, part@),
{
    let mut at: usize = 0;
    while at < s.len()
        invariant
            at <= s@.len(),
            forall|j: int| 0 <= j < at ==> !#[trigger] occurs_at(s@, part@, j),
        decreases s@.len() - at,
    {
        if is_at(s, part, at) {
            return true;
        }
        at = at + 1;
    }
    let found = is_at(s, part, at);
    assert(!found ==> forall|j: int| !#[trigger] occurs_at(s@, part@, j));
    found
}

/// Whether `s` starts with `part`.
pub fn starts_with(s: &str, part: &str) -> (found: bool)
    ensures
        found == occurs_at(s@, part@, 0),
{
    is_at(chars_of(s).as_slice(), chars_of(part).as_slice(), 0)
}

/// `s` with every `from` replaced by `to`.
pub fn replace(s: &str, from: char, to: char) -> (out: String)
    ensures
        out@ == replaced(s@, from, to),
{
    let chars = chars_of(s);
    let mut out = String::new();
    let mut i: usize = 0;
    while i < chars.len()
        invariant
            i <= chars.len(),
            out@ == replaced(chars@, from, to).take(i as int),
        decreases chars.len() - i,
    {
        if chars[i] == from {
            out.push(to);
        } else {
            out.push(chars[i]);
        }
        assert(replaced(chars@, from, to).take(i + 1) =~= replaced(chars@, from, to).take(
            i as int,
        ).push(replaced(chars@, from, to)[i as int]));
        i = i + 1;
    }
    assert(replaced(chars@, from, to).take(i as int) =~= replaced(chars@, from, to));
    out
}

/// Appends the decimal representation of `n` to `out`.
pub fn push_decimal(out: &mut String, n: u64)
    ensures
        final(out)@ == old(out)@ + decimal(n as nat),
    decreases n,
{
    if n >= 10 {
        push_decimal(out, n / 10);
    }
    let d: u8 = (n % 10) as u8;
    out.push((48u8 + d) as char);
    assert(out@ =~= old(out)@ + decimal(n as nat));
}

/// `a` followed by `b`.
pub fn join2(a: &str, b: &str) -> (out: String)
    ensures
        out@ == a@ + b@,
{
    let mut out = a.to_owned();
    out.append(b);
    out
}

/// `a`, `b` and `c`, one after the other.
pub fn join3(a: &str, b: &str, c: &str) -> (out: String)
    ensures
        out@ == a@ + b@ + c@,
{
    let mut out = a.to_owned();
    out.append(b);
    out.append(c);
    out
}

/// `a` to `d`, one after the other.
pub fn join4(a: &str, b: &str, c: &str, d: &str) -> (out: String)
    ensures
        out@ == a@ + b@ + c@ + d@,
{
    let mut out = a.to_owned();
    out.append(b);
    out.append(c);
    out.append(d);
    out
}

} // verus!
