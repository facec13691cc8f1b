//! Small text helpers: character-level string comparison and search, and
//! decimal formatting of integers.

use vstd::prelude::*;
use vstd::string::StrSliceExecFns;
use vstd::string::StringExecFns;

verus! {

/// Character-wise string equality.
pub fn str_eq(a: &str, b: &str) -> (r: bool)
    ensures
        r == (a@ == b@),
{
    let an = a.unicode_len();
    let bn = b.unicode_len();
    if an != bn {
        assert(a@.len() != b@.len());
        return false;
    }
    let mut i: usize = 0;
    while i < an
        invariant
            an == a@.len(),
            bn == b@.len(),
            an == bn,
            i <= an,
            forall|j: int| 0 <= j < i ==> a@[j] == b@[j],
        decreases an - i,
    {
        if a.get_char(i) != b.get_char(i) {
            return false;
        }
        i += 1;
    }
    assert(a@ =~= b@);
    true
}

/// The first index at or after `from` where `c` occurs in `s`, if any.
pub fn find_char(s: &str, c: char, from: usize) -> (r: Option<usize>)
    requires
        from <= s@.len(),
    ensures
        match r {
            Some(i) => from <= i < s@.len() && s@[i as int] == c && forall|j: int|
                from <= j < i ==> s@[j] != c,
            None => forall|j: int| from <= j < s@.len() ==> s@[j] != c,
        },
{
    let n = s.unicode_len();
    let mut i: usize = from;
    while i < n
        invariant
            n == s@.len(),
            from <= i <= n,
            forall|j: int| from <= j < i ==> s@[j] != c,
        decreases n - i,
    {
        if s.get_char(i) == c {
            return Some(i);
        }
        i += 1;
    }
    None
}

/// Whether `needle` occurs as a contiguous run of characters in `hay`.
pub open spec fn contains_seq(hay: Seq<char>, needle: Seq<char>) -> bool {
    exists|i: int|
        0 <= i && i + needle.len() <= hay.len() && #[trigger] hay.subrange(
            i,
            i + needle.len() as int,
        ) == needle
}

/// Substring search, character-wise.
pub fn str_contains(hay: &str, needle: &str) -> (r: bool)
    ensures
        r == contains_seq(hay@, needle@),
{
    let hn = hay.unicode_len();
    let nn = needle.unicode_len();
    if nn > hn {
        assert(!contains_seq(hay@, needle@));
        return false;
    }
    let mut i: usize = 0;
    while i <= hn - nn
        invariant
            hn == hay@.len(),
            nn == needle@.len(),
            nn <= hn,
            i <= hn - nn + 1,
            forall|k: int|
                0 <= k < i ==> #[trigger] hay@.subrange(k, k + needle@.len() as int)
                    != needle@,
        decreases hn - nn - i + 1,
    {
        let mut j: usize = 0;
        let mut mism: usize = 0;
        let mut matched = true;
        while j < nn
            invariant
                hn == hay@.len(),
                nn == needle@.len(),
                i + nn <= hn,
                j <= nn,
                matched ==> (forall|t: int| 0 <= t < j ==> hay@[i + t] == needle@[t]),
                !matched ==> j == nn && mism < nn && hay@[i + mism] != needle@[mism as int],
            decreases nn - j,
        {
            if hay.get_char(i + j) != needle.get_char(j) {
                matched = false;
                mism = j;
                j = nn;
            } else {
                assert(forall|t: int| 0 <= t < j + 1 ==> hay@[i + t] == needle@[t]);
                j += 1;
            }
        }
        if matched {
            assert(hay@.subrange(i as int, i + needle@.len() as int) =~= needle@);
            return true;
        } else {
            assert(hay@.subrange(i as int, i + needle@.len() as int) != needle@) by {
                assert(hay@.subrange(i as int, i + needle@.len() as int)[mism as int] == hay@[i
                    + mism]);
            }
        }
        i += 1;
    }
    assert(forall|k: int|
        0 <= k && k + needle@.len() <= hay@.len() ==> #[trigger] hay@.subrange(
            k,
            k + needle@.len() as int,
        ) != needle@);
    false
}

/// The first index at or after `from` holding `c`, or the length of `s`
/// when there is none.
pub open spec fn first_index_from(s: Seq<char>, c: char, from: int) -> int
    decreases s.len() - from,
{
    if from < s.len() {
        if s[from] == c {
            from
        } else {
            first_index_from(s, c, from + 1)
        }
    } else {
        from
    }
}

proof fn lemma_first_index_found(s: Seq<char>, c: char, from: int, i: int)
    requires
        0 <= from <= i < s.len(),
        s[i] == c,
        forall|j: int| from <= j < i ==> s[j] != c,
    ensures
        first_index_from(s, c, from) == i,
    decreases i - from,
{
    if from < i {
        lemma_first_index_found(s, c, from + 1, i);
    }
}

proof fn lemma_first_index_not_found(s: Seq<char>, c: char, from: int)
    requires
        0 <= from <= s.len(),
        forall|j: int| from <= j < s.len() ==> s[j] != c,
    ensures
        first_index_from(s, c, from) == s.len(),
    decreases s.len() - from,
{
    if from < s.len() {
        lemma_first_index_not_found(s, c, from + 1);
    }
}

/// The first occurrence of `c` in `s`, if any.
pub fn find_first(s: &str, c: char) -> (r: Option<usize>)
    ensures
        match r {
            Some(i) => i < s@.len() && s@[i as int] == c && i == first_index_from(s@, c, 0),
            None => first_index_from(s@, c, 0) == s@.len(),
        },
{
    let r = find_char(s, c, 0);
    proof {
        match r {
            Some(i) => lemma_first_index_found(s@, c, 0, i as int),
            None => lemma_first_index_not_found(s@, c, 0),
        }
    }
    r
}

/// The character standing for one decimal digit.
pub open spec fn digit_char(d: nat) -> char {
    if d == 0 {
        '0'
    } else if d == 1 {
        '1'
    } else if d == 2 {
        '2'
    } else if d == 3 {
        '3'
    } else if d == 4 {
        '4'
    } else if d == 5 {
        '5'
    } else if d == 6 {
        '6'
    } else if d == 7 {
        '7'
    } else if d == 8 {
        '8'
    } else {
        '9'
    }
}

/// The decimal digits of `n`, most significant first, no leading zeros
/// (a lone zero for zero).
pub open spec fn dec_digits(n: nat) -> Seq<char>
    decreases n,
{
    if n < 10 {
        seq![digit_char(n)]
    } else {
        dec_digits(n / 10).push(digit_char(n % 10))
    }
}

fn push_digit(out: &mut String, d: u64)
    requires
        d < 10,
    ensures
        final(out)@ == old(out)@.push(digit_char(d as nat)),
{
    let s = match d {
        0 => "0",
        1 => "1",
        2 => "2",
        3 => "3",
        4 => "4",
        5 => "5",
        6 => "6",
        7 => "7",
        8 => "8",
        _ => "9",
    };
    out.append(s);
    proof {
        reveal_strlit("0");
        reveal_strlit("1");
        reveal_strlit("2");
        reveal_strlit("3");
        reveal_strlit("4");
        reveal_strlit("5");
        reveal_strlit("6");
        reveal_strlit("7");
        reveal_strlit("8");
        reveal_strlit("9");
        assert(final(out)@ =~= old(out)@.push(digit_char(d as nat)));
    }
}

/// Append the decimal rendering of `n` to `out`.
pub fn push_dec(out: &mut String, n: u64)
    ensures
        final(out)@ == old(out)@ + dec_digits(n as nat),
    decreases n,
{
    if n < 10 {
        push_digit(out, n);
        assert(final(out)@ =~= old(out)@ + dec_digits(n as nat));
    } else {
        push_dec(out, n / 10);
        push_digit(out, n % 10);
        assert(final(out)@ =~= old(out)@ + dec_digits(n as nat));
    }
}

} // verus!
