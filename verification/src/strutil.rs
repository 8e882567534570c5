//! Verified string helpers shared by the generators: character classes,
//! equality of string slices, decimal rendering of integers, and splitting
//! an options string on the pipe separator.

use vstd::prelude::*;

verus! {

/// Whether `c` is an ASCII alphanumeric character, `[A-Za-z0-9]`.
pub open spec fn is_alnum_char(c: char) -> bool {
    ('0' <= c && c <= '9') || ('A' <= c && c <= 'Z') || ('a' <= c && c <= 'z')
}

/// Equality of two string slices, decided character by character.
pub fn str_eq(a: &str, b: &str) -> (r: bool)
    ensures
        r == (a@ == b@),
{
    let alen = a.unicode_len();
    let blen = b.unicode_len();
    if alen != blen {
        return false;
    }
    let mut i: usize = 0;
    while i < alen
        invariant
            i <= alen,
            alen == a@.len(),
            alen == b@.len(),
            forall|j: int| 0 <= j < i ==> a@[j] == b@[j],
        decreases alen - i,
    {
        if a.get_char(i) != b.get_char(i) {
            return false;
        }
        i = i + 1;
    }
    proof {
        assert(a@ =~= b@);
    }
    true
}

/// The character for one decimal digit.
pub open spec fn digit_char(d: int) -> char {
    if d == 0 { '0' }
    else if d == 1 { '1' }
    else if d == 2 { '2' }
    else if d == 3 { '3' }
    else if d == 4 { '4' }
    else if d == 5 { '5' }
    else if d == 6 { '6' }
    else if d == 7 { '7' }
    else if d == 8 { '8' }
    else { '9' }
}

/// The decimal representation of `n`, most significant digit first, with no
/// leading zeros (a single `'0'` for zero itself).
pub open spec fn dec_rep(n: nat) -> Seq<char>
    decreases n,
{
    if n < 10 {
        seq![digit_char(n as int)]
    } else {
        dec_rep(n / 10).push(digit_char((n % 10) as int))
    }
}

/// A decimal representation is never empty and holds digit characters
/// only: what `randomint` returns is always an integer string.
pub proof fn lemma_dec_rep_digits(n: nat)
    ensures
        dec_rep(n).len() >= 1,
        forall|i: int| 0 <= i < dec_rep(n).len() ==> '0' <= #[trigger] dec_rep(n)[i] <= '9',
    decreases n,
{
    if n >= 10 {
        lemma_dec_rep_digits(n / 10);
    }
}

/// Renders `n` in decimal.
pub fn u64_to_dec(n: u64) -> (r: String)
    ensures
        r@ == dec_rep(n as nat),
    decreases n,
{
    let digits = "0123456789";
    proof {
        reveal_strlit("0123456789");
    }
    let d = (n % 10) as usize;
    let ds = digits.substring_char(d, d + 1);
    proof {
        assert(ds@ =~= seq![digit_char((n % 10) as int)]);
    }
    if n < 10 {
        String::from_str(ds)
    } else {
        let mut prefix = u64_to_dec(n / 10);
        prefix.append(ds);
        proof {
            assert(prefix@ =~= dec_rep((n / 10) as nat).push(digit_char((n % 10) as int)));
        }
        prefix
    }
}

/// The index of the first `'|'` in `s`, or `s.len()` when there is none.
pub open spec fn first_sep(s: Seq<char>) -> int
    decreases s.len(),
{
    if s.len() == 0 {
        0
    } else if s[0] == '|' {
        0
    } else {
        1 + first_sep(s.skip(1))
    }
}

proof fn lemma_first_sep_bounds(s: Seq<char>)
    ensures
        0 <= first_sep(s) <= s.len(),
        forall|j: int| 0 <= j < first_sep(s) ==> s[j] != '|',
        first_sep(s) < s.len() ==> s[first_sep(s)] == '|',
    decreases s.len(),
{
    if s.len() > 0 && s[0] != '|' {
        lemma_first_sep_bounds(s.skip(1));
        assert forall|j: int| 0 <= j < first_sep(s) implies s[j] != '|' by {
            if j > 0 {
                assert(s.skip(1)[j - 1] != '|');
            }
        }
    }
}

/// A position `k` before which no separator stands, and which holds a
/// separator or the end, is the first separator position.
proof fn lemma_first_sep_is(s: Seq<char>, k: int)
    requires
        0 <= k <= s.len(),
        forall|j: int| 0 <= j < k ==> s[j] != '|',
        k < s.len() ==> s[k] == '|',
    ensures
        first_sep(s) == k,
    decreases s.len(),
{
    if k == 0 {
    } else {
        assert(s[0] != '|');
        assert forall|j: int| 0 <= j < k - 1 implies s.skip(1)[j] != '|' by {
            assert(s.skip(1)[j] == s[j + 1]);
        }
        lemma_first_sep_is(s.skip(1), k - 1);
    }
}

/// The segments of `s` between its `'|'` separators, in order. Every string
/// splits into at least one segment; none of the segments contains `'|'`.
pub open spec fn split_on_pipe(s: Seq<char>) -> Seq<Seq<char>>
    decreases s.len(),
    via split_on_pipe_decreases
{
    if first_sep(s) >= s.len() {
        seq![s]
    } else {
        seq![s.take(first_sep(s))] + split_on_pipe(s.skip(first_sep(s) + 1))
    }
}

#[via_fn]
proof fn split_on_pipe_decreases(s: Seq<char>) {
    lemma_first_sep_bounds(s);
}

/// Splitting never yields an empty list of segments.
pub proof fn lemma_split_nonempty(s: Seq<char>)
    ensures
        split_on_pipe(s).len() >= 1,
{
    lemma_first_sep_bounds(s);
}

/// Splits `s` on `'|'`.
pub fn split_pipe(s: &str) -> (parts: Vec<String>)
    ensures
        parts@.map_values(|p: String| p@) == split_on_pipe(s@),
        parts@.len() >= 1,
{
    let len = s.unicode_len();
    let mut parts: Vec<String> = Vec::new();
    let mut start: usize = 0;
    let mut i: usize = 0;
    proof {
        assert(s@.skip(0) =~= s@);
        assert(parts@.map_values(|p: String| p@) + split_on_pipe(s@) =~= split_on_pipe(s@));
    }
    while i < len
        invariant
            start <= i <= len,
            len == s@.len(),
            forall|j: int| start <= j < i ==> s@[j] != '|',
            split_on_pipe(s@) =~= parts@.map_values(|p: String| p@) + split_on_pipe(
                s@.skip(start as int),
            ),
        decreases len - i,
    {
        if s.get_char(i) == '|' {
            let part = s.substring_char(start, i);
            let ghost old_parts = parts@;
            parts.push(part.to_owned());
            proof {
                let rest = s@.skip(start as int);
                assert forall|j: int| 0 <= j < i - start implies rest[j] != '|' by {
                    assert(rest[j] == s@[start + j]);
                }
                assert(rest[i - start] == s@[i as int]);
                lemma_first_sep_is(rest, i - start);
                assert(rest.take(i - start) =~= s@.subrange(start as int, i as int));
                assert(rest.skip(i - start + 1) =~= s@.skip(i + 1));
                assert(parts@.map_values(|p: String| p@) =~= old_parts.map_values(
                    |p: String| p@,
                ).push(part@));
                assert(parts@.map_values(|p: String| p@) + split_on_pipe(s@.skip(i + 1)) =~= (
                old_parts.map_values(|p: String| p@) + split_on_pipe(rest)));
            }
            start = i + 1;
        }
        i = i + 1;
    }
    let last = s.substring_char(start, len);
    let ghost old_parts = parts@;
    parts.push(last.to_owned());
    proof {
        let rest = s@.skip(start as int);
        assert forall|j: int| 0 <= j < rest.len() implies rest[j] != '|' by {
            assert(rest[j] == s@[start + j]);
        }
        lemma_first_sep_is(rest, rest.len() as int);
        assert(rest =~= s@.subrange(start as int, len as int));
        assert(parts@.map_values(|p: String| p@) =~= old_parts.map_values(|p: String| p@).push(
            last@,
        ));
        assert(parts@.map_values(|p: String| p@) =~= old_parts.map_values(|p: String| p@)
            + split_on_pipe(rest));
    }
    parts
}

} // verus!
