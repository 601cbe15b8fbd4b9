//! Substring containment and first-occurrence search over lines of text.

use vstd::prelude::*;

verus! {

/// The pattern `pat` occurs in `line` starting at position `at`.
pub open spec fn occurs_at(line: Seq<char>, pat: Seq<char>, at: int) -> bool {
    &&& 0 <= at
    &&& at + pat.len() <= line.len()
    &&& line.subrange(at, at + pat.len()) == pat
}

/// The pattern `pat` occurs somewhere in `line`.
pub open spec fn contains_sub(line: Seq<char>, pat: Seq<char>) -> bool {
    exists|at: int| occurs_at(line, pat, at)
}

/// `at` is the position of the first occurrence of the character `c` in `line`.
pub open spec fn is_first_index_of(line: Seq<char>, c: char, at: int) -> bool {
    &&& 0 <= at < line.len()
    &&& line[at] == c
    &&& forall|j: int| 0 <= j < at ==> line[j] != c
}

/// The position of the first occurrence of the character `c` in `line`;
/// meaningful only when `line.contains(c)`.
pub open spec fn first_index_of(line: Seq<char>, c: char) -> int {
    choose|at: int| is_first_index_of(line, c, at)
}

/// A character that occurs in a line has exactly one first occurrence,
/// and `first_index_of` denotes it.
pub proof fn lemma_first_index_of(line: Seq<char>, c: char)
    requires
        line.contains(c),
    ensures
        is_first_index_of(line, c, first_index_of(line, c)),
        forall|at: int| is_first_index_of(line, c, at) ==> at == first_index_of(line, c),
    decreases line.len(),
{
    let w = choose|i: int| 0 <= i < line.len() && line[i] == c;
    if line[0] == c {
        assert(is_first_index_of(line, c, 0));
    } else {
        let rest = line.subrange(1, line.len() as int);
        assert(rest[w - 1] == c);
        assert(rest.contains(c));
        lemma_first_index_of(rest, c);
        let r = first_index_of(rest, c);
        assert(line[r + 1] == rest[r]);
        assert forall|j: int| 0 <= j < r + 1 implies line[j] != c by {
            if j > 0 {
                assert(line[j] == rest[j - 1]);
            }
        }
        assert(is_first_index_of(line, c, r + 1));
    }
    let f = choose|at: int| is_first_index_of(line, c, at);
    assert forall|at: int| is_first_index_of(line, c, at) implies at == f by {
        if at < f {
            assert(line[at] == c);
            assert(false);
        }
        if f < at {
            assert(line[f] == c);
            assert(false);
        }
    }
}

/// Whether `pat` occurs in `line` starting exactly at position `at`.
fn matches_at(line: &str, pat: &str, at: usize) -> (found: bool)
    requires
        at + pat@.len() <= line@.len(),
    ensures
        found == occurs_at(line@, pat@, at as int),
{
    let n = line.unicode_len();
    let m = pat.unicode_len();
    let mut j: usize = 0;
    while j < m
        invariant
            n == line@.len(),
            m == pat@.len(),
            at + m <= n,
            0 <= j <= m,
            forall|t: int| 0 <= t < j ==> line@[at + t] == pat@[t],
        decreases m - j,
    {
        if line.get_char(at + j) != pat.get_char(j) {
            proof {
                let w = line@.subrange(at as int, at + m);
                assert(w[j as int] == line@[at + j]);
            }
            return false;
        }
        j += 1;
    }
    proof {
        assert(line@.subrange(at as int, at + m) =~= pat@);
    }
    true
}

/// Whether the string `symbol` is present anywhere within `input_line`.
pub fn check_symbol_string(input_line: &str, symbol: &str) -> (found: bool)
    ensures
        found == contains_sub(input_line@, symbol@),
{
    let n = input_line.unicode_len();
    let m = symbol.unicode_len();
    if m > n {
        return false;
    }
    if m == 0 {
        proof {
            assert(input_line@.subrange(0, 0) =~= symbol@);
            assert(occurs_at(input_line@, symbol@, 0));
        }
        return true;
    }
    let mut at: usize = 0;
    while at <= n - m
        invariant
            n == input_line@.len(),
            m == symbol@.len(),
            1 <= m <= n,
            0 <= at <= n - m + 1,
            forall|p: int| 0 <= p < at ==> !occurs_at(input_line@, symbol@, p),
        decreases n - at,
    {
        if matches_at(input_line, symbol, at) {
            return true;
        }
        at += 1;
    }
    false
}

/// Whether both the left and the right marker are present somewhere in
/// `input_line` (in any order: presence of each is all that is checked).
pub fn check_matching_pair(input_line: &str, left: &str, right: &str) -> (found: bool)
    ensures
        found == (contains_sub(input_line@, left@) && contains_sub(input_line@, right@)),
{
    check_symbol_string(input_line, left) && check_symbol_string(input_line, right)
}

/// Searches `input_line` for the character `symbol`.  Returns whether it
/// occurs at all and, if it does, the position of its first occurrence
/// (zero when it does not occur).
pub fn get_index_for_symbol(input_line: &str, symbol: char) -> (r: (bool, usize))
    ensures
        r.0 == input_line@.contains(symbol),
        r.0 ==> is_first_index_of(input_line@, symbol, r.1 as int),
        !r.0 ==> r.1 == 0,
{
    let n = input_line.unicode_len();
    let mut at: usize = 0;
    while at < n
        invariant
            n == input_line@.len(),
            0 <= at <= n,
            forall|j: int| 0 <= j < at ==> input_line@[j] != symbol,
        decreases n - at,
    {
        if input_line.get_char(at) == symbol {
            return (true, at);
        }
        at += 1;
    }
    proof {
        assert(forall|j: int| 0 <= j < n ==> input_line@[j] != symbol);
    }
    (false, 0)
}

} // verus!
