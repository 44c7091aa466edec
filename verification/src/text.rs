//! Character and string helpers: exact and ASCII-case-insensitive string
//! comparison, whitespace trimming, and whitespace tokenization.
//!
//! Whitespace means the Unicode white-space characters — the set that
//! `char::is_whitespace`, `str::trim` and `str::split_whitespace` go by —
//! written out in [`is_space_char`].

use vstd::prelude::*;
use vstd::string::StrSliceExecFns;

verus! {

/// The whitespace characters recognized when trimming and tokenizing: the
/// characters with the Unicode `White_Space` property, the same set that
/// `char::is_whitespace` accepts.
pub open spec fn is_space_char(c: char) -> bool {
    ('\u{0009}' <= c && c <= '\u{000D}') || c == ' ' || c == '\u{0085}' || c == '\u{00A0}' || c
        == '\u{1680}' || ('\u{2000}' <= c && c <= '\u{200A}') || c == '\u{2028}' || c == '\u{2029}'
        || c == '\u{202F}' || c == '\u{205F}' || c == '\u{3000}'
}

/// Code point of `c`, with an ASCII upper-case letter folded to lower case.
pub open spec fn lower_code(c: char) -> int {
    if 'A' <= c && c <= 'Z' {
        c as int + 32
    } else {
        c as int
    }
}

/// The code points of `s`, each ASCII upper-case letter folded to lower case.
pub open spec fn lower_codes(s: Seq<char>) -> Seq<int> {
    s.map_values(|c: char| lower_code(c))
}

/// Whether `c` is one of the recognized whitespace characters.
pub fn is_space(c: char) -> (r: bool)
    ensures
        r == is_space_char(c),
{
    ('\u{0009}' <= c && c <= '\u{000D}') || c == ' ' || c == '\u{0085}' || c == '\u{00A0}' || c
        == '\u{1680}' || ('\u{2000}' <= c && c <= '\u{200A}') || c == '\u{2028}' || c == '\u{2029}'
        || c == '\u{202F}' || c == '\u{205F}' || c == '\u{3000}'
}

/// Exact, case-sensitive string equality, character by character.
pub fn str_eq(a: &str, b: &str) -> (r: bool)
    ensures
        r == (a@ == b@),
{
    let a_len = a.unicode_len();
    let b_len = b.unicode_len();
    if a_len != b_len {
        return false;
    }
    let mut i: usize = 0;
    while i < a_len
        invariant
            a_len == a@.len(),
            a_len == b@.len(),
            i <= a_len,
            forall|j: int| 0 <= j < i ==> a@[j] == b@[j],
        decreases a_len - i,
    {
        if a.get_char(i) != b.get_char(i) {
            return false;
        }
        i = i + 1;
    }
    proof {
        assert(a@ =~= b@);
    }
    true
}

/// Code point of `c` with an ASCII upper-case letter folded to lower case.
fn fold_case(c: char) -> (r: u32)
    ensures
        r == lower_code(c),
{
    let x = c as u32;
    if 65 <= x && x <= 90 {
        x + 32
    } else {
        x
    }
}

/// ASCII-case-insensitive string equality: the strings agree character by
/// character once every ASCII upper-case letter is folded to lower case.
pub fn eq_ignore_ascii_case(a: &str, b: &str) -> (r: bool)
    ensures
        r == (lower_codes(a@) == lower_codes(b@)),
{
    let a_len = a.unicode_len();
    let b_len = b.unicode_len();
    if a_len != b_len {
        proof {
            assert(lower_codes(a@).len() != lower_codes(b@).len());
        }
        return false;
    }
    let mut i: usize = 0;
    while i < a_len
        invariant
            a_len == a@.len(),
            a_len == b@.len(),
            i <= a_len,
            forall|j: int| 0 <= j < i ==> lower_code(a@[j]) == lower_code(b@[j]),
        decreases a_len - i,
    {
        if fold_case(a.get_char(i)) != fold_case(b.get_char(i)) {
            proof {
                assert(lower_codes(a@)[i as int] != lower_codes(b@)[i as int]);
            }
            return false;
        }
        i = i + 1;
    }
    proof {
        assert forall|j: int| 0 <= j < a@.len() implies lower_codes(a@)[j] == lower_codes(b@)[j] by {
            assert(lower_code(a@[j]) == lower_code(b@[j]));
        }
        assert(lower_codes(a@) =~= lower_codes(b@));
    }
    true
}

/// `s` without its leading and trailing whitespace.
pub open spec fn trim_spec(s: Seq<char>) -> Seq<char>
    decreases s.len(),
{
    if s.len() == 0 {
        s
    } else if is_space_char(s[0]) {
        trim_spec(s.drop_first())
    } else if is_space_char(s[s.len() - 1]) {
        trim_spec(s.drop_last())
    } else {
        s
    }
}

/// `trim_spec` is exactly the subrange between the first and last
/// non-whitespace characters.
proof fn lemma_trim_range(s: Seq<char>, lo: int, hi: int)
    requires
        0 <= lo <= hi <= s.len(),
        forall|j: int| 0 <= j < lo ==> is_space_char(s[j]),
        forall|j: int| hi <= j < s.len() ==> is_space_char(s[j]),
        lo < hi ==> !is_space_char(s[lo]) && !is_space_char(s[hi - 1]),
    ensures
        trim_spec(s) == s.subrange(lo, hi),
    decreases s.len(),
{
    if s.len() == 0 {
        assert(trim_spec(s) =~= s.subrange(lo, hi));
    } else if is_space_char(s[0]) {
        // the first character is whitespace, so lo > 0 unless the range is empty
        if lo == hi {
            lemma_trim_range(s.drop_first(), 0, 0);
            assert(trim_spec(s) =~= s.subrange(lo, hi));
        } else {
            assert(lo >= 1);
            lemma_trim_range(s.drop_first(), lo - 1, hi - 1);
            assert(s.drop_first().subrange(lo - 1, hi - 1) =~= s.subrange(lo, hi));
        }
    } else if is_space_char(s[s.len() - 1]) {
        if lo == hi {
            lemma_trim_range(s.drop_last(), 0, 0);
            assert(trim_spec(s) =~= s.subrange(lo, hi));
        } else {
            assert(hi <= s.len() - 1);
            lemma_trim_range(s.drop_last(), lo, hi);
            assert(s.drop_last().subrange(lo, hi) =~= s.subrange(lo, hi));
        }
    } else {
        assert(lo == 0);
        assert(hi == s.len());
        assert(trim_spec(s) =~= s.subrange(lo, hi));
    }
}

/// `s` without its leading and trailing whitespace.
pub fn trim(s: &str) -> (r: &str)
    ensures
        r@ == trim_spec(s@),
{
    let len = s.unicode_len();
    let mut lo: usize = 0;
    while lo < len && is_space(s.get_char(lo))
        invariant
            len == s@.len(),
            lo <= len,
            forall|j: int| 0 <= j < lo ==> is_space_char(s@[j]),
        decreases len - lo,
    {
        lo = lo + 1;
    }
    let mut hi: usize = len;
    while hi > lo && is_space(s.get_char(hi - 1))
        invariant
            len == s@.len(),
            lo <= hi <= len,
            forall|j: int| 0 <= j < lo ==> is_space_char(s@[j]),
            forall|j: int| hi <= j < len ==> is_space_char(s@[j]),
            lo < len ==> !is_space_char(s@[lo as int]),
        decreases hi,
    {
        hi = hi - 1;
    }
    proof {
        lemma_trim_range(s@, lo as int, hi as int);
    }
    s.substring_char(lo, hi)
}

/// The length of the run of non-whitespace characters at the front of `s`.
pub open spec fn run_len(s: Seq<char>) -> nat
    decreases s.len(),
{
    if s.len() == 0 || is_space_char(s[0]) {
        0
    } else {
        1 + run_len(s.drop_first())
    }
}

proof fn lemma_run_len_bound(s: Seq<char>)
    ensures
        run_len(s) <= s.len(),
    decreases s.len(),
{
    if s.len() != 0 && !is_space_char(s[0]) {
        lemma_run_len_bound(s.drop_first());
    }
}

/// `run_len` equals the position of the first whitespace character.
proof fn lemma_run_len_at(s: Seq<char>, k: int)
    requires
        0 <= k <= s.len(),
        forall|j: int| 0 <= j < k ==> !is_space_char(s[j]),
        k < s.len() ==> is_space_char(s[k]),
    ensures
        run_len(s) == k,
    decreases s.len(),
{
    if s.len() == 0 || is_space_char(s[0]) {
        assert(k == 0);
    } else {
        assert(k >= 1);
        lemma_run_len_at(s.drop_first(), k - 1);
    }
}

/// The whitespace-separated tokens of `s`, in order: the maximal runs of
/// non-whitespace characters.
pub open spec fn tokens_spec(s: Seq<char>) -> Seq<Seq<char>>
    decreases s.len(),
    via tokens_spec_decreases
{
    if s.len() == 0 {
        Seq::empty()
    } else if is_space_char(s[0]) {
        tokens_spec(s.drop_first())
    } else {
        let k = run_len(s) as int;
        seq![s.subrange(0, k)] + tokens_spec(s.subrange(k, s.len() as int))
    }
}

#[via_fn]
proof fn tokens_spec_decreases(s: Seq<char>) {
    lemma_run_len_bound(s);
}

proof fn lemma_run_chars(s: Seq<char>)
    ensures
        forall|j: int| 0 <= j < run_len(s) && j < s.len() ==> !is_space_char(s[j]),
    decreases s.len(),
{
    if s.len() != 0 && !is_space_char(s[0]) {
        lemma_run_chars(s.drop_first());
        assert forall|j: int| 0 <= j < run_len(s) && j < s.len() implies !is_space_char(
            s[j],
        ) by {
            if j > 0 {
                assert(s.drop_first()[j - 1] == s[j]);
            }
        }
    }
}

/// Tokenization is well formed: no token is empty, and no token contains
/// whitespace.
pub proof fn lemma_tokens_well_formed(s: Seq<char>)
    ensures
        forall|i: int| 0 <= i < tokens_spec(s).len() ==> (#[trigger] tokens_spec(s)[i]).len() > 0,
        forall|i: int, j: int|
            0 <= i < tokens_spec(s).len() && 0 <= j < tokens_spec(s)[i].len()
                ==> !is_space_char(#[trigger] tokens_spec(s)[i][j]),
    decreases s.len(),
{
    if s.len() == 0 {
    } else if is_space_char(s[0]) {
        lemma_tokens_well_formed(s.drop_first());
        assert(tokens_spec(s) == tokens_spec(s.drop_first()));
        assert forall|i: int| 0 <= i < tokens_spec(s).len() implies (#[trigger] tokens_spec(
            s,
        )[i]).len() > 0 by {
            assert((#[trigger] tokens_spec(s.drop_first())[i]).len() > 0);
        }
        assert forall|i: int, j: int|
            0 <= i < tokens_spec(s).len() && 0 <= j < tokens_spec(s)[i].len()
                implies !is_space_char(#[trigger] tokens_spec(s)[i][j]) by {
            assert(!is_space_char(#[trigger] tokens_spec(s.drop_first())[i][j]));
        }
    } else {
        lemma_run_len_bound(s);
        lemma_run_chars(s);
        let k = run_len(s) as int;
        let first = s.subrange(0, k);
        let rest = s.subrange(k, s.len() as int);
        lemma_tokens_well_formed(rest);
        assert(k >= 1);
        assert(tokens_spec(s) == seq![first] + tokens_spec(rest));
        assert forall|i: int| 0 <= i < tokens_spec(s).len() implies (#[trigger] tokens_spec(
            s,
        )[i]).len() > 0 by {
            if i == 0 {
                assert(tokens_spec(s)[0] == first);
            } else {
                assert(tokens_spec(s)[i] == tokens_spec(rest)[i - 1]);
            }
        }
        assert forall|i: int, j: int|
            0 <= i < tokens_spec(s).len() && 0 <= j < tokens_spec(s)[i].len()
                implies !is_space_char(#[trigger] tokens_spec(s)[i][j]) by {
            if i == 0 {
                assert(tokens_spec(s)[0] == first);
                assert(first[j] == s[j]);
                assert(!is_space_char(s[j]));
            } else {
                assert(tokens_spec(s)[i] == tokens_spec(rest)[i - 1]);
                assert(!is_space_char(tokens_spec(rest)[i - 1][j]));
            }
        }
    }
}

/// Split `s` into its whitespace-separated tokens.
pub fn tokenize(s: &str) -> (r: Vec<String>)
    ensures
        r.deep_view() == tokens_spec(s@),
    decreases s@.len(),
{
    let len = s.unicode_len();
    if len == 0 {
        let r: Vec<String> = Vec::new();
        proof {
            assert(r.deep_view() =~= tokens_spec(s@));
        }
        return r;
    }
    if is_space(s.get_char(0)) {
        let rest = s.substring_char(1, len);
        proof {
            assert(rest@ == s@.drop_first());
        }
        return tokenize(rest);
    }
    let mut k: usize = 1;
    while k < len && !is_space(s.get_char(k))
        invariant
            len == s@.len(),
            1 <= k <= len,
            forall|j: int| 0 <= j < k ==> !is_space_char(s@[j]),
        decreases len - k,
    {
        k = k + 1;
    }
    proof {
        lemma_run_len_at(s@, k as int);
    }
    let token = s.substring_char(0, k).to_owned();
    let rest = s.substring_char(k, len);
    let mut r = tokenize(rest);
    r.insert(0, token);
    proof {
        assert(r.deep_view() =~= tokens_spec(s@));
    }
    r
}

} // verus!
