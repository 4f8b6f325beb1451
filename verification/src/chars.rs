//! Plain text helpers: ASCII case folding, prefix tests, trimming,
//! line splitting and substring search, each with an exact statement of
//! what it computes.

use vstd::prelude::*;

verus! {

/// `c` with an ASCII capital letter folded to its small form.
pub open spec fn lower_char(c: char) -> char {
    if 65 <= c as int <= 90 {
        (c as int + 32) as char
    } else {
        c
    }
}

/// `s` with every ASCII capital letter folded to its small form.
pub open spec fn seq_lower(s: Seq<char>) -> Seq<char> {
    Seq::new(s.len(), |i: int| lower_char(s[i]))
}

/// Executable ASCII case folding of one character.
pub fn to_lower(c: char) -> (r: char)
    ensures
        r == lower_char(c),
{
    let v: u32 = c as u32;
    if 65 <= v && v <= 90 {
        ((v + 32) as u8) as char
    } else {
        c
    }
}

/// `p` stands at the front of `s`.
pub open spec fn is_prefix(p: Seq<char>, s: Seq<char>) -> bool {
    p.len() <= s.len() && s.subrange(0, p.len() as int) == p
}

/// Whether `p` stands at the front of `s`.
pub fn str_has_prefix(s: &str, p: &str) -> (r: bool)
    ensures
        r == is_prefix(p@, s@),
{
    let sl: usize = s.unicode_len();
    let pl: usize = p.unicode_len();
    if pl > sl {
        return false;
    }
    let mut i: usize = 0;
    while i < pl
        invariant
            i <= pl,
            pl <= sl,
            pl == p@.len(),
            sl == s@.len(),
            forall|j: int| 0 <= j < i ==> s@[j] == p@[j],
        decreases pl - i,
    {
        if s.get_char(i) != p.get_char(i) {
            proof {
                assert(s@.subrange(0, p@.len() as int)[i as int] == s@[i as int]);
            }
            return false;
        }
        i = i + 1;
    }
    proof {
        assert(s@.subrange(0, p@.len() as int) =~= p@);
    }
    true
}

/// Whether `p` stands at the front of `s` when both are case-folded.
pub fn str_has_prefix_fold(s: &str, p: &str) -> (r: bool)
    ensures
        r == is_prefix(seq_lower(p@), seq_lower(s@)),
{
    let sl: usize = s.unicode_len();
    let pl: usize = p.unicode_len();
    if pl > sl {
        return false;
    }
    let mut i: usize = 0;
    while i < pl
        invariant
            i <= pl,
            pl <= sl,
            pl == p@.len(),
            sl == s@.len(),
            forall|j: int| 0 <= j < i ==> lower_char(s@[j]) == lower_char(p@[j]),
        decreases pl - i,
    {
        if to_lower(s.get_char(i)) != to_lower(p.get_char(i)) {
            proof {
                assert(seq_lower(s@).subrange(0, p@.len() as int)[i as int] == lower_char(
                    s@[i as int],
                ));
                assert(seq_lower(p@)[i as int] == lower_char(p@[i as int]));
            }
            return false;
        }
        i = i + 1;
    }
    proof {
        assert(seq_lower(s@).subrange(0, p@.len() as int) =~= seq_lower(p@));
    }
    true
}

/// Whether `a` and `b` are the same text apart from ASCII letter case.
pub fn eq_fold(a: &str, b: &str) -> (r: bool)
    ensures
        r == (seq_lower(a@) == seq_lower(b@)),
{
    let al: usize = a.unicode_len();
    let bl: usize = b.unicode_len();
    if al != bl {
        proof {
            assert(seq_lower(a@).len() != seq_lower(b@).len());
        }
        return false;
    }
    let mut i: usize = 0;
    while i < al
        invariant
            i <= al,
            al == a@.len(),
            al == b@.len(),
            forall|j: int| 0 <= j < i ==> lower_char(a@[j]) == lower_char(b@[j]),
        decreases al - i,
    {
        if to_lower(a.get_char(i)) != to_lower(b.get_char(i)) {
            proof {
                assert(seq_lower(a@)[i as int] == lower_char(a@[i as int]));
                assert(seq_lower(b@)[i as int] == lower_char(b@[i as int]));
            }
            return false;
        }
        i = i + 1;
    }
    proof {
        assert(seq_lower(a@) =~= seq_lower(b@));
    }
    true
}

/// Whether `a` and `b` are the same text.
pub fn str_eq(a: &str, b: &str) -> (r: bool)
    ensures
        r == (a@ == b@),
{
    let al: usize = a.unicode_len();
    let bl: usize = b.unicode_len();
    if al != bl {
        return false;
    }
    let mut i: usize = 0;
    while i < al
        invariant
            i <= al,
            al == a@.len(),
            al == b@.len(),
            forall|j: int| 0 <= j < i ==> a@[j] == b@[j],
        decreases al - i,
    {
        if a.get_char(i) != b.get_char(i) {
            return false;
        }
        i = i + 1;
    }
    proof {
        assert(a@ =~= b@);
    }
    true
}

/// ASCII whitespace, as trimming understands it.
pub open spec fn is_space(c: char) -> bool {
    c == ' ' || c == '\t' || c == '\r' || c == '\n'
}

/// Whether `c` is ASCII whitespace.
pub fn is_space_char(c: char) -> (r: bool)
    ensures
        r == is_space(c),
{
    c == ' ' || c == '\t' || c == '\r' || c == '\n'
}

/// `s` without its leading whitespace.
pub open spec fn trim_start(s: Seq<char>) -> Seq<char>
    decreases s.len(),
{
    if s.len() > 0 && is_space(s[0]) {
        trim_start(s.drop_first())
    } else {
        s
    }
}

/// `s` without its trailing whitespace.
pub open spec fn trim_end(s: Seq<char>) -> Seq<char>
    decreases s.len(),
{
    if s.len() > 0 && is_space(s.last()) {
        trim_end(s.drop_last())
    } else {
        s
    }
}

/// `s` without leading and trailing whitespace.
pub open spec fn trim_spec(s: Seq<char>) -> Seq<char> {
    trim_end(trim_start(s))
}

proof fn lemma_trim_start_at(s: Seq<char>, a: int)
    requires
        0 <= a <= s.len(),
        forall|j: int| 0 <= j < a ==> is_space(s[j]),
        a < s.len() ==> !is_space(s[a]),
    ensures
        trim_start(s) == s.subrange(a, s.len() as int),
    decreases a,
{
    if a == 0 {
        assert(s.subrange(0, s.len() as int) =~= s);
    } else {
        lemma_trim_start_at(s.drop_first(), a - 1);
        assert(s.drop_first().subrange(a - 1, s.drop_first().len() as int) =~= s.subrange(
            a,
            s.len() as int,
        ));
    }
}

proof fn lemma_trim_end_at(s: Seq<char>, b: int)
    requires
        0 <= b <= s.len(),
        forall|j: int| b <= j < s.len() ==> is_space(s[j]),
        b > 0 ==> !is_space(s[b - 1]),
    ensures
        trim_end(s) == s.subrange(0, b),
    decreases s.len(),
{
    if b == s.len() {
        assert(s.subrange(0, s.len() as int) =~= s);
    } else {
        lemma_trim_end_at(s.drop_last(), b);
        assert(s.drop_last().subrange(0, b) =~= s.subrange(0, b));
    }
}

/// `s` without leading and trailing ASCII whitespace.
pub fn trim_ascii<'a>(s: &'a str) -> (r: &'a str)
    ensures
        r@ == trim_spec(s@),
{
    let n: usize = s.unicode_len();
    let mut a: usize = 0;
    while a < n && is_space_char(s.get_char(a))
        invariant
            a <= n,
            n == s@.len(),
            forall|j: int| 0 <= j < a ==> is_space(s@[j]),
        decreases n - a,
    {
        a = a + 1;
    }
    let mut b: usize = n;
    while b > a && is_space_char(s.get_char(b - 1))
        invariant
            a <= b <= n,
            n == s@.len(),
            forall|j: int| b <= j < n ==> is_space(s@[j]),
        decreases b,
    {
        b = b - 1;
    }
    let r = s.substring_char(a, b);
    proof {
        lemma_trim_start_at(s@, a as int);
        let mid = s@.subrange(a as int, s@.len() as int);
        lemma_trim_end_at(mid, b - a);
        assert(mid.subrange(0, b - a) =~= s@.subrange(a as int, b as int));
    }
    r
}

/// The first index where `c` stands in `s`, or `-1` when it is absent.
pub open spec fn find_char(s: Seq<char>, c: char) -> int
    decreases s.len(),
{
    if s.len() == 0 {
        -1
    } else if s[0] == c {
        0
    } else if find_char(s.drop_first(), c) < 0 {
        -1
    } else {
        1 + find_char(s.drop_first(), c)
    }
}

/// What `find_char` finds: `-1` exactly when the character is absent,
/// otherwise the first index holding it.
pub proof fn lemma_find_char(s: Seq<char>, c: char)
    ensures
        find_char(s, c) >= -1,
        find_char(s, c) == -1 <==> (forall|j: int| 0 <= j < s.len() ==> s[j] != c),
        find_char(s, c) >= 0 ==> find_char(s, c) < s.len() && s[find_char(s, c)] == c && (forall|
            j: int,
        |
            0 <= j < find_char(s, c) ==> s[j] != c),
    decreases s.len(),
{
    if s.len() > 0 && s[0] != c {
        lemma_find_char(s.drop_first(), c);
        assert(forall|j: int| 1 <= j < s.len() ==> s[j] == s.drop_first()[j - 1]);
    }
}

/// `s` cut at every newline; the newlines themselves dropped.
pub open spec fn split_lines(s: Seq<char>) -> Seq<Seq<char>>
    decreases s.len(),
    via split_lines_decreases
{
    if find_char(s, '\n') < 0 {
        seq![s]
    } else {
        seq![s.subrange(0, find_char(s, '\n'))] + split_lines(
            s.subrange(find_char(s, '\n') + 1, s.len() as int),
        )
    }
}

#[via_fn]
proof fn split_lines_decreases(s: Seq<char>) {
    lemma_find_char(s, '\n');
}

/// The lines of `s`, split at newlines.
pub fn split_lines_vec(s: &str) -> (r: Vec<String>)
    ensures
        r.deep_view() == split_lines(s@),
{
    let mut out: Vec<String> = Vec::new();
    let mut rest: &str = s;
    loop
        invariant_except_break
            out.deep_view() + split_lines(rest@) == split_lines(s@),
        ensures
            out.deep_view() == split_lines(s@),
        decreases rest@.len(),
    {
        let ghost prev = out.deep_view();
        let m: usize = rest.unicode_len();
        let mut i: usize = 0;
        while i < m && rest.get_char(i) != '\n'
            invariant
                i <= m,
                m == rest@.len(),
                forall|j: int| 0 <= j < i ==> rest@[j] != '\n',
            decreases m - i,
        {
            i = i + 1;
        }
        proof {
            lemma_find_char(rest@, '\n');
        }
        if i == m {
            out.push(rest.to_owned());
            proof {
                assert(out.deep_view() =~= prev + seq![rest@]);
            }
            break;
        }
        let line = rest.substring_char(0, i);
        out.push(line.to_owned());
        rest = rest.substring_char(i + 1, m);
        proof {
            assert(out.deep_view() =~= prev.push(line@));
            assert(out.deep_view() + split_lines(rest@) =~= prev + (seq![line@] + split_lines(
                rest@,
            )));
        }
    }
    out
}

/// The index of the last `c` in `s`, or `-1` when `s` has none.
pub open spec fn rfind_char(s: Seq<char>, c: char) -> int
    decreases s.len(),
{
    if s.len() == 0 {
        -1
    } else if s.last() == c {
        s.len() - 1
    } else {
        rfind_char(s.drop_last(), c)
    }
}

/// What `rfind_char` finds: `-1` exactly when the character is absent,
/// otherwise the last index holding it.
pub proof fn lemma_rfind_char(s: Seq<char>, c: char)
    ensures
        rfind_char(s, c) >= -1,
        rfind_char(s, c) == -1 <==> (forall|j: int| 0 <= j < s.len() ==> s[j] != c),
        rfind_char(s, c) >= 0 ==> rfind_char(s, c) < s.len() && s[rfind_char(s, c)] == c && (
        forall|j: int| rfind_char(s, c) < j < s.len() ==> s[j] != c),
    decreases s.len(),
{
    if s.len() > 0 && s.last() != c {
        lemma_rfind_char(s.drop_last(), c);
        assert(forall|j: int| 0 <= j < s.len() - 1 ==> s[j] == s.drop_last()[j]);
    }
}

/// The index just past the last `c` in `s`, or `0` when `s` has none.
pub fn rfind(s: &str, c: char) -> (r: usize)
    ensures
        r == rfind_char(s@, c) + 1,
{
    proof {
        lemma_rfind_char(s@, c);
    }
    let n: usize = s.unicode_len();
    let mut k: usize = n;
    while k > 0 && s.get_char(k - 1) != c
        invariant
            k <= n,
            n == s@.len(),
            forall|j: int| k <= j < n ==> s@[j] != c,
        decreases k,
    {
        k = k - 1;
    }
    k
}

/// `p` stands in `s` at offset `i`.
pub open spec fn match_at(s: Seq<char>, p: Seq<char>, i: int) -> bool {
    0 <= i && i + p.len() <= s.len() && s.subrange(i, i + p.len() as int) == p
}

/// The first offset where `p` stands in `s`, or `-1` when it is absent.
pub open spec fn find_sub_spec(s: Seq<char>, p: Seq<char>) -> int
    decreases s.len(),
{
    if match_at(s, p, 0) {
        0
    } else if p.len() >= s.len() {
        -1
    } else if find_sub_spec(s.drop_first(), p) < 0 {
        -1
    } else {
        1 + find_sub_spec(s.drop_first(), p)
    }
}

/// What `find_sub_spec` finds: `-1` exactly when `p` stands nowhere in
/// `s`, otherwise the first offset where it stands.
pub proof fn lemma_find_sub(s: Seq<char>, p: Seq<char>)
    ensures
        find_sub_spec(s, p) >= -1,
        find_sub_spec(s, p) == -1 <==> (forall|i: int| !match_at(s, p, i)),
        find_sub_spec(s, p) >= 0 ==> match_at(s, p, find_sub_spec(s, p)) && (forall|i: int|
            0 <= i < find_sub_spec(s, p) ==> !match_at(s, p, i)),
    decreases s.len(),
{
    if match_at(s, p, 0) {
    } else if p.len() >= s.len() {
        assert forall|i: int| !match_at(s, p, i) by {
            if 0 < i && i + p.len() <= s.len() {
                assert(p.len() < s.len());
            }
        }
    } else {
        lemma_find_sub(s.drop_first(), p);
        assert forall|i: int| 1 <= i implies match_at(s, p, i) == match_at(
            s.drop_first(),
            p,
            i - 1,
        ) by {
            if i + p.len() <= s.len() {
                assert(s.drop_first().subrange(i - 1, i - 1 + p.len() as int) =~= s.subrange(
                    i,
                    i + p.len() as int,
                ));
            }
        }
        let r = find_sub_spec(s.drop_first(), p);
        if r >= 0 {
            assert(match_at(s, p, r + 1) == match_at(s.drop_first(), p, r));
        }
    }
}

/// The first offset where `p` stands in `s`, if it stands anywhere.
pub fn find_sub(s: &str, p: &str) -> (r: Option<usize>)
    ensures
        find_sub_spec(s@, p@) < 0 ==> r is None,
        find_sub_spec(s@, p@) >= 0 ==> r == Some(find_sub_spec(s@, p@) as usize),
{
    proof {
        lemma_find_sub(s@, p@);
    }
    let sl: usize = s.unicode_len();
    let pl: usize = p.unicode_len();
    if pl > sl {
        return None;
    }
    if pl == 0 {
        proof {
            assert(s@.subrange(0, 0) =~= p@);
            assert(match_at(s@, p@, 0));
        }
        return Some(0);
    }
    let mut i: usize = 0;
    while i <= sl - pl
        invariant
            i <= sl,
            1 <= pl <= sl,
            sl == s@.len(),
            pl == p@.len(),
            forall|j: int| 0 <= j < i ==> !match_at(s@, p@, j),
        decreases sl - i,
    {
        let suffix = s.substring_char(i, sl);
        if str_has_prefix(suffix, p) {
            proof {
                assert(suffix@.subrange(0, p@.len() as int) =~= s@.subrange(
                    i as int,
                    i + p@.len() as int,
                ));
                assert(match_at(s@, p@, i as int));
                lemma_find_sub(s@, p@);
            }
            return Some(i);
        }
        proof {
            assert(suffix@.subrange(0, p@.len() as int) =~= s@.subrange(
                i as int,
                i + p@.len() as int,
            ));
        }
        i = i + 1;
    }
    proof {
        assert forall|j: int| !match_at(s@, p@, j) by {
            if 0 <= j < i {
            } else if j + p@.len() <= s@.len() && j >= 0 {
                assert(j + pl > sl || j < 0 || j < i);
            }
        }
        lemma_find_sub(s@, p@);
    }
    None
}

} // verus!
