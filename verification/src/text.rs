//! Text helpers over `&str` and `String`: Unicode trimming, prefixes and
//! Unix path joining.

use vstd::prelude::*;

verus! {

/// The `White_Space` property of the Unicode Character Database.
pub open spec fn is_white_space(c: char) -> bool {
    let n = c as u32;
    ||| 0x9 <= n <= 0xd
    ||| n == 0x20
    ||| n == 0x85
    ||| n == 0xa0
    ||| n == 0x1680
    ||| 0x2000 <= n <= 0x200a
    ||| n == 0x2028
    ||| n == 0x2029
    ||| n == 0x202f
    ||| n == 0x205f
    ||| n == 0x3000
}

/// `s` without its leading white space.
pub open spec fn trim_start(s: Seq<char>) -> Seq<char>
    decreases s.len(),
{
    if s.len() > 0 && is_white_space(s[0]) {
        trim_start(s.drop_first())
    } else {
        s
    }
}

/// `s` without its trailing white space.
pub open spec fn trim_end(s: Seq<char>) -> Seq<char>
    decreases s.len(),
{
    if s.len() > 0 && is_white_space(s.last()) {
        trim_end(s.drop_last())
    } else {
        s
    }
}

/// `s` without leading and trailing white space.
pub open spec fn trim_spec(s: Seq<char>) -> Seq<char> {
    trim_end(trim_start(s))
}

/// Whether `s` holds nothing but white space.
pub open spec fn is_blank(s: Seq<char>) -> bool {
    trim_spec(s).len() == 0
}

/// Whether `p` is a prefix of `s`.
pub open spec fn has_prefix_spec(s: Seq<char>, p: Seq<char>) -> bool {
    p.len() <= s.len() && s.subrange(0, p.len() as int) == p
}

/// The path that `Path::join` gives on Unix for `dir` and `name`: an absolute
/// `name` replaces `dir`, otherwise a separator is put between them unless
/// `dir` is empty or already ends with one.
pub open spec fn join_path_spec(dir: Seq<char>, name: Seq<char>) -> Seq<char> {
    if name.len() > 0 && name[0] == '/' {
        name
    } else if dir.len() == 0 || dir.last() == '/' {
        dir + name
    } else {
        dir + seq!['/'] + name
    }
}

/// Whether `c` has the Unicode `White_Space` property.
pub fn is_white_space_char(c: char) -> (b: bool)
    ensures
        b == is_white_space(c),
{
    let n: u32 = c as u32;
    (0x9 <= n && n <= 0xd) || n == 0x20 || n == 0x85 || n == 0xa0 || n == 0x1680 || (0x2000
        <= n && n <= 0x200a) || n == 0x2028 || n == 0x2029 || n == 0x202f || n == 0x205f || n
        == 0x3000
}

proof fn lemma_trim_start_skip(s: Seq<char>, i: int)
    requires
        0 <= i < s.len(),
        is_white_space(s[i]),
    ensures
        trim_start(s.subrange(i, s.len() as int)) == trim_start(s.subrange(i + 1, s.len() as int)),
{
    assert(s.subrange(i, s.len() as int).drop_first() =~= s.subrange(i + 1, s.len() as int));
}

proof fn lemma_trim_end_skip(s: Seq<char>, i: int, j: int)
    requires
        0 <= i < j <= s.len(),
        is_white_space(s[j - 1]),
    ensures
        trim_end(s.subrange(i, j)) == trim_end(s.subrange(i, j - 1)),
{
    assert(s.subrange(i, j).drop_last() =~= s.subrange(i, j - 1));
}

/// `s` without leading and trailing white space (as `str::trim`).
pub fn trim(s: &str) -> (r: String)
    ensures
        r@ == trim_spec(s@),
{
    let n = s.unicode_len();
    let mut i: usize = 0;
    assert(s@.subrange(0, n as int) =~= s@);
    while i < n && is_white_space_char(s.get_char(i))
        invariant
            n == s@.len(),
            i <= n,
            trim_start(s@) == trim_start(s@.subrange(i as int, n as int)),
        decreases n - i,
    {
        proof {
            lemma_trim_start_skip(s@, i as int);
        }
        i = i + 1;
    }
    let ghost start = s@.subrange(i as int, n as int);
    assert(trim_start(s@) == start) by {
        if i < n {
            assert(start[0] == s@[i as int]);
        } else {
            assert(start.len() == 0);
        }
    }
    let mut j: usize = n;
    while j > i && is_white_space_char(s.get_char(j - 1))
        invariant
            n == s@.len(),
            i <= j <= n,
            trim_end(s@.subrange(i as int, n as int)) == trim_end(s@.subrange(i as int, j as int)),
        decreases j - i,
    {
        proof {
            lemma_trim_end_skip(s@, i as int, j as int);
        }
        j = j - 1;
    }
    proof {
        let sub = s@.subrange(i as int, j as int);
        if j > i {
            assert(sub.last() == s@[j - 1]);
        }
        assert(trim_end(sub) == sub);
    }
    String::from_str(s.substring_char(i, j))
}

/// Whether `s` holds nothing but white space (as `s.trim().is_empty()`).
pub fn is_blank_str(s: &str) -> (b: bool)
    ensures
        b == is_blank(s@),
{
    let t = trim(s);
    t.as_str().unicode_len() == 0
}

/// Whether `s` starts with `p` (as `str::starts_with`).
pub fn has_prefix(s: &str, p: &str) -> (b: bool)
    ensures
        b == has_prefix_spec(s@, p@),
{
    let n = s.unicode_len();
    let m = p.unicode_len();
    if m > n {
        return false;
    }
    let mut k: usize = 0;
    while k < m
        invariant
            n == s@.len(),
            m == p@.len(),
            m <= n,
            k <= m,
            forall|t: int| 0 <= t < k ==> s@[t] == p@[t],
        decreases m - k,
    {
        if s.get_char(k) != p.get_char(k) {
            assert(s@.subrange(0, m as int)[k as int] != p@[k as int]);
            return false;
        }
        k = k + 1;
    }
    assert(s@.subrange(0, m as int) =~= p@);
    true
}

/// The characters of `s` from position `from` on, none where `from` is past
/// its end (as `s.chars().skip(from).collect::<String>()`).
pub fn skip_chars(s: &str, from: usize) -> (r: String)
    ensures
        r@ == if from <= s@.len() {
            s@.subrange(from as int, s@.len() as int)
        } else {
            Seq::<char>::empty()
        },
{
    let n = s.unicode_len();
    if from <= n {
        String::from_str(s.substring_char(from, n))
    } else {
        String::new()
    }
}

/// `dir` joined with `name` as `Path::join` does on Unix.
pub fn join_path(dir: &str, name: &str) -> (r: String)
    ensures
        r@ == join_path_spec(dir@, name@),
{
    let m = name.unicode_len();
    if m > 0 && name.get_char(0) == '/' {
        return String::from_str(name);
    }
    let n = dir.unicode_len();
    let mut r = String::from_str(dir);
    if n > 0 && dir.get_char(n - 1) != '/' {
        r.append("/");
        proof {
            reveal_strlit("/");
        }
    }
    r.append(name);
    r
}

proof fn lemma_trim_start_is_suffix(s: Seq<char>)
    ensures
        exists|i: int|
            0 <= i <= s.len() && trim_start(s) == s.subrange(i, s.len() as int) && (forall|k: int|
                0 <= k < i ==> is_white_space(#[trigger] s[k])),
        trim_start(s).len() > 0 ==> !is_white_space(trim_start(s)[0]),
    decreases s.len(),
{
    if s.len() > 0 && is_white_space(s[0]) {
        let t = s.drop_first();
        lemma_trim_start_is_suffix(t);
        let i = choose|i: int|
            0 <= i <= t.len() && trim_start(t) == t.subrange(i, t.len() as int) && (forall|k: int|
                0 <= k < i ==> is_white_space(#[trigger] t[k]));
        assert(t.subrange(i, t.len() as int) =~= s.subrange(i + 1, s.len() as int));
        assert forall|k: int| 0 <= k < i + 1 implies is_white_space(#[trigger] s[k]) by {
            if k > 0 {
                assert(s[k] == t[k - 1]);
            }
        }
    } else {
        assert(s.subrange(0, s.len() as int) =~= s);
    }
}

proof fn lemma_trim_end_is_prefix(s: Seq<char>)
    ensures
        exists|j: int|
            0 <= j <= s.len() && trim_end(s) == s.subrange(0, j) && (forall|k: int|
                j <= k < s.len() ==> is_white_space(#[trigger] s[k])),
        trim_end(s).len() > 0 ==> !is_white_space(trim_end(s).last()),
    decreases s.len(),
{
    if s.len() > 0 && is_white_space(s.last()) {
        let t = s.drop_last();
        lemma_trim_end_is_prefix(t);
        let j = choose|j: int|
            0 <= j <= t.len() && trim_end(t) == t.subrange(0, j) && (forall|k: int|
                j <= k < t.len() ==> is_white_space(#[trigger] t[k]));
        assert(t.subrange(0, j) =~= s.subrange(0, j));
        assert forall|k: int| j <= k < s.len() implies is_white_space(#[trigger] s[k]) by {
            if k < s.len() - 1 {
                assert(s[k] == t[k]);
            }
        }
    } else {
        assert(s.subrange(0, s.len() as int) =~= s);
    }
}

/// Trimming takes off white space at both ends and nothing else: the result
/// is the part of `s` between a run of leading white space and a run of
/// trailing white space, and it neither starts nor ends with white space.
pub proof fn lemma_trim_removes_only_outer_white_space(s: Seq<char>)
    ensures
        exists|i: int, j: int|
            0 <= i <= j <= s.len() && trim_spec(s) == s.subrange(i, j) && (forall|k: int|
                0 <= k < i ==> is_white_space(#[trigger] s[k])) && (forall|k: int|
                j <= k < s.len() ==> is_white_space(#[trigger] s[k])),
        trim_spec(s).len() > 0 ==> !is_white_space(trim_spec(s)[0]) && !is_white_space(
            trim_spec(s).last(),
        ),
{
    lemma_trim_start_is_suffix(s);
    let i = choose|i: int|
        0 <= i <= s.len() && trim_start(s) == s.subrange(i, s.len() as int) && (forall|k: int|
            0 <= k < i ==> is_white_space(#[trigger] s[k]));
    let t = trim_start(s);
    lemma_trim_end_is_prefix(t);
    let j = choose|j: int|
        0 <= j <= t.len() && trim_end(t) == t.subrange(0, j) && (forall|k: int|
            j <= k < t.len() ==> is_white_space(#[trigger] t[k]));
    assert(t.subrange(0, j) =~= s.subrange(i, i + j));
    assert forall|k: int| i + j <= k < s.len() implies is_white_space(#[trigger] s[k]) by {
        assert(s[k] == t[k - i]);
    }
    if trim_spec(s).len() > 0 {
        assert(trim_spec(s)[0] == t[0]);
    }
}

} // verus!
