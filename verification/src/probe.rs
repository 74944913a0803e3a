//! Interpretation of the PATH-lookup subprocess output.
//!
//! A lookup succeeds when the subprocess exits with code zero and its
//! standard output, after trimming ASCII whitespace, has a non-empty first
//! line; that first line is the resolved path.  Output that is empty or all
//! whitespace is treated as "not found".

use vstd::prelude::*;
use vstd::string::*;

verus! {

/// An ASCII whitespace character: the characters that probe output is
/// trimmed of.
pub open spec fn is_space(c: char) -> bool {
    c == ' ' || c == '\t' || c == '\n' || c == '\r' || c == '\u{b}' || c == '\u{c}'
}

/// `s` without its leading whitespace.
pub open spec fn trim_start(s: Seq<char>) -> Seq<char>
    decreases s.len(),
{
    if s.len() == 0 {
        s
    } else if is_space(s[0]) {
        trim_start(s.drop_first())
    } else {
        s
    }
}

/// `s` without its trailing whitespace.
pub open spec fn trim_end(s: Seq<char>) -> Seq<char>
    decreases s.len(),
{
    if s.len() == 0 {
        s
    } else if is_space(s.last()) {
        trim_end(s.drop_last())
    } else {
        s
    }
}

/// `s` without leading and trailing whitespace.
pub open spec fn trimmed(s: Seq<char>) -> Seq<char> {
    trim_end(trim_start(s))
}

/// The characters of `s` before its first newline (all of `s` when it has
/// no newline).
pub open spec fn first_line(s: Seq<char>) -> Seq<char>
    decreases s.len(),
{
    if s.len() == 0 {
        s
    } else if s[0] == '\n' {
        Seq::<char>::empty()
    } else {
        seq![s[0]] + first_line(s.drop_first())
    }
}

/// `s` without a single trailing carriage return, so that a
/// `\r\n`-terminated line is read like a `\n`-terminated one.
pub open spec fn strip_trailing_cr(s: Seq<char>) -> Seq<char> {
    if s.len() > 0 && s.last() == '\r' {
        s.drop_last()
    } else {
        s
    }
}

/// The path a PATH-lookup's standard output resolves to: the first line of
/// the trimmed output, or nothing when that line is empty.
pub open spec fn probe_path(s: Seq<char>) -> Option<Seq<char>> {
    let line = strip_trailing_cr(first_line(trimmed(s)));
    if line.len() == 0 {
        None
    } else {
        Some(line)
    }
}

/// `trim_start` drops exactly the characters before the first non-space
/// index `i`.
pub proof fn lemma_trim_start_at(s: Seq<char>, i: int)
    requires
        0 <= i <= s.len(),
        forall|j: int| 0 <= j < i ==> is_space(s[j]),
        i < s.len() ==> !is_space(s[i]),
    ensures
        trim_start(s) == s.subrange(i, s.len() as int),
    decreases i,
{
    if i == 0 {
        assert(trim_start(s) =~= s.subrange(0, s.len() as int));
    } else {
        let t = s.drop_first();
        assert(t =~= s.subrange(1, s.len() as int));
        lemma_trim_start_at(t, i - 1);
        assert(t.subrange(i - 1, t.len() as int) =~= s.subrange(i, s.len() as int));
    }
}

/// `trim_end` drops exactly the characters from the last non-space
/// index on: `i` is the length that remains.
pub proof fn lemma_trim_end_at(s: Seq<char>, i: int)
    requires
        0 <= i <= s.len(),
        forall|j: int| i <= j < s.len() ==> is_space(s[j]),
        i > 0 ==> !is_space(s[i - 1]),
    ensures
        trim_end(s) == s.subrange(0, i),
    decreases s.len() - i,
{
    if i == s.len() {
        assert(trim_end(s) =~= s.subrange(0, i));
    } else {
        let t = s.drop_last();
        assert(t =~= s.subrange(0, s.len() - 1));
        lemma_trim_end_at(t, i);
        assert(t.subrange(0, i) =~= s.subrange(0, i));
    }
}

/// `first_line` is the prefix of `s` that ends at the first newline
/// index `k` (or at the end of `s` when it has none).
pub proof fn lemma_first_line_at(s: Seq<char>, k: int)
    requires
        0 <= k <= s.len(),
        forall|j: int| 0 <= j < k ==> s[j] != '\n',
        k < s.len() ==> s[k] == '\n',
    ensures
        first_line(s) == s.subrange(0, k),
    decreases k,
{
    if k == 0 {
        assert(first_line(s) =~= s.subrange(0, 0));
    } else {
        let t = s.drop_first();
        assert(t =~= s.subrange(1, s.len() as int));
        lemma_first_line_at(t, k - 1);
        assert(seq![s[0]] + t.subrange(0, k - 1) =~= s.subrange(0, k));
    }
}

/// Whether `c` is ASCII whitespace.
pub fn is_space_char(c: char) -> (b: bool)
    ensures
        b == is_space(c),
{
    c == ' ' || c == '\t' || c == '\n' || c == '\r' || c == '\u{b}' || c == '\u{c}'
}

/// Reads a PATH-lookup's standard output: trims ASCII whitespace, takes the
/// first line, and returns it when it is non-empty.
pub fn probe_path_from_stdout(stdout: &str) -> (r: Option<String>)
    ensures
        match r {
            Some(p) => probe_path(stdout@) == Some(p@),
            None => probe_path(stdout@) is None,
        },
{
    let n = stdout.unicode_len();

    let mut start: usize = 0;
    while start < n && is_space_char(stdout.get_char(start))
        invariant
            0 <= start <= n,
            n == stdout@.len(),
            forall|j: int| 0 <= j < start ==> is_space(stdout@[j]),
        decreases n - start,
    {
        start += 1;
    }

    let mut end: usize = n;
    while end > start && is_space_char(stdout.get_char(end - 1))
        invariant
            start <= end <= n,
            n == stdout@.len(),
            forall|j: int| end <= j < n ==> is_space(stdout@[j]),
        decreases end,
    {
        end -= 1;
    }

    proof {
        lemma_trim_start_at(stdout@, start as int);
        lemma_trim_end_at(
            stdout@.subrange(start as int, n as int),
            end - start,
        );
        assert(stdout@.subrange(start as int, n as int).subrange(0, end - start)
            =~= stdout@.subrange(start as int, end as int));
        assert(trimmed(stdout@) == stdout@.subrange(start as int, end as int));
    }

    if start == end {
        proof {
            assert(trimmed(stdout@) =~= Seq::<char>::empty());
        }
        return None;
    }

    let t = stdout.substring_char(start, end);
    let m = end - start;

    let mut k: usize = 0;
    while k < m && t.get_char(k) != '\n'
        invariant
            0 <= k <= m,
            m == t@.len(),
            t@ == trimmed(stdout@),
            forall|j: int| 0 <= j < k ==> t@[j] != '\n',
        decreases m - k,
    {
        k += 1;
    }

    proof {
        lemma_first_line_at(t@, k as int);
    }

    // The trimmed output neither starts nor ends with whitespace, so the
    // first line is non-empty and a carriage return can precede the first
    // newline only from the second character on.
    let line_end: usize = if k > 0 && t.get_char(k - 1) == '\r' {
        k - 1
    } else {
        k
    };

    let line = t.substring_char(0, line_end);
    proof {
        assert(!is_space(t@[0]));
        assert(t@[0] != '\n' && t@[0] != '\r');
        assert(first_line(t@).len() > 0);
        assert(strip_trailing_cr(first_line(t@)) =~= t@.subrange(0, line_end as int));
    }
    Some(String::from_str(line))
}

} // verus!
