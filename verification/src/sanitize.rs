//! Post-processing of candidate summaries returned by the generation service.
//!
//! A candidate may carry issue references (`fixes #42`, `(#7)`) or an
//! accidental `Merge p...` boilerplate line.  Those fragments are removed,
//! the remainder is trimmed, and only its first line is kept; an empty
//! remainder is an error rather than an empty commit message.

use vstd::prelude::*;

verus! {

/// The whitespace characters the sanitizer recognises.
pub open spec fn is_ws(c: char) -> bool {
    c == ' ' || c == '\t' || c == '\n' || c == '\r'
}

/// Decimal digit.
pub open spec fn is_digit(c: char) -> bool {
    '0' <= c && c <= '9'
}

/// Length of the `fix`/`fixes` keyword at position `p`, or 0.
pub open spec fn fix_len(s: Seq<char>, p: int) -> int {
    if p + 3 <= s.len() && (s[p] == 'F' || s[p] == 'f') && s[p + 1] == 'i' && s[p + 2] == 'x' {
        if p + 5 <= s.len() && s[p + 3] == 'e' && s[p + 4] == 's' {
            5
        } else {
            3
        }
    } else {
        0
    }
}

/// Length of the `close`/`closes` keyword at position `p`, or 0.
pub open spec fn close_len(s: Seq<char>, p: int) -> int {
    if p + 5 <= s.len() && (s[p] == 'C' || s[p] == 'c') && s[p + 1] == 'l' && s[p + 2] == 'o' && s[p
        + 3] == 's' && s[p + 4] == 'e' {
        if p + 6 <= s.len() && s[p + 5] == 's' {
            6
        } else {
            5
        }
    } else {
        0
    }
}

/// Length of the optional issue keyword at position `p`, or 0.
pub open spec fn keyword_len(s: Seq<char>, p: int) -> int {
    if fix_len(s, p) > 0 {
        fix_len(s, p)
    } else {
        close_len(s, p)
    }
}

/// Length of the run of whitespace starting at `i`.
pub open spec fn ws_run_len(s: Seq<char>, i: int) -> int
    decreases s.len() - i,
{
    if 0 <= i < s.len() && is_ws(s[i]) {
        1 + ws_run_len(s, i + 1)
    } else {
        0
    }
}

/// Length of the run of decimal digits starting at `i`.
pub open spec fn digit_run_len(s: Seq<char>, i: int) -> int
    decreases s.len() - i,
{
    if 0 <= i < s.len() && is_digit(s[i]) {
        1 + digit_run_len(s, i + 1)
    } else {
        0
    }
}

/// Length of an issue reference starting at `i`, or 0: an optional opening
/// parenthesis, an optional `fix(es)`/`close(s)` keyword, optional
/// whitespace, `#` and at least one digit, and an optional closing
/// parenthesis.
pub open spec fn issue_match_len(s: Seq<char>, i: int) -> int {
    let p1 = if 0 <= i < s.len() && s[i] == '(' {
        i + 1
    } else {
        i
    };
    let p2 = p1 + keyword_len(s, p1);
    let p3 = p2 + ws_run_len(s, p2);
    if 0 <= i && p3 < s.len() && s[p3] == '#' && digit_run_len(s, p3 + 1) > 0 {
        let p4 = p3 + 1 + digit_run_len(s, p3 + 1);
        let p5 = if p4 < s.len() && s[p4] == ')' {
            p4 + 1
        } else {
            p4
        };
        p5 - i
    } else {
        0
    }
}

/// Length of the rest of the line starting at `j`: the characters before the
/// next newline (or before the end of the text).
pub open spec fn line_rest_len(s: Seq<char>, j: int) -> int
    decreases s.len() - j,
{
    if 0 <= j < s.len() && s[j] != '\n' {
        1 + line_rest_len(s, j + 1)
    } else {
        0
    }
}

/// Length of a `Merge p...` boilerplate line starting at `i`, newline
/// included, or 0.  The line must begin `Merge ` (either case) followed by a
/// `p` or `P`, and must actually end in a newline to count as boilerplate.
pub open spec fn merge_match_len(s: Seq<char>, i: int) -> int {
    if 0 <= i && i + 7 <= s.len() && (s[i] == 'M' || s[i] == 'm') && s[i + 1] == 'e' && s[i + 2]
        == 'r' && s[i + 3] == 'g' && s[i + 4] == 'e' && s[i + 5] == ' ' && (s[i + 6] == 'P' || s[i
        + 6] == 'p') {
        let r = line_rest_len(s, i + 7);
        if i + 7 + r < s.len() {
            7 + r + 1
        } else {
            0
        }
    } else {
        0
    }
}

/// A whitespace run stays inside the text.
pub proof fn lemma_ws_run_bounds(s: Seq<char>, i: int)
    requires
        0 <= i <= s.len(),
    ensures
        0 <= ws_run_len(s, i),
        i + ws_run_len(s, i) <= s.len(),
    decreases s.len() - i,
{
    if i < s.len() && is_ws(s[i]) {
        lemma_ws_run_bounds(s, i + 1);
    }
}

/// A digit run stays inside the text.
pub proof fn lemma_digit_run_bounds(s: Seq<char>, i: int)
    requires
        0 <= i <= s.len(),
    ensures
        0 <= digit_run_len(s, i),
        i + digit_run_len(s, i) <= s.len(),
    decreases s.len() - i,
{
    if i < s.len() && is_digit(s[i]) {
        lemma_digit_run_bounds(s, i + 1);
    }
}

/// The rest of a line stays inside the text.
pub proof fn lemma_line_rest_bounds(s: Seq<char>, j: int)
    requires
        0 <= j <= s.len(),
    ensures
        0 <= line_rest_len(s, j),
        j + line_rest_len(s, j) <= s.len(),
    decreases s.len() - j,
{
    if j < s.len() && s[j] != '\n' {
        lemma_line_rest_bounds(s, j + 1);
    }
}

/// An issue-reference match stays inside the text.
pub proof fn lemma_issue_match_bounds(s: Seq<char>, i: int)
    requires
        0 <= i <= s.len(),
    ensures
        0 <= issue_match_len(s, i),
        i + issue_match_len(s, i) <= s.len(),
{
    let p1 = if i < s.len() && s[i] == '(' {
        i + 1
    } else {
        i
    };
    let p2 = p1 + keyword_len(s, p1);
    assert(p1 <= p2 <= s.len());
    lemma_ws_run_bounds(s, p2);
    let p3 = p2 + ws_run_len(s, p2);
    if p3 < s.len() && s[p3] == '#' && digit_run_len(s, p3 + 1) > 0 {
        lemma_digit_run_bounds(s, p3 + 1);
    }
}

/// A merge-boilerplate match stays inside the text.
pub proof fn lemma_merge_match_bounds(s: Seq<char>, i: int)
    requires
        0 <= i <= s.len(),
    ensures
        0 <= merge_match_len(s, i),
        i + merge_match_len(s, i) <= s.len(),
{
    if i + 7 <= s.len() {
        lemma_line_rest_bounds(s, i + 7);
    }
}

/// The text from position `i` on, with every issue reference and merge
/// boilerplate line removed, scanning left to right past each removed match.
pub open spec fn strip_from(s: Seq<char>, i: int) -> Seq<char>
    decreases s.len() - i,
{
    if 0 <= i < s.len() {
        if issue_match_len(s, i) > 0 {
            proof {
                lemma_issue_match_bounds(s, i);
            }
            strip_from(s, i + issue_match_len(s, i))
        } else if merge_match_len(s, i) > 0 {
            proof {
                lemma_merge_match_bounds(s, i);
            }
            strip_from(s, i + merge_match_len(s, i))
        } else {
            seq![s[i]] + strip_from(s, i + 1)
        }
    } else {
        Seq::empty()
    }
}

/// The text without leading whitespace.
pub open spec fn trim_front(s: Seq<char>) -> Seq<char>
    decreases s.len(),
{
    if s.len() > 0 && is_ws(s[0]) {
        trim_front(s.drop_first())
    } else {
        s
    }
}

/// The text without trailing whitespace.
pub open spec fn trim_back(s: Seq<char>) -> Seq<char>
    decreases s.len(),
{
    if s.len() > 0 && is_ws(s.last()) {
        trim_back(s.drop_last())
    } else {
        s
    }
}

/// The text without surrounding whitespace.
pub open spec fn trim_spec(s: Seq<char>) -> Seq<char> {
    trim_back(trim_front(s))
}

/// The characters before the first newline.
pub open spec fn first_line_spec(s: Seq<char>) -> Seq<char>
    decreases s.len(),
{
    if s.len() > 0 && s[0] != '\n' {
        seq![s[0]] + first_line_spec(s.drop_first())
    } else {
        Seq::empty()
    }
}

/// A sanitized candidate: stripped of issue references and merge
/// boilerplate, trimmed, cut to its first line, and trimmed again.
pub open spec fn sanitize_spec(s: Seq<char>) -> Seq<char> {
    trim_spec(first_line_spec(trim_spec(strip_from(s, 0))))
}

/// `trim_front` drops a whitespace prefix and nothing else.
pub proof fn lemma_trim_front_shape(s: Seq<char>)
    ensures
        trim_front(s).len() <= s.len(),
        trim_front(s) == s.subrange(s.len() - trim_front(s).len(), s.len() as int),
        trim_front(s).len() > 0 ==> !is_ws(trim_front(s)[0]),
    decreases s.len(),
{
    if s.len() > 0 && is_ws(s[0]) {
        lemma_trim_front_shape(s.drop_first());
        assert(s.drop_first() == s.subrange(1, s.len() as int));
        let r = trim_front(s);
        assert(s.drop_first().subrange(
            s.drop_first().len() - r.len(),
            s.drop_first().len() as int,
        ) =~= s.subrange(s.len() - r.len(), s.len() as int));
    } else {
        assert(trim_front(s) =~= s.subrange(s.len() - trim_front(s).len(), s.len() as int));
    }
}

/// `trim_back` drops a whitespace suffix and nothing else.
pub proof fn lemma_trim_back_shape(s: Seq<char>)
    ensures
        trim_back(s).len() <= s.len(),
        trim_back(s) == s.subrange(0, trim_back(s).len() as int),
        trim_back(s).len() > 0 ==> !is_ws(trim_back(s).last()),
    decreases s.len(),
{
    if s.len() > 0 && is_ws(s.last()) {
        lemma_trim_back_shape(s.drop_last());
        assert(s.drop_last() == s.subrange(0, s.len() - 1));
        let r = trim_back(s);
        assert(s.drop_last().subrange(0, r.len() as int) =~= s.subrange(0, r.len() as int));
    } else {
        assert(trim_back(s) =~= s.subrange(0, trim_back(s).len() as int));
    }
}

/// The first line contains no newline.
pub proof fn lemma_first_line_no_newline(s: Seq<char>)
    ensures
        forall|j: int| 0 <= j < first_line_spec(s).len() ==> first_line_spec(s)[j] != '\n',
    decreases s.len(),
{
    if s.len() > 0 && s[0] != '\n' {
        lemma_first_line_no_newline(s.drop_first());
        assert forall|j: int| 0 <= j < first_line_spec(s).len() implies first_line_spec(s)[j]
            != '\n' by {
            if j > 0 {
                assert(first_line_spec(s)[j] == first_line_spec(s.drop_first())[j - 1]);
            }
        }
    }
}

/// What sanitizing guarantees of a non-empty result: single-line, and
/// trimmed at both ends.
pub proof fn lemma_sanitized_shape(s: Seq<char>)
    ensures
        forall|j: int| 0 <= j < sanitize_spec(s).len() ==> sanitize_spec(s)[j] != '\n',
        sanitize_spec(s).len() > 0 ==> !is_ws(sanitize_spec(s)[0]),
        sanitize_spec(s).len() > 0 ==> !is_ws(sanitize_spec(s).last()),
{
    let line = first_line_spec(trim_spec(strip_from(s, 0)));
    let f = trim_front(line);
    let r = trim_back(f);
    lemma_first_line_no_newline(trim_spec(strip_from(s, 0)));
    lemma_trim_front_shape(line);
    lemma_trim_back_shape(f);
    assert forall|j: int| 0 <= j < r.len() implies r[j] != '\n' by {
        assert(r[j] == f[j]);
        assert(f[j] == line[line.len() - f.len() + j]);
    }
    if r.len() > 0 {
        assert(r[0] == f[0]);
    }
}

/// With no newline ahead, the rest of the line runs to the end of the text.
proof fn lemma_line_rest_full(s: Seq<char>, j: int)
    requires
        0 <= j <= s.len(),
        forall|k: int| j <= k < s.len() ==> s[k] != '\n',
    ensures
        line_rest_len(s, j) == s.len() - j,
    decreases s.len() - j,
{
    if j < s.len() {
        lemma_line_rest_full(s, j + 1);
    }
}

/// Text without `#` and without newlines has nothing to strip: the scan
/// keeps every character.
proof fn lemma_strip_plain_text(s: Seq<char>, i: int)
    requires
        0 <= i <= s.len(),
        forall|j: int| 0 <= j < s.len() ==> s[j] != '#' && s[j] != '\n',
    ensures
        strip_from(s, i) == s.subrange(i, s.len() as int),
    decreases s.len() - i,
{
    if i < s.len() {
        assert(issue_match_len(s, i) == 0) by {
            let p1 = if s[i] == '(' {
                i + 1
            } else {
                i
            };
            let p2 = p1 + keyword_len(s, p1);
            lemma_ws_run_bounds(s, p2);
            let p3 = p2 + ws_run_len(s, p2);
            assert(p3 < s.len() ==> s[p3] != '#');
        }
        assert(merge_match_len(s, i) == 0) by {
            if i + 7 <= s.len() {
                lemma_line_rest_full(s, i + 7);
            }
        }
        lemma_strip_plain_text(s, i + 1);
        assert(seq![s[i]] + s.subrange(i + 1, s.len() as int) =~= s.subrange(i, s.len() as int));
    } else {
        assert(strip_from(s, i) =~= s.subrange(i, s.len() as int));
    }
}

/// Trimming is idempotent: a trimmed text has nothing more to trim.
proof fn lemma_trim_idempotent(s: Seq<char>)
    ensures
        trim_spec(trim_spec(s)) == trim_spec(s),
{
    let t = trim_spec(s);
    lemma_trim_front_shape(s);
    lemma_trim_back_shape(trim_front(s));
    if t.len() > 0 {
        assert(!is_ws(t.last()));
        assert(t[0] == trim_front(s)[0]);
        assert(!is_ws(t[0]));
        assert(trim_front(t) == t);
        assert(trim_back(t) == t);
    } else {
        assert(trim_front(t) == t);
        assert(trim_back(t) == t);
    }
}

/// Sanitizing an ordinary candidate — a single line without issue marks —
/// removes nothing but surrounding whitespace.
pub proof fn lemma_sanitize_plain_text(s: Seq<char>)
    requires
        forall|j: int| 0 <= j < s.len() ==> s[j] != '#' && s[j] != '\n',
    ensures
        sanitize_spec(s) == trim_spec(s),
{
    lemma_strip_plain_text(s, 0);
    assert(strip_from(s, 0) =~= s);
    let t = trim_spec(s);
    lemma_trim_front_shape(s);
    lemma_trim_back_shape(trim_front(s));
    assert(first_line_spec(t) == t) by {
        assert forall|j: int| 0 <= j < t.len() implies t[j] != '\n' by {
            assert(t[j] == trim_front(s)[j]);
            let f = trim_front(s);
            assert(f[j] == s[s.len() - f.len() + j]);
        }
        lemma_first_line_char(t, t.len() as int);
        assert(t.subrange(0, t.len() as int) =~= t);
    }
    lemma_trim_idempotent(s);
}

/// Whitespace test, as the sanitizer defines it.
pub fn ws_char(c: char) -> (r: bool)
    ensures
        r == is_ws(c),
{
    c == ' ' || c == '\t' || c == '\n' || c == '\r'
}

/// Decimal digit test.
pub fn digit_char(c: char) -> (r: bool)
    ensures
        r == is_digit(c),
{
    '0' <= c && c <= '9'
}

/// Length of the whitespace run starting at `i`.
fn ws_run_at(v: &Vec<char>, i: usize) -> (n: usize)
    requires
        i <= v@.len(),
    ensures
        n as int == ws_run_len(v@, i as int),
        i + n <= v@.len(),
    decreases v@.len() - i,
{
    if i < v.len() && ws_char(v[i]) {
        let rest = ws_run_at(v, i + 1);
        1 + rest
    } else {
        0
    }
}

/// Length of the digit run starting at `i`.
fn digit_run_at(v: &Vec<char>, i: usize) -> (n: usize)
    requires
        i <= v@.len(),
    ensures
        n as int == digit_run_len(v@, i as int),
        i + n <= v@.len(),
    decreases v@.len() - i,
{
    if i < v.len() && digit_char(v[i]) {
        let rest = digit_run_at(v, i + 1);
        1 + rest
    } else {
        0
    }
}

/// Length of the rest of the line starting at `j`.
fn line_rest_at(v: &Vec<char>, j: usize) -> (n: usize)
    requires
        j <= v@.len(),
    ensures
        n as int == line_rest_len(v@, j as int),
        j + n <= v@.len(),
    decreases v@.len() - j,
{
    if j < v.len() && v[j] != '\n' {
        let rest = line_rest_at(v, j + 1);
        1 + rest
    } else {
        0
    }
}

/// Length of the issue keyword starting at `p`, or 0.
fn keyword_len_at(v: &Vec<char>, p: usize) -> (n: usize)
    requires
        p <= v@.len(),
    ensures
        n as int == keyword_len(v@, p as int),
        p + n <= v@.len(),
{
    if v.len() - p >= 3 && (v[p] == 'F' || v[p] == 'f') && v[p + 1] == 'i' && v[p + 2] == 'x' {
        if v.len() - p >= 5 && v[p + 3] == 'e' && v[p + 4] == 's' {
            5
        } else {
            3
        }
    } else if v.len() - p >= 5 && (v[p] == 'C' || v[p] == 'c') && v[p + 1] == 'l' && v[p + 2] == 'o'
        && v[p + 3] == 's' && v[p + 4] == 'e' {
        if v.len() - p >= 6 && v[p + 5] == 's' {
            6
        } else {
            5
        }
    } else {
        0
    }
}

/// Length of the issue reference starting at `i`, or 0.
fn issue_match_at(v: &Vec<char>, i: usize) -> (n: usize)
    requires
        i <= v@.len(),
    ensures
        n as int == issue_match_len(v@, i as int),
        i + n <= v@.len(),
{
    let p1 = if i < v.len() && v[i] == '(' {
        i + 1
    } else {
        i
    };
    let p2 = p1 + keyword_len_at(v, p1);
    let p3 = p2 + ws_run_at(v, p2);
    if p3 < v.len() && v[p3] == '#' {
        let digits = digit_run_at(v, p3 + 1);
        if digits > 0 {
            let p4 = p3 + 1 + digits;
            let p5 = if p4 < v.len() && v[p4] == ')' {
                p4 + 1
            } else {
                p4
            };
            p5 - i
        } else {
            0
        }
    } else {
        0
    }
}

/// Length of the merge boilerplate line starting at `i`, or 0.
fn merge_match_at(v: &Vec<char>, i: usize) -> (n: usize)
    requires
        i <= v@.len(),
    ensures
        n as int == merge_match_len(v@, i as int),
        i + n <= v@.len(),
{
    if v.len() - i >= 7 && (v[i] == 'M' || v[i] == 'm') && v[i + 1] == 'e' && v[i + 2] == 'r' && v[i
        + 3] == 'g' && v[i + 4] == 'e' && v[i + 5] == ' ' && (v[i + 6] == 'P' || v[i + 6] == 'p') {
        let r = line_rest_at(v, i + 7);
        if i + 7 + r < v.len() {
            7 + r + 1
        } else {
            0
        }
    } else {
        0
    }
}

/// Remove every issue reference and merge boilerplate line from the text.
pub fn strip_patterns(v: &Vec<char>) -> (out: Vec<char>)
    ensures
        out@ == strip_from(v@, 0),
{
    let mut out: Vec<char> = Vec::new();
    let mut i: usize = 0;
    while i < v.len()
        invariant
            i <= v@.len(),
            strip_from(v@, 0) == out@ + strip_from(v@, i as int),
        decreases v@.len() - i,
    {
        let issue = issue_match_at(v, i);
        if issue > 0 {
            i = i + issue;
        } else {
            let merge = merge_match_at(v, i);
            if merge > 0 {
                i = i + merge;
            } else {
                let ghost prev = out@;
                out.push(v[i]);
                proof {
                    assert(strip_from(v@, i as int) == seq![v@[i as int]] + strip_from(
                        v@,
                        i as int + 1,
                    ));
                    assert(prev + strip_from(v@, i as int) =~= out@ + strip_from(
                        v@,
                        i as int + 1,
                    ));
                }
                i = i + 1;
            }
        }
    }
    proof {
        assert(out@ + strip_from(v@, v@.len() as int) =~= out@);
    }
    out
}

/// `trim_front` keeps the text from the first non-whitespace character on.
proof fn lemma_trim_front_char(s: Seq<char>, a: int)
    requires
        0 <= a <= s.len(),
        forall|j: int| 0 <= j < a ==> is_ws(s[j]),
        a == s.len() || !is_ws(s[a]),
    ensures
        trim_front(s) == s.subrange(a, s.len() as int),
    decreases s.len(),
{
    if a == 0 {
        assert(trim_front(s) =~= s.subrange(0, s.len() as int));
    } else {
        assert(is_ws(s[0]));
        lemma_trim_front_char(s.drop_first(), a - 1);
        assert(s.drop_first().subrange(a - 1, s.drop_first().len() as int) =~= s.subrange(
            a,
            s.len() as int,
        ));
    }
}

/// `trim_back` keeps the text up to the last non-whitespace character.
proof fn lemma_trim_back_char(s: Seq<char>, b: int)
    requires
        0 <= b <= s.len(),
        forall|j: int| b <= j < s.len() ==> is_ws(s[j]),
        b == 0 || !is_ws(s[b - 1]),
    ensures
        trim_back(s) == s.subrange(0, b),
    decreases s.len(),
{
    if b == s.len() {
        if s.len() > 0 {
            assert(!is_ws(s.last()));
        }
        assert(trim_back(s) =~= s.subrange(0, b));
    } else {
        assert(is_ws(s.last()));
        lemma_trim_back_char(s.drop_last(), b);
        assert(s.drop_last().subrange(0, b) =~= s.subrange(0, b));
    }
}

/// The first line is everything before the first newline.
proof fn lemma_first_line_char(s: Seq<char>, i: int)
    requires
        0 <= i <= s.len(),
        forall|j: int| 0 <= j < i ==> s[j] != '\n',
        i == s.len() || s[i] == '\n',
    ensures
        first_line_spec(s) == s.subrange(0, i),
    decreases s.len(),
{
    if s.len() == 0 || s[0] == '\n' {
        assert(i == 0);
        assert(first_line_spec(s) =~= s.subrange(0, 0));
    } else {
        assert(i >= 1);
        lemma_first_line_char(s.drop_first(), i - 1);
        assert(seq![s[0]] + s.drop_first().subrange(0, i - 1) =~= s.subrange(0, i));
    }
}

/// Remove surrounding whitespace.
pub fn trim_chars(v: &Vec<char>) -> (out: Vec<char>)
    ensures
        out@ == trim_spec(v@),
{
    let mut a: usize = 0;
    while a < v.len() && ws_char(v[a])
        invariant
            a <= v@.len(),
            forall|j: int| 0 <= j < a ==> is_ws(v@[j]),
        decreases v@.len() - a,
    {
        a = a + 1;
    }
    let mut b: usize = v.len();
    while b > a && ws_char(v[b - 1])
        invariant
            a <= b <= v@.len(),
            forall|j: int| b <= j < v@.len() ==> is_ws(v@[j]),
        decreases b,
    {
        b = b - 1;
    }
    let mut out: Vec<char> = Vec::new();
    let mut i: usize = a;
    while i < b
        invariant
            a <= i <= b <= v@.len(),
            out@ == v@.subrange(a as int, i as int),
        decreases b - i,
    {
        let ghost prev = out@;
        out.push(v[i]);
        proof {
            assert(prev.push(v@[i as int]) =~= v@.subrange(a as int, i as int + 1));
        }
        i = i + 1;
    }
    proof {
        lemma_trim_front_char(v@, a as int);
        let f = v@.subrange(a as int, v@.len() as int);
        lemma_trim_back_char(f, b - a);
        assert(f.subrange(0, b - a) =~= v@.subrange(a as int, b as int));
    }
    out
}

/// Keep only the first line.
pub fn first_line_chars(v: &Vec<char>) -> (out: Vec<char>)
    ensures
        out@ == first_line_spec(v@),
{
    let mut out: Vec<char> = Vec::new();
    let mut i: usize = 0;
    while i < v.len() && v[i] != '\n'
        invariant
            i <= v@.len(),
            out@ == v@.subrange(0, i as int),
            forall|j: int| 0 <= j < i ==> v@[j] != '\n',
        decreases v@.len() - i,
    {
        let ghost prev = out@;
        out.push(v[i]);
        proof {
            assert(prev.push(v@[i as int]) =~= v@.subrange(0, i as int + 1));
        }
        i = i + 1;
    }
    proof {
        lemma_first_line_char(v@, i as int);
    }
    out
}

/// Sanitize a candidate summary: strip issue references and merge
/// boilerplate, trim, keep the first line, and trim again.
pub fn sanitize_chars(v: &Vec<char>) -> (out: Vec<char>)
    ensures
        out@ == sanitize_spec(v@),
{
    let stripped = strip_patterns(v);
    let trimmed = trim_chars(&stripped);
    let line = first_line_chars(&trimmed);
    trim_chars(&line)
}

/// Post-process a candidate summary returned by the generation service.
/// The result is the sanitized candidate; a candidate with no content left
/// after sanitizing is rejected rather than committed as an empty message.
pub fn postprocess_summary(candidate: &str) -> (r: Result<
    String,
    crate::errors::CommitMessageError,
>)
    ensures
        r matches Ok(msg) ==> msg@ == sanitize_spec(candidate@) && msg@.len() > 0,
        r matches Err(e) ==> e == crate::errors::CommitMessageError::EmptyMessage && sanitize_spec(
            candidate@,
        ).len() == 0,
{
    let chars = crate::text::chars_vec(candidate);
    let clean = sanitize_chars(&chars);
    if clean.len() == 0 {
        Err(crate::errors::CommitMessageError::EmptyMessage)
    } else {
        Ok(crate::text::string_from_chars(&clean))
    }
}

} // verus!
