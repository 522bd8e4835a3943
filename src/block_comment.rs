//! When a block documentation comment can be stripped.
//!
//! Stripping `/* ... */` works on the lines of the text between `/**` and
//! `*/`: it drops blank lines (and a line of stars) at both ends, and then,
//! where every kept line starts with spaces or tabs and a `*` in one column,
//! removes that prefix from each. A kept line made of spaces and tabs alone
//! whose length is that column cannot be cut there. The predicates below
//! describe, over the characters of the text, the comments free of that
//! case, counting a line as kept unless it is surely dropped.
use vstd::prelude::*;

verus! {

/// Character classes: `0` a star, `1` a space, tab or carriage return,
/// `2` a space or tab.
pub open spec fn in_class(c: char, cls: u8) -> bool {
    if cls == 0 {
        c == '*'
    } else if cls == 1 {
        c == ' ' || c == '\t' || c == '\r'
    } else {
        c == ' ' || c == '\t'
    }
}

/// Every character of `t` in `[a, e)` is of class `cls`.
pub open spec fn all_class(t: Seq<char>, a: int, e: int, cls: u8) -> bool {
    forall|k: int| a <= k < e ==> #[trigger] in_class(t[k], cls)
}

/// The position of the newline that ends the line holding `a`, or the
/// length of `t`.
pub open spec fn line_end(t: Seq<char>, a: int) -> int
    decreases t.len() - a,
{
    if a < 0 || a >= t.len() {
        t.len() as int
    } else if t[a] == '\n' {
        a
    } else {
        line_end(t, a + 1)
    }
}

/// A line of `t` starts at `p`; an empty last segment is no line.
pub open spec fn line_start(t: Seq<char>, p: int) -> bool {
    0 <= p < t.len() && (p == 0 || t[p - 1] == '\n')
}

/// The line at `p` is the last line of `t`.
pub open spec fn is_last_line(t: Seq<char>, p: int) -> bool {
    line_end(t, p) + 1 >= t.len()
}

/// The line at `a` is dropped when it stands before the first kept line.
pub open spec fn front_skip(t: Seq<char>, a: int) -> bool {
    all_class(t, a, line_end(t, a), 1) || (a == 0 && all_class(t, 0, line_end(t, 0), 0))
}

/// The line at `b` is dropped when it stands after the last kept line.
pub open spec fn back_skip(t: Seq<char>, b: int) -> bool {
    all_class(t, b, line_end(t, b), 1) || (is_last_line(t, b) && all_class(t, b + 1, line_end(t, b), 0))
}

/// The line at `p` may be kept by the vertical trimming.
pub open spec fn kept(t: Seq<char>, p: int) -> bool {
    &&& line_start(t, p)
    &&& exists|a: int| 0 <= a <= p && line_start(t, a) && !front_skip(t, a)
    &&& exists|b: int| p <= b && line_start(t, b) && !back_skip(t, b)
}

/// The length of the line at `p` without a final carriage return.
pub open spec fn stripped_len(t: Seq<char>, p: int) -> int {
    let e = line_end(t, p);
    if e > p && t[e - 1] == '\r' {
        e - 1 - p
    } else {
        e - p
    }
}

/// The line at `q` has its first star at column `c`, after spaces and tabs.
pub open spec fn star_col(t: Seq<char>, q: int, c: int) -> bool {
    q + c < t.len() && t[q + c] == '*' && all_class(t, q, q + c, 2)
}

/// No kept blank line is as long as the star column of a kept line.
pub open spec fn trim_safe(t: Seq<char>) -> bool {
    forall|p: int, q: int|
        kept(t, p) && kept(t, q) && all_class(t, p, p + stripped_len(t, p), 2) ==> !star_col(
            t,
            q,
            stripped_len(t, p),
        )
}

/// `s` is a block comment `/*...*/` of at least five characters whose
/// third character is ASCII, and whose inner lines can be trimmed.
pub open spec fn block_doc_ok(s: Seq<char>) -> bool {
    &&& s.len() >= 5
    &&& s[0] == '/' && s[1] == '*' && (s[2] as u32) < 128
    &&& s[s.len() - 2] == '*' && s[s.len() - 1] == '/'
    &&& trim_safe(s.subrange(3, s.len() - 2))
}

fn is_class(c: char, cls: u8) -> (r: bool)
    ensures
        r == in_class(c, cls),
{
    if cls == 0 {
        c == '*'
    } else if cls == 1 {
        c == ' ' || c == '\t' || c == '\r'
    } else {
        c == ' ' || c == '\t'
    }
}

fn all_class_exec(t: &Vec<char>, a: usize, e: usize, cls: u8) -> (r: bool)
    requires
        e <= t@.len(),
    ensures
        r == all_class(t@, a as int, e as int, cls),
{
    let mut k = a;
    while k < e
        invariant
            e <= t@.len(),
            a <= k,
            forall|m: int| a <= m < k ==> #[trigger] in_class(t@[m], cls),
        decreases e - k,
    {
        if !is_class(t[k], cls) {
            return false;
        }
        k = k + 1;
    }
    true
}

fn line_end_exec(t: &Vec<char>, a: usize) -> (r: usize)
    requires
        a <= t@.len(),
    ensures
        r as int == line_end(t@, a as int),
        a <= r <= t@.len(),
{
    let mut k = a;
    while k < t.len() && t[k] != '\n'
        invariant
            a <= k <= t@.len(),
            line_end(t@, k as int) == line_end(t@, a as int),
        decreases t@.len() - k,
    {
        k = k + 1;
    }
    k
}

fn line_start_exec(t: &Vec<char>, p: usize) -> (r: bool)
    ensures
        r == line_start(t@, p as int),
{
    p < t.len() && (p == 0 || t[p - 1] == '\n')
}

fn front_skip_exec(t: &Vec<char>, a: usize) -> (r: bool)
    requires
        a < t@.len(),
    ensures
        r == front_skip(t@, a as int),
{
    let e = line_end_exec(t, a);
    all_class_exec(t, a, e, 1) || (a == 0 && all_class_exec(t, 0, e, 0))
}

fn back_skip_exec(t: &Vec<char>, b: usize) -> (r: bool)
    requires
        b < t@.len(),
    ensures
        r == back_skip(t@, b as int),
{
    let e = line_end_exec(t, b);
    all_class_exec(t, b, e, 1) || (e >= t.len() - 1 && all_class_exec(t, b + 1, e, 0))
}

fn stripped_len_exec(t: &Vec<char>, p: usize) -> (r: usize)
    requires
        p < t@.len(),
    ensures
        r as int == stripped_len(t@, p as int),
        p + r <= t@.len(),
{
    let e = line_end_exec(t, p);
    if e > p && t[e - 1] == '\r' {
        e - 1 - p
    } else {
        e - p
    }
}

fn star_col_exec(t: &Vec<char>, q: usize, c: usize) -> (r: bool)
    requires
        q < t@.len(),
    ensures
        r == star_col(t@, q as int, c as int),
{
    if c >= t.len() - q {
        return false;
    }
    t[q + c] == '*' && all_class_exec(t, q, q + c, 2)
}

/// The first line start that is not dropped at the front.
fn first_kept(t: &Vec<char>) -> (r: Option<usize>)
    ensures
        r matches Some(a) ==> line_start(t@, a as int) && !front_skip(t@, a as int),
        forall|a: int|
            line_start(t@, a) && (r is None || a < r->0) ==> #[trigger] front_skip(t@, a),
{
    let mut a: usize = 0;
    while a < t.len()
        invariant
            a <= t@.len(),
            forall|x: int| 0 <= x < a && line_start(t@, x) ==> #[trigger] front_skip(t@, x),
        decreases t@.len() - a,
    {
        if line_start_exec(t, a) && !front_skip_exec(t, a) {
            return Some(a);
        }
        a = a + 1;
    }
    None
}

/// The last line start that is not dropped at the back.
fn last_kept(t: &Vec<char>) -> (r: Option<usize>)
    ensures
        r matches Some(b) ==> line_start(t@, b as int) && !back_skip(t@, b as int),
        forall|b: int|
            line_start(t@, b) && (r is None || b > r->0) ==> #[trigger] back_skip(t@, b),
{
    let mut b: usize = t.len();
    while b > 0
        invariant
            b <= t@.len(),
            forall|x: int| b <= x < t@.len() && line_start(t@, x) ==> #[trigger] back_skip(t@, x),
        decreases b,
    {
        if line_start_exec(t, b - 1) && !back_skip_exec(t, b - 1) {
            return Some(b - 1);
        }
        b = b - 1;
    }
    None
}

/// Decides `trim_safe`.
pub fn trim_safe_exec(t: &Vec<char>) -> (r: bool)
    ensures
        r == trim_safe(t@),
{
    let (a, b) = match (first_kept(t), last_kept(t)) {
        (Some(a), Some(b)) => (a, b),
        _ => {
            assert forall|p: int| #[trigger] kept(t@, p) implies false by {
                let x = choose|x: int| 0 <= x <= p && line_start(t@, x) && !front_skip(t@, x);
                let y = choose|y: int| p <= y && line_start(t@, y) && !back_skip(t@, y);
                assert(front_skip(t@, x) || back_skip(t@, y));
            }
            return true;
        },
    };
    let len = t.len();
    assert forall|p: int| #[trigger] kept(t@, p) implies a <= p <= b by {
        let x = choose|x: int| 0 <= x <= p && line_start(t@, x) && !front_skip(t@, x);
        let y = choose|y: int| p <= y && line_start(t@, y) && !back_skip(t@, y);
        if x < a {
            assert(front_skip(t@, x));
        }
        if y > b {
            assert(back_skip(t@, y));
        }
    }
    assert forall|p: int| a <= p <= b && line_start(t@, p) implies #[trigger] kept(t@, p) by {
        assert(0 <= a <= p && line_start(t@, a as int) && !front_skip(t@, a as int));
        assert(p <= b && line_start(t@, b as int) && !back_skip(t@, b as int));
    }
    if a > b {
        return true;
    }
    let mut p = a;
    while p <= b
        invariant
            len == t@.len(),
            a <= p <= b + 1,
            b < t@.len(),
            forall|x: int| #[trigger] kept(t@, x) ==> a <= x <= b,
            forall|x: int| a <= x <= b && line_start(t@, x) ==> #[trigger] kept(t@, x),
            forall|x: int, q: int|
                x < p && kept(t@, x) && kept(t@, q) && all_class(t@, x, x + stripped_len(t@, x), 2)
                    ==> !star_col(t@, q, stripped_len(t@, x)),
        decreases b + 1 - p,
    {
        if line_start_exec(t, p) {
            let n = stripped_len_exec(t, p);
            if all_class_exec(t, p, p + n, 2) {
                let mut q = a;
                while q <= b
                    invariant
                        len == t@.len(),
                        a <= q <= b + 1,
                        line_start(t@, p as int),
                        a <= p <= b,
                        all_class(t@, p as int, p + n, 2),
                        forall|x: int| a <= x <= b && line_start(t@, x) ==> #[trigger] kept(t@, x),
                        b < t@.len(),
                        p <= b,
                        n as int == stripped_len(t@, p as int),
                        forall|x: int| #[trigger] kept(t@, x) ==> a <= x <= b,
                        forall|y: int|
                            y < q && kept(t@, y) ==> !star_col(t@, y, n as int),
                    decreases b + 1 - q,
                {
                    if line_start_exec(t, q) && star_col_exec(t, q, n) {
                        assert(kept(t@, q as int));
                        assert(kept(t@, p as int));
                        return false;
                    }
                    q = q + 1;
                }
            }
        }
        p = p + 1;
    }
    true
}


fn to_chars(s: &str) -> (r: Vec<char>)
    ensures
        r@ == s@,
{
    let n = s.unicode_len();
    let mut r: Vec<char> = Vec::new();
    let mut i: usize = 0;
    while i < n
        invariant
            n == s@.len(),
            i <= n,
            r@ == s@.take(i as int),
        decreases n - i,
    {
        r.push(s.get_char(i));
        i = i + 1;
        assert(r@ =~= s@.take(i as int));
    }
    assert(r@ =~= s@);
    r
}

/// Decides `block_doc_ok`.
pub fn is_strippable_block(s: &str) -> (r: bool)
    ensures
        r == block_doc_ok(s@),
{
    let c = to_chars(s);
    let n = c.len();
    if n < 5 {
        return false;
    }
    if !(c[0] == '/' && c[1] == '*' && (c[2] as u32) < 128 && c[n - 2] == '*' && c[n - 1] == '/') {
        return false;
    }
    let mut inner: Vec<char> = Vec::new();
    let mut i: usize = 3;
    while i < n - 2
        invariant
            n == c@.len(),
            n >= 5,
            3 <= i <= n - 2,
            inner@ == c@.subrange(3, i as int),
        decreases n - 2 - i,
    {
        inner.push(c[i]);
        i = i + 1;
        assert(inner@ =~= c@.subrange(3, i as int));
    }
    trim_safe_exec(&inner)
}

} // verus!
