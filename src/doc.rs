//! Documentation lines rendered as C line comments.
use vstd::prelude::*;
use crate::block_comment::{block_doc_ok, is_strippable_block};
use crate::text::{join, lemma_join_take};

verus! {

/// `s` begins with `p`.
pub open spec fn starts_with(s: Seq<char>, p: Seq<char>) -> bool {
    p.len() <= s.len() && s.take(p.len() as int) == p
}

/// A one-line documentation comment without its leading marker: the
/// longest of `///!`, `///`, `//!` and `//` that it begins with.
pub open spec fn one_line_stripped(s: Seq<char>) -> Seq<char> {
    if starts_with(s, "///!"@) {
        s.skip(4)
    } else if starts_with(s, "///"@) {
        s.skip(3)
    } else if starts_with(s, "//!"@) {
        s.skip(3)
    } else {
        s.skip(2)
    }
}

/// What is left of a block documentation comment once its `/*`, `*/`,
/// blank edge lines and common `*` column are stripped.
pub uninterp spec fn block_doc_stripped(s: Seq<char>) -> Seq<char>;

/// A documentation line can be stripped: it is a line comment, or a block
/// comment that `block_doc_ok` admits.
pub open spec fn strippable(s: Seq<char>) -> bool {
    starts_with(s, "//"@) || block_doc_ok(s)
}

/// The text of a documentation line: a line comment loses its marker, a
/// block comment its decoration; any other line is kept as it is.
pub open spec fn doc_text(s: Seq<char>) -> Seq<char> {
    if starts_with(s, "//"@) {
        one_line_stripped(s)
    } else if block_doc_ok(s) {
        block_doc_stripped(s)
    } else {
        s
    }
}

/// One documentation line as a C comment, indented by four spaces at
/// member level.
pub open spec fn c_comment_line(s: Seq<char>, class_comments: bool) -> Seq<char> {
    if class_comments {
        "//"@ + doc_text(s)
    } else {
        "    "@ + "//"@ + doc_text(s)
    }
}

/// The C comment block of a list of documentation lines.
pub open spec fn c_comments(doc_comments: Seq<String>, class_comments: bool) -> Seq<char> {
    join(
        Seq::new(doc_comments.len(), |i: int| c_comment_line(doc_comments[i]@, class_comments)),
        "\n"@,
    )
}

/// Relies on syntex_syntax's `strip_doc_comment_decoration`: a comment
/// that begins with `//` loses its leading `///!`, `///`, `//!` or `//`,
/// the first of them that it begins with; a block comment gives a result
/// that depends on its text alone. Block comments on which it panics are
/// left out by `block_doc_ok`.
#[verifier::external_body]
fn strip_doc_comment_decoration(comment: &str) -> (r: String)
    requires
        strippable(comment@),
    ensures
        starts_with(comment@, "//"@) ==> r@ == one_line_stripped(comment@),
        !starts_with(comment@, "//"@) ==> r@ == block_doc_stripped(comment@),
{
    syntex_syntax::parse::lexer::comments::strip_doc_comment_decoration(comment)
}

fn is_line_comment(s: &str) -> (r: bool)
    ensures
        r == starts_with(s@, "//"@),
{
    proof {
        reveal_strlit("//");
    }
    let n = s.unicode_len();
    if n < 2 {
        return false;
    }
    let r = s.get_char(0) == '/' && s.get_char(1) == '/';
    assert(r ==> s@.take(2) =~= "//"@);
    assert(s@.take(2) =~= "//"@ ==> s@.take(2)[0] == '/' && s@.take(2)[1] == '/');
    r
}

/// Renders documentation lines as C line comments, one per line, joined
/// by newlines; each is indented by four spaces unless `class_comments`
/// is set. Line and block comments lose their decoration; a line that is
/// neither, or a block comment that cannot be trimmed (see
/// `block_doc_ok`), is kept as it is. No lines give the empty text.
pub fn doc_comments_to_c_comments(doc_comments: &Vec<String>, class_comments: bool) -> (r: String)
    ensures
        r@ == c_comments(doc_comments@, class_comments),
{
    let ghost docs = doc_comments@;
    let ghost parts = Seq::new(docs.len(), |i: int| c_comment_line(docs[i]@, class_comments));
    let mut comments = String::new();
    let n = doc_comments.len();
    let mut i: usize = 0;
    while i < n
        invariant
            n == docs.len(),
            docs == doc_comments@,
            parts == Seq::new(docs.len(), |i: int| c_comment_line(docs[i]@, class_comments)),
            i <= n,
            comments@ == join(parts.take(i as int), "\n"@),
        decreases n - i,
    {
        let ghost before = comments@;
        if i != 0 {
            comments.append("\n");
        }
        let ghost mid = comments@;
        if !class_comments {
            comments.append("    ");
        }
        comments.append("//");
        let comment = doc_comments[i].as_str();
        if is_line_comment(comment) || is_strippable_block(comment) {
            let stripped = strip_doc_comment_decoration(comment);
            comments.append(stripped.as_str());
        } else {
            comments.append(comment);
        }
        proof {
            assert(comments@ =~= mid + parts[i as int]);
            lemma_join_take(parts, "\n"@, i as int);
            if i == 0 {
                assert(comments@ =~= parts[0]);
            } else {
                assert(comments@ =~= before + "\n"@ + parts[i as int]);
            }
        }
        i = i + 1;
    }
    assert(parts.take(n as int) =~= parts);
    comments
}

} // verus!
