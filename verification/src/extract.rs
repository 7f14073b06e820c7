//! Naive HTML-fragment text extraction.
//!
//! Given a source string of the form `data:text/html,<html><body ...>TEXT</body></html>`,
//! the scan strips the prefix, looks for the first `<body`, the next `>` after it,
//! and the first `</body>` after that; the characters between the `>` and the
//! `</body>` are the extracted text. This is a literal bracket scan, not an HTML
//! parser: a `>` inside an attribute value ends the opening tag early, by design.

use vstd::prelude::*;

verus! {

/// The URI prefix that marks inline HTML content.
pub open spec fn data_html_prefix() -> Seq<char> {
    "data:text/html,"@
}

/// The opening tag fragment the scan looks for.
pub open spec fn body_open_tag() -> Seq<char> {
    "<body"@
}

/// The end of the opening tag.
pub open spec fn tag_close() -> Seq<char> {
    ">"@
}

/// The closing tag that ends the extracted text.
pub open spec fn body_close_tag() -> Seq<char> {
    "</body>"@
}

/// `pat` occurs in `s` starting at position `i`.
pub open spec fn is_match_at(s: Seq<char>, pat: Seq<char>, i: int) -> bool {
    &&& 0 <= i
    &&& i + pat.len() <= s.len()
    &&& forall|j: int| 0 <= j < pat.len() ==> s[i + j] == pat[j]
}

/// The least position at or after `from` at which `pat` occurs in `s`, if any.
pub open spec fn spec_find_from(s: Seq<char>, pat: Seq<char>, from: int) -> Option<int>
    decreases s.len() - from,
{
    if from < 0 || from + pat.len() > s.len() {
        None
    } else if is_match_at(s, pat, from) {
        Some(from)
    } else {
        spec_find_from(s, pat, from + 1)
    }
}

/// The least position at which `pat` occurs in `s`, if any.
pub open spec fn spec_find(s: Seq<char>, pat: Seq<char>) -> Option<int> {
    spec_find_from(s, pat, 0)
}

/// `s` begins with the `data:text/html,` prefix.
pub open spec fn has_data_html_prefix(s: Seq<char>) -> bool {
    is_match_at(s, data_html_prefix(), 0)
}

/// The text the scan extracts from `s`, or `None` when the prefix or one of the
/// three tag searches fails. Positions are taken in `s` itself; searching from
/// the end of the prefix is the same as searching the stripped remainder.
pub open spec fn spec_body_text(s: Seq<char>) -> Option<Seq<char>> {
    if !has_data_html_prefix(s) {
        None
    } else {
        match spec_find_from(s, body_open_tag(), data_html_prefix().len() as int) {
            None => None,
            Some(bs) => match spec_find_from(s, tag_close(), bs) {
                None => None,
                Some(g) => match spec_find_from(s, body_close_tag(), g + 1) {
                    None => None,
                    Some(e) => Some(s.subrange(g + 1, e)),
                },
            },
        }
    }
}

/// Whether `pat` occurs in `s` at position `i` (which must leave room for `pat`).
fn match_at(s: &Vec<char>, pat: &Vec<char>, i: usize) -> (r: bool)
    requires
        i + pat@.len() <= s@.len(),
    ensures
        r == is_match_at(s@, pat@, i as int),
{
    let slen = s.len();
    let mut j: usize = 0;
    while j < pat.len()
        invariant
            0 <= j <= pat@.len(),
            i + pat@.len() <= s@.len(),
            slen == s@.len(),
            forall|k: int| 0 <= k < j ==> s@[i + k] == pat@[k],
        decreases pat@.len() - j,
    {
        if s[i + j] != pat[j] {
            return false;
        }
        j = j + 1;
    }
    true
}

/// The least position at or after `from` at which `pat` occurs in `s`, if any.
pub fn find_from(s: &Vec<char>, pat: &Vec<char>, from: usize) -> (r: Option<usize>)
    ensures
        match r {
            Some(i) => spec_find_from(s@, pat@, from as int) == Some(i as int) && from <= i
                && is_match_at(s@, pat@, i as int),
            None => spec_find_from(s@, pat@, from as int) is None,
        },
{
    if pat.len() > s.len() {
        return None;
    }
    if pat.len() == 0 {
        if from <= s.len() {
            return Some(from);
        }
        return None;
    }
    let last = s.len() - pat.len();
    let mut i: usize = from;
    while i <= last
        invariant
            1 <= pat@.len() <= s@.len(),
            s@.len() <= usize::MAX,
            last == s@.len() - pat@.len(),
            from <= i,
            spec_find_from(s@, pat@, from as int) == spec_find_from(s@, pat@, i as int),
        decreases last + 1 - i,
    {
        if match_at(s, pat, i) {
            return Some(i);
        }
        i = i + 1;
    }
    None
}

/// The characters of `s`, one vector element per `char`.
pub fn chars_vec(s: &str) -> (r: Vec<char>)
    ensures
        r@ == s@,
{
    broadcast use vstd::string::axiom_spec_iter;

    let mut v: Vec<char> = Vec::new();
    for c in it: s.chars()
        invariant
            it.seq() == s@,
            v@ == it.seq().take(it.index() as int),
    {
        v.push(c);
    }
    proof {
        assert(v@ =~= s@);
    }
    v
}

/// The characters of the `data:text/html,` prefix.
fn prefix_pattern() -> (r: Vec<char>)
    ensures
        r@ == data_html_prefix(),
{
    let mut v: Vec<char> = Vec::new();
    v.push('d');
    v.push('a');
    v.push('t');
    v.push('a');
    v.push(':');
    v.push('t');
    v.push('e');
    v.push('x');
    v.push('t');
    v.push('/');
    v.push('h');
    v.push('t');
    v.push('m');
    v.push('l');
    v.push(',');
    proof {
        reveal_strlit("data:text/html,");
        assert(v@ =~= data_html_prefix());
    }
    v
}

/// The characters of the `<body` opening-tag fragment.
fn body_open_pattern() -> (r: Vec<char>)
    ensures
        r@ == body_open_tag(),
{
    let mut v: Vec<char> = Vec::new();
    v.push('<');
    v.push('b');
    v.push('o');
    v.push('d');
    v.push('y');
    proof {
        reveal_strlit("<body");
        assert(v@ =~= body_open_tag());
    }
    v
}

/// The single `>` that ends an opening tag.
fn tag_close_pattern() -> (r: Vec<char>)
    ensures
        r@ == tag_close(),
{
    let mut v: Vec<char> = Vec::new();
    v.push('>');
    proof {
        reveal_strlit(">");
        assert(v@ =~= tag_close());
    }
    v
}

/// The characters of the `</body>` closing tag.
fn body_close_pattern() -> (r: Vec<char>)
    ensures
        r@ == body_close_tag(),
{
    let mut v: Vec<char> = Vec::new();
    v.push('<');
    v.push('/');
    v.push('b');
    v.push('o');
    v.push('d');
    v.push('y');
    v.push('>');
    proof {
        reveal_strlit("</body>");
        assert(v@ =~= body_close_tag());
    }
    v
}

/// Runs the whole scan on `url` and returns the extracted text, or `None`
/// when the prefix or one of the three tag searches fails.
pub fn extract_body_text(url: &Vec<char>) -> (r: Option<Vec<char>>)
    ensures
        match r {
            Some(t) => spec_body_text(url@) == Some(t@),
            None => spec_body_text(url@) is None,
        },
{
    let n = url.len();
    let prefix = prefix_pattern();
    if n < prefix.len() {
        return None;
    }
    if !match_at(url, &prefix, 0) {
        return None;
    }
    let open = body_open_pattern();
    let bs = match find_from(url, &open, prefix.len()) {
        Some(b) => b,
        None => {
            return None;
        },
    };
    let gt = tag_close_pattern();
    let g = match find_from(url, &gt, bs) {
        Some(g) => g,
        None => {
            return None;
        },
    };
    proof {
        reveal_strlit(">");
        assert(g + 1 <= n);
    }
    let close = body_close_pattern();
    let e = match find_from(url, &close, g + 1) {
        Some(e) => e,
        None => {
            return None;
        },
    };
    let mut t: Vec<char> = Vec::new();
    let mut k: usize = g + 1;
    while k < e
        invariant
            g + 1 <= k <= e,
            e <= url@.len(),
            t@ == url@.subrange(g + 1, k as int),
        decreases e - k,
    {
        t.push(url[k]);
        proof {
            assert(t@ =~= url@.subrange(g + 1, k + 1));
        }
        k = k + 1;
    }
    Some(t)
}

/// No text is extracted from a source that does not begin with `data:text/html,`.
pub proof fn lemma_no_prefix_no_text(s: Seq<char>)
    requires
        !has_data_html_prefix(s),
    ensures
        spec_body_text(s) is None,
{
}

/// A search that fails from an earlier position also fails from any later one.
proof fn lemma_find_from_none_mono(s: Seq<char>, pat: Seq<char>, a: int, b: int)
    requires
        0 <= a <= b,
        spec_find_from(s, pat, a) is None,
    ensures
        spec_find_from(s, pat, b) is None,
    decreases b - a,
{
    if a < b && a + pat.len() <= s.len() {
        lemma_find_from_none_mono(s, pat, a + 1, b);
    }
}

/// A successful search lands at or after its starting position, on a match.
proof fn lemma_find_from_some(s: Seq<char>, pat: Seq<char>, from: int)
    requires
        spec_find_from(s, pat, from) is Some,
    ensures
        from <= spec_find_from(s, pat, from)->0,
        is_match_at(s, pat, spec_find_from(s, pat, from)->0),
    decreases s.len() - from,
{
    if from + pat.len() <= s.len() && !is_match_at(s, pat, from) {
        lemma_find_from_some(s, pat, from + 1);
    }
}

/// No text is extracted from a source in which `</body>` nowhere occurs.
pub proof fn lemma_missing_close_no_text(s: Seq<char>)
    requires
        spec_find(s, body_close_tag()) is None,
    ensures
        spec_body_text(s) is None,
{
    if has_data_html_prefix(s) {
        if let Some(bs) = spec_find_from(s, body_open_tag(), data_html_prefix().len() as int) {
            lemma_find_from_some(s, body_open_tag(), data_html_prefix().len() as int);
            if let Some(g) = spec_find_from(s, tag_close(), bs) {
                lemma_find_from_some(s, tag_close(), bs);
                lemma_find_from_none_mono(s, body_close_tag(), 0, g + 1);
            }
        }
    }
}

} // verus!
