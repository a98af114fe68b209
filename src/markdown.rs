use vstd::prelude::*;

verus! {

/// The HTML that pulldown-cmark renders for a Markdown text.
pub uninterp spec fn html_of(md: Seq<char>) -> Seq<char>;

/// A character of the Unicode White_Space property.
pub open spec fn is_white_space(c: char) -> bool {
    let n = c as u32;
    (0x9 <= n <= 0xD) || n == 0x20 || n == 0x85 || n == 0xA0 || n == 0x1680 || (0x2000 <= n
        <= 0x200A) || n == 0x2028 || n == 0x2029 || n == 0x202F || n == 0x205F || n == 0x3000
}

/// `r` is `s` with its trailing whitespace removed: a prefix of `s` that
/// leaves out only whitespace and does not itself end in whitespace.
pub open spec fn is_trimmed_end(r: Seq<char>, s: Seq<char>) -> bool {
    &&& r.is_prefix_of(s)
    &&& forall|i: int| r.len() <= i < s.len() ==> is_white_space(#[trigger] s[i])
    &&& r.len() > 0 ==> !is_white_space(r.last())
}

/// Relies on pulldown_cmark::Parser::new and pulldown_cmark::html::push_html:
/// the HTML depends on the Markdown text alone.
#[verifier::external_body]
fn render_html(md: &str) -> (r: String)
    ensures
        r@ == html_of(md@),
{
    let mut html = String::new();
    pulldown_cmark::html::push_html(&mut html, pulldown_cmark::Parser::new(md));
    html
}

/// Relies on str::trim_end: the text without its trailing characters of the
/// Unicode White_Space property.
#[verifier::external_body]
fn trim_end(s: &str) -> (r: String)
    ensures
        is_trimmed_end(r@, s@),
{
    s.trim_end().to_string()
}

/// Renders Markdown to HTML with the trailing whitespace removed.
pub fn md2html(md: &str) -> (r: String)
    ensures
        is_trimmed_end(r@, html_of(md@)),
{
    let html = render_html(md);
    trim_end(html.as_str())
}

} // verus!
