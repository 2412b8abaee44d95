use vstd::prelude::*;
use vstd::string::*;

verus! {

/// What the first capture group of the leftmost match of the regular
/// expression `pattern` in `text` holds; `None` where the expression does not
/// compile, does not match, or its first group takes no part in the match.
pub uninterp spec fn first_group(pattern: Seq<char>, text: Seq<char>) -> Option<Seq<char>>;

/// The text that an HTML fragment converts to.
pub uninterp spec fn html_text_of(html: Seq<char>) -> Seq<char>;

/// The view of an optional string.
pub open spec fn opt_view(o: Option<String>) -> Option<Seq<char>> {
    match o {
        Some(s) => Some(s@),
        None => None,
    }
}

/// Relies on `regex::Regex::new`, `Regex::captures`, `Captures::get` and
/// `Match::as_str`: compiles `pattern` and returns the text of the first
/// capture group of its leftmost-first match in `text`.
#[verifier::external_body]
fn regex_first_group(pattern: &str, text: &str) -> (r: Option<String>)
    ensures
        opt_view(r) == first_group(pattern@, text@),
{
    let re = regex::Regex::new(pattern).ok()?;
    let group = re.captures(text)?.get(1)?;
    Some(group.as_str().to_string())
}

/// Relies on `html2md::parse_html`: the text (Markdown) that an HTML fragment
/// is rendered to.
#[verifier::external_body]
pub(crate) fn parse_html(html: &str) -> (r: String)
    ensures
        r@ == html_text_of(html@),
{
    html2md::parse_html(html)
}

/// The expression that captures what stands between the first `<tag>` and the
/// next `</tag>`, newlines included.
pub open spec fn section_pattern(tag: Seq<char>) -> Seq<char> {
    "<"@ + tag + ">((.|\n)*?)</"@ + tag + ">"@
}

/// The expression that captures the title of a puzzle heading
/// `<h2>--- Day N: TITLE ---</h2>`.
pub const TITLE_PATTERN: &'static str = "<h2>--- Day .*?: (.*?) ---</h2>";

/// The content of the first `<section>...</section>` of `contents`, matched
/// textually: the first opening tag and the first closing tag after it.
pub fn get_html_section(contents: &str, section: &str) -> (r: Option<String>)
    ensures
        opt_view(r) == first_group(section_pattern(section@), contents@),
{
    let mut pattern = String::from_str("<");
    pattern.append(section);
    pattern.append(">((.|\n)*?)</");
    pattern.append(section);
    pattern.append(">");
    regex_first_group(pattern.as_str(), contents)
}

/// The title from a puzzle page's heading `<h2>--- Day N: TITLE ---</h2>`.
pub fn get_title(brief: &str) -> (r: Option<String>)
    ensures
        opt_view(r) == first_group(TITLE_PATTERN@, brief@),
{
    regex_first_group(TITLE_PATTERN, brief)
}

} // verus!
