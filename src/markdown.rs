use vstd::prelude::*;
use pulldown_cmark::{html, Options, Parser};

verus! {

/// The HTML fragment that pulldown-cmark produces for a Markdown text,
/// with YAML-style metadata blocks recognised (and so left out of the output).
pub uninterp spec fn markdown_html_of(text: Seq<char>) -> Seq<char>;

/// Relies on pulldown_cmark::Parser::new_ext and pulldown_cmark::html::push_html:
/// the HTML is a function of the text alone, and every text is accepted.
#[verifier::external_body]
fn push_markdown_html(content: &str) -> (r: String)
    ensures
        r@ == markdown_html_of(content@),
{
    let mut options = Options::empty();
    options.insert(Options::ENABLE_YAML_STYLE_METADATA_BLOCKS);
    let parser = Parser::new_ext(content, options);
    let mut html_output = String::new();
    html::push_html(&mut html_output, parser);
    html_output
}

/// Renders Markdown to an HTML fragment. Total: every text, malformed or
/// empty, gives some HTML and never an error.
pub fn parse_markdown(content: &str) -> (r: String)
    ensures
        r@ == markdown_html_of(content@),
{
    push_markdown_html(content)
}

} // verus!
