//! Shrinking the text of style and markup templates.

use crate::pattern::optional_text;
use crate::pattern::regex_replace_all;
use crate::pattern::replace_all;
use crate::text::same_text;
use crate::text::trim;
use crate::text::trimmed;
use vstd::prelude::*;

verus! {

/// What a tagged template holds, going by the name of its tag.
#[derive(Clone, Copy, Debug, PartialEq, Eq, Structural)]
pub enum TemplateKind {
    /// A style sheet: the tags `css` and `styled`.
    Style,
    /// Markup: the tags `html` and `raw`.
    Markup,
    /// Anything else.
    Other,
}

/// The kind of template that the tag `tag` stands for.
pub open spec fn kind_of_tag(tag: Seq<char>) -> TemplateKind {
    if tag == "css"@ || tag == "styled"@ {
        TemplateKind::Style
    } else if tag == "html"@ || tag == "raw"@ {
        TemplateKind::Markup
    } else {
        TemplateKind::Other
    }
}

/// One more replacement of all matches on a text that came out of an
/// earlier one.
pub open spec fn then_replace_all(text: Option<Seq<char>>, pattern: Seq<char>, rep: Seq<char>) -> Option<
    Seq<char>,
> {
    match text {
        Some(t) => regex_replace_all(pattern, t, rep),
        None => None,
    }
}

/// A style text after the four replacements, in the order of their
/// application: comments go, white space round an opening brace goes, white
/// space after a semicolon or a closing brace goes, and every other run of
/// white space becomes one blank. What is left is trimmed.
pub open spec fn css_minified(raw: Seq<char>) -> Option<Seq<char>> {
    let no_comment = regex_replace_all("(?s)/\\\\*.*\\\\*/"@, raw, ""@);
    let no_head = then_replace_all(no_comment, "(?s)\\s*(\\{)\\s*"@, "$1"@);
    let no_tail = then_replace_all(no_head, "(?s)(;|})\\s+"@, "$1"@);
    match then_replace_all(no_tail, "(?s)\\s+"@, " "@) {
        Some(text) => Some(trimmed(text)),
        None => None,
    }
}

/// A markup text after the three replacements, in the order of their
/// application: white space before a tag goes, white space after a tag goes,
/// and comments go.
pub open spec fn html_minified(raw: Seq<char>) -> Option<Seq<char>> {
    let no_before = regex_replace_all("(?s)\\s*<"@, raw, "<"@);
    let no_after = then_replace_all(no_before, "(?s)>\\s*"@, ">"@);
    then_replace_all(no_after, "(?s)<!--.*?-->"@, ""@)
}

/// The text of a template of the given kind after minification; the text
/// itself where it is of no known kind, or where a pattern did not compile.
pub open spec fn minified(kind: TemplateKind, raw: Seq<char>) -> Seq<char> {
    let out = match kind {
        TemplateKind::Style => css_minified(raw),
        TemplateKind::Markup => html_minified(raw),
        TemplateKind::Other => None,
    };
    match out {
        Some(text) => text,
        None => raw,
    }
}

/// Replaces all matches in a text that came out of an earlier replacement.
fn and_then_replace_all(text: Option<String>, pattern: &str, rep: &str) -> (out: Option<String>)
    ensures
        optional_text(out) == then_replace_all(optional_text(text), pattern@, rep@),
{
    match text {
        Some(t) => replace_all(pattern, t.as_str(), rep),
        None => None,
    }
}

/// Tells the kind of a tagged template from the name of its tag.
pub fn template_kind(tag: &str) -> (kind: TemplateKind)
    ensures
        kind == kind_of_tag(tag@),
{
    if same_text(tag, "css") || same_text(tag, "styled") {
        TemplateKind::Style
    } else if same_text(tag, "html") || same_text(tag, "raw") {
        TemplateKind::Markup
    } else {
        TemplateKind::Other
    }
}

/// Minifies the text of one piece of a style template.
pub fn minify_css_style_tpl(raw: &str) -> (out: Option<String>)
    ensures
        optional_text(out) == css_minified(raw@),
{
    let no_comment = replace_all("(?s)/\\\\*.*\\\\*/", raw, "");
    let no_head = and_then_replace_all(no_comment, "(?s)\\s*(\\{)\\s*", "$1");
    let no_tail = and_then_replace_all(no_head, "(?s)(;|})\\s+", "$1");
    match and_then_replace_all(no_tail, "(?s)\\s+", " ") {
        Some(text) => Some(trim(text.as_str())),
        None => None,
    }
}

/// Minifies the text of one piece of a markup template.
pub fn minify_html_tpl(raw: &str) -> (out: Option<String>)
    ensures
        optional_text(out) == html_minified(raw@),
{
    let no_before = replace_all("(?s)\\s*<", raw, "<");
    let no_after = and_then_replace_all(no_before, "(?s)>\\s*", ">");
    and_then_replace_all(no_after, "(?s)<!--.*?-->", "")
}

/// The pass that minifies templates; it carries no state.
#[derive(Clone, Copy, Debug, PartialEq, Eq, Structural)]
pub struct MinifyVisitor {}

impl MinifyVisitor {
    /// Minifies one piece of a template tagged `tag`.
    pub fn visit_mut_tagged_tpl(&self, tag: &str, raw: String) -> (out: String)
        ensures
            out@ == minified(kind_of_tag(tag@), raw@),
    {
        let minified = match template_kind(tag) {
            TemplateKind::Style => minify_css_style_tpl(raw.as_str()),
            TemplateKind::Markup => minify_html_tpl(raw.as_str()),
            TemplateKind::Other => None,
        };
        match minified {
            Some(text) => text,
            None => raw,
        }
    }

    /// Minifies one piece of a template that is the value of an object
    /// property: it is taken for a style.
    pub fn visit_mut_key_value_prop(&self, raw: String) -> (out: String)
        ensures
            out@ == minified(TemplateKind::Style, raw@),
    {
        match minify_css_style_tpl(raw.as_str()) {
            Some(text) => text,
            None => raw,
        }
    }

    /// Whether the pass looks into a call of the function named `callee`:
    /// only into calls of `css`.
    pub fn visit_mut_callee(&self, callee: &str) -> (descend: bool)
        ensures
            descend == (callee@ == "css"@),
    {
        same_text(callee, "css")
    }
}

/// Starts the pass that minifies templates.
pub fn minify_transform() -> (visitor: MinifyVisitor)
    ensures
        visitor == (MinifyVisitor {  }),
{
    MinifyVisitor {  }
}

} // verus!
