//! Widening the nesting selector of style templates so that it also reaches
//! the host element.

use crate::pattern::optional_text;
use crate::pattern::regex_replace_all;
use crate::pattern::replace_all;
use crate::text::same_text;
use vstd::prelude::*;

verus! {

/// A style text in which every `&` with what follows it, up to a blank or an
/// opening brace, is wrapped so that it matches the host as well.
pub open spec fn host_selected(raw: Seq<char>) -> Option<Seq<char>> {
    regex_replace_all("&([^ {]+)"@, raw, ":is(&$1,:host($1))"@)
}

/// Rewrites the nesting selectors of one piece of a style template.
pub fn trans_css_tpl(raw: &str) -> (out: Option<String>)
    ensures
        optional_text(out) == host_selected(raw@),
{
    replace_all("&([^ {]+)", raw, ":is(&$1,:host($1))")
}

/// The pass that rewrites nesting selectors; it carries no state.
#[derive(Clone, Copy, Debug, PartialEq, Eq, Structural)]
pub struct SelectorVisitor {}

impl SelectorVisitor {
    /// Rewrites one piece of a template tagged `tag`: only `css` templates
    /// change.
    pub fn visit_mut_tagged_tpl(&self, tag: &str, raw: String) -> (out: String)
        ensures
            out@ == if tag@ == "css"@ {
                match host_selected(raw@) {
                    Some(text) => text,
                    None => raw@,
                }
            } else {
                raw@
            },
    {
        if same_text(tag, "css") {
            match trans_css_tpl(raw.as_str()) {
                Some(text) => text,
                None => raw,
            }
        } else {
            raw
        }
    }
}

/// Starts the pass that rewrites nesting selectors.
pub fn selector_transform() -> (visitor: SelectorVisitor)
    ensures
        visitor == (SelectorVisitor {  }),
{
    SelectorVisitor {  }
}

} // verus!
