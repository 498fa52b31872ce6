//! Regular-expression replacement, as the `regex` crate performs it.

use vstd::prelude::*;

verus! {

/// What replacing every match of the regular expression `pattern` in `text`
/// by the replacement string `rep` gives, or `None` where `pattern` is not a
/// regular expression that compiles.
pub uninterp spec fn regex_replace_all(
    pattern: Seq<char>,
    text: Seq<char>,
    rep: Seq<char>,
) -> Option<Seq<char>>;

/// `text` with every occurrence of the character `from` replaced by `to`.
pub open spec fn replace_char(text: Seq<char>, from: char, to: char) -> Seq<char> {
    text.map_values(
        |c: char|
            if c == from {
                to
            } else {
                c
            },
    )
}

/// The view of an optional string.
pub open spec fn optional_text(s: Option<String>) -> Option<Seq<char>> {
    match s {
        Some(t) => Some(t@),
        None => None,
    }
}

/// `regex::Regex::new` on `pattern`, then `Regex::replace_all` on `text` with
/// the replacement string `rep`. The result depends on the three texts alone.
/// The pattern that consists of a hyphen matches exactly the hyphens, and the
/// replacement that consists of an underscore refers to no capture group, so
/// with these two every hyphen becomes an underscore and nothing else
/// changes.
#[verifier::external_body]
pub(crate) fn replace_all(pattern: &str, text: &str, rep: &str) -> (out: Option<String>)
    ensures
        optional_text(out) == regex_replace_all(pattern@, text@, rep@),
        pattern@ == seq!['-'] && rep@ == seq!['_'] ==> optional_text(out) == Some(
            replace_char(text@, '-', '_'),
        ),
{
    match regex::Regex::new(pattern) {
        Ok(re) => Some(re.replace_all(text, rep).into_owned()),
        Err(_) => None,
    }
}

/// What replacing the first match of the regular expression `pattern` in
/// `text` by the replacement string `rep` gives, or `None` where `pattern`
/// is not a regular expression that compiles.
pub uninterp spec fn regex_replace_first(
    pattern: Seq<char>,
    text: Seq<char>,
    rep: Seq<char>,
) -> Option<Seq<char>>;

/// Whether the regular expression `pattern` matches somewhere in `text`, or
/// `None` where `pattern` is not a regular expression that compiles.
pub uninterp spec fn regex_is_match(pattern: Seq<char>, text: Seq<char>) -> Option<bool>;

/// For each match of the regular expression `pattern` in `text`, in order,
/// what its capture group named `group` holds, where it took part in the
/// match; `None` where `pattern` is not a regular expression that compiles.
pub uninterp spec fn regex_group_matches(
    pattern: Seq<char>,
    text: Seq<char>,
    group: Seq<char>,
) -> Option<Seq<Option<Seq<char>>>>;

/// The views of the items of `v`, in order.
pub open spec fn optional_texts(v: Vec<Option<String>>) -> Seq<Option<Seq<char>>> {
    Seq::new(v.len() as nat, |i: int| optional_text(v[i]))
}

/// The view of an optional list of optional strings.
pub open spec fn optional_groups(found: Option<Vec<Option<String>>>) -> Option<
    Seq<Option<Seq<char>>>,
> {
    match found {
        Some(v) => Some(optional_texts(v)),
        None => None,
    }
}

/// `regex::Regex::new` on `pattern`, then `Regex::replace` on `text` with the
/// replacement string `rep`. The result depends on the three texts alone.
#[verifier::external_body]
pub(crate) fn replace_first(pattern: &str, text: &str, rep: &str) -> (out: Option<String>)
    ensures
        optional_text(out) == regex_replace_first(pattern@, text@, rep@),
{
    match regex::Regex::new(pattern) {
        Ok(re) => Some(re.replace(text, rep).into_owned()),
        Err(_) => None,
    }
}

/// `regex::Regex::new` on `pattern`, then `Regex::is_match` on `text`. The
/// result depends on the two texts alone.
#[verifier::external_body]
pub(crate) fn is_match(pattern: &str, text: &str) -> (out: Option<bool>)
    ensures
        out == regex_is_match(pattern@, text@),
{
    match regex::Regex::new(pattern) {
        Ok(re) => Some(re.is_match(text)),
        Err(_) => None,
    }
}

/// `regex::Regex::new` on `pattern`, then `Regex::captures_iter` on `text`,
/// and of each match the text of `Captures::name` for `group`. The result
/// depends on the three texts alone.
#[verifier::external_body]
pub(crate) fn group_matches(pattern: &str, text: &str, group: &str) -> (out: Option<
    Vec<Option<String>>,
>)
    ensures
        optional_groups(out) == regex_group_matches(pattern@, text@, group@),
{
    match regex::Regex::new(pattern) {
        Ok(re) => Some(
            re.captures_iter(text).map(|cap| cap.name(group).map(|m| m.as_str().to_string())).collect(),
        ),
        Err(_) => None,
    }
}

} // verus!
