//! The names that the rewrite gives to generated members.

use crate::pattern::optional_text;
use crate::pattern::replace_all;
use crate::pattern::replace_char;
use vstd::prelude::*;
use vstd::string::StringExecFns;

verus! {

/// A class identity with its hyphens turned into underscores, so that it can
/// stand inside an identifier.
pub open spec fn sanitized(key: Seq<char>) -> Seq<char> {
    replace_char(key, '-', '_')
}

/// The word that tells the shadow of a private member from that of a public
/// one.
pub open spec fn privacy_word(is_private: bool) -> Seq<char> {
    if is_private {
        "private"@
    } else {
        "public"@
    }
}

/// The name of the shadow method of the member `origin` in the class `key`.
pub open spec fn shadow_name(origin: Seq<char>, key: Seq<char>, is_private: bool) -> Seq<char> {
    "_hmr_"@ + privacy_word(is_private) + "_"@ + sanitized(key) + "_"@ + origin
}

/// The ordinary name that replaces the private name `origin` in the class
/// `key`.
pub open spec fn private_name(origin: Seq<char>, key: Seq<char>) -> Seq<char> {
    "_private_"@ + sanitized(key) + "_"@ + origin
}

/// Turns the hyphens of a class identity into underscores.
pub fn sanitize(key: &str) -> (out: String)
    ensures
        out@ == sanitized(key@),
{
    proof {
        reveal_strlit("-");
        reveal_strlit("_");
        assert("-"@ =~= seq!['-']);
        assert("_"@ =~= seq!['_']);
    }
    let replaced = replace_all("-", key, "_");
    assert(optional_text(replaced) is Some);
    replaced.unwrap()
}

/// Names the shadow method of the member `origin_ident` in the class `key`.
pub fn get_shadow_ident(origin_ident: &str, key: &str, is_private: bool) -> (ident: String)
    ensures
        ident@ == shadow_name(origin_ident@, key@, is_private),
{
    let mut ident = String::from_str("_hmr_");
    if is_private {
        ident.append("private");
    } else {
        ident.append("public");
    }
    ident.append("_");
    let clean = sanitize(key);
    ident.append(clean.as_str());
    ident.append("_");
    ident.append(origin_ident);
    ident
}

/// Names the ordinary member that replaces the private member
/// `origin_ident` in the class `key`.
pub fn get_private_ident(origin_ident: &str, key: &str) -> (ident: String)
    ensures
        ident@ == private_name(origin_ident@, key@),
{
    let mut ident = String::from_str("_private_");
    let clean = sanitize(key);
    ident.append(clean.as_str());
    ident.append("_");
    ident.append(origin_ident);
    ident
}

} // verus!
