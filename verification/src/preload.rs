//! Turning imports marked `?preload` into imports of a URL, together with a
//! statement that waits for what the URL points at.

use crate::lists::reversed;
use crate::pattern::is_match;
use crate::pattern::regex_is_match;
use crate::text::same_text;
use vstd::prelude::*;
use vstd::string::StrSliceExecFns;
use vstd::string::StringExecFns;

verus! {

/// Something to wait for before the module's own code runs.
#[derive(Debug, PartialEq, Eq)]
pub enum AwaitItem {
    /// An image, loaded from the URL bound to the given name.
    Img(String),
    /// A resource fetched as a byte buffer from the URL bound to the given
    /// name.
    ArrayBuffer(String),
}

pub enum AwaitItemView {
    Img(Seq<char>),
    ArrayBuffer(Seq<char>),
}

impl View for AwaitItem {
    type V = AwaitItemView;

    open spec fn view(&self) -> AwaitItemView {
        match self {
            AwaitItem::Img(name) => AwaitItemView::Img(name@),
            AwaitItem::ArrayBuffer(name) => AwaitItemView::ArrayBuffer(name@),
        }
    }
}

/// The views of the items of `v`, in order.
pub open spec fn items_view(v: Vec<AwaitItem>) -> Seq<AwaitItemView> {
    Seq::new(v.len() as nat, |i: int| v[i]@)
}

/// The pass that rewrites preload imports.
#[derive(Debug, PartialEq, Eq)]
pub struct PreloadVisitor {
    /// What the imports met so far ask to wait for.
    pub await_items: Vec<AwaitItem>,
}

/// The views of two optional halves of a text.
pub open spec fn halves_view(halves: Option<(String, String)>) -> Option<(Seq<char>, Seq<char>)> {
    match halves {
        Some((head, tail)) => Some((head@, tail@)),
        None => None,
    }
}

/// Whether `head` and `tail` are what stands before and after the first
/// `mark` in `text`.
pub open spec fn splits_at_first(text: Seq<char>, mark: char, head: Seq<char>, tail: Seq<char>) -> bool {
    text == head + seq![mark] + tail && !head.contains(mark)
}

/// The path of a preload import: what stands before the first question mark
/// of a specifier whose rest is the word `preload`.
pub open spec fn is_preload_of(src: Seq<char>, source: Seq<char>) -> bool {
    splits_at_first(src, '?', source, "preload"@)
}

/// The pattern that the path of an image matches.
pub open spec fn image_pattern() -> Seq<char> {
    "(?i)\\.(svg|gif|jpe?g|tiff?|a?png|webp|avif|bmp)$"@
}

/// Whether the resource at `source` is loaded as an image.
pub open spec fn loads_as_image(source: Seq<char>) -> bool {
    regex_is_match(image_pattern(), source) == Some(true)
}

/// The name bound by a preload import of `source` that bound `local`: an
/// image keeps the name, anything else gets an underscore in front.
pub open spec fn preload_local(source: Seq<char>, local: Seq<char>) -> Seq<char> {
    if loads_as_image(source) {
        local
    } else {
        "_"@ + local
    }
}

/// What a preload import of `source` that bound `local` asks to wait for.
pub open spec fn preload_item(source: Seq<char>, local: Seq<char>) -> AwaitItemView {
    if loads_as_image(source) {
        AwaitItemView::Img(local)
    } else {
        AwaitItemView::ArrayBuffer("_"@ + local)
    }
}

/// How many items at the start of `flags` are set.
pub open spec fn leading_set(flags: Seq<bool>) -> nat
    decreases flags.len(),
{
    if flags.len() > 0 && flags[0] {
        1 + leading_set(flags.skip(1))
    } else {
        0
    }
}

/// Splits `text` at the first occurrence of `mark`.
pub fn split_once(text: &str, mark: char) -> (out: Option<(String, String)>)
    ensures
        out is Some <==> text@.contains(mark),
        out matches Some((head, tail)) ==> splits_at_first(text@, mark, head@, tail@),
{
    let n = text.unicode_len();
    let mut i: usize = 0;
    while i < n
        invariant
            i <= n,
            n == text@.len(),
            forall|j: int| 0 <= j < i ==> text@[j] != mark,
        decreases n - i,
    {
        if text.get_char(i) == mark {
            let head = String::from_str(text.substring_char(0, i));
            let tail = String::from_str(text.substring_char(i + 1, n));
            assert(text@ =~= head@ + seq![mark] + tail@);
            assert(text@[i as int] == mark);
            return Some((head, tail));
        }
        i = i + 1;
    }
    None
}

/// The path of a preload import; none for any other specifier.
pub fn preload_source(src: &str) -> (source: Option<String>)
    ensures
        source matches Some(path) ==> is_preload_of(src@, path@),
        source is None ==> forall|path: Seq<char>| !is_preload_of(src@, path),
{
    match split_once(src, '?') {
        Some((head, tail)) => {
            if same_text(tail.as_str(), "preload") {
                Some(head)
            } else {
                assert forall|path: Seq<char>| !is_preload_of(src@, path) by {
                    if is_preload_of(src@, path) {
                        lemma_first_split_is_unique(src@, '?', head@, tail@, path, "preload"@);
                    }
                }
                None
            }
        },
        None => {
            assert forall|path: Seq<char>| !is_preload_of(src@, path) by {
                if is_preload_of(src@, path) {
                    assert((path + seq!['?'] + "preload"@)[path.len() as int] == '?');
                }
            }
            None
        },
    }
}

/// A text splits at its first mark in one way only.
pub proof fn lemma_first_split_is_unique(
    text: Seq<char>,
    mark: char,
    head: Seq<char>,
    tail: Seq<char>,
    other_head: Seq<char>,
    other_tail: Seq<char>,
)
    requires
        splits_at_first(text, mark, head, tail),
        splits_at_first(text, mark, other_head, other_tail),
    ensures
        head == other_head,
        tail == other_tail,
{
    let a = head.len() as int;
    let b = other_head.len() as int;
    assert((head + seq![mark] + tail)[a] == mark);
    assert((other_head + seq![mark] + other_tail)[b] == mark);
    if a < b {
        assert(other_head[a] == (other_head + seq![mark] + other_tail)[a]);
        assert(other_head.contains(mark));
    }
    if b < a {
        assert(head[b] == (head + seq![mark] + tail)[b]);
        assert(head.contains(mark));
    }
    assert(head =~= text.subrange(0, a));
    assert(other_head =~= text.subrange(0, b));
    assert(tail =~= text.subrange(a + 1, text.len() as int));
    assert(other_tail =~= text.subrange(b + 1, text.len() as int));
}

impl PreloadVisitor {
    /// Records the preload import of `source` that binds `local`; hands
    /// back the specifier and the name that the import gets.
    pub fn visit_mut_import_decl(&mut self, source: &str, local: &str) -> (out: (String, String))
        ensures
            out.0@ == source@ + "?url"@,
            out.1@ == preload_local(source@, local@),
            items_view(final(self).await_items) == items_view(old(self).await_items).push(
                preload_item(source@, local@),
            ),
    {
        let ghost before = items_view(self.await_items);
        let image = match is_match("(?i)\\.(svg|gif|jpe?g|tiff?|a?png|webp|avif|bmp)$", source) {
            Some(found) => found,
            None => false,
        };
        let name = if image {
            String::from_str(local)
        } else {
            let mut name = String::from_str("_");
            name.append(local);
            name
        };
        let item = if image {
            AwaitItem::Img(name.clone())
        } else {
            AwaitItem::ArrayBuffer(name.clone())
        };
        self.await_items.push(item);
        assert(items_view(self.await_items) =~= before.push(preload_item(source@, local@)));
        let mut src = String::from_str(source);
        src.append("?url");
        (src, name)
    }

    /// Ends the walk over a module whose items are module declarations where
    /// `is_module_decl` says so: hands back where the waiting statements go,
    /// which is behind the declarations that the module starts with, and
    /// what they wait for, the import met last first. Nothing is left to
    /// wait for afterwards.
    pub fn visit_mut_module_items(&mut self, is_module_decl: &Vec<bool>) -> (out: (
        usize,
        Vec<AwaitItem>,
    ))
        ensures
            out.0 == leading_set(is_module_decl@),
            items_view(out.1) == items_view(old(self).await_items).reverse(),
            final(self).await_items@.len() == 0,
    {
        let mut taken: Vec<AwaitItem> = Vec::new();
        std::mem::swap(&mut taken, &mut self.await_items);
        let ghost recorded = items_view(taken);
        let items = reversed(taken);
        assert(items_view(items) =~= recorded.reverse());
        let mut index: usize = 0;
        assert(is_module_decl@.skip(0) =~= is_module_decl@);
        while index < is_module_decl.len() && is_module_decl[index]
            invariant
                index <= is_module_decl.len(),
                leading_set(is_module_decl@) == index + leading_set(
                    is_module_decl@.skip(index as int),
                ),
            decreases is_module_decl.len() - index,
        {
            assert(is_module_decl@.skip(index as int).skip(1) =~= is_module_decl@.skip(index + 1));
            assert(is_module_decl@.skip(index as int)[0] == is_module_decl@[index as int]);
            index = index + 1;
        }
        assert(index < is_module_decl.len() ==> is_module_decl@.skip(index as int)[0]
            == is_module_decl@[index as int]);
        (index, items)
    }
}

/// Starts the pass that rewrites preload imports.
pub fn preload_transform() -> (visitor: PreloadVisitor)
    ensures
        visitor.await_items@.len() == 0,
{
    PreloadVisitor { await_items: Vec::new() }
}

} // verus!
