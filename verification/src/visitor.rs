//! The state that one walk over a module carries, and the identity it gives
//! to each class.

use crate::hash::hash_string;
use crate::hash::spec_hash_string;
use crate::surface::ELEMENT_DECORATOR;
use crate::surface::HASH_KEY_PREFIX;
use crate::syntax::decorators_view;
use crate::syntax::ClassUnit;
use crate::syntax::Decorator;
use crate::syntax::DecoratorView;
use crate::text::decimal_text;
use crate::text::hex_text;
use crate::text::push_radix;
use crate::text::same_text;
use vstd::prelude::*;
use vstd::string::StringExecFns;

verus! {

/// The state of the hot-replacement rewrite over one module.
#[derive(Debug, PartialEq, Eq)]
pub struct TransformVisitor {
    /// The path of the file; empty where it is not known.
    pub filename: String,
    /// How many identities have been synthesized in this file.
    pub class_index: usize,
    /// Whether a class with a declared identity has been rewritten.
    pub has_element: bool,
    /// The identities of the classes that enclose the current position,
    /// innermost last.
    pub class_stack: Vec<String>,
    /// Whether a construct was met that rules out hot replacement.
    pub need_reload: bool,
    /// Whether the walk is inside a constructor.
    pub in_constructor: bool,
}

pub struct VisitorView {
    pub filename: Seq<char>,
    pub class_index: usize,
    pub has_element: bool,
    pub class_stack: Seq<Seq<char>>,
    pub need_reload: bool,
    pub in_constructor: bool,
}

/// The views of the items of `v`, in order.
pub open spec fn texts_view(v: Vec<String>) -> Seq<Seq<char>> {
    Seq::new(v.len() as nat, |i: int| v[i]@)
}

impl View for TransformVisitor {
    type V = VisitorView;

    open spec fn view(&self) -> VisitorView {
        VisitorView {
            filename: self.filename@,
            class_index: self.class_index,
            has_element: self.has_element,
            class_stack: texts_view(self.class_stack),
            need_reload: self.need_reload,
            in_constructor: self.in_constructor,
        }
    }
}

impl VisitorView {
    /// The state after a construct that rules out hot replacement.
    pub open spec fn flagged(self) -> VisitorView {
        VisitorView { need_reload: true, ..self }
    }

    /// The state on entering (`inside`) or leaving a constructor.
    pub open spec fn constructing(self, inside: bool) -> VisitorView {
        VisitorView { in_constructor: inside, ..self }
    }

    /// The state inside the class `name`.
    pub open spec fn entered(self, name: Seq<char>) -> VisitorView {
        VisitorView { class_stack: self.class_stack.push(name), ..self }
    }

    /// The state on leaving the innermost class.
    pub open spec fn left(self) -> VisitorView {
        VisitorView { class_stack: self.class_stack.drop_last(), ..self }
    }
}

/// The identity that the decorators declare: the string literal that the
/// first call of `customElement` with a string literal for first argument
/// is given. A call without such an argument declares nothing.
pub open spec fn declared_tag(decorators: Seq<DecoratorView>) -> Option<Seq<char>>
    decreases decorators.len(),
{
    if decorators.len() == 0 {
        None
    } else {
        match decorators[0] {
            DecoratorView::Call { callee: Some(callee), first_arg: Some(tag) } => if callee
                == ELEMENT_DECORATOR@ {
                Some(tag)
            } else {
                declared_tag(decorators.skip(1))
            },
            _ => declared_tag(decorators.skip(1)),
        }
    }
}

/// The identity made up for the class with the occurrence number `index` in
/// the file `filename`.
pub open spec fn synthesized_name(filename: Seq<char>, index: usize) -> Seq<char> {
    HASH_KEY_PREFIX@ + hex_text(spec_hash_string(filename + decimal_text(index as nat)) as nat)
}

/// Whether an identity has the form of a made-up one.
pub open spec fn is_synthesized(name: Seq<char>) -> bool {
    HASH_KEY_PREFIX@.is_prefix_of(name)
}

/// Whether a class with these decorators gets a made-up identity in the
/// state `st`: it declares none, the file is known, and the occurrence
/// number can still grow.
pub open spec fn synthesizes(st: VisitorView, decorators: Seq<DecoratorView>) -> bool {
    declared_tag(decorators) is None && st.filename.len() > 0 && st.class_index < usize::MAX
}

/// The identity of a class with these decorators, met in the state `st`;
/// empty where it has none.
pub open spec fn class_name(st: VisitorView, decorators: Seq<DecoratorView>) -> Seq<char> {
    match declared_tag(decorators) {
        Some(tag) => tag,
        None => if synthesizes(st, decorators) {
            synthesized_name(st.filename, (st.class_index + 1) as usize)
        } else {
            Seq::empty()
        },
    }
}

/// The state after the class got its identity.
pub open spec fn named(st: VisitorView, decorators: Seq<DecoratorView>) -> VisitorView {
    if synthesizes(st, decorators) {
        VisitorView { class_index: (st.class_index + 1) as usize, ..st }
    } else {
        st
    }
}

/// The identity that the decorators declare.
fn get_declared_tag(decorators: &Vec<Decorator>) -> (tag: Option<String>)
    ensures
        crate::pattern::optional_text(tag) == declared_tag(decorators_view(*decorators)),
{
    let ghost all = decorators_view(*decorators);
    let mut i: usize = 0;
    assert(all.skip(0) =~= all);
    while i < decorators.len()
        invariant
            i <= decorators.len(),
            all == decorators_view(*decorators),
            declared_tag(all) == declared_tag(all.skip(i as int)),
        decreases decorators.len() - i,
    {
        assert(all.skip(i as int).skip(1) =~= all.skip(i + 1));
        assert(all.skip(i as int)[0] == decorators[i as int]@);
        match &decorators[i] {
            Decorator::Call { callee: Some(callee), first_arg: Some(tag) } => {
                if same_text(callee.as_str(), ELEMENT_DECORATOR) {
                    return Some(tag.clone());
                }
            },
            _ => {},
        }
        i = i + 1;
    }
    None
}

impl TransformVisitor {
    /// The identity of the innermost enclosing class.
    pub fn get_current_tag_name(&self) -> (name: &str)
        requires
            self.class_stack.len() > 0,
        ensures
            name@ == self@.class_stack.last(),
    {
        self.class_stack[self.class_stack.len() - 1].as_str()
    }

    /// Gives the class its identity: the one its decorators declare, else one
    /// made up from the file's path and the class's occurrence number, else
    /// none.
    pub fn get_class_name(&mut self, node: &ClassUnit) -> (name: String)
        ensures
            name@ == class_name(old(self)@, node@.decorators),
            final(self)@ == named(old(self)@, node@.decorators),
    {
        match get_declared_tag(&node.decorators) {
            Some(tag) => tag,
            None => {
                if self.filename.as_str().is_empty() || self.class_index == usize::MAX {
                    String::new()
                } else {
                    self.class_index = self.class_index + 1;
                    let mut source = self.filename.clone();
                    push_radix(&mut source, self.class_index as u64, 10);
                    let digest = hash_string(source.as_str());
                    let mut name = String::from_str(HASH_KEY_PREFIX);
                    push_radix(&mut name, digest, 16);
                    name
                }
            },
        }
    }
}

} // verus!
