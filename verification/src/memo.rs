//! Memoized private getters, and the functions that member decorators
//! depend on, which move into static members of the class.

use crate::syntax::decorators_view;
use crate::syntax::Decorator;
use crate::syntax::DecoratorView;
use crate::syntax::MethodKind;
use crate::text::decimal_text;
use crate::text::push_radix;
use crate::text::same_text;
use vstd::prelude::*;
use vstd::string::StringExecFns;

verus! {

/// What is read of a decorator on a member.
#[derive(Debug, PartialEq, Eq)]
pub struct DecoratorCall {
    /// Whether the decorator is a call.
    pub is_call: bool,
    /// The name of what is called, where that is a plain identifier.
    pub callee: Option<String>,
    pub arg_count: usize,
    /// Whether the first argument is an arrow function.
    pub first_arg_is_arrow: bool,
}

pub struct DecoratorCallView {
    pub is_call: bool,
    pub callee: Option<Seq<char>>,
    pub arg_count: usize,
    pub first_arg_is_arrow: bool,
}

impl View for DecoratorCall {
    type V = DecoratorCallView;

    open spec fn view(&self) -> DecoratorCallView {
        DecoratorCallView {
            is_call: self.is_call,
            callee: crate::pattern::optional_text(self.callee),
            arg_count: self.arg_count,
            first_arg_is_arrow: self.first_arg_is_arrow,
        }
    }
}

/// The views of the items of `v`, in order.
pub open spec fn calls_view(v: Vec<DecoratorCall>) -> Seq<DecoratorCallView> {
    Seq::new(v.len() as nat, |i: int| v[i]@)
}

/// A private getter that was found to be memoized.
#[derive(Debug, PartialEq, Eq)]
pub struct MemoProp {
    /// The name the getter had.
    pub name: String,
    /// The name the getter has now.
    pub getter_name: String,
}

pub struct MemoPropView {
    pub name: Seq<char>,
    pub getter_name: Seq<char>,
}

impl View for MemoProp {
    type V = MemoPropView;

    open spec fn view(&self) -> MemoPropView {
        MemoPropView { name: self.name@, getter_name: self.getter_name@ }
    }
}

/// The views of the items of `v`, in order.
pub open spec fn memo_props_view(v: Vec<MemoProp>) -> Seq<MemoPropView> {
    Seq::new(v.len() as nat, |i: int| v[i]@)
}

/// The members that stand in for one memoized getter.
#[derive(Debug, PartialEq, Eq)]
pub struct MemoMembers {
    /// The private method that fills the field from the getter; it carries
    /// the getter's decorators.
    pub method: String,
    /// The private field that holds the value.
    pub field: String,
    /// The private getter that computes the value.
    pub getter: String,
}

pub struct MemoMembersView {
    pub method: Seq<char>,
    pub field: Seq<char>,
    pub getter: Seq<char>,
}

impl View for MemoMembers {
    type V = MemoMembersView;

    open spec fn view(&self) -> MemoMembersView {
        MemoMembersView { method: self.method@, field: self.field@, getter: self.getter@ }
    }
}

/// The views of the items of `v`, in order.
pub open spec fn memo_members_view(v: Vec<MemoMembers>) -> Seq<MemoMembersView> {
    Seq::new(v.len() as nat, |i: int| v[i]@)
}

/// The state of the pass over one module.
#[derive(Debug, PartialEq, Eq)]
pub struct MemoVisitor {
    /// The memoized getters of the class that is walked.
    pub private_props: Vec<MemoProp>,
    /// Whether the walk is inside a class declaration.
    pub in_class_decl: bool,
}

/// Whether a decorator is a call of `memo`.
pub open spec fn is_memo_call(decorator: DecoratorView) -> bool {
    match decorator {
        DecoratorView::Call { callee: Some(callee), .. } => callee == "memo"@,
        _ => false,
    }
}

/// Whether one of `decorators` is a call of `memo`.
pub open spec fn calls_memo(decorators: Seq<DecoratorView>) -> bool {
    exists|i: int| 0 <= i < decorators.len() && is_memo_call(#[trigger] decorators[i])
}

/// Whether a private method is a memoized getter.
pub open spec fn memo_getter(kind: MethodKind, decorators: Seq<DecoratorView>) -> bool {
    kind == MethodKind::Getter && calls_memo(decorators)
}

/// The members that stand in for the memoized getter `prop`.
pub open spec fn members_for(prop: MemoPropView) -> MemoMembersView {
    MemoMembersView {
        method: "_"@ + prop.getter_name,
        field: prop.name,
        getter: prop.getter_name,
    }
}

/// Whether the function that a decorator depends on moves into a static
/// member: the decorator is a call with one argument, an arrow function, of
/// `memo`, of `effect`, or of something that is no plain identifier.
pub open spec fn hoists(call: DecoratorCallView) -> bool {
    &&& call.is_call
    &&& match call.callee {
        Some(name) => name == "memo"@ || name == "effect"@,
        None => true,
    }
    &&& call.arg_count == 1
    &&& call.first_arg_is_arrow
}

/// The name of the static member for the decorator at the place `idx`.
pub open spec fn dep_fn_name(idx: nat) -> Seq<char> {
    "_dep_fn_"@ + decimal_text(idx)
}

/// For each decorator the static member that its function moves into.
pub open spec fn hoisted(calls: Seq<DecoratorCallView>, in_class_decl: bool) -> Seq<
    Option<Seq<char>>,
> {
    Seq::new(
        calls.len(),
        |i: int|
            if in_class_decl && hoists(calls[i]) {
                Some(dep_fn_name(i as nat))
            } else {
                None
            },
    )
}

impl MemoVisitor {
    /// Whether the private method of the given kind and decorators is a
    /// memoized getter.
    pub fn is_memo_getter(&self, kind: MethodKind, decorators: &Vec<Decorator>) -> (found: bool)
        ensures
            found == memo_getter(kind, decorators_view(*decorators)),
    {
        match kind {
            MethodKind::Getter => {},
            _ => {
                return false;
            },
        }
        let ghost all = decorators_view(*decorators);
        let mut i: usize = 0;
        while i < decorators.len()
            invariant
                i <= decorators.len(),
                all == decorators_view(*decorators),
                kind == MethodKind::Getter,
                forall|j: int| 0 <= j < i ==> !is_memo_call(#[trigger] all[j]),
            decreases decorators.len() - i,
        {
            assert(all[i as int] == decorators[i as int]@);
            match &decorators[i] {
                Decorator::Call { callee: Some(callee), .. } => {
                    if same_text(callee.as_str(), "memo") {
                        assert(is_memo_call(all[i as int]));
                        return true;
                    }
                },
                _ => {},
            }
            i = i + 1;
        }
        false
    }

    /// Visits the private method `name`: a memoized getter is renamed, with
    /// an underscore in front, and noted; the new name is handed back.
    pub fn visit_mut_private_method(
        &mut self,
        name: &str,
        kind: MethodKind,
        decorators: &Vec<Decorator>,
    ) -> (renamed: Option<String>)
        ensures
            renamed is Some <==> memo_getter(kind, decorators_view(*decorators)),
            renamed matches Some(getter_name) ==> getter_name@ == "_"@ + name@ && memo_props_view(
                final(self).private_props,
            ) == memo_props_view(old(self).private_props).push(
                MemoPropView { name: name@, getter_name: "_"@ + name@ },
            ),
            renamed is None ==> *final(self) == *old(self),
            final(self).in_class_decl == old(self).in_class_decl,
    {
        if self.is_memo_getter(kind, decorators) {
            let ghost before = memo_props_view(self.private_props);
            let mut getter_name = String::from_str("_");
            getter_name.append(name);
            let prop = MemoProp { name: String::from_str(name), getter_name: getter_name.clone() };
            self.private_props.push(prop);
            assert(memo_props_view(self.private_props) =~= before.push(
                MemoPropView { name: name@, getter_name: "_"@ + name@ },
            ));
            Some(getter_name)
        } else {
            None
        }
    }

    /// Ends the walk over a class: hands back the members to append for its
    /// memoized getters, the getter met last first, and forgets the getters.
    pub fn visit_mut_class(&mut self) -> (out: Vec<MemoMembers>)
        ensures
            memo_members_view(out) == memo_props_view(old(self).private_props).reverse().map_values(
                |prop: MemoPropView| members_for(prop),
            ),
            final(self).private_props@.len() == 0,
            final(self).in_class_decl == old(self).in_class_decl,
    {
        let mut taken: Vec<MemoProp> = Vec::new();
        std::mem::swap(&mut taken, &mut self.private_props);
        let ghost props = memo_props_view(taken);
        let mut rest = taken;
        let mut out: Vec<MemoMembers> = Vec::new();
        while rest.len() > 0
            invariant
                rest@.len() + out@.len() == props.len(),
                memo_props_view(rest) == props.take(rest@.len() as int),
                forall|j: int|
                    0 <= j < out@.len() ==> (#[trigger] out@[j])@ == members_for(
                        props[props.len() - 1 - j],
                    ),
            decreases rest.len(),
        {
            let ghost before = memo_props_view(rest);
            let prop = rest.pop().unwrap();
            assert(prop@ == before[before.len() - 1]);
            assert(memo_props_view(rest) =~= props.take(rest@.len() as int));
            let mut method = String::from_str("_");
            method.append(prop.getter_name.as_str());
            out.push(MemoMembers { method, field: prop.name, getter: prop.getter_name });
        }
        assert(memo_members_view(out) =~= props.reverse().map_values(
            |prop: MemoPropView| members_for(prop),
        ));
        out
    }

    /// Enters or leaves a class declaration.
    pub fn visit_mut_class_decl(&mut self, inside: bool)
        ensures
            final(self).in_class_decl == inside,
            final(self).private_props == old(self).private_props,
    {
        self.in_class_decl = inside;
    }

    /// Looks at the decorators of one member: tells for each the name of
    /// the static member that the function it depends on moves into. Outside
    /// a class declaration nothing moves.
    pub fn process_decorator(&self, decorators: &Vec<DecoratorCall>) -> (out: Vec<Option<String>>)
        ensures
            crate::pattern::optional_texts(out) == hoisted(calls_view(*decorators), self.in_class_decl),
    {
        let ghost all = calls_view(*decorators);
        let mut out: Vec<Option<String>> = Vec::new();
        let mut idx: usize = 0;
        while idx < decorators.len()
            invariant
                idx <= decorators.len(),
                all == calls_view(*decorators),
                out@.len() == idx,
                forall|j: int|
                    0 <= j < idx ==> crate::pattern::optional_text(#[trigger] out@[j]) == hoisted(
                        all,
                        self.in_class_decl,
                    )[j],
            decreases decorators.len() - idx,
        {
            let call = &decorators[idx];
            assert(all[idx as int] == call@);
            let named = match &call.callee {
                Some(name) => same_text(name.as_str(), "memo") || same_text(name.as_str(), "effect"),
                None => true,
            };
            if self.in_class_decl && call.is_call && named && call.arg_count == 1
                && call.first_arg_is_arrow {
                let mut prop = String::from_str("_dep_fn_");
                push_radix(&mut prop, idx as u64, 10);
                out.push(Some(prop));
            } else {
                out.push(None);
            }
            idx = idx + 1;
        }
        assert(crate::pattern::optional_texts(out) =~= hoisted(all, self.in_class_decl));
        out
    }
}

/// Starts the pass over a module.
pub fn memo_transform() -> (visitor: MemoVisitor)
    ensures
        visitor.private_props@.len() == 0,
        !visitor.in_class_decl,
{
    MemoVisitor { private_props: Vec::new(), in_class_decl: false }
}

} // verus!
