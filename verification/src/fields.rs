//! The record of a class's data members that the runtime patcher compares
//! across reloads.

use crate::syntax::fields_view;
use crate::syntax::Decorator;
use crate::syntax::DecoratorView;
use crate::syntax::FieldProp;
use crate::syntax::FieldPropView;
use crate::syntax::Key;
use crate::syntax::KeyView;
use crate::syntax::Member;
use crate::syntax::MemberView;
use crate::text::same_text;
use vstd::prelude::*;
use vstd::string::StringExecFns;

verus! {

/// Whether `kind` is one of the decorator names that give a field a role of
/// its own.
pub open spec fn is_role(kind: Seq<char>) -> bool {
    ||| kind == "attribute"@
    ||| kind == "boolattribute"@
    ||| kind == "numattribute"@
    ||| kind == "property"@
    ||| kind == "emitter"@
    ||| kind == "globalemitter"@
    ||| kind == "state"@
    ||| kind == "part"@
    ||| kind == "slot"@
}

/// The name of the first decorator that is a bare identifier and names a
/// role.
pub open spec fn first_role(decorators: Seq<DecoratorView>) -> Option<Seq<char>>
    decreases decorators.len(),
{
    if decorators.len() == 0 {
        None
    } else {
        match decorators[0] {
            DecoratorView::Ident(name) => if is_role(name) {
                Some(name)
            } else {
                first_role(decorators.skip(1))
            },
            _ => first_role(decorators.skip(1)),
        }
    }
}

/// The role of a field with the given decorators: the name of the first
/// decorator that names a role, and `other` where none does.
pub open spec fn field_role(decorators: Seq<DecoratorView>) -> Seq<char> {
    match first_role(decorators) {
        Some(name) => name,
        None => "other"@,
    }
}

/// The record of the field `name` with the given decorators, not yet marked
/// static.
pub open spec fn field_type(name: Seq<char>, decorators: Seq<DecoratorView>) -> FieldPropView {
    FieldPropView { name, kind: field_role(decorators), is_static: false }
}

/// The record that a member contributes: one for a field under a plain or a
/// private name, none for anything else.
pub open spec fn field_of(member: MemberView) -> Option<FieldPropView> {
    match member {
        MemberView::Field { key: KeyView::Ident(name), is_static, decorators, .. } => Some(
            FieldPropView { name, kind: field_role(decorators), is_static },
        ),
        MemberView::Field { key: KeyView::Private(name), is_static, decorators, .. } => Some(
            FieldPropView { name, kind: field_role(decorators), is_static },
        ),
        _ => None,
    }
}

/// The records among `props`, in order.
pub open spec fn present(props: Seq<Option<FieldPropView>>) -> Seq<FieldPropView>
    decreases props.len(),
{
    if props.len() == 0 {
        Seq::empty()
    } else {
        match props.last() {
            Some(prop) => present(props.drop_last()).push(prop),
            None => present(props.drop_last()),
        }
    }
}

/// The view of an optional record.
pub open spec fn prop_view(prop: Option<FieldProp>) -> Option<FieldPropView> {
    match prop {
        Some(p) => Some(p@),
        None => None,
    }
}

/// The views of the items of `v`, in order.
pub open spec fn props_view(v: Vec<Option<FieldProp>>) -> Seq<Option<FieldPropView>> {
    Seq::new(v.len() as nat, |i: int| prop_view(v[i]))
}

impl FieldProp {
    /// A record of the instance field `name` with the role `kind`.
    pub fn new(name: &str, kind: &str) -> (prop: FieldProp)
        ensures
            prop@ == (FieldPropView { name: name@, kind: kind@, is_static: false }),
    {
        FieldProp { name: String::from_str(name), kind: String::from_str(kind), is_static: false }
    }

    /// The same record with its static mark set to `is_static`.
    pub fn set_static(self, is_static: bool) -> (prop: FieldProp)
        ensures
            prop@ == (FieldPropView { name: self@.name, kind: self@.kind, is_static }),
    {
        let mut prop = self;
        prop.is_static = is_static;
        prop
    }
}

/// Whether `kind` names a role.
fn names_role(kind: &str) -> (known: bool)
    ensures
        known == is_role(kind@),
{
    same_text(kind, "attribute") || same_text(kind, "boolattribute") || same_text(
        kind,
        "numattribute",
    ) || same_text(kind, "property") || same_text(kind, "emitter") || same_text(
        kind,
        "globalemitter",
    ) || same_text(kind, "state") || same_text(kind, "part") || same_text(kind, "slot")
}

/// Records the field `name`: its role comes from the first decorator that
/// names one.
pub fn get_field_type(name: &str, decorators: &Vec<Decorator>) -> (prop: FieldProp)
    ensures
        prop@ == field_type(name@, crate::syntax::decorators_view(*decorators)),
{
    let ghost all = crate::syntax::decorators_view(*decorators);
    let mut i: usize = 0;
    assert(all.skip(0) =~= all);
    while i < decorators.len()
        invariant
            i <= decorators.len(),
            all == crate::syntax::decorators_view(*decorators),
            first_role(all) == first_role(all.skip(i as int)),
        decreases decorators.len() - i,
    {
        assert(all.skip(i as int).skip(1) =~= all.skip(i + 1));
        assert(all.skip(i as int)[0] == decorators[i as int]@);
        match &decorators[i] {
            Decorator::Ident(kind) => {
                if names_role(kind.as_str()) {
                    return FieldProp::new(name, kind.as_str());
                }
            },
            _ => {},
        }
        i = i + 1;
    }
    FieldProp::new(name, "other")
}

/// The record that `origin_member` contributes to the field table.
pub fn get_field(origin_member: &Member) -> (prop: Option<FieldProp>)
    ensures
        prop_view(prop) == field_of(origin_member@),
{
    match origin_member {
        Member::Field { key, is_static, decorators, .. } => {
            match key {
                Key::Ident(name) => Some(
                    get_field_type(name.as_str(), decorators).set_static(*is_static),
                ),
                Key::Private(name) => Some(
                    get_field_type(name.as_str(), decorators).set_static(*is_static),
                ),
                Key::Computed => None,
            }
        },
        _ => None,
    }
}

/// Builds the static block that records the given fields, leaving out the
/// members that contributed none.
pub fn gen_hmr_props(props: Vec<Option<FieldProp>>) -> (block: Member)
    ensures
        block@ == (MemberView::FieldTable { fields: present(props_view(props)) }),
{
    let ghost all = props_view(props);
    let mut rest = crate::lists::reversed(props);
    let mut fields: Vec<FieldProp> = Vec::new();
    let ghost mut seen: int = 0;
    while rest.len() > 0
        invariant
            0 <= seen,
            rest@.len() + seen == props@.len(),
            rest@ == props@.reverse().take(rest@.len() as int),
            all == props_view(props),
            fields_view(fields) == present(all.take(seen)),
        decreases rest.len(),
    {
        let entry = rest.pop().unwrap();
        assert(entry == props@[seen]);
        assert(all.take(seen + 1).drop_last() =~= all.take(seen));
        assert(all.take(seen + 1).last() == prop_view(entry));
        match entry {
            Some(prop) => {
                fields.push(prop);
                assert(fields_view(fields) =~= present(all.take(seen + 1)));
            },
            None => {},
        }
        proof {
            seen = seen + 1;
        }
    }
    assert(all.take(seen) =~= all);
    Member::FieldTable { fields }
}

} // verus!
