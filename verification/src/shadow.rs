//! Splitting a function-like member into a dispatch shim, which stays where
//! callers look for the member, and a shadow method, which holds the code and
//! can be replaced while the program runs.

use crate::lists::reversed;
use crate::names::get_private_ident;
use crate::names::get_shadow_ident;
use crate::names::private_name;
use crate::names::shadow_name;
use crate::pattern::optional_text;
use crate::syntax::stmts_view;
use crate::syntax::Body;
use crate::syntax::BodyView;
use crate::syntax::Callable;
use crate::syntax::CallableView;
use crate::syntax::DispatchStyle;
use crate::syntax::Initializer;
use crate::syntax::InitializerView;
use crate::syntax::Key;
use crate::syntax::KeyView;
use crate::syntax::Member;
use crate::syntax::MemberView;
use crate::syntax::MethodKind;
use crate::syntax::Params;
use crate::syntax::ParamsView;
use crate::syntax::Stmt;
use crate::syntax::StmtView;
use vstd::prelude::*;
use vstd::string::StringExecFns;

verus! {

/// The method that holds the code moved out of the member at `origin`.
pub open spec fn shadow_member(
    origin: u64,
    shadow: Seq<char>,
    is_static: bool,
    body: BodyView,
    params: ParamsView,
    is_async: bool,
) -> MemberView {
    MemberView::Method {
        origin,
        key: KeyView::Ident(shadow),
        kind: MethodKind::Method,
        is_static,
        key_marks: Seq::empty(),
        decorator_marks: Seq::empty(),
        callable: CallableView { is_async, params, body },
    }
}

/// An empty parameter list.
pub open spec fn no_params() -> ParamsView {
    ParamsView::Source { properties: Seq::empty(), marks: Seq::empty() }
}

/// The shim left in place of a method or an arrow function: a getter keeps
/// its parameter list and calls the shadow without arguments, anything else
/// takes a rest parameter and forwards it.
pub open spec fn proxy_function(func: CallableView, shadow: Seq<char>, is_getter: bool) -> CallableView {
    if is_getter {
        CallableView {
            is_async: func.is_async,
            params: func.params,
            body: BodyView::Dispatch { shadow, style: DispatchStyle::Getter },
        }
    } else {
        CallableView {
            is_async: func.is_async,
            params: ParamsView::Rest,
            body: BodyView::Dispatch { shadow, style: DispatchStyle::Forward },
        }
    }
}

/// The parameter list that moves to the shadow: none for a getter.
pub open spec fn moved_params(func: CallableView, is_getter: bool) -> ParamsView {
    if is_getter {
        no_params()
    } else {
        func.params
    }
}

/// The shim left in place of a constructor: it calls `super()` where the
/// class extends another, and hands its arguments to the shadow.
pub open spec fn proxy_constructor(func: CallableView, shadow: Seq<char>, has_super: bool) -> CallableView {
    CallableView {
        is_async: func.is_async,
        params: ParamsView::Rest,
        body: BodyView::Dispatch { shadow, style: DispatchStyle::Construct { call_super: has_super } },
    }
}

/// The statements of `stmts` that are not a direct call of `super`, in
/// order.
pub open spec fn without_super_calls(stmts: Seq<StmtView>) -> Seq<StmtView>
    decreases stmts.len(),
{
    if stmts.len() == 0 {
        Seq::empty()
    } else if stmts.last().is_super_call {
        without_super_calls(stmts.drop_last())
    } else {
        without_super_calls(stmts.drop_last()).push(stmts.last())
    }
}

/// A constructor body as it moves to the shadow: without its direct calls of
/// `super`.
pub open spec fn stripped(body: BodyView) -> BodyView {
    match body {
        BodyView::Block(stmts) => BodyView::Block(without_super_calls(stmts)),
        BodyView::Dispatch { shadow, style: DispatchStyle::Construct { .. } } => BodyView::Dispatch {
            shadow,
            style: DispatchStyle::Construct { call_super: false },
        },
        _ => body,
    }
}

/// The name a member goes by and whether it is private; none for a key that
/// is not a static name.
pub open spec fn key_name(key: KeyView) -> Option<(Seq<char>, bool)> {
    match key {
        KeyView::Ident(name) => Some((name, false)),
        KeyView::Private(name) => Some((name, true)),
        KeyView::Computed => None,
    }
}

/// The key of a member after the rewrite: a private name becomes the
/// ordinary name that encodes it.
pub open spec fn public_key(key: KeyView, class_key: Seq<char>) -> KeyView {
    match key {
        KeyView::Private(name) => KeyView::Ident(private_name(name, class_key)),
        _ => key,
    }
}

/// The name of the shadow of a member with the given key.
pub open spec fn shadow_of_key(key: KeyView, class_key: Seq<char>) -> Option<Seq<char>> {
    match key_name(key) {
        Some((name, is_private)) => Some(shadow_name(name, class_key, is_private)),
        None => None,
    }
}

/// Whether the rewrite splits the member: a constructor, a method or
/// accessor under a static name, or a field under a static name whose
/// initializer is an arrow function.
pub open spec fn is_function_like(member: MemberView) -> bool {
    match member {
        MemberView::Constructor { .. } => true,
        MemberView::Method { key, .. } => key_name(key) is Some,
        MemberView::Field { key, value, .. } => key_name(key) is Some && value is Arrow,
        _ => false,
    }
}

/// The member that stays in place of `member` in the class `class_key`.
pub open spec fn shim_of(member: MemberView, class_key: Seq<char>, has_super: bool) -> MemberView {
    match member {
        MemberView::Constructor { origin, callable } => MemberView::Constructor {
            origin,
            callable: proxy_constructor(
                callable,
                shadow_name("constructor"@, class_key, false),
                has_super,
            ),
        },
        MemberView::Method {
            origin,
            key,
            kind,
            is_static,
            key_marks,
            decorator_marks,
            callable,
        } => match shadow_of_key(key, class_key) {
            Some(shadow) => MemberView::Method {
                origin,
                key: public_key(key, class_key),
                kind,
                is_static,
                key_marks,
                decorator_marks,
                callable: proxy_function(callable, shadow, kind == MethodKind::Getter),
            },
            None => member,
        },
        MemberView::Field {
            origin,
            key,
            is_static,
            decorators,
            key_marks,
            value,
            decorator_marks,
        } => match (shadow_of_key(key, class_key), value) {
            (Some(shadow), InitializerView::Arrow(func)) => MemberView::Field {
                origin,
                key: public_key(key, class_key),
                is_static,
                decorators,
                key_marks,
                value: InitializerView::Arrow(proxy_function(func, shadow, false)),
                decorator_marks,
            },
            _ => MemberView::Field {
                origin,
                key: public_key(key, class_key),
                is_static,
                decorators,
                key_marks,
                value,
                decorator_marks,
            },
        },
        _ => member,
    }
}

/// The shadow method that `member` gets in the class `class_key`; none where
/// the member is not function-like.
pub open spec fn shadow_of(member: MemberView, class_key: Seq<char>) -> Option<MemberView> {
    match member {
        MemberView::Constructor { origin, callable } => Some(
            shadow_member(
                origin,
                shadow_name("constructor"@, class_key, false),
                false,
                stripped(callable.body),
                callable.params,
                false,
            ),
        ),
        MemberView::Method { origin, key, kind, is_static, callable, .. } => match shadow_of_key(
            key,
            class_key,
        ) {
            Some(shadow) => Some(
                shadow_member(
                    origin,
                    shadow,
                    is_static,
                    callable.body,
                    moved_params(callable, kind == MethodKind::Getter),
                    callable.is_async,
                ),
            ),
            None => None,
        },
        MemberView::Field { origin, key, is_static, value, .. } => match (
            shadow_of_key(key, class_key),
            value,
        ) {
            (Some(shadow), InitializerView::Arrow(func)) => Some(
                shadow_member(origin, shadow, is_static, func.body, func.params, func.is_async),
            ),
            _ => None,
        },
        _ => None,
    }
}

/// The view of an optional member.
pub open spec fn member_view(member: Option<Member>) -> Option<MemberView> {
    match member {
        Some(m) => Some(m@),
        None => None,
    }
}

/// Builds the shadow method named `shadow_ident` from the code of the member
/// at `origin`.
pub fn gen_shadow_member(
    origin: u64,
    shadow_ident: String,
    is_static: bool,
    body: Body,
    params: Params,
    is_async: bool,
) -> (member: Member)
    ensures
        member@ == shadow_member(origin, shadow_ident@, is_static, body@, params@, is_async),
{
    let member = Member::Method {
        origin,
        key: Key::Ident(shadow_ident),
        kind: MethodKind::Method,
        is_static,
        key_marks: Vec::new(),
        decorator_marks: Vec::new(),
        callable: Callable { is_async, params, body },
    };
    assert(member@->Method_key_marks =~= Seq::empty());
    assert(member@->Method_decorator_marks =~= Seq::empty());
    member
}

/// The parameter list of a shim: one rest parameter.
pub fn gen_proxy_arg() -> (params: Params)
    ensures
        params@ == ParamsView::Rest,
{
    Params::Rest
}

/// The body of a shim that forwards its arguments to `shadow_ident`.
pub fn gen_proxy_body(shadow_ident: &str) -> (body: Body)
    ensures
        body@ == (BodyView::Dispatch { shadow: shadow_ident@, style: DispatchStyle::Forward }),
{
    Body::Dispatch { shadow: String::from_str(shadow_ident), style: DispatchStyle::Forward }
}

/// The body of a getter shim that reads through `shadow_ident`.
pub fn gen_proxy_body_getter(shadow_ident: &str) -> (body: Body)
    ensures
        body@ == (BodyView::Dispatch { shadow: shadow_ident@, style: DispatchStyle::Getter }),
{
    Body::Dispatch { shadow: String::from_str(shadow_ident), style: DispatchStyle::Getter }
}

/// The body of a constructor shim: `super()` where the class extends
/// another, then the call of `shadow_ident`.
pub fn gen_proxy_body_constructor(shadow_ident: &str, has_super: bool) -> (body: Body)
    ensures
        body@ == (BodyView::Dispatch {
            shadow: shadow_ident@,
            style: DispatchStyle::Construct { call_super: has_super },
        }),
{
    Body::Dispatch {
        shadow: String::from_str(shadow_ident),
        style: DispatchStyle::Construct { call_super: has_super },
    }
}

/// Turns a method into its shim and hands back the body and the parameter
/// list that move to the shadow.
pub fn replace_to_proxy_function(func: Callable, shadow_ident: &str, is_getter: bool) -> (out: (
    Callable,
    Body,
    Params,
))
    ensures
        out.0@ == proxy_function(func@, shadow_ident@, is_getter),
        out.1@ == func@.body,
        out.2@ == moved_params(func@, is_getter),
{
    let Callable { is_async, params, body } = func;
    if is_getter {
        let none = Params::Source { properties: Vec::new(), marks: Vec::new() };
        assert(none@ == no_params()) by {
            assert(none@->Source_properties =~= Seq::empty());
            assert(none@->Source_marks =~= Seq::empty());
        }
        (Callable { is_async, params, body: gen_proxy_body_getter(shadow_ident) }, body, none)
    } else {
        (
            Callable { is_async, params: gen_proxy_arg(), body: gen_proxy_body(shadow_ident) },
            body,
            params,
        )
    }
}

/// Drops the statements that are a direct call of `super`.
fn strip_super_calls(stmts: Vec<Stmt>) -> (kept: Vec<Stmt>)
    ensures
        stmts_view(kept) == without_super_calls(stmts_view(stmts)),
{
    let ghost all = stmts_view(stmts);
    let mut rest = reversed(stmts);
    let mut kept: Vec<Stmt> = Vec::new();
    let ghost mut seen: int = 0;
    while rest.len() > 0
        invariant
            0 <= seen,
            rest@.len() + seen == stmts@.len(),
            rest@ == stmts@.reverse().take(rest@.len() as int),
            all == stmts_view(stmts),
            stmts_view(kept) == without_super_calls(all.take(seen)),
        decreases rest.len(),
    {
        let stmt = rest.pop().unwrap();
        assert(stmt == stmts@[seen]);
        assert(all.take(seen + 1).drop_last() =~= all.take(seen));
        assert(all.take(seen + 1).last() == stmt@);
        if !stmt.is_super_call {
            kept.push(stmt);
            assert(stmts_view(kept) =~= without_super_calls(all.take(seen + 1)));
        }
        proof {
            seen = seen + 1;
        }
    }
    assert(all.take(seen) =~= all);
    kept
}

/// Turns a constructor into its shim and hands back the body, without its
/// direct calls of `super`, and the parameter list that move to the shadow.
pub fn replace_to_proxy_function_for_constructor(
    constructor: Callable,
    shadow_ident: &str,
    has_super: bool,
) -> (out: (Callable, Body, Params))
    ensures
        out.0@ == proxy_constructor(constructor@, shadow_ident@, has_super),
        out.1@ == stripped(constructor@.body),
        out.2@ == constructor@.params,
{
    let Callable { is_async, params, body } = constructor;
    let moved = match body {
        Body::Block(stmts) => Body::Block(strip_super_calls(stmts)),
        Body::Dispatch { shadow, style } => match style {
            DispatchStyle::Construct { .. } => Body::Dispatch {
                shadow,
                style: DispatchStyle::Construct { call_super: false },
            },
            _ => Body::Dispatch { shadow, style },
        },
        other => other,
    };
    (
        Callable {
            is_async,
            params: gen_proxy_arg(),
            body: gen_proxy_body_constructor(shadow_ident, has_super),
        },
        moved,
        params,
    )
}

/// Turns an arrow function into its shim and hands back the body and the
/// parameter list that move to the shadow.
pub fn replace_to_proxy_arrow(func: Callable, shadow_ident: &str) -> (out: (Callable, Body, Params))
    ensures
        out.0@ == proxy_function(func@, shadow_ident@, false),
        out.1@ == func@.body,
        out.2@ == func@.params,
{
    let Callable { is_async, params, body } = func;
    (Callable { is_async, params: gen_proxy_arg(), body: gen_proxy_body(shadow_ident) }, body, params)
}

/// The key a member keeps and the name of its shadow.
fn split_key(key: Key, class_key: &str) -> (out: (Key, Option<String>))
    ensures
        out.0@ == public_key(key@, class_key@),
        optional_text(out.1) == shadow_of_key(key@, class_key@),
{
    match key {
        Key::Ident(name) => {
            let shadow = get_shadow_ident(name.as_str(), class_key, false);
            (Key::Ident(name), Some(shadow))
        },
        Key::Private(name) => {
            let shadow = get_shadow_ident(name.as_str(), class_key, true);
            (Key::Ident(get_private_ident(name.as_str(), class_key)), Some(shadow))
        },
        Key::Computed => (Key::Computed, None),
    }
}

/// Splits one member of the class `key`: hands back the member that stays in
/// its place and, where the member is function-like, the shadow method that
/// holds its code.
pub fn transform_fn(node: Member, key: &str, has_super: bool) -> (out: (Member, Option<Member>))
    ensures
        out.0@ == shim_of(node@, key@, has_super),
        member_view(out.1) == shadow_of(node@, key@),
        out.1 is Some <==> is_function_like(node@),
{
    match node {
        Member::Constructor { origin, callable } => {
            let shadow_ident = get_shadow_ident("constructor", key, false);
            let (shim, body, params) = replace_to_proxy_function_for_constructor(
                callable,
                shadow_ident.as_str(),
                has_super,
            );
            (
                Member::Constructor { origin, callable: shim },
                Some(gen_shadow_member(origin, shadow_ident, false, body, params, false)),
            )
        },
        Member::Method {
            origin,
            key: member_key,
            kind,
            is_static,
            key_marks,
            decorator_marks,
            callable,
        } => {
            let (public, shadow) = split_key(member_key, key);
            match shadow {
                Some(shadow_ident) => {
                    let is_async = callable.is_async;
                    let is_getter = match kind {
                        MethodKind::Getter => true,
                        _ => false,
                    };
                    let (shim, body, params) = replace_to_proxy_function(
                        callable,
                        shadow_ident.as_str(),
                        is_getter,
                    );
                    (
                        Member::Method {
                            origin,
                            key: public,
                            kind,
                            is_static,
                            key_marks,
                            decorator_marks,
                            callable: shim,
                        },
                        Some(
                            gen_shadow_member(origin, shadow_ident, is_static, body, params, is_async),
                        ),
                    )
                },
                None => (
                    Member::Method {
                        origin,
                        key: public,
                        kind,
                        is_static,
                        key_marks,
                        decorator_marks,
                        callable,
                    },
                    None,
                ),
            }
        },
        Member::Field {
            origin,
            key: member_key,
            is_static,
            decorators,
            key_marks,
            value,
            decorator_marks,
        } => {
            let (public, shadow) = split_key(member_key, key);
            match (shadow, value) {
                (Some(shadow_ident), Initializer::Arrow(func)) => {
                    let is_async = func.is_async;
                    let (shim, body, params) = replace_to_proxy_arrow(func, shadow_ident.as_str());
                    (
                        Member::Field {
                            origin,
                            key: public,
                            is_static,
                            decorators,
                            key_marks,
                            value: Initializer::Arrow(shim),
                            decorator_marks,
                        },
                        Some(
                            gen_shadow_member(origin, shadow_ident, is_static, body, params, is_async),
                        ),
                    )
                },
                (_, value) => (
                    Member::Field {
                        origin,
                        key: public,
                        is_static,
                        decorators,
                        key_marks,
                        value,
                        decorator_marks,
                    },
                    None,
                ),
            }
        },
        other => (other, None),
    }
}

} // verus!
