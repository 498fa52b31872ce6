//! The rewrite of a class: private names become ordinary ones, every
//! function-like member is split into shim and shadow, the data members are
//! recorded, and the class is registered under its identity.

use crate::fields::field_of;
use crate::fields::gen_hmr_props;
use crate::fields::get_field;
use crate::fields::present;
use crate::fields::props_view;
use crate::lists::reversed;
use crate::names::get_private_ident;
use crate::names::private_name;
use crate::safety::scan_class;
use crate::shadow::shadow_of;
use crate::shadow::shim_of;
use crate::shadow::transform_fn;
use crate::surface::HASH_KEY_PREFIX;
use crate::syntax::decorators_view;
use crate::syntax::marks_view;
use crate::syntax::members_view;
use crate::syntax::stmts_view;
use crate::syntax::Body;
use crate::syntax::BodyView;
use crate::syntax::Callable;
use crate::syntax::CallableView;
use crate::syntax::ClassUnit;
use crate::syntax::ClassView;
use crate::syntax::Decorator;
use crate::syntax::DecoratorView;
use crate::syntax::FieldProp;
use crate::syntax::FieldPropView;
use crate::syntax::Initializer;
use crate::syntax::InitializerView;
use crate::syntax::Member;
use crate::syntax::MemberView;
use crate::syntax::Params;
use crate::syntax::ParamsView;
use crate::syntax::Stmt;
use crate::syntax::StmtView;
use crate::syntax::Syntax;
use crate::syntax::SyntaxView;
use crate::text::starts_with;
use crate::visitor::class_name;
use crate::visitor::is_synthesized;
use crate::visitor::named;
use crate::visitor::TransformVisitor;
use crate::visitor::VisitorView;
use vstd::prelude::*;
use vstd::string::StringExecFns;

verus! {

/// A member access as the rewrite leaves it: inside a class, a private name
/// becomes the ordinary name that encodes it under the innermost class.
pub open spec fn renamed_access(st: VisitorView, name: Seq<char>) -> SyntaxView {
    if st.class_stack.len() > 0 {
        SyntaxView::MangledAccess { name: private_name(name, st.class_stack.last()) }
    } else {
        SyntaxView::PrivateAccess { name }
    }
}

/// One construct after the rewrite, with the state after it.
pub open spec fn rewrite_mark(st: VisitorView, mark: SyntaxView) -> (VisitorView, SyntaxView)
    decreases mark,
{
    match mark {
        SyntaxView::PrivateAccess { name } => (st, renamed_access(st, name)),
        SyntaxView::Class(class) => {
            let (after, out) = rewrite_class(st, class);
            (after, SyntaxView::Class(out))
        },
        _ => (st, mark),
    }
}

/// The constructs of `marks` after the rewrite, with the state after them.
pub open spec fn rewrite_marks(st: VisitorView, marks: Seq<SyntaxView>) -> (
    VisitorView,
    Seq<SyntaxView>,
)
    decreases marks,
{
    if marks.len() == 0 {
        (st, Seq::empty())
    } else {
        let (mid, done) = rewrite_marks(st, marks.drop_last());
        let (after, out) = rewrite_mark(mid, marks.last());
        (after, done.push(out))
    }
}

/// One statement after the rewrite.
pub open spec fn rewrite_stmt(st: VisitorView, stmt: StmtView) -> (VisitorView, StmtView)
    decreases stmt,
{
    let (after, marks) = rewrite_marks(st, stmt.marks);
    (after, StmtView { origin: stmt.origin, is_super_call: stmt.is_super_call, marks })
}

/// The statements of `stmts` after the rewrite.
pub open spec fn rewrite_stmts(st: VisitorView, stmts: Seq<StmtView>) -> (
    VisitorView,
    Seq<StmtView>,
)
    decreases stmts,
{
    if stmts.len() == 0 {
        (st, Seq::empty())
    } else {
        let (mid, done) = rewrite_stmts(st, stmts.drop_last());
        let (after, out) = rewrite_stmt(mid, stmts.last());
        (after, done.push(out))
    }
}

/// A body after the rewrite.
pub open spec fn rewrite_body(st: VisitorView, body: BodyView) -> (VisitorView, BodyView)
    decreases body,
{
    match body {
        BodyView::Block(stmts) => {
            let (after, out) = rewrite_stmts(st, stmts);
            (after, BodyView::Block(out))
        },
        BodyView::Expr(marks) => {
            let (after, out) = rewrite_marks(st, marks);
            (after, BodyView::Expr(out))
        },
        _ => (st, body),
    }
}

/// The parameters of a method or an arrow function after the rewrite.
pub open spec fn rewrite_params(st: VisitorView, params: ParamsView) -> (VisitorView, ParamsView)
    decreases params,
{
    match params {
        ParamsView::Source { properties, marks } => {
            let (after, out) = rewrite_marks(st, marks);
            (after, ParamsView::Source { properties, marks: out })
        },
        ParamsView::Rest => (st, params),
    }
}

/// A method, a constructor or an arrow function after the rewrite: first
/// its parameters, then its body.
pub open spec fn rewrite_callable(st: VisitorView, func: CallableView) -> (
    VisitorView,
    CallableView,
)
    decreases func,
{
    let (mid, params) = rewrite_params(st, func.params);
    let (after, body) = rewrite_body(mid, func.body);
    (after, CallableView { is_async: func.is_async, params, body })
}

/// An initializer after the rewrite.
pub open spec fn rewrite_initializer(st: VisitorView, value: InitializerView) -> (
    VisitorView,
    InitializerView,
)
    decreases value,
{
    match value {
        InitializerView::Absent => (st, value),
        InitializerView::Arrow(func) => {
            let (after, out) = rewrite_callable(st, func);
            (after, InitializerView::Arrow(out))
        },
        InitializerView::Other(marks) => {
            let (after, out) = rewrite_marks(st, marks);
            (after, InitializerView::Other(out))
        },
    }
}

/// One member after the rewrite of what it contains; it is not split yet.
pub open spec fn rewrite_member(st: VisitorView, member: MemberView) -> (VisitorView, MemberView)
    decreases member,
{
    match member {
        MemberView::Constructor { origin, callable } => {
            let (after, out) = rewrite_callable(st, callable);
            (after, MemberView::Constructor { origin, callable: out })
        },
        MemberView::Method {
            origin,
            key,
            kind,
            is_static,
            key_marks,
            decorator_marks,
            callable,
        } => {
            let (s1, key_marks) = rewrite_marks(st, key_marks);
            let (s2, params) = rewrite_params(s1, callable.params);
            let (s3, decorator_marks) = rewrite_marks(s2, decorator_marks);
            let (s4, body) = rewrite_body(s3, callable.body);
            (
                s4,
                MemberView::Method {
                    origin,
                    key,
                    kind,
                    is_static,
                    key_marks,
                    decorator_marks,
                    callable: CallableView { is_async: callable.is_async, params, body },
                },
            )
        },
        MemberView::Field {
            origin,
            key,
            is_static,
            decorators,
            key_marks,
            value,
            decorator_marks,
        } => {
            let (s1, key_marks) = rewrite_marks(st, key_marks);
            let (s2, value) = rewrite_initializer(s1, value);
            let (s3, decorator_marks) = rewrite_marks(s2, decorator_marks);
            (
                s3,
                MemberView::Field {
                    origin,
                    key,
                    is_static,
                    decorators,
                    key_marks,
                    value,
                    decorator_marks,
                },
            )
        },
        MemberView::StaticBlock { origin, body } => {
            let (after, out) = rewrite_stmts(st, body);
            (after, MemberView::StaticBlock { origin, body: out })
        },
        MemberView::FieldTable { .. } => (st, member),
        MemberView::Other { origin, marks } => {
            let (after, out) = rewrite_marks(st, marks);
            (after, MemberView::Other { origin, marks: out })
        },
    }
}

/// The members of `members` after the rewrite of what they contain.
pub open spec fn rewrite_members(st: VisitorView, members: Seq<MemberView>) -> (
    VisitorView,
    Seq<MemberView>,
)
    decreases members,
{
    if members.len() == 0 {
        (st, Seq::empty())
    } else {
        let (mid, done) = rewrite_members(st, members.drop_last());
        let (after, out) = rewrite_member(mid, members.last());
        (after, done.push(out))
    }
}

/// The member list after the split: the members in their order, each
/// function-like one followed at once by its shadow.
pub open spec fn split(members: Seq<MemberView>, key: Seq<char>, has_super: bool) -> Seq<
    MemberView,
>
    decreases members.len(),
{
    if members.len() == 0 {
        Seq::empty()
    } else {
        let head = split(members.drop_last(), key, has_super).push(
            shim_of(members.last(), key, has_super),
        );
        match shadow_of(members.last(), key) {
            Some(shadow) => head.push(shadow),
            None => head,
        }
    }
}

/// What the members that got no shadow contribute to the field table, in the
/// order of the members.
pub open spec fn field_records(members: Seq<MemberView>, key: Seq<char>, has_super: bool) -> Seq<
    Option<FieldPropView>,
>
    decreases members.len(),
{
    if members.len() == 0 {
        Seq::empty()
    } else {
        let head = field_records(members.drop_last(), key, has_super);
        if shadow_of(members.last(), key) is None {
            head.push(field_of(shim_of(members.last(), key, has_super)))
        } else {
            head
        }
    }
}

/// The field table of a class with these members: the records of its data
/// members, the last member first.
pub open spec fn field_table(members: Seq<MemberView>, key: Seq<char>, has_super: bool) -> MemberView {
    MemberView::FieldTable { fields: present(field_records(members, key, has_super).reverse()) }
}

/// The registration of a class under `identity`.
pub open spec fn register_class(identity: Seq<char>) -> DecoratorView {
    DecoratorView::Register { identity }
}

/// A class after the rewrite, with the state after it. The class gets its
/// identity. Without one it stays as it is. With one, what it contains is
/// rewritten under that identity, its members are split, the field table is
/// appended to them and the registration to its decorators; a declared
/// identity marks the module as one that defines an element.
pub open spec fn rewrite_class(st: VisitorView, class: ClassView) -> (VisitorView, ClassView)
    decreases class,
{
    let name = class_name(st, class.decorators);
    let st1 = named(st, class.decorators);
    if name.len() == 0 {
        (st1, class)
    } else {
        let (s1, decorator_marks) = rewrite_marks(st1.entered(name), class.decorator_marks);
        let (s2, members) = rewrite_members(s1, class.members);
        let (s3, heritage_marks) = rewrite_marks(s2, class.heritage_marks);
        (
            VisitorView { has_element: s3.has_element || !is_synthesized(name), ..s3.left() },
            ClassView {
                decorators: class.decorators.push(register_class(name)),
                decorator_marks,
                members: split(members, name, class.has_super).push(
                    field_table(members, name, class.has_super),
                ),
                has_super: class.has_super,
                heritage_marks,
            },
        )
    }
}

/// A class after a visit from outside any rewritten class: where the guards
/// raise the reload flag, or it was raised before, the class stays exactly as
/// it is; else it is rewritten.
pub open spec fn visit_class(st: VisitorView, class: ClassView) -> (VisitorView, ClassView) {
    let scanned = scan_class(st, class);
    if scanned.need_reload {
        (scanned, class)
    } else {
        rewrite_class(VisitorView { class_index: st.class_index, ..scanned }, class)
    }
}

/// Builds the decorator that registers the class under `name`.
pub fn gen_register_class(name: &str) -> (decorator: Decorator)
    ensures
        decorator@ == register_class(name@),
{
    Decorator::Register { identity: String::from_str(name) }
}

/// Splits every member of `members`; hands back the new member list and
/// what the members without shadow contribute to the field table.
pub fn split_members(members: Vec<Member>, key: &str, has_super: bool) -> (out: (
    Vec<Member>,
    Vec<Option<FieldProp>>,
))
    ensures
        members_view(out.0) == split(members_view(members), key@, has_super),
        props_view(out.1) == field_records(members_view(members), key@, has_super),
{
    let ghost all = members_view(members);
    let mut rest = reversed(members);
    let mut body: Vec<Member> = Vec::new();
    let mut props: Vec<Option<FieldProp>> = Vec::new();
    let ghost mut seen: int = 0;
    while rest.len() > 0
        invariant
            0 <= seen,
            rest@.len() + seen == members@.len(),
            rest@ == members@.reverse().take(rest@.len() as int),
            all == members_view(members),
            members_view(body) == split(all.take(seen), key@, has_super),
            props_view(props) == field_records(all.take(seen), key@, has_super),
        decreases rest.len(),
    {
        let item = rest.pop().unwrap();
        assert(item == members@[seen]);
        assert(all.take(seen + 1).drop_last() =~= all.take(seen));
        assert(all.take(seen + 1).last() == item@);
        let ghost body_before = members_view(body);
        let ghost props_before = props_view(props);
        let (origin_member, append) = transform_fn(item, key, has_super);
        if append.is_none() {
            props.push(get_field(&origin_member));
            assert(props_view(props) =~= props_before.push(field_of(origin_member@)));
        }
        body.push(origin_member);
        assert(members_view(body) =~= body_before.push(shim_of(item@, key@, has_super)));
        if let Some(shadow_member) = append {
            body.push(shadow_member);
            assert(members_view(body) =~= body_before.push(shim_of(item@, key@, has_super)).push(
                shadow_member@,
            ));
        }
        proof {
            seen = seen + 1;
        }
    }
    assert(all.take(seen) =~= all);
    (body, props)
}

impl TransformVisitor {
    /// Names a member access through the private name `name` inside the
    /// innermost class.
    pub fn visit_mut_member_expr(&self, name: &str) -> (ident: String)
        requires
            self.class_stack.len() > 0,
        ensures
            ident@ == private_name(name@, self@.class_stack.last()),
    {
        get_private_ident(name, self.get_current_tag_name())
    }

    /// Rewrites the constructs of `marks`.
    pub fn rewrite_marks(&mut self, marks: Vec<Syntax>) -> (out: Vec<Syntax>)
        ensures
            final(self)@.class_stack == old(self)@.class_stack,
            final(self)@ == rewrite_marks(old(self)@, marks_view(marks)).0,
            marks_view(out) == rewrite_marks(old(self)@, marks_view(marks)).1,
        decreases marks,
    {
        let ghost start = self@;
        let ghost all = marks_view(marks);
        let mut rest = reversed(marks);
        let mut out: Vec<Syntax> = Vec::new();
        while rest.len() > 0
            invariant
                rest@.len() + out@.len() == marks@.len(),
                rest@ == marks@.reverse().take(rest@.len() as int),
                all == marks_view(marks),
                self@.class_stack == start.class_stack,
                self@ == rewrite_marks(start, all.take(out@.len() as int)).0,
                marks_view(out) == rewrite_marks(start, all.take(out@.len() as int)).1,
            decreases rest.len(),
        {
            let ghost seen = out@.len() as int;
            let ghost before = self@;
            let ghost done = marks_view(out);
            let mark = rest.pop().unwrap();
            assert(mark == marks@[seen]);
            assert(all.take(seen + 1).drop_last() =~= all.take(seen));
            assert(all.take(seen + 1).last() == mark@);
            let next = match mark {
                Syntax::PrivateAccess { name } => {
                    if self.class_stack.len() > 0 {
                        Syntax::MangledAccess { name: self.visit_mut_member_expr(name.as_str()) }
                    } else {
                        Syntax::PrivateAccess { name }
                    }
                },
                Syntax::Class(class) => Syntax::Class(self.rewrite_class(class)),
                other => other,
            };
            assert(self@ == rewrite_mark(before, mark@).0);
            assert(next@ == rewrite_mark(before, mark@).1);
            out.push(next);
            assert(marks_view(out) =~= done.push(next@));
        }
        assert(all.take(out@.len() as int) =~= all);
        out
    }

    /// Rewrites the statements of `stmts`.
    pub fn rewrite_stmts(&mut self, stmts: Vec<Stmt>) -> (out: Vec<Stmt>)
        ensures
            final(self)@.class_stack == old(self)@.class_stack,
            final(self)@ == rewrite_stmts(old(self)@, stmts_view(stmts)).0,
            stmts_view(out) == rewrite_stmts(old(self)@, stmts_view(stmts)).1,
        decreases stmts,
    {
        let ghost start = self@;
        let ghost all = stmts_view(stmts);
        let mut rest = reversed(stmts);
        let mut out: Vec<Stmt> = Vec::new();
        while rest.len() > 0
            invariant
                rest@.len() + out@.len() == stmts@.len(),
                rest@ == stmts@.reverse().take(rest@.len() as int),
                all == stmts_view(stmts),
                self@.class_stack == start.class_stack,
                self@ == rewrite_stmts(start, all.take(out@.len() as int)).0,
                stmts_view(out) == rewrite_stmts(start, all.take(out@.len() as int)).1,
            decreases rest.len(),
        {
            let ghost seen = out@.len() as int;
            let ghost done = stmts_view(out);
            let stmt = rest.pop().unwrap();
            assert(stmt == stmts@[seen]);
            assert(all.take(seen + 1).drop_last() =~= all.take(seen));
            assert(all.take(seen + 1).last() == stmt@);
            let ghost before = self@;
            let Stmt { origin, is_super_call, marks } = stmt;
            let marks = self.rewrite_marks(marks);
            let next = Stmt { origin, is_super_call, marks };
            assert(self@ == rewrite_stmt(before, stmt@).0);
            assert(next@ == rewrite_stmt(before, stmt@).1);
            out.push(next);
            assert(stmts_view(out) =~= done.push(next@));
        }
        assert(all.take(out@.len() as int) =~= all);
        out
    }

    /// Rewrites a body.
    pub fn rewrite_body(&mut self, body: Body) -> (out: Body)
        ensures
            final(self)@.class_stack == old(self)@.class_stack,
            final(self)@ == rewrite_body(old(self)@, body@).0,
            out@ == rewrite_body(old(self)@, body@).1,
        decreases body,
    {
        match body {
            Body::Block(stmts) => Body::Block(self.rewrite_stmts(stmts)),
            Body::Expr(marks) => Body::Expr(self.rewrite_marks(marks)),
            other => other,
        }
    }

    /// Rewrites the parameters of a method or an arrow function.
    pub fn rewrite_params(&mut self, params: Params) -> (out: Params)
        ensures
            final(self)@.class_stack == old(self)@.class_stack,
            final(self)@ == rewrite_params(old(self)@, params@).0,
            out@ == rewrite_params(old(self)@, params@).1,
        decreases params,
    {
        match params {
            Params::Source { properties, marks } => Params::Source {
                properties,
                marks: self.rewrite_marks(marks),
            },
            Params::Rest => Params::Rest,
        }
    }

    /// Rewrites an initializer.
    pub fn rewrite_initializer(&mut self, value: Initializer) -> (out: Initializer)
        ensures
            final(self)@.class_stack == old(self)@.class_stack,
            final(self)@ == rewrite_initializer(old(self)@, value@).0,
            out@ == rewrite_initializer(old(self)@, value@).1,
        decreases value,
    {
        match value {
            Initializer::Absent => Initializer::Absent,
            Initializer::Arrow(func) => {
                let Callable { is_async, params, body } = func;
                let params = self.rewrite_params(params);
                let body = self.rewrite_body(body);
                Initializer::Arrow(Callable { is_async, params, body })
            },
            Initializer::Other(marks) => Initializer::Other(self.rewrite_marks(marks)),
        }
    }

    /// Rewrites what one member contains.
    pub fn rewrite_member(&mut self, member: Member) -> (out: Member)
        ensures
            final(self)@.class_stack == old(self)@.class_stack,
            final(self)@ == rewrite_member(old(self)@, member@).0,
            out@ == rewrite_member(old(self)@, member@).1,
        decreases member,
    {
        match member {
            Member::Constructor { origin, callable } => {
                let Callable { is_async, params, body } = callable;
                let params = self.rewrite_params(params);
                let body = self.rewrite_body(body);
                Member::Constructor { origin, callable: Callable { is_async, params, body } }
            },
            Member::Method {
                origin,
                key,
                kind,
                is_static,
                key_marks,
                decorator_marks,
                callable,
            } => {
                let Callable { is_async, params, body } = callable;
                let key_marks = self.rewrite_marks(key_marks);
                let params = self.rewrite_params(params);
                let decorator_marks = self.rewrite_marks(decorator_marks);
                let body = self.rewrite_body(body);
                Member::Method {
                    origin,
                    key,
                    kind,
                    is_static,
                    key_marks,
                    decorator_marks,
                    callable: Callable { is_async, params, body },
                }
            },
            Member::Field {
                origin,
                key,
                is_static,
                decorators,
                key_marks,
                value,
                decorator_marks,
            } => {
                let key_marks = self.rewrite_marks(key_marks);
                let value = self.rewrite_initializer(value);
                let decorator_marks = self.rewrite_marks(decorator_marks);
                Member::Field {
                    origin,
                    key,
                    is_static,
                    decorators,
                    key_marks,
                    value,
                    decorator_marks,
                }
            },
            Member::StaticBlock { origin, body } => Member::StaticBlock {
                origin,
                body: self.rewrite_stmts(body),
            },
            Member::FieldTable { fields } => Member::FieldTable { fields },
            Member::Other { origin, marks } => Member::Other {
                origin,
                marks: self.rewrite_marks(marks),
            },
        }
    }

    /// Rewrites what the members of `members` contain.
    pub fn rewrite_members(&mut self, members: Vec<Member>) -> (out: Vec<Member>)
        ensures
            final(self)@.class_stack == old(self)@.class_stack,
            final(self)@ == rewrite_members(old(self)@, members_view(members)).0,
            members_view(out) == rewrite_members(old(self)@, members_view(members)).1,
        decreases members,
    {
        let ghost start = self@;
        let ghost all = members_view(members);
        let mut rest = reversed(members);
        let mut out: Vec<Member> = Vec::new();
        while rest.len() > 0
            invariant
                rest@.len() + out@.len() == members@.len(),
                rest@ == members@.reverse().take(rest@.len() as int),
                all == members_view(members),
                self@.class_stack == start.class_stack,
                self@ == rewrite_members(start, all.take(out@.len() as int)).0,
                members_view(out) == rewrite_members(start, all.take(out@.len() as int)).1,
            decreases rest.len(),
        {
            let ghost seen = out@.len() as int;
            let ghost done = members_view(out);
            let member = rest.pop().unwrap();
            assert(member == members@[seen]);
            assert(all.take(seen + 1).drop_last() =~= all.take(seen));
            assert(all.take(seen + 1).last() == member@);
            let ghost before = self@;
            let next = self.rewrite_member(member);
            assert(self@ == rewrite_member(before, member@).0);
            out.push(next);
            assert(members_view(out) =~= done.push(next@));
        }
        assert(all.take(out@.len() as int) =~= all);
        out
    }

    /// Rewrites a class without asking the guards.
    pub fn rewrite_class(&mut self, node: ClassUnit) -> (out: ClassUnit)
        ensures
            final(self)@.class_stack == old(self)@.class_stack,
            final(self)@ == rewrite_class(old(self)@, node@).0,
            out@ == rewrite_class(old(self)@, node@).1,
        decreases node,
    {
        let class_name = self.get_class_name(&node);
        if class_name.as_str().is_empty() {
            return node;
        }
        let ghost inside = self@.entered(class_name@);
        let ClassUnit { decorators, decorator_marks, members, has_super, heritage_marks } = node;
        self.class_stack.push(class_name.clone());
        assert(self@.class_stack =~= inside.class_stack);
        let decorator_marks = self.rewrite_marks(decorator_marks);
        let members = self.rewrite_members(members);
        let heritage_marks = self.rewrite_marks(heritage_marks);
        let ghost walked = self@;
        self.class_stack.pop();
        assert(self@.class_stack =~= walked.left().class_stack);
        if !starts_with(class_name.as_str(), HASH_KEY_PREFIX) {
            self.has_element = true;
        }
        let (body, props) = split_members(members, class_name.as_str(), has_super);
        let ghost records = props_view(props);
        let latest_first = reversed(props);
        assert(props_view(latest_first) =~= records.reverse());
        let mut body = body;
        let ghost split_body = members_view(body);
        let table = gen_hmr_props(latest_first);
        body.push(table);
        assert(members_view(body) =~= split_body.push(table@));
        let mut decorators = decorators;
        let ghost declared = decorators_view(decorators);
        let register = gen_register_class(class_name.as_str());
        decorators.push(register);
        assert(decorators_view(decorators) =~= declared.push(register@));
        ClassUnit { decorators, decorator_marks, members: body, has_super, heritage_marks }
    }

    /// Visits a class that stands outside any rewritten class: the guards
    /// walk it first, and only a class that raises no flag is rewritten.
    pub fn visit_mut_class(&mut self, node: ClassUnit) -> (out: ClassUnit)
        ensures
            final(self)@ == visit_class(old(self)@, node@).0,
            out@ == visit_class(old(self)@, node@).1,
    {
        let start_index = self.class_index;
        self.scan_class(&node);
        if self.need_reload {
            return node;
        }
        self.class_index = start_index;
        self.rewrite_class(node)
    }
}

} // verus!
