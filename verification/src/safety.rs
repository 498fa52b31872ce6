//! The guards that decide whether a class can be replaced while the program
//! runs. A walk over the class, in source order, raises the reload flag at
//! each construct that the shadow dispatch cannot stand for: a parameter
//! property of a constructor, a call of `super` with arguments, `new.target`,
//! a `return` with a value while inside a constructor, and a class without
//! identity.

use crate::syntax::marks_view;
use crate::syntax::members_view;
use crate::syntax::stmts_view;
use crate::syntax::Body;
use crate::syntax::BodyView;
use crate::syntax::Callable;
use crate::syntax::CallableView;
use crate::syntax::ClassUnit;
use crate::syntax::ClassView;
use crate::syntax::Initializer;
use crate::syntax::InitializerView;
use crate::syntax::Member;
use crate::syntax::MemberView;
use crate::syntax::Params;
use crate::syntax::ParamsView;
use crate::syntax::Stmt;
use crate::syntax::StmtView;
use crate::syntax::Syntax;
use crate::syntax::SyntaxView;
use crate::visitor::class_name;
use crate::visitor::named;
use crate::visitor::TransformVisitor;
use crate::visitor::VisitorView;
use vstd::prelude::*;

verus! {

/// The state after a call of `super` with `arg_count` arguments.
pub open spec fn after_super_call(st: VisitorView, arg_count: nat) -> VisitorView {
    if arg_count > 0 {
        st.flagged()
    } else {
        st
    }
}

/// The state after a `return` statement.
pub open spec fn after_return(st: VisitorView, has_value: bool) -> VisitorView {
    if st.in_constructor && has_value {
        st.flagged()
    } else {
        st
    }
}

/// The state after one constructor parameter.
pub open spec fn after_param(st: VisitorView, is_property: bool) -> VisitorView {
    if is_property && st.in_constructor {
        st.flagged()
    } else {
        st
    }
}

/// The state after the parameters of a constructor have been asked whether
/// they declare a property.
pub open spec fn after_params(st: VisitorView, properties: Seq<bool>) -> VisitorView
    decreases properties.len(),
{
    if properties.len() == 0 {
        st
    } else {
        after_param(after_params(st, properties.drop_last()), properties.last())
    }
}

/// The state after one construct.
pub open spec fn scan_mark(st: VisitorView, mark: SyntaxView) -> VisitorView
    decreases mark,
{
    match mark {
        SyntaxView::NewTarget => st.flagged(),
        SyntaxView::SuperCall { arg_count } => after_super_call(st, arg_count),
        SyntaxView::Return { has_value } => after_return(st, has_value),
        SyntaxView::PrivateAccess { .. } => st,
        SyntaxView::MangledAccess { .. } => st,
        SyntaxView::Class(class) => scan_class(st, class),
    }
}

/// The state after the constructs of `marks`, in order.
pub open spec fn scan_marks(st: VisitorView, marks: Seq<SyntaxView>) -> VisitorView
    decreases marks,
{
    if marks.len() == 0 {
        st
    } else {
        scan_mark(scan_marks(st, marks.drop_last()), marks.last())
    }
}

/// The state after the statements of `stmts`, in order.
pub open spec fn scan_stmts(st: VisitorView, stmts: Seq<StmtView>) -> VisitorView
    decreases stmts,
{
    if stmts.len() == 0 {
        st
    } else {
        scan_marks(scan_stmts(st, stmts.drop_last()), stmts.last().marks)
    }
}

/// The state after a body.
pub open spec fn scan_body(st: VisitorView, body: BodyView) -> VisitorView
    decreases body,
{
    match body {
        BodyView::Absent => st,
        BodyView::Block(stmts) => scan_stmts(st, stmts),
        BodyView::Expr(marks) => scan_marks(st, marks),
        BodyView::Dispatch { .. } => st,
    }
}

/// The state after the parameters of a method or an arrow function.
pub open spec fn scan_params(st: VisitorView, params: ParamsView) -> VisitorView
    decreases params,
{
    match params {
        ParamsView::Source { marks, .. } => scan_marks(st, marks),
        ParamsView::Rest => st,
    }
}

/// The state after a constructor: its parameters and its body are walked
/// with the constructor mark set, and after it the mark is clear, whatever it
/// was before.
pub open spec fn scan_constructor(st: VisitorView, callable: CallableView) -> VisitorView
    decreases callable,
{
    let inside = st.constructing(true);
    let after_head = match callable.params {
        ParamsView::Source { properties, marks } => scan_marks(
            after_params(inside, properties),
            marks,
        ),
        ParamsView::Rest => inside,
    };
    scan_body(after_head, callable.body).constructing(false)
}

/// The state after an initializer.
pub open spec fn scan_initializer(st: VisitorView, value: InitializerView) -> VisitorView
    decreases value,
{
    match value {
        InitializerView::Absent => st,
        InitializerView::Arrow(func) => scan_body(scan_params(st, func.params), func.body),
        InitializerView::Other(marks) => scan_marks(st, marks),
    }
}

/// The state after one member.
pub open spec fn scan_member(st: VisitorView, member: MemberView) -> VisitorView
    decreases member,
{
    match member {
        MemberView::Constructor { callable, .. } => scan_constructor(st, callable),
        MemberView::Method { key_marks, decorator_marks, callable, .. } => scan_body(
            scan_marks(scan_params(scan_marks(st, key_marks), callable.params), decorator_marks),
            callable.body,
        ),
        MemberView::Field { key_marks, value, decorator_marks, .. } => scan_marks(
            scan_initializer(scan_marks(st, key_marks), value),
            decorator_marks,
        ),
        MemberView::StaticBlock { body, .. } => scan_stmts(st, body),
        MemberView::FieldTable { .. } => st,
        MemberView::Other { marks, .. } => scan_marks(st, marks),
    }
}

/// The state after the members of `members`, in order.
pub open spec fn scan_members(st: VisitorView, members: Seq<MemberView>) -> VisitorView
    decreases members,
{
    if members.len() == 0 {
        st
    } else {
        scan_member(scan_members(st, members.drop_last()), members.last())
    }
}

/// The state after a class: it gets its identity; without one the flag is
/// raised and the class is not looked into; with one its decorators, its
/// members and its `extends` clause are walked.
pub open spec fn scan_class(st: VisitorView, class: ClassView) -> VisitorView
    decreases class,
{
    let st1 = named(st, class.decorators);
    if class_name(st, class.decorators).len() == 0 {
        st1.flagged()
    } else {
        scan_marks(
            scan_members(scan_marks(st1, class.decorator_marks), class.members),
            class.heritage_marks,
        )
    }
}

impl TransformVisitor {
    /// Notes the `new.target` meta-property.
    pub fn visit_mut_meta_prop_kind(&mut self)
        ensures
            final(self)@ == old(self)@.flagged(),
    {
        self.need_reload = true;
    }

    /// Notes a call of `super` with `arg_count` arguments.
    pub fn visit_mut_call_expr(&mut self, arg_count: usize)
        ensures
            final(self)@ == after_super_call(old(self)@, arg_count as nat),
    {
        if arg_count > 0 {
            self.need_reload = true;
        }
    }

    /// Notes a `return` statement.
    pub fn visit_mut_return_stmt(&mut self, has_value: bool)
        ensures
            final(self)@ == after_return(old(self)@, has_value),
    {
        if self.in_constructor && has_value {
            self.need_reload = true;
        }
    }

    /// Notes one parameter of a constructor.
    pub fn visit_mut_param_or_ts_param_prop(&mut self, is_property: bool)
        ensures
            final(self)@ == after_param(old(self)@, is_property),
    {
        if is_property {
            if self.in_constructor {
                self.need_reload = true;
            }
        }
    }

    /// Walks the constructs of `marks`.
    pub fn scan_marks(&mut self, marks: &Vec<Syntax>)
        ensures
            final(self)@ == scan_marks(old(self)@, marks_view(*marks)),
        decreases marks,
    {
        let ghost start = self@;
        let ghost all = marks_view(*marks);
        let mut i: usize = 0;
        while i < marks.len()
            invariant
                i <= marks.len(),
                all == marks_view(*marks),
                self@ == scan_marks(start, all.take(i as int)),
            decreases marks.len() - i,
        {
            assert(all.take(i + 1).drop_last() =~= all.take(i as int));
            assert(all.take(i + 1).last() == marks[i as int]@);
            let ghost before = self@;
            assert(scan_marks(start, all.take(i + 1)) == scan_mark(before, marks[i as int]@));
            match &marks[i] {
                Syntax::NewTarget => self.visit_mut_meta_prop_kind(),
                Syntax::SuperCall { arg_count } => self.visit_mut_call_expr(*arg_count),
                Syntax::Return { has_value } => self.visit_mut_return_stmt(*has_value),
                Syntax::PrivateAccess { .. } => {},
                Syntax::MangledAccess { .. } => {},
                Syntax::Class(class) => self.scan_class(class),
            }
            assert(self@ == scan_mark(before, marks[i as int]@));
            i = i + 1;
        }
        assert(all.take(i as int) =~= all);
    }

    /// Walks the statements of `stmts`.
    pub fn scan_stmts(&mut self, stmts: &Vec<Stmt>)
        ensures
            final(self)@ == scan_stmts(old(self)@, stmts_view(*stmts)),
        decreases stmts,
    {
        let ghost start = self@;
        let ghost all = stmts_view(*stmts);
        let mut i: usize = 0;
        while i < stmts.len()
            invariant
                i <= stmts.len(),
                all == stmts_view(*stmts),
                self@ == scan_stmts(start, all.take(i as int)),
            decreases stmts.len() - i,
        {
            assert(all.take(i + 1).drop_last() =~= all.take(i as int));
            assert(all.take(i + 1).last() == stmts[i as int]@);
            self.scan_marks(&stmts[i].marks);
            i = i + 1;
        }
        assert(all.take(i as int) =~= all);
    }

    /// Walks a body.
    pub fn scan_body(&mut self, body: &Body)
        ensures
            final(self)@ == scan_body(old(self)@, body@),
        decreases body,
    {
        match body {
            Body::Absent => {},
            Body::Block(stmts) => self.scan_stmts(stmts),
            Body::Expr(marks) => self.scan_marks(marks),
            Body::Dispatch { .. } => {},
        }
    }

    /// Walks the parameters of a method or an arrow function.
    pub fn scan_params(&mut self, params: &Params)
        ensures
            final(self)@ == scan_params(old(self)@, params@),
        decreases params,
    {
        match params {
            Params::Source { marks, .. } => self.scan_marks(marks),
            Params::Rest => {},
        }
    }

    /// Walks a constructor with the constructor mark set: its parameters are
    /// checked for parameter properties and walked, then its body.
    pub fn visit_mut_constructor(&mut self, callable: &Callable)
        ensures
            final(self)@ == scan_constructor(old(self)@, callable@),
        decreases callable,
    {
        self.in_constructor = true;
        match &callable.params {
            Params::Source { properties, marks } => {
                let ghost inside = self@;
                let mut i: usize = 0;
                while i < properties.len()
                    invariant
                        i <= properties.len(),
                        self@ == after_params(inside, properties@.take(i as int)),
                    decreases properties.len() - i,
                {
                    assert(properties@.take(i + 1).drop_last() =~= properties@.take(i as int));
                    self.visit_mut_param_or_ts_param_prop(properties[i]);
                    i = i + 1;
                }
                assert(properties@.take(i as int) =~= properties@);
                self.scan_marks(marks);
            },
            Params::Rest => {},
        }
        self.scan_body(&callable.body);
        self.in_constructor = false;
    }

    /// Walks an initializer.
    pub fn scan_initializer(&mut self, value: &Initializer)
        ensures
            final(self)@ == scan_initializer(old(self)@, value@),
        decreases value,
    {
        match value {
            Initializer::Absent => {},
            Initializer::Arrow(func) => {
                self.scan_params(&func.params);
                self.scan_body(&func.body);
            },
            Initializer::Other(marks) => self.scan_marks(marks),
        }
    }

    /// Walks one member.
    pub fn scan_member(&mut self, member: &Member)
        ensures
            final(self)@ == scan_member(old(self)@, member@),
        decreases member,
    {
        match member {
            Member::Constructor { callable, .. } => self.visit_mut_constructor(callable),
            Member::Method { key_marks, decorator_marks, callable, .. } => {
                self.scan_marks(key_marks);
                self.scan_params(&callable.params);
                self.scan_marks(decorator_marks);
                self.scan_body(&callable.body);
            },
            Member::Field { key_marks, value, decorator_marks, .. } => {
                self.scan_marks(key_marks);
                self.scan_initializer(value);
                self.scan_marks(decorator_marks);
            },
            Member::StaticBlock { body, .. } => self.scan_stmts(body),
            Member::FieldTable { .. } => {},
            Member::Other { marks, .. } => self.scan_marks(marks),
        }
    }

    /// Walks the members of `members`.
    pub fn scan_members(&mut self, members: &Vec<Member>)
        ensures
            final(self)@ == scan_members(old(self)@, members_view(*members)),
        decreases members,
    {
        let ghost start = self@;
        let ghost all = members_view(*members);
        let mut i: usize = 0;
        while i < members.len()
            invariant
                i <= members.len(),
                all == members_view(*members),
                self@ == scan_members(start, all.take(i as int)),
            decreases members.len() - i,
        {
            assert(all.take(i + 1).drop_last() =~= all.take(i as int));
            assert(all.take(i + 1).last() == members[i as int]@);
            self.scan_member(&members[i]);
            i = i + 1;
        }
        assert(all.take(i as int) =~= all);
    }

    /// Walks a class and raises the reload flag where one of the guards
    /// fires; the class is not changed.
    pub fn scan_class(&mut self, node: &ClassUnit)
        ensures
            final(self)@ == scan_class(old(self)@, node@),
        decreases node,
    {
        let class_name = self.get_class_name(node);
        if class_name.as_str().is_empty() {
            self.need_reload = true;
        } else {
            self.scan_marks(&node.decorator_marks);
            self.scan_members(&node.members);
            self.scan_marks(&node.heritage_marks);
        }
    }
}

} // verus!
