//! What holds of the rewrite on every input.

use crate::class::field_records;
use crate::class::field_table;
use crate::class::rewrite_body;
use crate::class::rewrite_class;
use crate::class::rewrite_initializer;
use crate::class::rewrite_mark;
use crate::class::rewrite_marks;
use crate::class::rewrite_member;
use crate::class::rewrite_members;
use crate::class::rewrite_params;
use crate::class::rewrite_stmt;
use crate::class::rewrite_stmts;
use crate::class::split;
use crate::class::visit_class;
use crate::fields::field_of;
use crate::fields::present;
use crate::module::visit_mark;
use crate::module::visit_marks;
use crate::module::visit_module;
use crate::names::private_name;
use crate::names::privacy_word;
use crate::names::sanitized;
use crate::names::shadow_name;
use crate::safety::after_params;
use crate::safety::scan_body;
use crate::safety::scan_class;
use crate::safety::scan_constructor;
use crate::safety::scan_initializer;
use crate::safety::scan_mark;
use crate::safety::scan_marks;
use crate::safety::scan_member;
use crate::safety::scan_members;
use crate::safety::scan_params;
use crate::safety::scan_stmts;
use crate::shadow::is_function_like;
use crate::shadow::key_name;
use crate::shadow::shadow_of;
use crate::shadow::shim_of;
use crate::syntax::BodyView;
use crate::syntax::CallableView;
use crate::syntax::ClassView;
use crate::syntax::DecoratorView;
use crate::syntax::FieldPropView;
use crate::syntax::HotDirective;
use crate::syntax::InitializerView;
use crate::syntax::MemberView;
use crate::syntax::ModuleView;
use crate::syntax::ParamsView;
use crate::syntax::StmtView;
use crate::syntax::SyntaxView;
use crate::visitor::class_name;
use crate::visitor::named;
use crate::visitor::VisitorView;
use vstd::prelude::*;

verus! {

/// Whether the walk that led from `before` to `after` may have raised the
/// reload flag, but lowered nothing and touched neither the file's path, nor
/// the element mark, nor the enclosing classes.
pub open spec fn only_flags_raised(before: VisitorView, after: VisitorView) -> bool {
    &&& after.filename == before.filename
    &&& after.has_element == before.has_element
    &&& after.class_stack == before.class_stack
    &&& before.need_reload ==> after.need_reload
}

/// Whether the rewrite that led from `before` to `after` left the guards'
/// marks, the file's path and the enclosing classes as they were.
pub open spec fn guards_untouched(before: VisitorView, after: VisitorView) -> bool {
    &&& after.filename == before.filename
    &&& after.need_reload == before.need_reload
    &&& after.in_constructor == before.in_constructor
    &&& after.class_stack == before.class_stack
}

proof fn lemma_after_params(st: VisitorView, properties: Seq<bool>)
    ensures
        only_flags_raised(st, after_params(st, properties)),
        after_params(st, properties).in_constructor == st.in_constructor,
    decreases properties.len(),
{
    if properties.len() > 0 {
        lemma_after_params(st, properties.drop_last());
    }
}

/// The guards only ever raise the reload flag on one construct.
pub proof fn lemma_scan_mark(st: VisitorView, mark: SyntaxView)
    ensures
        only_flags_raised(st, scan_mark(st, mark)),
    decreases mark,
{
    match mark {
        SyntaxView::Class(class) => lemma_scan_class(st, class),
        _ => {},
    }
}

/// The guards only ever raise the reload flag on a run of constructs.
pub proof fn lemma_scan_marks(st: VisitorView, marks: Seq<SyntaxView>)
    ensures
        only_flags_raised(st, scan_marks(st, marks)),
    decreases marks,
{
    if marks.len() > 0 {
        lemma_scan_marks(st, marks.drop_last());
        lemma_scan_mark(scan_marks(st, marks.drop_last()), marks.last());
    }
}

proof fn lemma_scan_stmts(st: VisitorView, stmts: Seq<StmtView>)
    ensures
        only_flags_raised(st, scan_stmts(st, stmts)),
    decreases stmts,
{
    if stmts.len() > 0 {
        lemma_scan_stmts(st, stmts.drop_last());
        lemma_scan_marks(scan_stmts(st, stmts.drop_last()), stmts.last().marks);
    }
}

proof fn lemma_scan_body(st: VisitorView, body: BodyView)
    ensures
        only_flags_raised(st, scan_body(st, body)),
    decreases body,
{
    match body {
        BodyView::Block(stmts) => lemma_scan_stmts(st, stmts),
        BodyView::Expr(marks) => lemma_scan_marks(st, marks),
        _ => {},
    }
}

proof fn lemma_scan_params(st: VisitorView, params: ParamsView)
    ensures
        only_flags_raised(st, scan_params(st, params)),
    decreases params,
{
    match params {
        ParamsView::Source { marks, .. } => lemma_scan_marks(st, marks),
        ParamsView::Rest => {},
    }
}

proof fn lemma_scan_constructor(st: VisitorView, callable: CallableView)
    ensures
        only_flags_raised(st, scan_constructor(st, callable)),
    decreases callable,
{
    let inside = st.constructing(true);
    let after_head = match callable.params {
        ParamsView::Source { properties, marks } => scan_marks(
            after_params(inside, properties),
            marks,
        ),
        ParamsView::Rest => inside,
    };
    match callable.params {
        ParamsView::Source { properties, marks } => {
            lemma_after_params(inside, properties);
            lemma_scan_marks(after_params(inside, properties), marks);
        },
        ParamsView::Rest => {},
    }
    lemma_scan_body(after_head, callable.body);
}

proof fn lemma_scan_initializer(st: VisitorView, value: InitializerView)
    ensures
        only_flags_raised(st, scan_initializer(st, value)),
    decreases value,
{
    match value {
        InitializerView::Absent => {},
        InitializerView::Arrow(func) => {
            lemma_scan_params(st, func.params);
            lemma_scan_body(scan_params(st, func.params), func.body);
        },
        InitializerView::Other(marks) => lemma_scan_marks(st, marks),
    }
}

proof fn lemma_scan_member(st: VisitorView, member: MemberView)
    ensures
        only_flags_raised(st, scan_member(st, member)),
    decreases member,
{
    match member {
        MemberView::Constructor { callable, .. } => lemma_scan_constructor(st, callable),
        MemberView::Method { key_marks, decorator_marks, callable, .. } => {
            let s1 = scan_marks(st, key_marks);
            let s2 = scan_params(s1, callable.params);
            let s3 = scan_marks(s2, decorator_marks);
            lemma_scan_marks(st, key_marks);
            lemma_scan_params(s1, callable.params);
            lemma_scan_marks(s2, decorator_marks);
            lemma_scan_body(s3, callable.body);
        },
        MemberView::Field { key_marks, value, decorator_marks, .. } => {
            let s1 = scan_marks(st, key_marks);
            let s2 = scan_initializer(s1, value);
            lemma_scan_marks(st, key_marks);
            lemma_scan_initializer(s1, value);
            lemma_scan_marks(s2, decorator_marks);
        },
        MemberView::StaticBlock { body, .. } => lemma_scan_stmts(st, body),
        MemberView::FieldTable { .. } => {},
        MemberView::Other { marks, .. } => lemma_scan_marks(st, marks),
    }
}

proof fn lemma_scan_members(st: VisitorView, members: Seq<MemberView>)
    ensures
        only_flags_raised(st, scan_members(st, members)),
    decreases members,
{
    if members.len() > 0 {
        lemma_scan_members(st, members.drop_last());
        lemma_scan_member(scan_members(st, members.drop_last()), members.last());
    }
}

/// The guards only ever raise the reload flag on a class: a flag that was
/// raised before stays raised, and the walk touches neither the file's path,
/// nor the element mark, nor the enclosing classes.
pub proof fn lemma_scan_class(st: VisitorView, class: ClassView)
    ensures
        only_flags_raised(st, scan_class(st, class)),
    decreases class,
{
    let st1 = named(st, class.decorators);
    if class_name(st, class.decorators).len() > 0 {
        let s1 = scan_marks(st1, class.decorator_marks);
        let s2 = scan_members(s1, class.members);
        lemma_scan_marks(st1, class.decorator_marks);
        lemma_scan_members(s1, class.members);
        lemma_scan_marks(s2, class.heritage_marks);
    }
}

/// Whether a construct rules out hot replacement wherever it stands:
/// `new.target`, a call of `super` with arguments, or a class that holds
/// such a construct.
pub open spec fn mark_holds_guard(mark: SyntaxView) -> bool
    decreases mark,
{
    match mark {
        SyntaxView::NewTarget => true,
        SyntaxView::SuperCall { arg_count } => arg_count > 0,
        SyntaxView::Class(class) => class_holds_guard(class),
        _ => false,
    }
}

/// Whether one of `marks` rules out hot replacement.
pub open spec fn marks_hold_guard(marks: Seq<SyntaxView>) -> bool
    decreases marks,
{
    marks.len() > 0 && (marks_hold_guard(marks.drop_last()) || mark_holds_guard(marks.last()))
}

/// Whether one of `stmts` holds a construct that rules out hot replacement.
pub open spec fn stmts_hold_guard(stmts: Seq<StmtView>) -> bool
    decreases stmts,
{
    stmts.len() > 0 && (stmts_hold_guard(stmts.drop_last()) || marks_hold_guard(
        stmts.last().marks,
    ))
}

/// Whether a body holds a construct that rules out hot replacement.
pub open spec fn body_holds_guard(body: BodyView) -> bool
    decreases body,
{
    match body {
        BodyView::Block(stmts) => stmts_hold_guard(stmts),
        BodyView::Expr(marks) => marks_hold_guard(marks),
        _ => false,
    }
}

/// Whether a parameter list holds a construct that rules out hot
/// replacement.
pub open spec fn params_hold_guard(params: ParamsView) -> bool
    decreases params,
{
    match params {
        ParamsView::Source { marks, .. } => marks_hold_guard(marks),
        ParamsView::Rest => false,
    }
}

/// Whether a parameter list declares an instance property.
pub open spec fn declares_property(params: ParamsView) -> bool {
    match params {
        ParamsView::Source { properties, .. } => properties.contains(true),
        ParamsView::Rest => false,
    }
}

/// Whether an initializer holds a construct that rules out hot replacement.
pub open spec fn initializer_holds_guard(value: InitializerView) -> bool
    decreases value,
{
    match value {
        InitializerView::Absent => false,
        InitializerView::Arrow(func) => params_hold_guard(func.params) || body_holds_guard(
            func.body,
        ),
        InitializerView::Other(marks) => marks_hold_guard(marks),
    }
}

/// Whether a member rules out hot replacement: a constructor with a
/// parameter property, or any member that holds `new.target` or a call of
/// `super` with arguments, in whatever part of it.
pub open spec fn member_holds_guard(member: MemberView) -> bool
    decreases member,
{
    match member {
        MemberView::Constructor { callable, .. } => declares_property(callable.params)
            || params_hold_guard(callable.params) || body_holds_guard(callable.body),
        MemberView::Method { key_marks, decorator_marks, callable, .. } => marks_hold_guard(
            key_marks,
        ) || params_hold_guard(callable.params) || marks_hold_guard(decorator_marks)
            || body_holds_guard(callable.body),
        MemberView::Field { key_marks, value, decorator_marks, .. } => marks_hold_guard(key_marks)
            || initializer_holds_guard(value) || marks_hold_guard(decorator_marks),
        MemberView::StaticBlock { body, .. } => stmts_hold_guard(body),
        MemberView::FieldTable { .. } => false,
        MemberView::Other { marks, .. } => marks_hold_guard(marks),
    }
}

/// Whether one of `members` rules out hot replacement.
pub open spec fn members_hold_guard(members: Seq<MemberView>) -> bool
    decreases members,
{
    members.len() > 0 && (members_hold_guard(members.drop_last()) || member_holds_guard(
        members.last(),
    ))
}

/// Whether a class holds, anywhere in it, a construct that rules out hot
/// replacement: in its decorators, in its members, in its `extends` clause,
/// or in a class nested in one of these.
pub open spec fn class_holds_guard(class: ClassView) -> bool
    decreases class,
{
    marks_hold_guard(class.decorator_marks) || members_hold_guard(class.members)
        || marks_hold_guard(class.heritage_marks)
}

proof fn lemma_guard_mark(st: VisitorView, mark: SyntaxView)
    requires
        mark_holds_guard(mark),
    ensures
        scan_mark(st, mark).need_reload,
    decreases mark,
{
    match mark {
        SyntaxView::Class(class) => guard_anywhere_in_a_class_raises_the_flag(st, class),
        _ => {},
    }
}

proof fn lemma_guard_marks(st: VisitorView, marks: Seq<SyntaxView>)
    requires
        marks_hold_guard(marks),
    ensures
        scan_marks(st, marks).need_reload,
    decreases marks,
{
    let mid = scan_marks(st, marks.drop_last());
    if marks_hold_guard(marks.drop_last()) {
        lemma_guard_marks(st, marks.drop_last());
        lemma_scan_mark(mid, marks.last());
    } else {
        lemma_guard_mark(mid, marks.last());
    }
}

proof fn lemma_guard_stmts(st: VisitorView, stmts: Seq<StmtView>)
    requires
        stmts_hold_guard(stmts),
    ensures
        scan_stmts(st, stmts).need_reload,
    decreases stmts,
{
    let mid = scan_stmts(st, stmts.drop_last());
    if stmts_hold_guard(stmts.drop_last()) {
        lemma_guard_stmts(st, stmts.drop_last());
        lemma_scan_marks(mid, stmts.last().marks);
    } else {
        lemma_guard_marks(mid, stmts.last().marks);
    }
}

proof fn lemma_guard_body(st: VisitorView, body: BodyView)
    requires
        body_holds_guard(body),
    ensures
        scan_body(st, body).need_reload,
    decreases body,
{
    match body {
        BodyView::Block(stmts) => lemma_guard_stmts(st, stmts),
        BodyView::Expr(marks) => lemma_guard_marks(st, marks),
        _ => {},
    }
}

proof fn lemma_guard_params(st: VisitorView, params: ParamsView)
    requires
        params_hold_guard(params),
    ensures
        scan_params(st, params).need_reload,
    decreases params,
{
    match params {
        ParamsView::Source { marks, .. } => lemma_guard_marks(st, marks),
        ParamsView::Rest => {},
    }
}

proof fn lemma_guard_properties(st: VisitorView, properties: Seq<bool>)
    requires
        st.in_constructor,
        properties.contains(true),
    ensures
        after_params(st, properties).need_reload,
    decreases properties.len(),
{
    let rest = properties.drop_last();
    lemma_after_params(st, rest);
    if !properties.last() {
        let at = choose|i: int| 0 <= i < properties.len() && properties[i] == true;
        assert(rest[at] == true);
        lemma_guard_properties(st, rest);
    }
}

proof fn lemma_guard_constructor(st: VisitorView, callable: CallableView)
    requires
        declares_property(callable.params) || params_hold_guard(callable.params)
            || body_holds_guard(callable.body),
    ensures
        scan_constructor(st, callable).need_reload,
    decreases callable,
{
    let inside = st.constructing(true);
    match callable.params {
        ParamsView::Source { properties, marks } => {
            let asked = after_params(inside, properties);
            let after_head = scan_marks(asked, marks);
            lemma_after_params(inside, properties);
            lemma_scan_marks(asked, marks);
            lemma_scan_body(after_head, callable.body);
            if properties.contains(true) {
                lemma_guard_properties(inside, properties);
            } else if marks_hold_guard(marks) {
                lemma_guard_marks(asked, marks);
            } else {
                lemma_guard_body(after_head, callable.body);
            }
        },
        ParamsView::Rest => {
            lemma_guard_body(inside, callable.body);
        },
    }
}

proof fn lemma_guard_initializer(st: VisitorView, value: InitializerView)
    requires
        initializer_holds_guard(value),
    ensures
        scan_initializer(st, value).need_reload,
    decreases value,
{
    match value {
        InitializerView::Absent => {},
        InitializerView::Arrow(func) => {
            let mid = scan_params(st, func.params);
            if params_hold_guard(func.params) {
                lemma_guard_params(st, func.params);
                lemma_scan_body(mid, func.body);
            } else {
                lemma_guard_body(mid, func.body);
            }
        },
        InitializerView::Other(marks) => lemma_guard_marks(st, marks),
    }
}

proof fn lemma_guard_member(st: VisitorView, member: MemberView)
    requires
        member_holds_guard(member),
    ensures
        scan_member(st, member).need_reload,
    decreases member,
{
    match member {
        MemberView::Constructor { callable, .. } => lemma_guard_constructor(st, callable),
        MemberView::Method { key_marks, decorator_marks, callable, .. } => {
            let s1 = scan_marks(st, key_marks);
            let s2 = scan_params(s1, callable.params);
            let s3 = scan_marks(s2, decorator_marks);
            lemma_scan_params(s1, callable.params);
            lemma_scan_marks(s2, decorator_marks);
            lemma_scan_body(s3, callable.body);
            if marks_hold_guard(key_marks) {
                lemma_guard_marks(st, key_marks);
            } else if params_hold_guard(callable.params) {
                lemma_guard_params(s1, callable.params);
            } else if marks_hold_guard(decorator_marks) {
                lemma_guard_marks(s2, decorator_marks);
            } else {
                lemma_guard_body(s3, callable.body);
            }
        },
        MemberView::Field { key_marks, value, decorator_marks, .. } => {
            let s1 = scan_marks(st, key_marks);
            let s2 = scan_initializer(s1, value);
            lemma_scan_initializer(s1, value);
            lemma_scan_marks(s2, decorator_marks);
            if marks_hold_guard(key_marks) {
                lemma_guard_marks(st, key_marks);
            } else if initializer_holds_guard(value) {
                lemma_guard_initializer(s1, value);
            } else {
                lemma_guard_marks(s2, decorator_marks);
            }
        },
        MemberView::StaticBlock { body, .. } => lemma_guard_stmts(st, body),
        MemberView::FieldTable { .. } => {},
        MemberView::Other { marks, .. } => lemma_guard_marks(st, marks),
    }
}

proof fn lemma_guard_members(st: VisitorView, members: Seq<MemberView>)
    requires
        members_hold_guard(members),
    ensures
        scan_members(st, members).need_reload,
    decreases members,
{
    let mid = scan_members(st, members.drop_last());
    if members_hold_guard(members.drop_last()) {
        lemma_guard_members(st, members.drop_last());
        lemma_scan_member(mid, members.last());
    } else {
        lemma_guard_member(mid, members.last());
    }
}

/// A class that holds `new.target`, a call of `super` with arguments or a
/// parameter property of a constructor anywhere in it, be it in a parameter
/// list, in a decorator, in the `extends` clause or in a nested class, has
/// the reload flag raised by the guards, in whatever state they start.
pub proof fn guard_anywhere_in_a_class_raises_the_flag(st: VisitorView, class: ClassView)
    requires
        class_holds_guard(class),
    ensures
        scan_class(st, class).need_reload,
    decreases class,
{
    let st1 = named(st, class.decorators);
    if class_name(st, class.decorators).len() > 0 {
        let s1 = scan_marks(st1, class.decorator_marks);
        let s2 = scan_members(s1, class.members);
        lemma_scan_members(s1, class.members);
        lemma_scan_marks(s2, class.heritage_marks);
        if marks_hold_guard(class.decorator_marks) {
            lemma_guard_marks(st1, class.decorator_marks);
        } else if members_hold_guard(class.members) {
            lemma_guard_members(s1, class.members);
        } else {
            lemma_guard_marks(s2, class.heritage_marks);
        }
    }
}

/// A class that holds such a construct anywhere in it comes out of the
/// visit exactly as it went in, with the reload flag up.
pub proof fn class_with_a_guard_anywhere_is_not_changed(st: VisitorView, class: ClassView)
    requires
        class_holds_guard(class),
    ensures
        visit_class(st, class).1 == class,
        visit_class(st, class).0.need_reload,
{
    guard_anywhere_in_a_class_raises_the_flag(st, class);
}

/// Whether none of `marks` is a class.
pub open spec fn marks_plain(marks: Seq<SyntaxView>) -> bool {
    forall|i: int| 0 <= i < marks.len() ==> !((#[trigger] marks[i]) is Class)
}

/// Whether none of `marks` is a class or a member access through a private
/// name.
pub open spec fn marks_public(marks: Seq<SyntaxView>) -> bool {
    forall|i: int|
        0 <= i < marks.len() ==> !((#[trigger] marks[i]) is Class) && !(marks[i] is PrivateAccess)
}

/// Whether no statement of `stmts` holds a class.
pub open spec fn stmts_plain(stmts: Seq<StmtView>) -> bool {
    forall|i: int| 0 <= i < stmts.len() ==> marks_plain((#[trigger] stmts[i]).marks)
}

/// Whether no statement of `stmts` holds a class or a private name.
pub open spec fn stmts_public(stmts: Seq<StmtView>) -> bool {
    forall|i: int| 0 <= i < stmts.len() ==> marks_public((#[trigger] stmts[i]).marks)
}

/// Whether a body holds no class.
pub open spec fn body_plain(body: BodyView) -> bool {
    match body {
        BodyView::Block(stmts) => stmts_plain(stmts),
        BodyView::Expr(marks) => marks_plain(marks),
        _ => true,
    }
}

/// Whether a body holds no class and no private name.
pub open spec fn body_public(body: BodyView) -> bool {
    match body {
        BodyView::Block(stmts) => stmts_public(stmts),
        BodyView::Expr(marks) => marks_public(marks),
        _ => true,
    }
}

/// Whether a parameter list holds no class.
pub open spec fn params_plain(params: ParamsView) -> bool {
    match params {
        ParamsView::Source { marks, .. } => marks_plain(marks),
        ParamsView::Rest => true,
    }
}

/// Whether a parameter list holds no class and no private name.
pub open spec fn params_public(params: ParamsView) -> bool {
    match params {
        ParamsView::Source { marks, .. } => marks_public(marks),
        ParamsView::Rest => true,
    }
}

/// Whether an initializer holds no class.
pub open spec fn initializer_plain(value: InitializerView) -> bool {
    match value {
        InitializerView::Absent => true,
        InitializerView::Arrow(func) => params_plain(func.params) && body_plain(func.body),
        InitializerView::Other(marks) => marks_plain(marks),
    }
}

/// Whether an initializer holds no class and no private name.
pub open spec fn initializer_public(value: InitializerView) -> bool {
    match value {
        InitializerView::Absent => true,
        InitializerView::Arrow(func) => params_public(func.params) && body_public(func.body),
        InitializerView::Other(marks) => marks_public(marks),
    }
}

/// Whether a member holds no class.
pub open spec fn member_plain(member: MemberView) -> bool {
    match member {
        MemberView::Constructor { callable, .. } => params_plain(callable.params) && body_plain(
            callable.body,
        ),
        MemberView::Method { key_marks, decorator_marks, callable, .. } => marks_plain(key_marks)
            && marks_plain(decorator_marks) && params_plain(callable.params) && body_plain(
            callable.body,
        ),
        MemberView::Field { key_marks, value, decorator_marks, .. } => marks_plain(key_marks)
            && marks_plain(decorator_marks) && initializer_plain(value),
        MemberView::StaticBlock { body, .. } => stmts_plain(body),
        MemberView::FieldTable { .. } => true,
        MemberView::Other { marks, .. } => marks_plain(marks),
    }
}

/// Whether what a member contains holds no class and no private name; its
/// own key may still be private.
pub open spec fn member_content_public(member: MemberView) -> bool {
    match member {
        MemberView::Constructor { callable, .. } => params_public(callable.params) && body_public(
            callable.body,
        ),
        MemberView::Method { key_marks, decorator_marks, callable, .. } => marks_public(key_marks)
            && marks_public(decorator_marks) && params_public(callable.params) && body_public(
            callable.body,
        ),
        MemberView::Field { key_marks, value, decorator_marks, .. } => marks_public(key_marks)
            && marks_public(decorator_marks) && initializer_public(value),
        MemberView::StaticBlock { body, .. } => stmts_public(body),
        MemberView::FieldTable { .. } => true,
        MemberView::Other { marks, .. } => marks_public(marks),
    }
}

/// Whether a member is declared under a private name.
pub open spec fn has_private_key(member: MemberView) -> bool {
    match member {
        MemberView::Method { key, .. } => key is Private,
        MemberView::Field { key, .. } => key is Private,
        _ => false,
    }
}

/// Whether a member is free of private names: it is not declared under one,
/// and holds no access through one, and no class.
pub open spec fn member_public(member: MemberView) -> bool {
    member_content_public(member) && !has_private_key(member)
}

/// Whether a class holds no nested class.
pub open spec fn class_plain(class: ClassView) -> bool {
    &&& marks_plain(class.decorator_marks)
    &&& forall|i: int| 0 <= i < class.members.len() ==> member_plain(#[trigger] class.members[i])
    &&& marks_plain(class.heritage_marks)
}

/// Whether a class is free of private names: no member is declared under
/// one, and nothing in it reaches a member through one.
pub open spec fn class_public(class: ClassView) -> bool {
    &&& marks_public(class.decorator_marks)
    &&& forall|i: int| 0 <= i < class.members.len() ==> member_public(#[trigger] class.members[i])
    &&& marks_public(class.heritage_marks)
}

proof fn lemma_plain_marks(st: VisitorView, marks: Seq<SyntaxView>)
    requires
        marks_plain(marks),
        st.class_stack.len() > 0,
    ensures
        rewrite_marks(st, marks).0 == st,
        marks_public(rewrite_marks(st, marks).1),
    decreases marks.len(),
{
    if marks.len() > 0 {
        let rest = marks.drop_last();
        assert forall|i: int| 0 <= i < rest.len() implies !((#[trigger] rest[i]) is Class) by {
            assert(rest[i] == marks[i]);
        }
        lemma_plain_marks(st, rest);
        let done = rewrite_marks(st, rest).1;
        let last = marks[marks.len() - 1];
        assert(!(last is Class));
        let out = rewrite_mark(st, last).1;
        assert(!(out is Class) && !(out is PrivateAccess));
        let all = rewrite_marks(st, marks).1;
        assert(all == done.push(out));
        assert forall|i: int| 0 <= i < all.len() implies !((#[trigger] all[i]) is Class) && !(all[i]
            is PrivateAccess) by {
            if i < done.len() {
                assert(all[i] == done[i]);
            }
        }
    }
}

proof fn lemma_plain_stmts(st: VisitorView, stmts: Seq<StmtView>)
    requires
        stmts_plain(stmts),
        st.class_stack.len() > 0,
    ensures
        rewrite_stmts(st, stmts).0 == st,
        stmts_public(rewrite_stmts(st, stmts).1),
    decreases stmts.len(),
{
    if stmts.len() > 0 {
        let rest = stmts.drop_last();
        assert forall|i: int| 0 <= i < rest.len() implies marks_plain(
            (#[trigger] rest[i]).marks,
        ) by {
            assert(rest[i] == stmts[i]);
        }
        lemma_plain_stmts(st, rest);
        let done = rewrite_stmts(st, rest).1;
        let last = stmts[stmts.len() - 1];
        lemma_plain_marks(st, last.marks);
        let out = rewrite_stmt(st, last).1;
        assert(marks_public(out.marks));
        let all = rewrite_stmts(st, stmts).1;
        assert(all == done.push(out));
        assert forall|i: int| 0 <= i < all.len() implies marks_public((#[trigger] all[i]).marks) by {
            if i < done.len() {
                assert(all[i] == done[i]);
            }
        }
    }
}

proof fn lemma_plain_body(st: VisitorView, body: BodyView)
    requires
        body_plain(body),
        st.class_stack.len() > 0,
    ensures
        rewrite_body(st, body).0 == st,
        body_public(rewrite_body(st, body).1),
{
    match body {
        BodyView::Block(stmts) => lemma_plain_stmts(st, stmts),
        BodyView::Expr(marks) => lemma_plain_marks(st, marks),
        _ => {},
    }
}

proof fn lemma_plain_params(st: VisitorView, params: ParamsView)
    requires
        params_plain(params),
        st.class_stack.len() > 0,
    ensures
        rewrite_params(st, params).0 == st,
        params_public(rewrite_params(st, params).1),
{
    match params {
        ParamsView::Source { marks, .. } => lemma_plain_marks(st, marks),
        ParamsView::Rest => {},
    }
}

proof fn lemma_plain_member(st: VisitorView, member: MemberView)
    requires
        member_plain(member),
        st.class_stack.len() > 0,
    ensures
        rewrite_member(st, member).0 == st,
        member_content_public(rewrite_member(st, member).1),
{
    match member {
        MemberView::Constructor { callable, .. } => {
            lemma_plain_params(st, callable.params);
            lemma_plain_body(st, callable.body);
        },
        MemberView::Method { key_marks, decorator_marks, callable, .. } => {
            lemma_plain_marks(st, key_marks);
            lemma_plain_params(st, callable.params);
            lemma_plain_marks(st, decorator_marks);
            lemma_plain_body(st, callable.body);
        },
        MemberView::Field { key_marks, value, decorator_marks, .. } => {
            lemma_plain_marks(st, key_marks);
            match value {
                InitializerView::Absent => {},
                InitializerView::Arrow(func) => {
                    lemma_plain_params(st, func.params);
                    lemma_plain_body(st, func.body);
                },
                InitializerView::Other(marks) => lemma_plain_marks(st, marks),
            }
            lemma_plain_marks(st, decorator_marks);
        },
        MemberView::StaticBlock { body, .. } => lemma_plain_stmts(st, body),
        MemberView::FieldTable { .. } => {},
        MemberView::Other { marks, .. } => lemma_plain_marks(st, marks),
    }
}

proof fn lemma_plain_members(st: VisitorView, members: Seq<MemberView>)
    requires
        forall|i: int| 0 <= i < members.len() ==> member_plain(#[trigger] members[i]),
        st.class_stack.len() > 0,
    ensures
        rewrite_members(st, members).0 == st,
        rewrite_members(st, members).1.len() == members.len(),
        forall|i: int|
            0 <= i < members.len() ==> member_content_public(
                #[trigger] rewrite_members(st, members).1[i],
            ),
    decreases members.len(),
{
    if members.len() > 0 {
        let rest = members.drop_last();
        assert forall|i: int| 0 <= i < rest.len() implies member_plain(#[trigger] rest[i]) by {
            assert(rest[i] == members[i]);
        }
        lemma_plain_members(st, rest);
        let done = rewrite_members(st, rest).1;
        let last = members[members.len() - 1];
        lemma_plain_member(st, last);
        let out = rewrite_member(st, last).1;
        let all = rewrite_members(st, members).1;
        assert(all == done.push(out));
        assert forall|i: int| 0 <= i < members.len() implies member_content_public(
            #[trigger] all[i],
        ) by {
            if i < done.len() {
                assert(all[i] == done[i]);
            }
        }
    }
}

proof fn lemma_stripped_public(stmts: Seq<StmtView>)
    requires
        stmts_public(stmts),
    ensures
        stmts_public(crate::shadow::without_super_calls(stmts)),
    decreases stmts.len(),
{
    if stmts.len() > 0 {
        let rest = stmts.drop_last();
        assert forall|i: int| 0 <= i < rest.len() implies marks_public(
            (#[trigger] rest[i]).marks,
        ) by {
            assert(rest[i] == stmts[i]);
        }
        lemma_stripped_public(rest);
        let before = crate::shadow::without_super_calls(rest);
        let all = crate::shadow::without_super_calls(stmts);
        let last = stmts[stmts.len() - 1];
        assert(marks_public(last.marks));
        assert forall|i: int| 0 <= i < all.len() implies marks_public((#[trigger] all[i]).marks) by {
            if i < before.len() {
                assert(all[i] == before[i]);
            } else {
                assert(all[i] == last);
            }
        }
    }
}

proof fn lemma_split_member_public(member: MemberView, key: Seq<char>, has_super: bool)
    requires
        member_content_public(member),
    ensures
        member_public(shim_of(member, key, has_super)),
        shadow_of(member, key) matches Some(shadow) ==> member_public(shadow),
{
    assert(marks_public(Seq::<SyntaxView>::empty()));
    match member {
        MemberView::Constructor { callable, .. } => {
            match callable.body {
                BodyView::Block(stmts) => lemma_stripped_public(stmts),
                _ => {},
            }
            assert(body_public(crate::shadow::stripped(callable.body)));
        },
        _ => {},
    }
}

proof fn lemma_split_public(members: Seq<MemberView>, key: Seq<char>, has_super: bool)
    requires
        forall|i: int| 0 <= i < members.len() ==> member_content_public(#[trigger] members[i]),
    ensures
        forall|j: int|
            0 <= j < split(members, key, has_super).len() ==> member_public(
                #[trigger] split(members, key, has_super)[j],
            ),
    decreases members.len(),
{
    if members.len() > 0 {
        let rest = members.drop_last();
        assert forall|i: int| 0 <= i < rest.len() implies member_content_public(
            #[trigger] rest[i],
        ) by {
            assert(rest[i] == members[i]);
        }
        lemma_split_public(rest, key, has_super);
        let last = members[members.len() - 1];
        lemma_split_member_public(last, key, has_super);
        let before = split(rest, key, has_super);
        let all = split(members, key, has_super);
        assert forall|j: int| 0 <= j < all.len() implies member_public(#[trigger] all[j]) by {
            if j < before.len() {
                assert(all[j] == before[j]);
            }
        }
    }
}

/// A class with an identity that holds no nested class comes out of the
/// rewrite free of private names: no member is declared under one any more,
/// and every access through one, in a body, in a parameter list, in a
/// decorator or in the `extends` clause, goes through the ordinary name
/// that encodes it.
pub proof fn rewritten_class_holds_no_private_name(st: VisitorView, class: ClassView)
    requires
        class_name(st, class.decorators).len() > 0,
        class_plain(class),
    ensures
        class_public(rewrite_class(st, class).1),
{
    let name = class_name(st, class.decorators);
    let inside = named(st, class.decorators).entered(name);
    lemma_plain_marks(inside, class.decorator_marks);
    lemma_plain_members(inside, class.members);
    lemma_plain_marks(inside, class.heritage_marks);
    let members = rewrite_members(inside, class.members).1;
    lemma_split_public(members, name, class.has_super);
    let body = split(members, name, class.has_super);
    let out = rewrite_class(st, class).1;
    assert(out.members == body.push(field_table(members, name, class.has_super)));
    assert forall|i: int| 0 <= i < out.members.len() implies member_public(
        #[trigger] out.members[i],
    ) by {
        if i < body.len() {
            assert(out.members[i] == body[i]);
        }
    }
}

/// Whether two members are declared alike: the same kind of member under
/// the same key, static or not alike, with the same decorators, and both or
/// neither with an arrow function for initializer.
pub open spec fn same_declaration(a: MemberView, b: MemberView) -> bool {
    match (a, b) {
        (MemberView::Constructor { .. }, MemberView::Constructor { .. }) => true,
        (
            MemberView::Method { key: a_key, kind: a_kind, is_static: a_static, .. },
            MemberView::Method { key: b_key, kind: b_kind, is_static: b_static, .. },
        ) => a_key == b_key && a_kind == b_kind && a_static == b_static,
        (
            MemberView::Field {
                key: a_key,
                is_static: a_static,
                decorators: a_decorators,
                value: a_value,
                ..
            },
            MemberView::Field {
                key: b_key,
                is_static: b_static,
                decorators: b_decorators,
                value: b_value,
                ..
            },
        ) => a_key == b_key && a_static == b_static && a_decorators == b_decorators && (a_value is Arrow)
            == (b_value is Arrow),
        (MemberView::StaticBlock { .. }, MemberView::StaticBlock { .. }) => true,
        (MemberView::FieldTable { .. }, MemberView::FieldTable { .. }) => true,
        (MemberView::Other { .. }, MemberView::Other { .. }) => true,
        _ => false,
    }
}

proof fn lemma_rewrite_mark(st: VisitorView, mark: SyntaxView)
    ensures
        guards_untouched(st, rewrite_mark(st, mark).0),
    decreases mark,
{
    match mark {
        SyntaxView::Class(class) => lemma_rewrite_class(st, class),
        _ => {},
    }
}

proof fn lemma_rewrite_marks(st: VisitorView, marks: Seq<SyntaxView>)
    ensures
        guards_untouched(st, rewrite_marks(st, marks).0),
        rewrite_marks(st, marks).1.len() == marks.len(),
    decreases marks,
{
    if marks.len() > 0 {
        lemma_rewrite_marks(st, marks.drop_last());
        lemma_rewrite_mark(rewrite_marks(st, marks.drop_last()).0, marks.last());
    }
}

proof fn lemma_rewrite_stmts(st: VisitorView, stmts: Seq<StmtView>)
    ensures
        guards_untouched(st, rewrite_stmts(st, stmts).0),
    decreases stmts,
{
    if stmts.len() > 0 {
        let mid = rewrite_stmts(st, stmts.drop_last()).0;
        lemma_rewrite_stmts(st, stmts.drop_last());
        lemma_rewrite_marks(mid, stmts.last().marks);
        assert(rewrite_stmt(mid, stmts.last()).0 == rewrite_marks(mid, stmts.last().marks).0);
    }
}

proof fn lemma_rewrite_body(st: VisitorView, body: BodyView)
    ensures
        guards_untouched(st, rewrite_body(st, body).0),
    decreases body,
{
    match body {
        BodyView::Block(stmts) => lemma_rewrite_stmts(st, stmts),
        BodyView::Expr(marks) => lemma_rewrite_marks(st, marks),
        _ => {},
    }
}

proof fn lemma_rewrite_params(st: VisitorView, params: ParamsView)
    ensures
        guards_untouched(st, rewrite_params(st, params).0),
    decreases params,
{
    match params {
        ParamsView::Source { marks, .. } => lemma_rewrite_marks(st, marks),
        ParamsView::Rest => {},
    }
}

proof fn lemma_rewrite_initializer(st: VisitorView, value: InitializerView)
    ensures
        guards_untouched(st, rewrite_initializer(st, value).0),
    decreases value,
{
    match value {
        InitializerView::Absent => {},
        InitializerView::Arrow(func) => {
            lemma_rewrite_params(st, func.params);
            lemma_rewrite_body(rewrite_params(st, func.params).0, func.body);
        },
        InitializerView::Other(marks) => lemma_rewrite_marks(st, marks),
    }
}

proof fn lemma_rewrite_member(st: VisitorView, member: MemberView)
    ensures
        guards_untouched(st, rewrite_member(st, member).0),
        same_declaration(rewrite_member(st, member).1, member),
    decreases member,
{
    match member {
        MemberView::Constructor { callable, .. } => {
            lemma_rewrite_params(st, callable.params);
            lemma_rewrite_body(rewrite_params(st, callable.params).0, callable.body);
        },
        MemberView::Method { key_marks, decorator_marks, callable, .. } => {
            let s1 = rewrite_marks(st, key_marks).0;
            let s2 = rewrite_params(s1, callable.params).0;
            let s3 = rewrite_marks(s2, decorator_marks).0;
            lemma_rewrite_marks(st, key_marks);
            lemma_rewrite_params(s1, callable.params);
            lemma_rewrite_marks(s2, decorator_marks);
            lemma_rewrite_body(s3, callable.body);
        },
        MemberView::Field { key_marks, value, decorator_marks, .. } => {
            let s1 = rewrite_marks(st, key_marks).0;
            let s2 = rewrite_initializer(s1, value).0;
            lemma_rewrite_marks(st, key_marks);
            lemma_rewrite_initializer(s1, value);
            lemma_rewrite_marks(s2, decorator_marks);
        },
        MemberView::StaticBlock { body, .. } => lemma_rewrite_stmts(st, body),
        MemberView::FieldTable { .. } => {},
        MemberView::Other { marks, .. } => lemma_rewrite_marks(st, marks),
    }
}

proof fn lemma_rewrite_members(st: VisitorView, members: Seq<MemberView>)
    ensures
        guards_untouched(st, rewrite_members(st, members).0),
        rewrite_members(st, members).1.len() == members.len(),
        forall|i: int|
            0 <= i < members.len() ==> same_declaration(
                #[trigger] rewrite_members(st, members).1[i],
                members[i],
            ),
    decreases members,
{
    if members.len() > 0 {
        let rest = members.drop_last();
        lemma_rewrite_members(st, rest);
        lemma_rewrite_member(rewrite_members(st, rest).0, members.last());
    }
}

/// The rewrite of a class never touches the reload flag or the constructor
/// mark, and leaves the enclosing classes as they were.
pub proof fn lemma_rewrite_class(st: VisitorView, class: ClassView)
    ensures
        guards_untouched(st, rewrite_class(st, class).0),
    decreases class,
{
    let name = class_name(st, class.decorators);
    let st1 = named(st, class.decorators);
    if name.len() > 0 {
        let inside = st1.entered(name);
        let s1 = rewrite_marks(inside, class.decorator_marks).0;
        let s2 = rewrite_members(s1, class.members).0;
        let s3 = rewrite_marks(s2, class.heritage_marks).0;
        lemma_rewrite_marks(inside, class.decorator_marks);
        lemma_rewrite_members(s1, class.members);
        lemma_rewrite_marks(s2, class.heritage_marks);
        assert(s3.class_stack == st.class_stack.push(name));
        assert(s3.left().class_stack =~= st.class_stack);
    }
}

/// A class on which a guard fires comes out of the visit exactly as it went
/// in, and a class that comes out changed left the reload flag down: the
/// flag is up after the visit if and only if the guards raised it, or found
/// it raised.
pub proof fn unsafe_class_is_not_changed(st: VisitorView, class: ClassView)
    ensures
        visit_class(st, class).0.need_reload == scan_class(st, class).need_reload,
        visit_class(st, class).0.need_reload ==> visit_class(st, class).1 == class,
{
    let scanned = scan_class(st, class);
    if !scanned.need_reload {
        lemma_rewrite_class(VisitorView { class_index: st.class_index, ..scanned }, class);
    }
}

/// A class that is visited while the reload flag is up stays as it is, and
/// so it does when it is visited again after that: both visits hand back the
/// class they were given, with the flag still up.
pub proof fn flagged_class_stays_identical(st: VisitorView, class: ClassView)
    requires
        st.need_reload,
    ensures
        visit_class(st, class).1 == class,
        visit_class(st, class).0.need_reload,
        visit_class(visit_class(st, class).0, visit_class(st, class).1).1 == class,
        visit_class(visit_class(st, class).0, visit_class(st, class).1).0.need_reload,
{
    lemma_scan_class(st, class);
    lemma_scan_class(visit_class(st, class).0, class);
}

/// The visit of a class leaves the enclosing classes as they were.
pub proof fn lemma_visit_class(st: VisitorView, class: ClassView)
    ensures
        visit_class(st, class).0.class_stack == st.class_stack,
        visit_class(st, class).0.filename == st.filename,
        st.need_reload ==> visit_class(st, class).0.need_reload,
{
    let scanned = scan_class(st, class);
    lemma_scan_class(st, class);
    if !scanned.need_reload {
        lemma_rewrite_class(VisitorView { class_index: st.class_index, ..scanned }, class);
    }
}

proof fn lemma_flagged_marks_stay(st: VisitorView, marks: Seq<SyntaxView>)
    requires
        st.need_reload,
        st.class_stack.len() == 0,
    ensures
        visit_marks(st, marks).1 == marks,
        visit_marks(st, marks).0.need_reload,
        visit_marks(st, marks).0.class_stack.len() == 0,
    decreases marks.len(),
{
    if marks.len() > 0 {
        let rest = marks.drop_last();
        lemma_flagged_marks_stay(st, rest);
        let mid = visit_marks(st, rest).0;
        match marks.last() {
            SyntaxView::Class(class) => {
                lemma_scan_class(mid, class);
                lemma_visit_class(mid, class);
            },
            SyntaxView::PrivateAccess { .. } => {},
            _ => lemma_scan_mark(mid, marks.last()),
        }
        assert(visit_mark(mid, marks.last()).1 == marks.last());
        assert(rest.push(marks.last()) =~= marks);
    }
}

/// A module that is visited while the reload flag is up, outside any class,
/// keeps every construct as it is and declines the hot update.
pub proof fn flagged_module_declines(st: VisitorView, module: ModuleView)
    requires
        st.need_reload,
        st.class_stack.len() == 0,
    ensures
        visit_module(st, module).1.marks == module.marks,
        visit_module(st, module).1.directives == module.directives.push(HotDirective::Decline),
{
    lemma_flagged_marks_stay(st, module.marks);
}

/// The identity of a class depends on the file's path, on the occurrence
/// number and on the class's decorators alone, and the names of its
/// generated members on that identity, the member's name and its privacy
/// alone: nothing else in the state of the walk enters them.
pub proof fn names_are_determined(
    a: VisitorView,
    b: VisitorView,
    decorators: Seq<DecoratorView>,
    member: Seq<char>,
    is_private: bool,
)
    requires
        a.filename == b.filename,
        a.class_index == b.class_index,
    ensures
        class_name(a, decorators) == class_name(b, decorators),
        shadow_name(member, class_name(a, decorators), is_private) == shadow_name(
            member,
            class_name(b, decorators),
            is_private,
        ),
        private_name(member, class_name(a, decorators)) == private_name(
            member,
            class_name(b, decorators),
        ),
{
}

proof fn lemma_same_prefix(prefix: Seq<char>, a: Seq<char>, b: Seq<char>)
    requires
        prefix + a == prefix + b,
    ensures
        a == b,
{
    assert(a.len() == b.len()) by {
        assert((prefix + a).len() == prefix.len() + a.len());
        assert((prefix + b).len() == prefix.len() + b.len());
    }
    assert forall|i: int| 0 <= i < a.len() implies a[i] == b[i] by {
        assert((prefix + a)[prefix.len() + i] == a[i]);
        assert((prefix + b)[prefix.len() + i] == b[i]);
    }
    assert(a =~= b);
}

/// Within one class no two members share a shadow name or an encoded private
/// name, and no shadow name is an encoded private name.
pub proof fn generated_names_are_distinct(
    key: Seq<char>,
    first: Seq<char>,
    first_private: bool,
    second: Seq<char>,
    second_private: bool,
)
    ensures
        shadow_name(first, key, first_private) == shadow_name(second, key, second_private) ==> first
            == second && first_private == second_private,
        private_name(first, key) == private_name(second, key) ==> first == second,
        shadow_name(first, key, first_private) != private_name(second, key),
{
    reveal_strlit("_hmr_");
    reveal_strlit("private");
    reveal_strlit("public");
    reveal_strlit("_");
    reveal_strlit("_private_");
    let clean = sanitized(key);
    let one = shadow_name(first, key, first_private);
    let two = shadow_name(second, key, second_private);
    assert(one[1] == 'h');
    assert(private_name(second, key)[1] == 'p');
    if one == two {
        if first_private != second_private {
            assert(shadow_name(first, key, true)[6] == 'r');
            assert(shadow_name(first, key, false)[6] == 'u');
            assert(shadow_name(second, key, true)[6] == 'r');
            assert(shadow_name(second, key, false)[6] == 'u');
            assert(false);
        }
        let head = "_hmr_"@ + privacy_word(first_private) + "_"@ + clean + "_"@;
        assert(one =~= head + first);
        assert(two =~= head + second);
        lemma_same_prefix(head, first, second);
    }
    if private_name(first, key) == private_name(second, key) {
        let head = "_private_"@ + clean + "_"@;
        assert(private_name(first, key) =~= head + first);
        assert(private_name(second, key) =~= head + second);
        lemma_same_prefix(head, first, second);
    }
}

/// How many members of `members` are function-like.
pub open spec fn function_like_count(members: Seq<MemberView>) -> nat
    decreases members.len(),
{
    if members.len() == 0 {
        0
    } else if is_function_like(members.last()) {
        function_like_count(members.drop_last()) + 1
    } else {
        function_like_count(members.drop_last())
    }
}

/// Whether a member is a data member: a field under a static name whose
/// initializer is not an arrow function.
pub open spec fn is_data_member(member: MemberView) -> bool {
    match member {
        MemberView::Field { key, value, .. } => key_name(key) is Some && !(value is Arrow),
        _ => false,
    }
}

/// How many members of `members` are data members.
pub open spec fn data_member_count(members: Seq<MemberView>) -> nat
    decreases members.len(),
{
    if members.len() == 0 {
        0
    } else if is_data_member(members.last()) {
        data_member_count(members.drop_last()) + 1
    } else {
        data_member_count(members.drop_last())
    }
}

/// The record of a data member of the class `key`.
pub open spec fn record_of(member: MemberView, key: Seq<char>, has_super: bool) -> FieldPropView {
    field_of(shim_of(member, key, has_super)).unwrap()
}

/// Whether `record` is the record of one of the data members of `members`.
pub open spec fn is_record_of_a_data_member(
    record: FieldPropView,
    members: Seq<MemberView>,
    key: Seq<char>,
    has_super: bool,
) -> bool {
    exists|i: int|
        0 <= i < members.len() && is_data_member(#[trigger] members[i]) && record == record_of(
            members[i],
            key,
            has_super,
        )
}

/// A member gets a shadow exactly where it is function-like, and the split
/// adds exactly one member for each function-like one.
pub proof fn every_function_like_member_gets_one_shadow(
    members: Seq<MemberView>,
    key: Seq<char>,
    has_super: bool,
)
    ensures
        forall|i: int|
            0 <= i < members.len() ==> (shadow_of(#[trigger] members[i], key) is Some)
                == is_function_like(members[i]),
        split(members, key, has_super).len() == members.len() + function_like_count(members),
    decreases members.len(),
{
    if members.len() > 0 {
        every_function_like_member_gets_one_shadow(members.drop_last(), key, has_super);
        assert forall|i: int| 0 <= i < members.len() implies (shadow_of(
            #[trigger] members[i],
            key,
        ) is Some) == is_function_like(members[i]) by {
            if i < members.len() - 1 {
                assert(members.drop_last()[i] == members[i]);
            }
        }
    }
}

proof fn lemma_same_declarations(
    before: Seq<MemberView>,
    after: Seq<MemberView>,
    key: Seq<char>,
    has_super: bool,
)
    requires
        before.len() == after.len(),
        forall|i: int| 0 <= i < before.len() ==> same_declaration(#[trigger] after[i], before[i]),
    ensures
        function_like_count(after) == function_like_count(before),
        data_member_count(after) == data_member_count(before),
        field_records(after, key, has_super) == field_records(before, key, has_super),
    decreases before.len(),
{
    if before.len() > 0 {
        assert forall|i: int| 0 <= i < before.len() - 1 implies same_declaration(
            #[trigger] after.drop_last()[i],
            before.drop_last()[i],
        ) by {
            assert(after.drop_last()[i] == after[i]);
            assert(before.drop_last()[i] == before[i]);
        }
        lemma_same_declarations(before.drop_last(), after.drop_last(), key, has_super);
        assert(same_declaration(after[after.len() - 1], before[before.len() - 1]));
    }
}

/// A class with an identity comes out of the rewrite with one more member
/// for each function-like member it had, and one more for the field table,
/// which stands last and holds one record for each data member that the
/// class had. The registration under the identity is added to the
/// decorators.
pub proof fn rewritten_class_has_its_shadows_and_its_field_table(
    st: VisitorView,
    class: ClassView,
)
    requires
        class_name(st, class.decorators).len() > 0,
    ensures
        rewrite_class(st, class).1.members.len() == class.members.len() + function_like_count(
            class.members,
        ) + 1,
        rewrite_class(st, class).1.members.last() == field_table(
            class.members,
            class_name(st, class.decorators),
            class.has_super,
        ),
        field_table(class.members, class_name(st, class.decorators), class.has_super)->fields.len()
            == data_member_count(class.members),
        rewrite_class(st, class).1.decorators == class.decorators.push(
            DecoratorView::Register { identity: class_name(st, class.decorators) },
        ),
{
    let name = class_name(st, class.decorators);
    let inside = named(st, class.decorators).entered(name);
    let s1 = rewrite_marks(inside, class.decorator_marks).0;
    let members = rewrite_members(s1, class.members).1;
    lemma_rewrite_members(s1, class.members);
    lemma_same_declarations(class.members, members, name, class.has_super);
    every_function_like_member_gets_one_shadow(members, name, class.has_super);
    field_table_records_the_data_members(class.members, name, class.has_super);
}

proof fn lemma_present_push(props: Seq<Option<FieldPropView>>, next: Option<FieldPropView>)
    ensures
        present(props.push(next)) == match next {
            Some(prop) => present(props).push(prop),
            None => present(props),
        },
{
    assert(props.push(next).drop_last() =~= props);
    assert(props.push(next).last() == next);
}

proof fn lemma_present_front(first: Option<FieldPropView>, rest: Seq<Option<FieldPropView>>)
    ensures
        present(seq![first] + rest) == match first {
            Some(prop) => seq![prop] + present(rest),
            None => present(rest),
        },
    decreases rest.len(),
{
    let all = seq![first] + rest;
    if rest.len() == 0 {
        assert(all =~= Seq::<Option<FieldPropView>>::empty().push(first));
        lemma_present_push(Seq::<Option<FieldPropView>>::empty(), first);
        assert(present(Seq::<Option<FieldPropView>>::empty()) =~= Seq::<FieldPropView>::empty());
        assert(present(rest) =~= Seq::<FieldPropView>::empty());
        match first {
            Some(prop) => {
                assert(Seq::<FieldPropView>::empty().push(prop) =~= seq![prop] + Seq::<
                    FieldPropView,
                >::empty());
            },
            None => {},
        }
    } else {
        let shorter = seq![first] + rest.drop_last();
        lemma_present_front(first, rest.drop_last());
        assert(all =~= shorter.push(rest.last()));
        lemma_present_push(shorter, rest.last());
        assert(rest =~= rest.drop_last().push(rest.last()));
        lemma_present_push(rest.drop_last(), rest.last());
        match (first, rest.last()) {
            (Some(prop), Some(end)) => {
                assert((seq![prop] + present(rest.drop_last())).push(end) =~= seq![prop] + present(
                    rest.drop_last(),
                ).push(end));
            },
            _ => {},
        }
    }
}

proof fn lemma_reverse_push<A>(s: Seq<A>, x: A)
    ensures
        s.push(x).reverse() == seq![x] + s.reverse(),
{
    assert(s.push(x).reverse() =~= seq![x] + s.reverse());
}

proof fn lemma_present_reverse(props: Seq<Option<FieldPropView>>)
    ensures
        present(props.reverse()) == present(props).reverse(),
    decreases props.len(),
{
    if props.len() == 0 {
        assert(props.reverse() =~= props);
        assert(present(props) =~= Seq::<FieldPropView>::empty());
        assert(present(props).reverse() =~= present(props));
    } else {
        let rest = props.drop_last();
        let last = props.last();
        assert(props =~= rest.push(last));
        lemma_reverse_push(rest, last);
        lemma_present_front(last, rest.reverse());
        lemma_present_reverse(rest);
        lemma_present_push(rest, last);
        match last {
            Some(prop) => lemma_reverse_push(present(rest), prop),
            None => {},
        }
    }
}

proof fn lemma_records_forward(members: Seq<MemberView>, key: Seq<char>, has_super: bool)
    ensures
        present(field_records(members, key, has_super)).len() == data_member_count(members),
        forall|i: int|
            0 <= i < members.len() && is_data_member(#[trigger] members[i]) ==> present(
                field_records(members, key, has_super),
            ).contains(record_of(members[i], key, has_super)),
        forall|j: int|
            0 <= j < present(field_records(members, key, has_super)).len()
                ==> is_record_of_a_data_member(
                #[trigger] present(field_records(members, key, has_super))[j],
                members,
                key,
                has_super,
            ),
    decreases members.len(),
{
    if members.len() > 0 {
        let rest = members.drop_last();
        let last = members.last();
        lemma_records_forward(rest, key, has_super);
        let before = present(field_records(rest, key, has_super));
        let now = present(field_records(members, key, has_super));
        let earlier = field_records(rest, key, has_super);
        if shadow_of(last, key) is None {
            lemma_present_push(earlier, field_of(shim_of(last, key, has_super)));
        }
        if is_data_member(last) {
            assert(now == before.push(record_of(last, key, has_super)));
            assert(now[now.len() - 1] == record_of(last, key, has_super));
        } else {
            assert(now == before);
        }
        assert forall|i: int| 0 <= i < members.len() && is_data_member(
            #[trigger] members[i],
        ) implies now.contains(record_of(members[i], key, has_super)) by {
            if i < members.len() - 1 {
                assert(rest[i] == members[i]);
                let j = choose|j: int|
                    0 <= j < before.len() && before[j] == record_of(rest[i], key, has_super);
                assert(now[j] == before[j]);
            }
        }
        assert forall|j: int| 0 <= j < now.len() implies is_record_of_a_data_member(
            #[trigger] now[j],
            members,
            key,
            has_super,
        ) by {
            if j < before.len() {
                assert(is_record_of_a_data_member(before[j], rest, key, has_super));
                let i = choose|i: int|
                    0 <= i < rest.len() && is_data_member(#[trigger] rest[i]) && before[j]
                        == record_of(rest[i], key, has_super);
                assert(members[i] == rest[i]);
                assert(now[j] == before[j]);
            } else {
                assert(is_data_member(members[members.len() - 1]));
            }
        }
    }
}

/// The field table of a class holds one record for each data member and
/// nothing else: as many records as there are data members, the record of
/// every data member, and no record that is not the record of a data member.
/// A function-like member, which is no data member, contributes none.
pub proof fn field_table_records_the_data_members(
    members: Seq<MemberView>,
    key: Seq<char>,
    has_super: bool,
)
    ensures
        field_table(members, key, has_super) is FieldTable,
        field_table(members, key, has_super)->fields.len() == data_member_count(members),
        forall|i: int|
            0 <= i < members.len() && is_data_member(#[trigger] members[i]) ==> field_table(
                members,
                key,
                has_super,
            )->fields.contains(record_of(members[i], key, has_super)),
        forall|j: int|
            0 <= j < field_table(members, key, has_super)->fields.len()
                ==> is_record_of_a_data_member(
                #[trigger] field_table(members, key, has_super)->fields[j],
                members,
                key,
                has_super,
            ),
        forall|i: int|
            0 <= i < members.len() && is_function_like(#[trigger] members[i]) ==> !is_data_member(
                members[i],
            ),
{
    let records = field_records(members, key, has_super);
    let forward = present(records);
    let table = field_table(members, key, has_super)->fields;
    lemma_present_reverse(records);
    lemma_records_forward(members, key, has_super);
    assert(table == forward.reverse());
    assert forall|i: int| 0 <= i < members.len() && is_data_member(
        #[trigger] members[i],
    ) implies table.contains(record_of(members[i], key, has_super)) by {
        let j = choose|j: int|
            0 <= j < forward.len() && forward[j] == record_of(members[i], key, has_super);
        assert(table[forward.len() - 1 - j] == forward[j]);
    }
    assert forall|j: int| 0 <= j < table.len() implies is_record_of_a_data_member(
        #[trigger] table[j],
        members,
        key,
        has_super,
    ) by {
        assert(table[j] == forward[forward.len() - 1 - j]);
    }
}

} // verus!
