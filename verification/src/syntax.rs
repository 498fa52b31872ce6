//! The syntax of a module, as far as the hot-replacement rewrite looks at it.
//!
//! A module is kept as the constructs the rewrite reacts to, in the order in
//! which a walk leaves them: what a construct contains comes before the
//! construct itself. Everything else stays with the caller, who finds it again
//! by position or by the `origin` that members and statements carry.

use crate::pattern::optional_text;
use vstd::prelude::*;

verus! {

/// A construct inside an expression or statement that the rewrite reacts to.
#[derive(Debug, PartialEq, Eq)]
pub enum Syntax {
    /// The `new.target` meta-property.
    NewTarget,
    /// A call of `super` with `arg_count` arguments.
    SuperCall { arg_count: usize },
    /// A `return` statement, with or without a value.
    Return { has_value: bool },
    /// A member access through a private name, `object.#name`.
    PrivateAccess { name: String },
    /// A member access through an ordinary name that stands in for a private
    /// one.
    MangledAccess { name: String },
    /// A class declaration or class expression.
    Class(ClassUnit),
}

/// One statement of a block, with the constructs inside it.
#[derive(Debug, PartialEq, Eq)]
pub struct Stmt {
    /// Where the statement came from; never read by the rewrite.
    pub origin: u64,
    /// Whether the whole statement is a direct call of `super`.
    pub is_super_call: bool,
    pub marks: Vec<Syntax>,
}

/// A parameter list.
#[derive(Debug, PartialEq, Eq)]
pub enum Params {
    /// The parameters as written: for each one whether it declares an
    /// instance property, and the constructs inside all of them.
    Source { properties: Vec<bool>, marks: Vec<Syntax> },
    /// The single rest parameter `...args` of a dispatch shim.
    Rest,
}

/// The shape of the one-line body that forwards to a shadow method.
#[derive(Clone, Copy, Debug, PartialEq, Eq, Structural)]
pub enum DispatchStyle {
    /// `return this.<shadow>.bind(this)(...args);`
    Forward,
    /// `return this.<shadow>.bind(this)();`
    Getter,
    /// `super();` where `call_super` holds, then
    /// `this.<shadow>.bind(this)(...args);`
    Construct { call_super: bool },
}

/// The body of a function-like member.
#[derive(Debug, PartialEq, Eq)]
pub enum Body {
    /// A declaration without a body.
    Absent,
    /// A block of statements.
    Block(Vec<Stmt>),
    /// The expression of a concise arrow function; in a method it stands for
    /// a block that returns the expression.
    Expr(Vec<Syntax>),
    /// The generated call of the shadow method named `shadow`.
    Dispatch { shadow: String, style: DispatchStyle },
}

/// What a method, a constructor and an arrow function have in common.
#[derive(Debug, PartialEq, Eq)]
pub struct Callable {
    pub is_async: bool,
    pub params: Params,
    pub body: Body,
}

/// The name under which a member is declared.
#[derive(Debug, PartialEq, Eq)]
pub enum Key {
    /// A plain identifier.
    Ident(String),
    /// A private name, written without its `#`.
    Private(String),
    /// Any other key: computed, string or numeric.
    Computed,
}

/// Whether a method is an ordinary method or an accessor.
#[derive(Clone, Copy, Debug, PartialEq, Eq, Structural)]
pub enum MethodKind {
    Method,
    Getter,
    Setter,
}

/// A decorator, as far as its shape is read.
#[derive(Debug, PartialEq, Eq)]
pub enum Decorator {
    /// A call; `callee` is set where a plain identifier is called, and
    /// `first_arg` where the first argument is a string literal.
    Call { callee: Option<String>, first_arg: Option<String> },
    /// A bare identifier.
    Ident(String),
    /// Any other expression.
    Other,
    /// The generated registration of the class under `identity`.
    Register { identity: String },
}

/// The initializer of a field.
#[derive(Debug, PartialEq, Eq)]
pub enum Initializer {
    Absent,
    /// An arrow function.
    Arrow(Callable),
    /// Any other expression, with the constructs inside it.
    Other(Vec<Syntax>),
}

/// A data member as the runtime patcher is told of it.
#[derive(Debug, PartialEq, Eq)]
pub struct FieldProp {
    pub name: String,
    pub kind: String,
    pub is_static: bool,
}

/// A member of a class body.
#[derive(Debug, PartialEq, Eq)]
pub enum Member {
    Constructor { origin: u64, callable: Callable },
    /// A method or accessor, public or private.
    Method {
        origin: u64,
        key: Key,
        kind: MethodKind,
        is_static: bool,
        key_marks: Vec<Syntax>,
        decorator_marks: Vec<Syntax>,
        callable: Callable,
    },
    /// A field, public or private.
    Field {
        origin: u64,
        key: Key,
        is_static: bool,
        decorators: Vec<Decorator>,
        key_marks: Vec<Syntax>,
        value: Initializer,
        decorator_marks: Vec<Syntax>,
    },
    StaticBlock { origin: u64, body: Vec<Stmt> },
    /// The generated static block that records the data members.
    FieldTable { fields: Vec<FieldProp> },
    /// Any other member, with the constructs inside it.
    Other { origin: u64, marks: Vec<Syntax> },
}

/// A class declaration or expression.
#[derive(Debug, PartialEq, Eq)]
pub struct ClassUnit {
    pub decorators: Vec<Decorator>,
    pub decorator_marks: Vec<Syntax>,
    pub members: Vec<Member>,
    pub has_super: bool,
    /// The constructs inside the `extends` clause.
    pub heritage_marks: Vec<Syntax>,
}

/// The statement that the rewrite appends to a module.
#[derive(Clone, Copy, Debug, PartialEq, Eq, Structural)]
pub enum HotDirective {
    /// `if (import.meta.webpackHot) { import.meta.webpackHot.accept(); }`
    Accept,
    /// `if (import.meta.webpackHot) { import.meta.webpackHot.decline(); }`
    Decline,
}

/// The body of a module.
#[derive(Debug, PartialEq, Eq)]
pub struct Module {
    /// The constructs inside the module's items.
    pub marks: Vec<Syntax>,
    /// The hot-update statements appended so far.
    pub directives: Vec<HotDirective>,
}

pub enum SyntaxView {
    NewTarget,
    SuperCall { arg_count: nat },
    Return { has_value: bool },
    PrivateAccess { name: Seq<char> },
    MangledAccess { name: Seq<char> },
    Class(ClassView),
}

pub struct StmtView {
    pub origin: u64,
    pub is_super_call: bool,
    pub marks: Seq<SyntaxView>,
}

pub enum ParamsView {
    Source { properties: Seq<bool>, marks: Seq<SyntaxView> },
    Rest,
}

pub enum BodyView {
    Absent,
    Block(Seq<StmtView>),
    Expr(Seq<SyntaxView>),
    Dispatch { shadow: Seq<char>, style: DispatchStyle },
}

pub struct CallableView {
    pub is_async: bool,
    pub params: ParamsView,
    pub body: BodyView,
}

pub enum KeyView {
    Ident(Seq<char>),
    Private(Seq<char>),
    Computed,
}

pub enum DecoratorView {
    Call { callee: Option<Seq<char>>, first_arg: Option<Seq<char>> },
    Ident(Seq<char>),
    Other,
    Register { identity: Seq<char> },
}

pub enum InitializerView {
    Absent,
    Arrow(CallableView),
    Other(Seq<SyntaxView>),
}

pub struct FieldPropView {
    pub name: Seq<char>,
    pub kind: Seq<char>,
    pub is_static: bool,
}

pub enum MemberView {
    Constructor { origin: u64, callable: CallableView },
    Method {
        origin: u64,
        key: KeyView,
        kind: MethodKind,
        is_static: bool,
        key_marks: Seq<SyntaxView>,
        decorator_marks: Seq<SyntaxView>,
        callable: CallableView,
    },
    Field {
        origin: u64,
        key: KeyView,
        is_static: bool,
        decorators: Seq<DecoratorView>,
        key_marks: Seq<SyntaxView>,
        value: InitializerView,
        decorator_marks: Seq<SyntaxView>,
    },
    StaticBlock { origin: u64, body: Seq<StmtView> },
    FieldTable { fields: Seq<FieldPropView> },
    Other { origin: u64, marks: Seq<SyntaxView> },
}

pub struct ClassView {
    pub decorators: Seq<DecoratorView>,
    pub decorator_marks: Seq<SyntaxView>,
    pub members: Seq<MemberView>,
    pub has_super: bool,
    pub heritage_marks: Seq<SyntaxView>,
}

pub struct ModuleView {
    pub marks: Seq<SyntaxView>,
    pub directives: Seq<HotDirective>,
}

/// The views of the items of `v`, in order.
pub open spec fn marks_view(v: Vec<Syntax>) -> Seq<SyntaxView>
    decreases v,
{
    Seq::new(
        v.len() as nat,
        |i: int|
            if 0 <= i < v.len() {
                v[i].view()
            } else {
                arbitrary()
            },
    )
}

/// The views of the items of `v`, in order.
pub open spec fn stmts_view(v: Vec<Stmt>) -> Seq<StmtView>
    decreases v,
{
    Seq::new(
        v.len() as nat,
        |i: int|
            if 0 <= i < v.len() {
                v[i].view()
            } else {
                arbitrary()
            },
    )
}

/// The views of the items of `v`, in order.
pub open spec fn members_view(v: Vec<Member>) -> Seq<MemberView>
    decreases v,
{
    Seq::new(
        v.len() as nat,
        |i: int|
            if 0 <= i < v.len() {
                v[i].view()
            } else {
                arbitrary()
            },
    )
}

/// The views of the items of `v`, in order.
pub open spec fn decorators_view(v: Vec<Decorator>) -> Seq<DecoratorView> {
    Seq::new(v.len() as nat, |i: int| v[i].view())
}

/// The views of the items of `v`, in order.
pub open spec fn fields_view(v: Vec<FieldProp>) -> Seq<FieldPropView> {
    Seq::new(v.len() as nat, |i: int| v[i].view())
}

impl View for Syntax {
    type V = SyntaxView;

    open spec fn view(&self) -> SyntaxView
        decreases self,
    {
        match self {
            Syntax::NewTarget => SyntaxView::NewTarget,
            Syntax::SuperCall { arg_count } => SyntaxView::SuperCall {
                arg_count: *arg_count as nat,
            },
            Syntax::Return { has_value } => SyntaxView::Return { has_value: *has_value },
            Syntax::PrivateAccess { name } => SyntaxView::PrivateAccess { name: name@ },
            Syntax::MangledAccess { name } => SyntaxView::MangledAccess { name: name@ },
            Syntax::Class(class) => SyntaxView::Class(class.view()),
        }
    }
}

impl View for Stmt {
    type V = StmtView;

    open spec fn view(&self) -> StmtView
        decreases self,
    {
        StmtView {
            origin: self.origin,
            is_super_call: self.is_super_call,
            marks: marks_view(self.marks),
        }
    }
}

impl View for Params {
    type V = ParamsView;

    open spec fn view(&self) -> ParamsView
        decreases self,
    {
        match self {
            Params::Source { properties, marks } => ParamsView::Source {
                properties: properties@,
                marks: marks_view(*marks),
            },
            Params::Rest => ParamsView::Rest,
        }
    }
}

impl View for Body {
    type V = BodyView;

    open spec fn view(&self) -> BodyView
        decreases self,
    {
        match self {
            Body::Absent => BodyView::Absent,
            Body::Block(stmts) => BodyView::Block(stmts_view(*stmts)),
            Body::Expr(marks) => BodyView::Expr(marks_view(*marks)),
            Body::Dispatch { shadow, style } => BodyView::Dispatch {
                shadow: shadow@,
                style: *style,
            },
        }
    }
}

impl View for Callable {
    type V = CallableView;

    open spec fn view(&self) -> CallableView
        decreases self,
    {
        CallableView {
            is_async: self.is_async,
            params: self.params.view(),
            body: self.body.view(),
        }
    }
}

impl View for Key {
    type V = KeyView;

    open spec fn view(&self) -> KeyView {
        match self {
            Key::Ident(name) => KeyView::Ident(name@),
            Key::Private(name) => KeyView::Private(name@),
            Key::Computed => KeyView::Computed,
        }
    }
}

impl View for Decorator {
    type V = DecoratorView;

    open spec fn view(&self) -> DecoratorView {
        match self {
            Decorator::Call { callee, first_arg } => DecoratorView::Call {
                callee: optional_text(*callee),
                first_arg: optional_text(*first_arg),
            },
            Decorator::Ident(name) => DecoratorView::Ident(name@),
            Decorator::Other => DecoratorView::Other,
            Decorator::Register { identity } => DecoratorView::Register { identity: identity@ },
        }
    }
}

impl View for Initializer {
    type V = InitializerView;

    open spec fn view(&self) -> InitializerView
        decreases self,
    {
        match self {
            Initializer::Absent => InitializerView::Absent,
            Initializer::Arrow(callable) => InitializerView::Arrow(callable.view()),
            Initializer::Other(marks) => InitializerView::Other(marks_view(*marks)),
        }
    }
}

impl View for FieldProp {
    type V = FieldPropView;

    open spec fn view(&self) -> FieldPropView {
        FieldPropView { name: self.name@, kind: self.kind@, is_static: self.is_static }
    }
}

impl View for Member {
    type V = MemberView;

    open spec fn view(&self) -> MemberView
        decreases self,
    {
        match self {
            Member::Constructor { origin, callable } => MemberView::Constructor {
                origin: *origin,
                callable: callable.view(),
            },
            Member::Method {
                origin,
                key,
                kind,
                is_static,
                key_marks,
                decorator_marks,
                callable,
            } => MemberView::Method {
                origin: *origin,
                key: key@,
                kind: *kind,
                is_static: *is_static,
                key_marks: marks_view(*key_marks),
                decorator_marks: marks_view(*decorator_marks),
                callable: callable.view(),
            },
            Member::Field {
                origin,
                key,
                is_static,
                decorators,
                key_marks,
                value,
                decorator_marks,
            } => MemberView::Field {
                origin: *origin,
                key: key@,
                is_static: *is_static,
                decorators: decorators_view(*decorators),
                key_marks: marks_view(*key_marks),
                value: value.view(),
                decorator_marks: marks_view(*decorator_marks),
            },
            Member::StaticBlock { origin, body } => MemberView::StaticBlock {
                origin: *origin,
                body: stmts_view(*body),
            },
            Member::FieldTable { fields } => MemberView::FieldTable {
                fields: fields_view(*fields),
            },
            Member::Other { origin, marks } => MemberView::Other {
                origin: *origin,
                marks: marks_view(*marks),
            },
        }
    }
}

impl View for ClassUnit {
    type V = ClassView;

    open spec fn view(&self) -> ClassView
        decreases self,
    {
        ClassView {
            decorators: decorators_view(self.decorators),
            decorator_marks: marks_view(self.decorator_marks),
            members: members_view(self.members),
            has_super: self.has_super,
            heritage_marks: marks_view(self.heritage_marks),
        }
    }
}

impl View for Module {
    type V = ModuleView;

    open spec fn view(&self) -> ModuleView {
        ModuleView { marks: marks_view(self.marks), directives: self.directives@ }
    }
}

} // verus!
