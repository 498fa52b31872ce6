//! The rewrite of a whole module: every class in it is visited, and the
//! module is told how to answer a hot update.

use crate::class::renamed_access;
use crate::class::visit_class;
use crate::lists::reversed;
use crate::safety::scan_mark;
use crate::syntax::marks_view;
use crate::syntax::HotDirective;
use crate::syntax::Module;
use crate::syntax::ModuleView;
use crate::syntax::Syntax;
use crate::syntax::SyntaxView;
use crate::visitor::TransformVisitor;
use crate::visitor::VisitorView;
use vstd::prelude::*;

verus! {

/// One construct of a module after the visit, with the state after it: a
/// class is visited, a private name is renamed as inside a class, and
/// anything else stays and is shown to the guards.
pub open spec fn visit_mark(st: VisitorView, mark: SyntaxView) -> (VisitorView, SyntaxView)
    decreases mark,
{
    match mark {
        SyntaxView::Class(class) => {
            let (after, out) = visit_class(st, class);
            (after, SyntaxView::Class(out))
        },
        SyntaxView::PrivateAccess { name } => (st, renamed_access(st, name)),
        _ => (scan_mark(st, mark), mark),
    }
}

/// The constructs of a module after the visit, with the state after them.
pub open spec fn visit_marks(st: VisitorView, marks: Seq<SyntaxView>) -> (
    VisitorView,
    Seq<SyntaxView>,
)
    decreases marks.len(),
{
    if marks.len() == 0 {
        (st, Seq::empty())
    } else {
        let (mid, done) = visit_marks(st, marks.drop_last());
        let (after, out) = visit_mark(mid, marks.last());
        (after, done.push(out))
    }
}

/// The answer to a hot update that a module gives after a walk that ended in
/// the state `st`: it declines where the reload flag is raised, accepts where
/// it defines an element, and says nothing else.
pub open spec fn epilogue(st: VisitorView) -> Option<HotDirective> {
    if st.need_reload {
        Some(HotDirective::Decline)
    } else if st.has_element {
        Some(HotDirective::Accept)
    } else {
        None
    }
}

/// The directives of a module after a walk that ended in the state `st`.
pub open spec fn with_epilogue(directives: Seq<HotDirective>, st: VisitorView) -> Seq<
    HotDirective,
> {
    match epilogue(st) {
        Some(directive) => directives.push(directive),
        None => directives,
    }
}

/// A module after the visit, with the state after it.
pub open spec fn visit_module(st: VisitorView, module: ModuleView) -> (VisitorView, ModuleView) {
    let (after, marks) = visit_marks(st, module.marks);
    (after, ModuleView { marks, directives: with_epilogue(module.directives, after) })
}

/// The state in which the walk over a file starts.
pub open spec fn initial_state(filename: Option<Seq<char>>) -> VisitorView {
    VisitorView {
        filename: match filename {
            Some(name) => name,
            None => Seq::empty(),
        },
        class_index: 0,
        has_element: false,
        class_stack: Seq::empty(),
        need_reload: false,
        in_constructor: false,
    }
}

impl TransformVisitor {
    /// Visits the constructs of a module.
    pub fn visit_mut_marks(&mut self, marks: Vec<Syntax>) -> (out: Vec<Syntax>)
        ensures
            final(self)@ == visit_marks(old(self)@, marks_view(marks)).0,
            marks_view(out) == visit_marks(old(self)@, marks_view(marks)).1,
    {
        let ghost start = self@;
        let ghost all = marks_view(marks);
        let mut rest = reversed(marks);
        let mut out: Vec<Syntax> = Vec::new();
        while rest.len() > 0
            invariant
                rest@.len() + out@.len() == marks@.len(),
                rest@ == marks@.reverse().take(rest@.len() as int),
                all == marks_view(marks),
                self@ == visit_marks(start, all.take(out@.len() as int)).0,
                marks_view(out) == visit_marks(start, all.take(out@.len() as int)).1,
            decreases rest.len(),
        {
            let ghost seen = out@.len() as int;
            let ghost before = self@;
            let ghost done = marks_view(out);
            let mark = rest.pop().unwrap();
            assert(mark == marks@[seen]);
            assert(all.take(seen + 1).drop_last() =~= all.take(seen));
            assert(all.take(seen + 1).last() == mark@);
            let next = match mark {
                Syntax::Class(class) => Syntax::Class(self.visit_mut_class(class)),
                Syntax::PrivateAccess { name } => {
                    if self.class_stack.len() > 0 {
                        Syntax::MangledAccess { name: self.visit_mut_member_expr(name.as_str()) }
                    } else {
                        Syntax::PrivateAccess { name }
                    }
                },
                Syntax::NewTarget => {
                    self.visit_mut_meta_prop_kind();
                    Syntax::NewTarget
                },
                Syntax::SuperCall { arg_count } => {
                    self.visit_mut_call_expr(arg_count);
                    Syntax::SuperCall { arg_count }
                },
                Syntax::Return { has_value } => {
                    self.visit_mut_return_stmt(has_value);
                    Syntax::Return { has_value }
                },
                Syntax::MangledAccess { name } => Syntax::MangledAccess { name },
            };
            assert(self@ == visit_mark(before, mark@).0);
            assert(next@ == visit_mark(before, mark@).1);
            out.push(next);
            assert(marks_view(out) =~= done.push(next@));
        }
        assert(all.take(out@.len() as int) =~= all);
        out
    }

    /// Visits a module: rewrites the classes that can be replaced while the
    /// program runs, and appends the statement that declines a hot update
    /// where a class cannot, or accepts it where the module defines an
    /// element.
    pub fn visit_mut_module_items(&mut self, node: Module) -> (out: Module)
        ensures
            final(self)@ == visit_module(old(self)@, node@).0,
            out@ == visit_module(old(self)@, node@).1,
    {
        let Module { marks, directives } = node;
        let marks = self.visit_mut_marks(marks);
        let mut directives = directives;
        if self.need_reload {
            directives.push(HotDirective::Decline);
        } else if self.has_element {
            directives.push(HotDirective::Accept);
        }
        Module { marks, directives }
    }
}

/// Starts the hot-replacement rewrite of the file `filename`.
pub fn hmr_transform(filename: Option<String>) -> (visitor: TransformVisitor)
    ensures
        visitor@ == initial_state(crate::pattern::optional_text(filename)),
{
    let filename = match filename {
        Some(name) => name,
        None => String::new(),
    };
    let visitor = TransformVisitor {
        filename,
        class_index: 0,
        has_element: false,
        class_stack: Vec::new(),
        need_reload: false,
        in_constructor: false,
    };
    assert(visitor@.class_stack =~= Seq::empty());
    visitor
}

} // verus!
