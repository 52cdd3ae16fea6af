//! Lexical scopes: a stack of scopes that map names to optional types, with a
//! history of the scopes that were left.

use vstd::prelude::*;
use crate::text::same_text;
use crate::types::IRType;

verus! {

/// One registered name with its type, if a type is known for it.
pub type Binding = (Seq<char>, Option<IRType>);

/// The bindings of one scope, oldest first.
pub type ScopeView = Seq<Binding>;

/// What a lookup of `name` in one scope finds: the type of the youngest
/// binding of that name, or `None` where the scope has no such binding.
pub open spec fn lookup_scope(vars: ScopeView, name: Seq<char>) -> Option<Option<IRType>>
    decreases vars.len(),
{
    if vars.len() == 0 {
        None
    } else if vars.last().0 == name {
        Some(vars.last().1)
    } else {
        lookup_scope(vars.drop_last(), name)
    }
}

/// What a lookup of `name` in a stack of scopes finds: the innermost scope
/// that binds the name decides.
pub open spec fn lookup_scopes(scopes: Seq<ScopeView>, name: Seq<char>) -> Option<Option<IRType>>
    decreases scopes.len(),
{
    if scopes.len() == 0 {
        None
    } else {
        match lookup_scope(scopes.last(), name) {
            Some(ty) => Some(ty),
            None => lookup_scopes(scopes.drop_last(), name),
        }
    }
}

/// All bindings of a stack of scopes in one sequence, outermost scope first.
pub open spec fn flatten_scopes(scopes: Seq<ScopeView>) -> ScopeView
    decreases scopes.len(),
{
    if scopes.len() == 0 {
        Seq::empty()
    } else {
        flatten_scopes(scopes.drop_last()) + scopes.last()
    }
}

/// The state of a compilation's name environment.
pub struct ContextView {
    /// The open scopes, root first.
    pub scopes: Seq<ScopeView>,
    /// The scopes that were left, in the order in which they were left.
    pub history: Seq<ScopeView>,
}

impl ContextView {
    /// The environment at the start of a compilation: an empty root scope.
    pub open spec fn initial() -> ContextView {
        ContextView { scopes: seq![Seq::<Binding>::empty()], history: Seq::empty() }
    }

    /// A root scope exists.
    pub open spec fn wf(self) -> bool {
        self.scopes.len() >= 1
    }

    /// What a lookup of `name` finds, innermost scope first.
    pub open spec fn lookup(self, name: Seq<char>) -> Option<Option<IRType>> {
        lookup_scopes(self.scopes, name)
    }

    /// The innermost scope extended by `vars`.
    pub open spec fn extend(self, vars: ScopeView) -> ContextView {
        ContextView {
            scopes: self.scopes.drop_last().push(self.scopes.last() + vars),
            history: self.history,
        }
    }

    /// The innermost scope extended by one binding.
    pub open spec fn push_variable(self, name: Seq<char>, ty: Option<IRType>) -> ContextView {
        self.extend(seq![(name, ty)])
    }

    /// The environment with a new, empty innermost scope.
    pub open spec fn push_scope(self) -> ContextView {
        ContextView { scopes: self.scopes.push(Seq::empty()), history: self.history }
    }

    /// The environment without its innermost scope, which has moved to the end
    /// of the history.
    pub open spec fn pop_scope(self) -> ContextView {
        ContextView {
            scopes: self.scopes.drop_last(),
            history: self.history.push(self.scopes.last()),
        }
    }

    /// The environment with the scope that was left last open again, or the
    /// environment itself where the history is empty.
    pub open spec fn restore_scope(self) -> ContextView {
        if self.history.len() == 0 {
            self
        } else {
            ContextView {
                scopes: self.scopes.push(self.history.last()),
                history: self.history.drop_last(),
            }
        }
    }
}

/// Within a scope the youngest binding of a name wins: a binding of `name`
/// with no binding of `name` after it decides the lookup.
pub proof fn lemma_lookup_scope_last_wins(vars: ScopeView, name: Seq<char>, i: int)
    requires
        0 <= i < vars.len(),
        vars[i].0 == name,
        forall|j: int| i < j < vars.len() ==> (#[trigger] vars[j]).0 != name,
    ensures
        lookup_scope(vars, name) == Some(vars[i].1),
    decreases vars.len(),
{
    if i < vars.len() - 1 {
        assert(vars.last() == vars[vars.len() - 1]);
        assert(vars.drop_last()[i] == vars[i]);
        assert forall|j: int| i < j < vars.drop_last().len() implies (
        #[trigger] vars.drop_last()[j]).0 != name by {
            assert(vars.drop_last()[j] == vars[j]);
        }
        lemma_lookup_scope_last_wins(vars.drop_last(), name, i);
    }
}

/// A lookup in a scope finds nothing exactly if no binding has the name.
pub proof fn lemma_lookup_scope_none(vars: ScopeView, name: Seq<char>)
    ensures
        lookup_scope(vars, name) is None <==> forall|i: int|
            0 <= i < vars.len() ==> (#[trigger] vars[i]).0 != name,
    decreases vars.len(),
{
    if vars.len() > 0 {
        lemma_lookup_scope_none(vars.drop_last(), name);
        if vars.last().0 != name {
            if lookup_scope(vars, name) is None {
                assert forall|i: int| 0 <= i < vars.len() implies (#[trigger] vars[i]).0
                    != name by {
                    if i < vars.len() - 1 {
                        assert(vars.drop_last()[i] == vars[i]);
                    }
                }
            } else {
                let i = choose|i: int|
                    0 <= i < vars.drop_last().len() && (#[trigger] vars.drop_last()[i]).0 == name;
                assert(vars[i] == vars.drop_last()[i]);
            }
        }
    }
}

/// A lookup in two runs of bindings, one after the other, asks the later run
/// first.
pub proof fn lemma_lookup_scope_concat(older: ScopeView, younger: ScopeView, name: Seq<char>)
    ensures
        lookup_scope(older + younger, name) == match lookup_scope(younger, name) {
            Some(ty) => Some(ty),
            None => lookup_scope(older, name),
        },
    decreases younger.len(),
{
    if younger.len() == 0 {
        assert(older + younger =~= older);
    } else {
        assert((older + younger).last() == younger.last());
        assert((older + younger).drop_last() =~= older + younger.drop_last());
        lemma_lookup_scope_concat(older, younger.drop_last(), name);
    }
}

/// Looking a name up scope by scope, innermost first, finds what a lookup in
/// all bindings in one sequence finds: of all bindings of a name, the one
/// registered in the innermost scope, and there the youngest, wins.
pub proof fn lemma_lookup_is_flat_lookup(scopes: Seq<ScopeView>, name: Seq<char>)
    ensures
        lookup_scopes(scopes, name) == lookup_scope(flatten_scopes(scopes), name),
    decreases scopes.len(),
{
    if scopes.len() > 0 {
        lemma_lookup_is_flat_lookup(scopes.drop_last(), name);
        lemma_lookup_scope_concat(flatten_scopes(scopes.drop_last()), scopes.last(), name);
    }
}

/// A registered name is found with the type it was registered with, whatever
/// was bound to it before; the lookup of every other name is as before.
pub proof fn lemma_push_variable_lookup(
    ctx: ContextView,
    name: Seq<char>,
    ty: Option<IRType>,
    other: Seq<char>,
)
    requires
        ctx.wf(),
    ensures
        ctx.push_variable(name, ty).wf(),
        ctx.push_variable(name, ty).lookup(name) == Some(ty),
        other != name ==> ctx.push_variable(name, ty).lookup(other) == ctx.lookup(other),
{
    let after = ctx.push_variable(name, ty);
    let scope = ctx.scopes.last() + seq![(name, ty)];
    assert(after.scopes.last() == scope);
    assert(after.scopes.drop_last() =~= ctx.scopes.drop_last());
    assert(scope.last() == (name, ty));
    assert(scope.drop_last() =~= ctx.scopes.last());
}

/// A scope that was opened and left again changes no lookup and leaves the
/// open scopes as they were; the history has grown by the scope that was
/// left.
pub proof fn lemma_push_pop_scope(ctx: ContextView, name: Seq<char>)
    ensures
        ctx.push_scope().lookup(name) == ctx.lookup(name),
        ctx.push_scope().pop_scope().scopes == ctx.scopes,
        ctx.push_scope().pop_scope().history == ctx.history.push(Seq::empty()),
        ctx.push_scope().pop_scope().restore_scope() == ctx.push_scope(),
{
    let pushed = ctx.push_scope();
    assert(pushed.scopes.drop_last() =~= ctx.scopes);
    assert(pushed.scopes.last() == Seq::<Binding>::empty());
    let popped = pushed.pop_scope();
    assert(popped.history.drop_last() =~= ctx.history);
    assert(popped.history.last() == Seq::<Binding>::empty());
}

/// The bindings of one scope, in the order in which they were registered.
#[derive(Debug, Default)]
pub struct Scope {
    variables: Vec<(String, Option<IRType>)>,
}

impl View for Scope {
    type V = ScopeView;

    closed spec fn view(&self) -> ScopeView {
        self.variables@.map_values(|b: (String, Option<IRType>)| (b.0@, b.1))
    }
}

/// The scopes of one compilation.
#[derive(Debug)]
pub struct Context {
    scopes: Vec<Scope>,
    scope_history: Vec<Scope>,
}

impl View for Context {
    type V = ContextView;

    closed spec fn view(&self) -> ContextView {
        ContextView {
            scopes: self.scopes@.map_values(|s: Scope| s@),
            history: self.scope_history@.map_values(|s: Scope| s@),
        }
    }
}

impl Scope {
    /// An empty scope.
    pub fn new() -> (scope: Scope)
        ensures
            scope@ == Seq::<Binding>::empty(),
    {
        let scope = Scope { variables: Vec::new() };
        assert(scope@ =~= Seq::<Binding>::empty());
        scope
    }

    /// The number of bindings.
    pub fn len(&self) -> (n: usize)
        ensures
            n == self@.len(),
    {
        self.variables.len()
    }

    /// The name of the binding at `index`.
    pub fn name(&self, index: usize) -> (name: &str)
        requires
            index < self@.len(),
        ensures
            name@ == self@[index as int].0,
    {
        self.variables[index].0.as_str()
    }

    /// The type of the binding at `index`.
    pub fn ty(&self, index: usize) -> (ty: Option<IRType>)
        requires
            index < self@.len(),
        ensures
            ty == self@[index as int].1,
    {
        self.variables[index].1
    }

    /// Looks `name` up among the bindings of this scope, youngest first.
    pub fn variable_type(&self, name: &str) -> (found: Option<Option<IRType>>)
        ensures
            found == lookup_scope(self@, name@),
    {
        let mut j: usize = self.variables.len();
        assert(self@.take(j as int) =~= self@);
        while j > 0
            invariant
                j <= self@.len(),
                self@.len() == self.variables@.len(),
                lookup_scope(self@, name@) == lookup_scope(self@.take(j as int), name@),
            decreases j,
        {
            j = j - 1;
            assert(self@.take(j + 1).last() == self@[j as int]);
            assert(self@.take(j + 1).drop_last() =~= self@.take(j as int));
            if same_text(self.variables[j].0.as_str(), name) {
                return Some(self.variables[j].1);
            }
        }
        assert(self@.take(0).len() == 0);
        None
    }
}

impl Default for Context {
    fn default() -> (context: Context)
        ensures
            context@ == ContextView::initial(),
            context@.wf(),
    {
        let mut scopes: Vec<Scope> = Vec::new();
        scopes.push(Scope::new());
        let context = Context { scopes, scope_history: Vec::new() };
        assert(context@.scopes =~= ContextView::initial().scopes);
        assert(context@.history =~= ContextView::initial().history);
        context
    }
}

impl Context {
    /// The number of open scopes, the root scope included.
    pub fn depth(&self) -> (n: usize)
        ensures
            n == self@.scopes.len(),
    {
        self.scopes.len()
    }

    /// Registers `name` with `ty` in the innermost scope.
    pub fn push_variable(&mut self, name: String, ty: Option<IRType>)
        requires
            old(self)@.wf(),
        ensures
            final(self)@ == old(self)@.push_variable(name@, ty),
            final(self)@.wf(),
    {
        let mut scope = self.scopes.pop().unwrap();
        scope.variables.push((name, ty));
        self.scopes.push(scope);
        assert(final(self)@.scopes =~= old(self)@.push_variable(name@, ty).scopes) by {
            assert(scope@ =~= old(self)@.scopes.last() + seq![(name@, ty)]);
        }
        assert(final(self)@.history =~= old(self)@.history);
    }

    /// Opens a new, empty innermost scope.
    pub fn push_scope(&mut self)
        ensures
            final(self)@ == old(self)@.push_scope(),
            final(self)@.scopes.len() == old(self)@.scopes.len() + 1,
    {
        self.scopes.push(Scope::new());
        assert(final(self)@.scopes =~= old(self)@.push_scope().scopes);
    }

    /// Leaves the innermost scope and keeps it in the history. The root scope
    /// is never left.
    pub fn pop_scope(&mut self)
        requires
            old(self)@.scopes.len() > 1,
        ensures
            final(self)@ == old(self)@.pop_scope(),
            final(self)@.wf(),
    {
        let scope = self.scopes.pop().unwrap();
        self.scope_history.push(scope);
        assert(final(self)@.scopes =~= old(self)@.pop_scope().scopes);
        assert(final(self)@.history =~= old(self)@.pop_scope().history);
    }

    /// Reopens the scope that was left last, if there is one.
    pub fn restore_scope(&mut self)
        ensures
            final(self)@ == old(self)@.restore_scope(),
    {
        let scope = self.scope_history.pop();
        if let Some(scope) = scope {
            self.scopes.push(scope);
            assert(final(self)@.scopes =~= old(self)@.restore_scope().scopes);
            assert(final(self)@.history =~= old(self)@.restore_scope().history);
        } else {
            assert(final(self)@.scopes =~= old(self)@.scopes);
            assert(final(self)@.history =~= old(self)@.history);
        }
    }

    /// The innermost scope.
    pub fn current_scope(&self) -> (scope: &Scope)
        requires
            self@.wf(),
        ensures
            scope@ == self@.scopes.last(),
    {
        &self.scopes[self.scopes.len() - 1]
    }

    /// Looks `name` up, innermost scope first and, within a scope, youngest
    /// binding first. The outer `Option` says whether the name is bound at
    /// all, the inner one whether a type is known for it.
    pub fn variable_type(&self, name: &str) -> (found: Option<Option<IRType>>)
        ensures
            found == self@.lookup(name@),
    {
        let mut i: usize = self.scopes.len();
        assert(self@.scopes.take(i as int) =~= self@.scopes);
        while i > 0
            invariant
                i <= self.scopes@.len(),
                self@.scopes.len() == self.scopes@.len(),
                self@.lookup(name@) == lookup_scopes(self@.scopes.take(i as int), name@),
            decreases i,
        {
            i = i - 1;
            assert(self@.scopes.take(i + 1).last() == self.scopes@[i as int]@);
            assert(self@.scopes.take(i + 1).drop_last() =~= self@.scopes.take(i as int));
            let found = self.scopes[i].variable_type(name);
            if found.is_some() {
                return found;
            }
        }
        assert(self@.scopes.take(0).len() == 0);
        None
    }

    /// Registers every binding of `vars`, in order, in the innermost scope.
    pub fn extend(&mut self, vars: Vec<(String, Option<IRType>)>)
        requires
            old(self)@.wf(),
        ensures
            final(self)@ == old(self)@.extend(
                vars@.map_values(|b: (String, Option<IRType>)| (b.0@, b.1)),
            ),
            final(self)@.wf(),
    {
        let mut vars = vars;
        let ghost added = vars@.map_values(|b: (String, Option<IRType>)| (b.0@, b.1));
        let mut scope = self.scopes.pop().unwrap();
        scope.variables.append(&mut vars);
        self.scopes.push(scope);
        assert(final(self)@.scopes =~= old(self)@.extend(added).scopes) by {
            assert(scope@ =~= old(self)@.scopes.last() + added);
        }
        assert(final(self)@.history =~= old(self)@.history);
    }
}

} // verus!
