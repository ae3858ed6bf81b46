//! The lexical context chain and the mutable execution environment.
//!
//! A context is a stack of scopes: extending it yields a child with an empty
//! top scope that falls back to the outer scopes on lookup miss, and a child
//! never mutates its parent. The environment carries the resource budget,
//! the contract's own identity and user-function names, and the acting
//! principal.

use vstd::prelude::*;

verus! {

use crate::costs::{CostFunction, spec_cost, cost_base, cost_mult};
use crate::errors::{RuntimeErrorType, VmError, ErrorView, RuntimeErrorView};
use crate::representations::ClarityName;
use crate::types::{
    Value, ValueView, value_view, PrincipalData, PrincipalView, principal_view,
    QualifiedContractIdentifier, ContractIdView, contract_id_view, clone_value,
};

/// Deepest admissible context chain.
pub const MAX_CONTEXT_DEPTH: u16 = 256;

// ---------------------------------------------------------------------------
// Lexical contexts.
// ---------------------------------------------------------------------------
/// Model of one scope: its bindings in insertion order.
pub type ScopeView = Seq<(Seq<char>, ValueView)>;

/// Model of a context: its scopes, outermost first.
pub type ContextView = Seq<ScopeView>;

/// A lexical context: a stack of scopes, outermost first.
pub struct LocalContext {
    pub scopes: Vec<Vec<(ClarityName, Value)>>,
}

/// Model of one scope.
pub open spec fn scope_view(sc: Vec<(ClarityName, Value)>) -> ScopeView {
    sc@.map_values(|p: (ClarityName, Value)| (p.0@, value_view(p.1)))
}

impl View for LocalContext {
    type V = ContextView;

    open spec fn view(&self) -> ContextView {
        self.scopes@.map_values(|sc: Vec<(ClarityName, Value)>| scope_view(sc))
    }
}

/// Looks a name up in the bindings of one scope with index at least `j`,
/// first match first.
pub open spec fn scope_lookup_from(sc: ScopeView, j: int, name: Seq<char>) -> Option<ValueView>
    decreases sc.len() - j,
{
    if j < 0 || j >= sc.len() {
        Option::None
    } else if sc[j].0 == name {
        Option::Some(sc[j].1)
    } else {
        scope_lookup_from(sc, j + 1, name)
    }
}

/// Looks a name up in one scope.
pub open spec fn scope_lookup(sc: ScopeView, name: Seq<char>) -> Option<ValueView> {
    scope_lookup_from(sc, 0, name)
}

/// Looks a name up in the scopes with index below `i`, innermost first.
pub open spec fn ctx_lookup_upto(ctx: ContextView, i: int, name: Seq<char>) -> Option<ValueView>
    decreases i,
{
    if i <= 0 || i > ctx.len() {
        Option::None
    } else {
        match scope_lookup(ctx[i - 1], name) {
            Option::Some(v) => Option::Some(v),
            Option::None => ctx_lookup_upto(ctx, i - 1, name),
        }
    }
}

/// Looks a name up in a context, innermost scope first.
pub open spec fn ctx_lookup(ctx: ContextView, name: Seq<char>) -> Option<ValueView> {
    ctx_lookup_upto(ctx, ctx.len() as int, name)
}

fn scope_lookup_exec(sc: &Vec<(ClarityName, Value)>, j: usize, name: &str) -> (r: Option<Value>)
    requires
        j <= sc@.len(),
    ensures
        match r {
            Option::Some(v) => scope_lookup_from(scope_view(*sc), j as int, name@)
                == Option::Some(v@),
            Option::None => scope_lookup_from(scope_view(*sc), j as int, name@) is None,
        },
    decreases sc@.len() - j,
{
    if j >= sc.len() {
        Option::None
    } else if sc[j].0.is_str(name) {
        Option::Some(clone_value(&sc[j].1))
    } else {
        scope_lookup_exec(sc, j + 1, name)
    }
}

fn ctx_lookup_exec(ctx: &LocalContext, i: usize, name: &str) -> (r: Option<Value>)
    requires
        i <= ctx@.len(),
    ensures
        match r {
            Option::Some(v) => ctx_lookup_upto(ctx@, i as int, name@) == Option::Some(v@),
            Option::None => ctx_lookup_upto(ctx@, i as int, name@) is None,
        },
    decreases i,
{
    if i == 0 {
        Option::None
    } else {
        match scope_lookup_exec(&ctx.scopes[i - 1], 0, name) {
            Option::Some(v) => Option::Some(v),
            Option::None => ctx_lookup_exec(ctx, i - 1, name),
        }
    }
}

/// Copies one scope, pair for pair.
fn clone_scope(sc: &Vec<(ClarityName, Value)>) -> (r: Vec<(ClarityName, Value)>)
    ensures
        scope_view(r) == scope_view(*sc),
{
    let mut out: Vec<(ClarityName, Value)> = Vec::new();
    let mut i: usize = 0;
    while i < sc.len()
        invariant
            i <= sc@.len(),
            out@.len() == i,
            forall|k: int|
                0 <= k < i ==> (#[trigger] out@[k]).0 == sc@[k].0 && value_view(out@[k].1)
                    == value_view(sc@[k].1),
        decreases sc@.len() - i,
    {
        out.push((sc[i].0.clone_name(), clone_value(&sc[i].1)));
        i += 1;
    }
    proof {
        assert forall|k: int| 0 <= k < sc@.len() implies scope_view(out)[k] == scope_view(*sc)[k]
        by {
            assert(out@[k].0 == sc@[k].0);
        }
        assert(scope_view(out) =~= scope_view(*sc));
    }
    out
}

impl LocalContext {
    /// The root context: one scope with no bindings.
    pub fn new() -> (r: LocalContext)
        ensures
            r@ == seq![Seq::<(Seq<char>, ValueView)>::empty()],
    {
        let mut scopes: Vec<Vec<(ClarityName, Value)>> = Vec::new();
        scopes.push(Vec::new());
        let r = LocalContext { scopes };
        proof {
            assert(r@ =~~= seq![Seq::<(Seq<char>, ValueView)>::empty()]);
        }
        r
    }

    /// How many scopes lie below the root.
    pub fn depth(&self) -> (r: usize)
        requires
            self@.len() >= 1,
        ensures
            r == self@.len() - 1,
    {
        self.scopes.len() - 1
    }

    /// Extends the context with a child scope holding no bindings; the
    /// receiver itself is untouched, so a child never mutates its parent.
    /// Fails only when the chain is already at the depth bound.
    pub fn extend(&self) -> (r: Result<LocalContext, RuntimeErrorType>)
        ensures
            match r {
                Ok(c) => self@.len() < MAX_CONTEXT_DEPTH + 1 && c@ == self@.push(
                    Seq::<(Seq<char>, ValueView)>::empty(),
                ),
                Err(e) => self@.len() >= MAX_CONTEXT_DEPTH + 1 && e@
                    == RuntimeErrorView::MaxContextDepthReached,
            },
    {
        if self.scopes.len() >= (MAX_CONTEXT_DEPTH as usize) + 1 {
            return Err(RuntimeErrorType::MaxContextDepthReached);
        }
        let mut scopes: Vec<Vec<(ClarityName, Value)>> = Vec::new();
        let mut i: usize = 0;
        while i < self.scopes.len()
            invariant
                i <= self.scopes@.len(),
                scopes@.len() == i,
                forall|k: int|
                    0 <= k < i ==> scope_view(#[trigger] scopes@[k]) == scope_view(
                        self.scopes@[k],
                    ),
            decreases self.scopes@.len() - i,
        {
            scopes.push(clone_scope(&self.scopes[i]));
            i += 1;
        }
        scopes.push(Vec::new());
        let r = LocalContext { scopes };
        proof {
            let target = self@.push(Seq::<(Seq<char>, ValueView)>::empty());
            assert forall|k: int| 0 <= k < r@.len() implies r@[k] == target[k] by {
                if k < self.scopes@.len() {
                    assert(scope_view(scopes@[k]) == scope_view(self.scopes@[k]));
                } else {
                    assert(scope_view(scopes@[k]) =~= Seq::<(Seq<char>, ValueView)>::empty());
                }
            }
            assert(r@ =~= target);
        }
        Ok(r)
    }

    /// Adds a binding to the innermost scope.
    pub fn insert_binding(&mut self, name: ClarityName, value: Value)
        requires
            old(self)@.len() >= 1,
        ensures
            final(self)@ == old(self)@.update(
                old(self)@.len() - 1,
                old(self)@.last().push((name@, value@)),
            ),
    {
        let last = self.scopes.len() - 1;
        let ghost pre = self@;
        let scope = &mut self.scopes[last];
        scope.push((name, value));
        proof {
            assert(final(self)@ =~~= pre.update(pre.len() - 1, pre.last().push((name@, value@))));
        }
    }

    /// Looks a name up, innermost scope first; a hit hands back a copy of
    /// the bound value.
    pub fn lookup_variable(&self, name: &str) -> (r: Option<Value>)
        ensures
            match r {
                Option::Some(v) => ctx_lookup(self@, name@) == Option::Some(v@),
                Option::None => ctx_lookup(self@, name@) is None,
            },
    {
        ctx_lookup_exec(self, self.scopes.len(), name)
    }

    /// Whether the innermost scope already binds the name.
    pub fn innermost_binds(&self, name: &str) -> (r: bool)
        requires
            self@.len() >= 1,
        ensures
            r == (scope_lookup(self@.last(), name@) is Some),
    {
        let last = self.scopes.len() - 1;
        match scope_lookup_exec(&self.scopes[last], 0, name) {
            Option::Some(_) => true,
            Option::None => false,
        }
    }
}

// ---------------------------------------------------------------------------
// The execution environment.
// ---------------------------------------------------------------------------
/// The resource budget of one evaluation: what was consumed so far, and the
/// total that may be consumed.
pub struct CostBudget {
    pub consumed: u64,
    pub limit: u64,
}

/// What the evaluator knows of the contract being run: its identity and the
/// names of the user-defined functions visible in it.
pub struct ContractContext {
    pub contract_identifier: QualifiedContractIdentifier,
    pub function_names: Vec<ClarityName>,
}

/// The mutable execution environment, exclusively owned by one in-flight
/// evaluation.
pub struct Environment {
    pub budget: CostBudget,
    pub contract_context: ContractContext,
    pub sender: Option<PrincipalData>,
}

/// Model of the environment.
pub struct EnvView {
    pub consumed: u64,
    pub limit: u64,
    pub contract_id: ContractIdView,
    pub fn_names: Seq<Seq<char>>,
    pub sender: Option<PrincipalView>,
}

impl View for Environment {
    type V = EnvView;

    open spec fn view(&self) -> EnvView {
        EnvView {
            consumed: self.budget.consumed,
            limit: self.budget.limit,
            contract_id: contract_id_view(self.contract_context.contract_identifier),
            fn_names: self.contract_context.function_names@.map_values(|n: ClarityName| n@),
            sender: match self.sender {
                Option::None => Option::None,
                Option::Some(p) => Option::Some(principal_view(p)),
            },
        }
    }
}

/// The outcome of charging one dispatch against the budget: on exhaustion a
/// runtime error and an unchanged environment, otherwise the grown total.
pub open spec fn spec_charge(f: CostFunction, env: EnvView, size: usize) -> (Result<
    (),
    ErrorView,
>, EnvView) {
    let total = spec_cost(f, size);
    if env.consumed + total > env.limit {
        (Err(ErrorView::Runtime(RuntimeErrorView::CostBalanceExceeded)), env)
    } else {
        (Ok(()), EnvView { consumed: (env.consumed + total) as u64, ..env })
    }
}

/// Whether a name is among the contract's user-defined function names.
pub open spec fn spec_has_function(env: EnvView, name: Seq<char>) -> bool {
    exists|i: int| 0 <= i < env.fn_names.len() && env.fn_names[i] == name
}

impl Environment {
    /// A fresh environment with nothing consumed.
    pub fn new(contract_context: ContractContext, limit: u64, sender: Option<PrincipalData>) -> (r:
        Environment)
        ensures
            r@ == (EnvView {
                consumed: 0,
                limit: limit,
                contract_id: contract_id_view(contract_context.contract_identifier),
                fn_names: contract_context.function_names@.map_values(|n: ClarityName| n@),
                sender: match sender {
                    Option::None => Option::<PrincipalView>::None,
                    Option::Some(p) => Option::Some(principal_view(p)),
                },
            }),
    {
        Environment { budget: CostBudget { consumed: 0, limit }, contract_context, sender }
    }

    /// Whether the contract being run defines a user function of the given
    /// name.
    pub fn has_function(&self, name: &str) -> (r: bool)
        ensures
            r == spec_has_function(self@, name@),
    {
        let names = &self.contract_context.function_names;
        let mut i: usize = 0;
        while i < names.len()
            invariant
                i <= names@.len(),
                self@.fn_names == names@.map_values(|n: ClarityName| n@),
                forall|j: int| 0 <= j < i ==> self@.fn_names[j] != name@,
            decreases names@.len() - i,
        {
            if names[i].is_str(name) {
                proof {
                    assert(self@.fn_names[i as int] == name@);
                }
                return true;
            }
            i += 1;
        }
        false
    }

    /// Charges one dispatch against the budget: exhaustion fails with a
    /// non-recoverable resource error and leaves the total unchanged.
    pub fn runtime_cost(&mut self, f: CostFunction, size: usize) -> (r: Result<(), VmError>)
        ensures
            ({
                let (cr, cenv) = spec_charge(f, old(self)@, size);
                match r {
                    Ok(()) => cr is Ok && final(self)@ == cenv,
                    Err(e) => cr == Err::<(), ErrorView>(e@) && final(self)@ == old(self)@,
                }
            }),
    {
        let base = cost_base(f);
        let mult = cost_mult(f);
        proof {
            assert((mult as u128) * (size as u128) <= 18446744073709551615u128
                * 18446744073709551615u128) by (nonlinear_arith)
                requires
                    mult as u128 <= 18446744073709551615u128,
                    size as u128 <= 18446744073709551615u128,
            ;
        }
        let total: u128 = (base as u128) + (mult as u128) * (size as u128);
        if (self.budget.consumed as u128) + total > (self.budget.limit as u128) {
            Err(VmError::Runtime(RuntimeErrorType::CostBalanceExceeded))
        } else {
            self.budget.consumed = ((self.budget.consumed as u128) + total) as u64;
            Ok(())
        }
    }
}


/// Looking a name up in a scope extended by one binding: earlier bindings
/// win, and the new binding answers only for its own name.
pub proof fn lemma_scope_lookup_push(sc: ScopeView, p: (Seq<char>, ValueView), x: Seq<char>)
    ensures
        scope_lookup(sc.push(p), x) == (match scope_lookup(sc, x) {
            Option::Some(v) => Option::Some(v),
            Option::None => if p.0 == x {
                Option::Some(p.1)
            } else {
                Option::<ValueView>::None
            },
        }),
{
    lemma_scope_lookup_from_push(sc, p, 0, x);
}

proof fn lemma_scope_lookup_from_push(sc: ScopeView, p: (Seq<char>, ValueView), j: int, x: Seq<
    char,
>)
    requires
        0 <= j <= sc.len(),
    ensures
        scope_lookup_from(sc.push(p), j, x) == (match scope_lookup_from(sc, j, x) {
            Option::Some(v) => Option::Some(v),
            Option::None => if p.0 == x {
                Option::Some(p.1)
            } else {
                Option::<ValueView>::None
            },
        }),
    decreases sc.len() - j,
{
    if j == sc.len() {
        assert(sc.push(p)[j] == p);
    } else {
        assert(sc.push(p)[j] == sc[j]);
        lemma_scope_lookup_from_push(sc, p, j + 1, x);
    }
}

} // verus!
