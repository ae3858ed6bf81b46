//! The evaluator: a mathematical semantics for the resolved expression tree,
//! and the executable dispatcher proved to implement it.
//!
//! The semantics is a function from expression, environment model and
//! context model to an outcome and a final environment model: the same
//! program always yields the same value and the same resource totals.

use vstd::prelude::*;

verus! {

use crate::contexts::{
    Environment, EnvView, LocalContext, ContextView, scope_lookup, ctx_lookup, spec_charge,
    spec_has_function, MAX_CONTEXT_DEPTH,
};
use crate::costs::CostFunction;
use crate::errors::{
    CheckErrors, CheckErrorView, VmError, ErrorView, RuntimeErrorType, RuntimeErrorView,
    ShortReturnView, res_view,
};
use crate::functions::{
    CallableType, NativeHandle, SpecialOp, spec_lookup_reserved, lookup_reserved_functions,
    spec_native_single, spec_native_more, spec_is_reserved, apply_native_single, apply_native_more,
    special_if, special_asserts, special_let, special_as_contract,
};
use crate::representations::{SymbolicExpression, SymbolicExpressionType};
use crate::text::str_eq;
use crate::types::{
    Value, ValueView, value_view, vals_view, PrincipalView, clone_value, clone_principal,
};

/// The children of a list node, and nothing for any other node.
pub open spec fn children_of(e: SymbolicExpression) -> Seq<SymbolicExpression> {
    match e.expr {
        SymbolicExpressionType::List(cs) => cs@,
        _ => Seq::empty(),
    }
}

// ---------------------------------------------------------------------------
// The semantics.
// ---------------------------------------------------------------------------
/// Resolves a bare name: the reserved variables first, then the lexical
/// context, innermost scope first; an unbound name is a check error. The
/// reserved variables whose values only a collaborator can produce (the
/// caller identity, the block heights) raise the named check error instead
/// of being conflated with undefined names.
pub open spec fn spec_lookup_variable(name: Seq<char>, env: EnvView, ctx: ContextView) -> Result<
    ValueView,
    ErrorView,
> {
    if name == "tx-sender"@ {
        match env.sender {
            Option::None => Err(ErrorView::Runtime(RuntimeErrorView::NoSenderInContext)),
            Option::Some(p) => Ok(ValueView::Principal(p)),
        }
    } else if name == "none"@ {
        Ok(ValueView::Optional(Option::None))
    } else if name == "contract-caller"@ || name == "block-height"@ || name
        == "burn-block-height"@ {
        Err(ErrorView::Check(CheckErrorView::ExternalCollaboratorRequired(name)))
    } else {
        match ctx_lookup(ctx, name) {
            Option::Some(v) => Ok(v),
            Option::None => Err(ErrorView::Check(CheckErrorView::UndefinedVariable(name))),
        }
    }
}

/// One step of the semantics: literals yield their value, atoms resolve,
/// list forms dispatch through the registry, and trait forms are invalid in
/// evaluation position.
pub open spec fn spec_eval(e: SymbolicExpression, env: EnvView, ctx: ContextView) -> (Result<
    ValueView,
    ErrorView,
>, EnvView)
    decreases e, 3int, 0int,
{
    match e.expr {
        SymbolicExpressionType::AtomValue(v) => (Ok(value_view(v)), env),
        SymbolicExpressionType::LiteralValue(v) => (Ok(value_view(v)), env),
        SymbolicExpressionType::Atom(name) => (spec_lookup_variable(name@, env, ctx), env),
        SymbolicExpressionType::List(cs) => if cs@.len() == 0 {
            (Err(ErrorView::Check(CheckErrorView::NonFunctionApplication)), env)
        } else {
            match cs@[0].expr {
                SymbolicExpressionType::Atom(fname) => match spec_lookup_reserved(fname@) {
                    Option::Some(callable) => spec_apply(e, callable, env, ctx),
                    Option::None => (
                        (Err(ErrorView::Check(CheckErrorView::UndefinedFunction(fname@)))),
                        env,
                    ),
                },
                _ => (Err(ErrorView::Check(CheckErrorView::BadFunctionName)), env),
            }
        },
        SymbolicExpressionType::Field(_) => (
            (Err(ErrorView::Check(CheckErrorView::BadSymbolicRepresentation))),
            env,
        ),
        SymbolicExpressionType::TraitReference(_, _) => (
            (Err(ErrorView::Check(CheckErrorView::BadSymbolicRepresentation))),
            env,
        ),
    }
}

/// The named check error a collaborator-backed operator raises at dispatch,
/// before anything is charged: its handler and its cost function belong to
/// external collaborators.
pub open spec fn spec_collaborator_refusal(e: SymbolicExpression, env: EnvView) -> (Result<
    ValueView,
    ErrorView,
>, EnvView) {
    match children_of(e)[0].expr {
        SymbolicExpressionType::Atom(fname) => (
            (Err(ErrorView::Check(CheckErrorView::ExternalCollaboratorRequired(fname@)))),
            env,
        ),
        _ => (Err(ErrorView::Check(CheckErrorView::BadFunctionName)), env),
    }
}

/// Dispatches one resolved call form: every dispatch first charges its
/// deterministic cost; a native gets its arguments evaluated left to right,
/// a special form takes over with the raw sub-expressions. An operator
/// whose handler belongs to an external collaborator (a native without a
/// registered cost function, or a special form outside the four the core
/// holds) is refused with the named check error before any charge.
pub open spec fn spec_apply(
    e: SymbolicExpression,
    callable: CallableType,
    env: EnvView,
    ctx: ContextView,
) -> (Result<ValueView, ErrorView>, EnvView)
    decreases e, 2int, 0int,
{
    match e.expr {
        SymbolicExpressionType::List(cs) => match callable {
            CallableType::SpecialFunction(op) => match op {
                SpecialOp::If => spec_special_if(e, env, ctx),
                SpecialOp::Let => spec_special_let(e, env, ctx),
                SpecialOp::Asserts => spec_special_asserts(e, env, ctx),
                SpecialOp::AsContract => spec_special_as_contract(e, env, ctx),
                _ => spec_collaborator_refusal(e, env),
            },
            CallableType::NativeFunction(handle, cost_opt) => match cost_opt {
                Option::None => spec_collaborator_refusal(e, env),
                Option::Some(cost_fn) => {
                    let charged = spec_charge(cost_fn, env, (cs@.len() - 1) as usize);
                    match charged.0 {
                        Err(e2) => (Err(e2), charged.1),
                        Ok(_) => {
                            let evaled = spec_eval_args(e, 1, charged.1, ctx);
                            match evaled.0 {
                                Err(e3) => (Err(e3), evaled.1),
                                Ok(vals) => match handle {
                                    NativeHandle::SingleArg(op) => if vals.len() != 1 {
                                        (
                                            (Err(
                                                ErrorView::Check(
                                                    CheckErrorView::IncorrectArgumentCount(
                                                        1,
                                                        vals.len() as usize,
                                                    ),
                                                ),
                                            )),
                                            evaled.1,
                                        )
                                    } else {
                                        (spec_native_single(op, vals[0]), evaled.1)
                                    },
                                    NativeHandle::MoreArg(op) => (
                                        spec_native_more(op, vals),
                                        evaled.1,
                                    ),
                                    // The registry attaches a cost function
                                    // to no two-argument native: their
                                    // handlers are all collaborator-backed.
                                    NativeHandle::DoubleArg(_) => (
                                        (Err(ErrorView::Check(CheckErrorView::BadFunctionName))),
                                        evaled.1,
                                    ),
                                },
                            }
                        },
                    }
                },
            },
        },
        _ => (Err(ErrorView::Check(CheckErrorView::NonFunctionApplication)), env),
    }
}

/// Evaluates the argument expressions of a call form from index `i` on,
/// left to right, stopping at the first error or short-return.
pub open spec fn spec_eval_args(e: SymbolicExpression, i: int, env: EnvView, ctx: ContextView) -> (
    Result<Seq<ValueView>, ErrorView>,
    EnvView,
)
    decreases e, 0int, children_of(e).len() - i,
{
    match e.expr {
        SymbolicExpressionType::List(cs) => if i < 1 || i > cs@.len() {
            (Err(ErrorView::Check(CheckErrorView::NonFunctionApplication)), env)
        } else if i == cs@.len() {
            (Ok(Seq::<ValueView>::empty()), env)
        } else {
            let head = spec_eval(cs@[i], env, ctx);
            match head.0 {
                Err(e2) => (Err(e2), head.1),
                Ok(v) => {
                    let tail = spec_eval_args(e, i + 1, head.1, ctx);
                    match tail.0 {
                        Err(e3) => (Err(e3), tail.1),
                        Ok(tl) => (Ok(seq![v] + tl), tail.1),
                    }
                },
            }
        },
        _ => (Err(ErrorView::Check(CheckErrorView::NonFunctionApplication)), env),
    }
}

/// Evaluates the body expressions of a form from index `i` on, in order,
/// discarding every result but the last.
pub open spec fn spec_eval_body(e: SymbolicExpression, i: int, env: EnvView, ctx: ContextView) -> (
    Result<ValueView, ErrorView>,
    EnvView,
)
    decreases e, 0int, children_of(e).len() - i,
{
    match e.expr {
        SymbolicExpressionType::List(cs) => if i < 1 || i >= cs@.len() {
            (Err(ErrorView::Check(CheckErrorView::NonFunctionApplication)), env)
        } else {
            let head = spec_eval(cs@[i], env, ctx);
            match head.0 {
                Err(e2) => (Err(e2), head.1),
                Ok(v) => if i == cs@.len() - 1 {
                    (Ok(v), head.1)
                } else {
                    spec_eval_body(e, i + 1, head.1, ctx)
                },
            }
        },
        _ => (Err(ErrorView::Check(CheckErrorView::NonFunctionApplication)), env),
    }
}

/// Parses and evaluates a binding list from index `i` on: each binding is a
/// two-element list of a bare name and an expression, and every binding
/// expression is evaluated against the same outer context `ctx`.
pub open spec fn spec_eval_bindings(
    b: SymbolicExpression,
    i: int,
    env: EnvView,
    ctx: ContextView,
) -> (Result<Seq<(Seq<char>, ValueView)>, ErrorView>, EnvView)
    decreases b, 0int, children_of(b).len() - i,
{
    match b.expr {
        SymbolicExpressionType::List(bs) => if i < 0 || i > bs@.len() {
            (Err(ErrorView::Check(CheckErrorView::BadSyntaxBinding)), env)
        } else if i == bs@.len() {
            (Ok(Seq::<(Seq<char>, ValueView)>::empty()), env)
        } else {
            match bs@[i].expr {
                SymbolicExpressionType::List(pair) => if pair@.len() != 2 {
                    (Err(ErrorView::Check(CheckErrorView::BadSyntaxBinding)), env)
                } else {
                    match pair@[0].expr {
                        SymbolicExpressionType::Atom(var_name) => {
                            let head = spec_eval(pair@[1], env, ctx);
                            match head.0 {
                                Err(e2) => (Err(e2), head.1),
                                Ok(v) => {
                                    let tail = spec_eval_bindings(b, i + 1, head.1, ctx);
                                    match tail.0 {
                                        Err(e3) => (Err(e3), tail.1),
                                        Ok(tl) => (Ok(seq![(var_name@, v)] + tl), tail.1),
                                    }
                                },
                            }
                        },
                        _ => (Err(ErrorView::Check(CheckErrorView::BadSyntaxBinding)), env),
                    }
                },
                _ => (Err(ErrorView::Check(CheckErrorView::BadSyntaxBinding)), env),
            }
        },
        _ => (Err(ErrorView::Check(CheckErrorView::BadSyntaxBinding)), env),
    }
}

/// Inserts evaluated bindings into the innermost scope of `ctx` from index
/// `j` on, rejecting a name that shadows a reserved word, a user-defined
/// function, or an already-inserted binding of the same binding list.
pub open spec fn spec_insert_all(
    pairs: Seq<(Seq<char>, ValueView)>,
    j: int,
    env: EnvView,
    ctx: ContextView,
) -> Result<ContextView, ErrorView>
    decreases pairs.len() - j,
{
    if j < 0 || j >= pairs.len() {
        Ok(ctx)
    } else {
        let name = pairs[j].0;
        if spec_is_reserved(name) || spec_has_function(env, name) || (scope_lookup(
            ctx.last(),
            name,
        ) is Some) {
            Err(ErrorView::Check(CheckErrorView::NameAlreadyUsed(name)))
        } else {
            spec_insert_all(
                pairs,
                j + 1,
                env,
                ctx.update(ctx.len() - 1, ctx.last().push((name, pairs[j].1))),
            )
        }
    }
}

/// The conditional: see `crate::functions::special_if`.
pub open spec fn spec_special_if(e: SymbolicExpression, env: EnvView, ctx: ContextView) -> (Result<
    ValueView,
    ErrorView,
>, EnvView)
    decreases e, 1int, 0int,
{
    match e.expr {
        SymbolicExpressionType::List(cs) => {
            let n = cs@.len() - 1;
            if n != 3 {
                (
                    (Err(ErrorView::Check(CheckErrorView::IncorrectArgumentCount(3, n as usize)))),
                    env,
                )
            } else {
                let charged = spec_charge(CostFunction::If, env, 0);
                match charged.0 {
                    Err(e2) => (Err(e2), charged.1),
                    Ok(_) => {
                        let cond = spec_eval(cs@[1], charged.1, ctx);
                        match cond.0 {
                            Err(e3) => (Err(e3), cond.1),
                            Ok(v) => match v {
                                ValueView::Bool(result) => if result {
                                    spec_eval(cs@[2], cond.1, ctx)
                                } else {
                                    spec_eval(cs@[3], cond.1, ctx)
                                },
                                _ => (
                                    (Err(
                                        ErrorView::Check(
                                            CheckErrorView::TypeValueError(
                                                crate::types::TypeSignature::BoolType,
                                                v,
                                            ),
                                        ),
                                    )),
                                    cond.1,
                                ),
                            },
                        }
                    },
                }
            }
        },
        _ => (Err(ErrorView::Check(CheckErrorView::NonFunctionApplication)), env),
    }
}

/// The assertion: see `crate::functions::special_asserts`.
pub open spec fn spec_special_asserts(e: SymbolicExpression, env: EnvView, ctx: ContextView) -> (
    Result<ValueView, ErrorView>,
    EnvView,
)
    decreases e, 1int, 0int,
{
    match e.expr {
        SymbolicExpressionType::List(cs) => {
            let n = cs@.len() - 1;
            if n != 2 {
                (
                    (Err(ErrorView::Check(CheckErrorView::IncorrectArgumentCount(2, n as usize)))),
                    env,
                )
            } else {
                let charged = spec_charge(CostFunction::Asserts, env, 0);
                match charged.0 {
                    Err(e2) => (Err(e2), charged.1),
                    Ok(_) => {
                        let cond = spec_eval(cs@[1], charged.1, ctx);
                        match cond.0 {
                            Err(e3) => (Err(e3), cond.1),
                            Ok(v) => match v {
                                ValueView::Bool(result) => if result {
                                    (Ok(ValueView::Bool(true)), cond.1)
                                } else {
                                    let thrown = spec_eval(cs@[2], cond.1, ctx);
                                    match thrown.0 {
                                        Err(e4) => (Err(e4), thrown.1),
                                        Ok(t) => (
                                            (Err(
                                                ErrorView::ShortReturn(
                                                    ShortReturnView::AssertionFailed(t),
                                                ),
                                            )),
                                            thrown.1,
                                        ),
                                    }
                                },
                                _ => (
                                    (Err(
                                        ErrorView::Check(
                                            CheckErrorView::TypeValueError(
                                                crate::types::TypeSignature::BoolType,
                                                v,
                                            ),
                                        ),
                                    )),
                                    cond.1,
                                ),
                            },
                        }
                    },
                }
            }
        },
        _ => (Err(ErrorView::Check(CheckErrorView::NonFunctionApplication)), env),
    }
}

/// The binding form: see `crate::functions::special_let`.
pub open spec fn spec_special_let(e: SymbolicExpression, env: EnvView, ctx: ContextView) -> (
    Result<ValueView, ErrorView>,
    EnvView,
)
    decreases e, 1int, 0int,
{
    match e.expr {
        SymbolicExpressionType::List(cs) => {
            let n = cs@.len() - 1;
            if n < 2 {
                (
                    (Err(
                        ErrorView::Check(CheckErrorView::RequiresAtLeastArguments(2, n as usize)),
                    )),
                    env,
                )
            } else if !(cs@[1].expr matches SymbolicExpressionType::List(_)) {
                (Err(ErrorView::Check(CheckErrorView::BadLetSyntax)), env)
            } else {
                let bound = spec_eval_bindings(cs@[1], 0, env, ctx);
                match bound.0 {
                    Err(e2) => (Err(e2), bound.1),
                    Ok(pairs) => {
                        let charged = spec_charge(
                            CostFunction::Let,
                            bound.1,
                            pairs.len() as usize,
                        );
                        match charged.0 {
                            Err(e3) => (Err(e3), charged.1),
                            Ok(_) => if ctx.len() >= MAX_CONTEXT_DEPTH + 1 {
                                (
                                    (Err(
                                        ErrorView::Runtime(
                                            RuntimeErrorView::MaxContextDepthReached,
                                        ),
                                    )),
                                    charged.1,
                                )
                            } else {
                                match spec_insert_all(
                                    pairs,
                                    0,
                                    charged.1,
                                    ctx.push(Seq::<(Seq<char>, ValueView)>::empty()),
                                ) {
                                    Err(e4) => (Err(e4), charged.1),
                                    Ok(inner) => spec_eval_body(e, 2, charged.1, inner),
                                }
                            },
                        }
                    },
                }
            }
        },
        _ => (Err(ErrorView::Check(CheckErrorView::NonFunctionApplication)), env),
    }
}

/// The identity switch: see `crate::functions::special_as_contract`. The
/// principal substitution is restored on every exit path.
pub open spec fn spec_special_as_contract(
    e: SymbolicExpression,
    env: EnvView,
    ctx: ContextView,
) -> (Result<ValueView, ErrorView>, EnvView)
    decreases e, 1int, 0int,
{
    match e.expr {
        SymbolicExpressionType::List(cs) => {
            let n = cs@.len() - 1;
            if n != 1 {
                (
                    (Err(ErrorView::Check(CheckErrorView::IncorrectArgumentCount(1, n as usize)))),
                    env,
                )
            } else {
                let charged = spec_charge(CostFunction::AsContract, env, 0);
                match charged.0 {
                    Err(e2) => (Err(e2), charged.1),
                    Ok(_) => {
                        let nested = EnvView {
                            sender: Option::Some(PrincipalView::Contract(env.contract_id)),
                            ..charged.1
                        };
                        let body = spec_eval(cs@[1], nested, ctx);
                        (body.0, EnvView { sender: env.sender, ..body.1 })
                    },
                }
            }
        },
        _ => (Err(ErrorView::Check(CheckErrorView::NonFunctionApplication)), env),
    }
}

// ---------------------------------------------------------------------------
// The executable evaluator.
// ---------------------------------------------------------------------------
/// Resolves a bare name against the reserved variables, the environment and
/// the lexical context.
pub fn lookup_variable(name: &str, env: &Environment, context: &LocalContext) -> (r: Result<
    Value,
    VmError,
>)
    ensures
        res_view(r) == spec_lookup_variable(name@, env@, context@),
{
    if str_eq(name, "tx-sender") {
        match &env.sender {
            Option::None => Err(VmError::Runtime(RuntimeErrorType::NoSenderInContext)),
            Option::Some(p) => Ok(Value::Principal(clone_principal(p))),
        }
    } else if str_eq(name, "none") {
        Ok(Value::none())
    } else if str_eq(name, "contract-caller") || str_eq(name, "block-height") || str_eq(
        name,
        "burn-block-height",
    ) {
        Err(VmError::Check(CheckErrors::ExternalCollaboratorRequired(String::from_str(name))))
    } else {
        match context.lookup_variable(name) {
            Option::Some(v) => Ok(v),
            Option::None => Err(
                VmError::Check(CheckErrors::UndefinedVariable(String::from_str(name))),
            ),
        }
    }
}

/// Evaluates one expression: the executable form of `spec_eval`, which also
/// pins the final environment.
pub fn eval(expr: &SymbolicExpression, env: &mut Environment, context: &LocalContext) -> (r:
    Result<Value, VmError>)
    ensures
        ({
            let (sr, senv) = spec_eval(*expr, old(env)@, context@);
            res_view(r) == sr && final(env)@ == senv
        }),
    decreases *expr, 3int, 0int,
{
    match &expr.expr {
        SymbolicExpressionType::AtomValue(v) => Ok(clone_value(v)),
        SymbolicExpressionType::LiteralValue(v) => Ok(clone_value(v)),
        SymbolicExpressionType::Atom(name) => lookup_variable(name.as_str(), env, context),
        SymbolicExpressionType::List(cs) => {
            if cs.len() == 0 {
                return Err(VmError::Check(CheckErrors::NonFunctionApplication));
            }
            match &cs[0].expr {
                SymbolicExpressionType::Atom(fname) => {
                    match lookup_reserved_functions(fname.as_str()) {
                        Option::Some(callable) => apply(callable, expr, env, context),
                        Option::None => Err(
                            VmError::Check(
                                CheckErrors::UndefinedFunction(String::from_str(fname.as_str())),
                            ),
                        ),
                    }
                },
                _ => Err(VmError::Check(CheckErrors::BadFunctionName)),
            }
        },
        SymbolicExpressionType::Field(_) => Err(
            VmError::Check(CheckErrors::BadSymbolicRepresentation),
        ),
        SymbolicExpressionType::TraitReference(_, _) => Err(
            VmError::Check(CheckErrors::BadSymbolicRepresentation),
        ),
    }
}

/// Dispatches a resolved call form to its registry entry.
pub fn apply(
    callable: CallableType,
    expr: &SymbolicExpression,
    env: &mut Environment,
    context: &LocalContext,
) -> (r: Result<Value, VmError>)
    requires
        expr.expr matches SymbolicExpressionType::List(cs) && cs@.len() >= 1,
    ensures
        ({
            let (sr, senv) = spec_apply(*expr, callable, old(env)@, context@);
            res_view(r) == sr && final(env)@ == senv
        }),
    decreases *expr, 2int, 0int,
{
    match callable {
        CallableType::SpecialFunction(op) => match op {
            SpecialOp::If => special_if(expr, env, context),
            SpecialOp::Let => special_let(expr, env, context),
            SpecialOp::Asserts => special_asserts(expr, env, context),
            SpecialOp::AsContract => special_as_contract(expr, env, context),
            _ => collaborator_refusal(expr),
        },
        CallableType::NativeFunction(handle, cost_opt) => match &expr.expr {
            SymbolicExpressionType::List(cs) => {
                let cost_fn = match cost_opt {
                    Option::None => {
                        return collaborator_refusal(expr);
                    },
                    Option::Some(f) => f,
                };
                let n = cs.len() - 1;
                if let Err(e) = env.runtime_cost(cost_fn, n) {
                    return Err(e);
                }
                let mut args = match eval_args(expr, 1, env, context) {
                    Err(e) => {
                        return Err(e);
                    },
                    Ok(a) => a,
                };
                match handle {
                    NativeHandle::SingleArg(op) => {
                        if args.len() != 1 {
                            return Err(
                                VmError::Check(CheckErrors::IncorrectArgumentCount(1, args.len())),
                            );
                        }
                        match args.pop() {
                            Option::Some(v) => apply_native_single(op, v),
                            Option::None => {
                                proof {
                                    assert(false);
                                }
                                Err(VmError::Check(CheckErrors::IncorrectArgumentCount(1, 0)))
                            },
                        }
                    },
                    NativeHandle::MoreArg(op) => apply_native_more(op, args),
                    NativeHandle::DoubleArg(_) => Err(
                        VmError::Check(CheckErrors::BadFunctionName),
                    ),
                }
            },
            _ => Err(VmError::Check(CheckErrors::NonFunctionApplication)),
        },
    }
}

/// Refuses a collaborator-backed operator with the named check error.
fn collaborator_refusal(expr: &SymbolicExpression) -> (r: Result<Value, VmError>)
    requires
        expr.expr matches SymbolicExpressionType::List(cs) && cs@.len() >= 1,
    ensures
        forall|env: EnvView| #[trigger]
            spec_collaborator_refusal(*expr, env) == (res_view(r), env),
{
    match &expr.expr {
        SymbolicExpressionType::List(cs) => match &cs[0].expr {
            SymbolicExpressionType::Atom(fname) => Err(
                VmError::Check(
                    CheckErrors::ExternalCollaboratorRequired(String::from_str(fname.as_str())),
                ),
            ),
            _ => Err(VmError::Check(CheckErrors::BadFunctionName)),
        },
        _ => Err(VmError::Check(CheckErrors::BadFunctionName)),
    }
}

/// Evaluates the argument expressions of a call form from index `i` on,
/// left to right.
pub fn eval_args(
    expr: &SymbolicExpression,
    i: usize,
    env: &mut Environment,
    context: &LocalContext,
) -> (r: Result<Vec<Value>, VmError>)
    requires
        expr.expr matches SymbolicExpressionType::List(cs) && 1 <= i <= cs@.len(),
    ensures
        ({
            let (ar, aenv) = spec_eval_args(*expr, i as int, old(env)@, context@);
            final(env)@ == aenv && match r {
                Ok(vs) => ar == Ok::<Seq<ValueView>, ErrorView>(vals_view(vs@)),
                Err(e) => ar == Err::<Seq<ValueView>, ErrorView>(e@),
            }
        }),
    decreases *expr, 0int, children_of(*expr).len() - i,
{
    match &expr.expr {
        SymbolicExpressionType::List(cs) => {
            if i == cs.len() {
                let empty: Vec<Value> = Vec::new();
                proof {
                    assert(vals_view(empty@) =~= Seq::<ValueView>::empty());
                }
                return Ok(empty);
            }
            let v = match eval(&cs[i], env, context) {
                Err(e) => {
                    return Err(e);
                },
                Ok(v) => v,
            };
            let ghost head_view = value_view(v);
            let mut rest = match eval_args(expr, i + 1, env, context) {
                Err(e) => {
                    return Err(e);
                },
                Ok(a) => a,
            };
            let ghost tail_view = vals_view(rest@);
            rest.insert(0, v);
            proof {
                assert(vals_view(rest@) =~= seq![head_view] + tail_view);
            }
            Ok(rest)
        },
        _ => Err(VmError::Check(CheckErrors::NonFunctionApplication)),
    }
}

/// Evaluates the body expressions of a form from index `i` on, in order,
/// returning the last value.
pub fn eval_body(
    expr: &SymbolicExpression,
    i: usize,
    env: &mut Environment,
    context: &LocalContext,
) -> (r: Result<Value, VmError>)
    requires
        expr.expr matches SymbolicExpressionType::List(cs) && 1 <= i < cs@.len(),
    ensures
        ({
            let (sr, senv) = spec_eval_body(*expr, i as int, old(env)@, context@);
            res_view(r) == sr && final(env)@ == senv
        }),
    decreases *expr, 0int, children_of(*expr).len() - i,
{
    match &expr.expr {
        SymbolicExpressionType::List(cs) => {
            let v = match eval(&cs[i], env, context) {
                Err(e) => {
                    return Err(e);
                },
                Ok(v) => v,
            };
            if i == cs.len() - 1 {
                Ok(v)
            } else {
                eval_body(expr, i + 1, env, context)
            }
        },
        _ => Err(VmError::Check(CheckErrors::NonFunctionApplication)),
    }
}


// ---------------------------------------------------------------------------
// Laws of the binding and identity-switch forms.
// ---------------------------------------------------------------------------
/// Characterizes when inserting the bindings of one binding list succeeds:
/// exactly when, from index `j` on, no bound name is reserved, none names a
/// user-defined function, none is already bound in the innermost scope, and
/// no two are equal.
pub proof fn lemma_insert_all_characterized(
    pairs: Seq<(Seq<char>, ValueView)>,
    j: int,
    env: EnvView,
    ctx: ContextView,
)
    requires
        0 <= j <= pairs.len(),
        ctx.len() >= 1,
    ensures
        (spec_insert_all(pairs, j, env, ctx) is Ok) <==> (forall|a: int|
            j <= a < pairs.len() ==> !spec_is_reserved((#[trigger] pairs[a]).0)
                && !spec_has_function(env, pairs[a].0) && scope_lookup(ctx.last(), pairs[a].0)
                is None && (forall|b: int| j <= b < a ==> pairs[b].0 != pairs[a].0)),
    decreases pairs.len() - j,
{
    if j < pairs.len() {
        let name = pairs[j].0;
        let val = pairs[j].1;
        if spec_is_reserved(name) || spec_has_function(env, name) || (scope_lookup(
            ctx.last(),
            name,
        ) is Some) {
            assert(spec_insert_all(pairs, j, env, ctx) is Err);
        } else {
            let ctx2 = ctx.update(ctx.len() - 1, ctx.last().push((name, val)));
            assert(ctx2.last() == ctx.last().push((name, val)));
            lemma_insert_all_characterized(pairs, j + 1, env, ctx2);
            assert forall|x: Seq<char>|
                #[trigger] scope_lookup(ctx2.last(), x) == (match scope_lookup(ctx.last(), x) {
                    Option::Some(v) => Option::Some(v),
                    Option::None => if name == x {
                        Option::Some(val)
                    } else {
                        Option::<ValueView>::None
                    },
                }) by {
                crate::contexts::lemma_scope_lookup_push(ctx.last(), (name, val), x);
            }
            if spec_insert_all(pairs, j, env, ctx) is Ok {
                assert forall|a: int|
                    j <= a < pairs.len() implies !spec_is_reserved((#[trigger] pairs[a]).0)
                    && !spec_has_function(env, pairs[a].0) && scope_lookup(
                    ctx.last(),
                    pairs[a].0,
                ) is None && (forall|b: int| j <= b < a ==> pairs[b].0 != pairs[a].0) by {
                    if a > j {
                        assert(scope_lookup(ctx2.last(), pairs[a].0) is None);
                        assert forall|b: int| j <= b < a implies pairs[b].0 != pairs[a].0 by {
                            if b > j {
                                assert(pairs[b].0 != pairs[a].0);
                            } else {
                                assert(scope_lookup(ctx2.last(), pairs[a].0) is None);
                            }
                        }
                    }
                }
            } else {
                let bad = choose|a: int|
                    j + 1 <= a < pairs.len() && !(!spec_is_reserved((#[trigger] pairs[a]).0)
                        && !spec_has_function(env, pairs[a].0) && scope_lookup(
                        ctx2.last(),
                        pairs[a].0,
                    ) is None && (forall|b: int| j + 1 <= b < a ==> pairs[b].0 != pairs[a].0));
                assert(!(!spec_is_reserved(pairs[bad].0) && !spec_has_function(env, pairs[bad].0)
                    && scope_lookup(ctx.last(), pairs[bad].0) is None && (forall|b: int|
                    j <= b < bad ==> pairs[b].0 != pairs[bad].0)));
            }
        }
    }
}

/// A name colliding with an earlier binding of the same binding list is
/// always rejected, whatever the outer scopes hold.
pub proof fn lemma_let_collision_rejected(
    pairs: Seq<(Seq<char>, ValueView)>,
    env: EnvView,
    ctx: ContextView,
    a: int,
    b: int,
)
    requires
        0 <= a < b < pairs.len(),
        pairs[a].0 == pairs[b].0,
    ensures
        spec_insert_all(pairs, 0, env, ctx.push(Seq::<(Seq<char>, ValueView)>::empty())) is Err,
{
    let child = ctx.push(Seq::<(Seq<char>, ValueView)>::empty());
    lemma_insert_all_characterized(pairs, 0, env, child);
    if spec_insert_all(pairs, 0, env, child) is Ok {
        assert(pairs[b].0 != pairs[a].0);
    }
}

/// Shadowing an outer-scope binding is always legal: whether inserting a
/// binding list into a fresh child scope succeeds does not depend on the
/// outer scopes at all.
pub proof fn lemma_let_outer_shadowing_legal(
    pairs: Seq<(Seq<char>, ValueView)>,
    env: EnvView,
    ctx1: ContextView,
    ctx2: ContextView,
)
    ensures
        (spec_insert_all(pairs, 0, env, ctx1.push(Seq::<(Seq<char>, ValueView)>::empty())) is Ok)
            == (spec_insert_all(
            pairs,
            0,
            env,
            ctx2.push(Seq::<(Seq<char>, ValueView)>::empty()),
        ) is Ok),
{
    let c1 = ctx1.push(Seq::<(Seq<char>, ValueView)>::empty());
    let c2 = ctx2.push(Seq::<(Seq<char>, ValueView)>::empty());
    lemma_insert_all_characterized(pairs, 0, env, c1);
    lemma_insert_all_characterized(pairs, 0, env, c2);
    assert(c1.last() =~= c2.last());
}

/// The identity switch is never observable after the form returns: the
/// acting principal is restored on every exit path, also when the body
/// fails with any error kind or short-return.
pub proof fn lemma_as_contract_restores_sender(e: SymbolicExpression, env: EnvView, ctx: ContextView)
    ensures
        spec_special_as_contract(e, env, ctx).1.sender == env.sender,
{
}

/// Two conditional forms that agree on condition and chosen branch agree on
/// their whole outcome: the untaken branch is never evaluated and never
/// charged for.
pub proof fn lemma_if_untaken_branch_irrelevant(
    e1: SymbolicExpression,
    e2: SymbolicExpression,
    env: EnvView,
    ctx: ContextView,
    taken: bool,
)
    requires
        e1.expr matches SymbolicExpressionType::List(cs1) && cs1@.len() == 4,
        e2.expr matches SymbolicExpressionType::List(cs2) && cs2@.len() == 4,
        children_of(e1)[1] == children_of(e2)[1],
        ({
            let charged = spec_charge(CostFunction::If, env, 0);
            charged.0 is Ok ==> spec_eval(children_of(e1)[1], charged.1, ctx).0 == Ok::<
                ValueView,
                ErrorView,
            >(ValueView::Bool(taken))
        }),
        taken ==> children_of(e1)[2] == children_of(e2)[2],
        !taken ==> children_of(e1)[3] == children_of(e2)[3],
    ensures
        spec_special_if(e1, env, ctx) == spec_special_if(e2, env, ctx),
{
}


/// The parallel-binding law: a binding expression of a `let` sees only the
/// pre-let context. A binding expression that is a bare name resolves
/// against that outer context alone, whatever the earlier bindings of the
/// same binding list are called: if the name is unbound there and is not a
/// reserved variable, the binding fails to resolve it.
pub proof fn lemma_parallel_binding(
    b: SymbolicExpression,
    i: int,
    env: EnvView,
    ctx: ContextView,
    x: Seq<char>,
)
    requires
        b.expr matches SymbolicExpressionType::List(bs) && 0 <= i < bs@.len(),
        children_of(b)[i].expr matches SymbolicExpressionType::List(pair) && pair@.len() == 2 && (
        pair@[0].expr matches SymbolicExpressionType::Atom(_)) && (
        pair@[1].expr matches SymbolicExpressionType::Atom(nm) && nm@ == x),
        x != "tx-sender"@,
        x != "none"@,
        x != "contract-caller"@,
        x != "block-height"@,
        x != "burn-block-height"@,
        ctx_lookup(ctx, x) is None,
    ensures
        spec_eval_bindings(b, i, env, ctx).0 == Err::<Seq<(Seq<char>, ValueView)>, ErrorView>(
            ErrorView::Check(CheckErrorView::UndefinedVariable(x)),
        ),
        spec_eval_bindings(b, i, env, ctx).1 == env,
{
    match b.expr {
        SymbolicExpressionType::List(bs) => {
            match bs@[i].expr {
                SymbolicExpressionType::List(pair) => {
                    match pair@[1].expr {
                        SymbolicExpressionType::Atom(nm) => {
                            assert(spec_eval(pair@[1], env, ctx) == (
                                spec_lookup_variable(nm@, env, ctx),
                                env,
                            ));
                            assert(spec_lookup_variable(x, env, ctx) == Err::<
                                ValueView,
                                ErrorView,
                            >(ErrorView::Check(CheckErrorView::UndefinedVariable(x))));
                        },
                        _ => {},
                    }
                },
                _ => {},
            }
        },
        _ => {},
    }
}

// ---------------------------------------------------------------------------
// Environment discipline.
// ---------------------------------------------------------------------------
/// What every evaluation step preserves of the environment: the acting
/// principal, the contract identity, the user-function table and the budget
/// limit are untouched, and consumed cost never shrinks.
pub open spec fn env_evolution(a: EnvView, b: EnvView) -> bool {
    b.sender == a.sender && b.contract_id == a.contract_id && b.fn_names == a.fn_names && b.limit
        == a.limit && b.consumed >= a.consumed
}

proof fn lemma_charge_env_evolution(f: CostFunction, env: EnvView, size: usize)
    ensures
        env_evolution(env, spec_charge(f, env, size).1),
{
    assert(crate::costs::spec_cost_mult(f) * size >= 0) by (nonlinear_arith);
}

/// Evaluation never changes the acting principal, the contract identity,
/// the user-function table or the budget limit, and never refunds consumed
/// cost. In particular no identity switch inside the evaluated expression
/// is observable afterwards, on any exit path.
pub proof fn lemma_eval_env_evolution(e: SymbolicExpression, env: EnvView, ctx: ContextView)
    ensures
        env_evolution(env, spec_eval(e, env, ctx).1),
    decreases e, 3int, 0int,
{
    match e.expr {
        SymbolicExpressionType::List(cs) => {
            if cs@.len() > 0 {
                match cs@[0].expr {
                    SymbolicExpressionType::Atom(fname) => match spec_lookup_reserved(fname@) {
                        Option::Some(callable) => {
                            lemma_apply_env_evolution(e, callable, env, ctx);
                        },
                        Option::None => {},
                    },
                    _ => {},
                }
            }
        },
        _ => {},
    }
}

proof fn lemma_apply_env_evolution(
    e: SymbolicExpression,
    callable: CallableType,
    env: EnvView,
    ctx: ContextView,
)
    ensures
        env_evolution(env, spec_apply(e, callable, env, ctx).1),
    decreases e, 2int, 0int,
{
    match e.expr {
        SymbolicExpressionType::List(cs) => match callable {
            CallableType::SpecialFunction(op) => match op {
                SpecialOp::If => lemma_special_if_env_evolution(e, env, ctx),
                SpecialOp::Let => lemma_special_let_env_evolution(e, env, ctx),
                SpecialOp::Asserts => lemma_special_asserts_env_evolution(e, env, ctx),
                SpecialOp::AsContract => lemma_special_as_contract_env_evolution(e, env, ctx),
                _ => {},
            },
            CallableType::NativeFunction(_, cost_opt) => match cost_opt {
                Option::None => {},
                Option::Some(cost_fn) => {
                    lemma_charge_env_evolution(cost_fn, env, (cs@.len() - 1) as usize);
                    let charged = spec_charge(cost_fn, env, (cs@.len() - 1) as usize);
                    if charged.0 is Ok {
                        lemma_eval_args_env_evolution(e, 1, charged.1, ctx);
                    }
                },
            },
        },
        _ => {},
    }
}

proof fn lemma_eval_args_env_evolution(e: SymbolicExpression, i: int, env: EnvView, ctx: ContextView)
    ensures
        env_evolution(env, spec_eval_args(e, i, env, ctx).1),
    decreases e, 0int, children_of(e).len() - i,
{
    match e.expr {
        SymbolicExpressionType::List(cs) => {
            if 1 <= i < cs@.len() {
                lemma_eval_env_evolution(cs@[i], env, ctx);
                let head = spec_eval(cs@[i], env, ctx);
                if head.0 is Ok {
                    lemma_eval_args_env_evolution(e, i + 1, head.1, ctx);
                }
            }
        },
        _ => {},
    }
}

proof fn lemma_eval_body_env_evolution(e: SymbolicExpression, i: int, env: EnvView, ctx: ContextView)
    ensures
        env_evolution(env, spec_eval_body(e, i, env, ctx).1),
    decreases e, 0int, children_of(e).len() - i,
{
    match e.expr {
        SymbolicExpressionType::List(cs) => {
            if 1 <= i < cs@.len() {
                lemma_eval_env_evolution(cs@[i], env, ctx);
                let head = spec_eval(cs@[i], env, ctx);
                if head.0 is Ok && i < cs@.len() - 1 {
                    lemma_eval_body_env_evolution(e, i + 1, head.1, ctx);
                }
            }
        },
        _ => {},
    }
}

proof fn lemma_eval_bindings_env_evolution(
    b: SymbolicExpression,
    i: int,
    env: EnvView,
    ctx: ContextView,
)
    ensures
        env_evolution(env, spec_eval_bindings(b, i, env, ctx).1),
    decreases b, 0int, children_of(b).len() - i,
{
    match b.expr {
        SymbolicExpressionType::List(bs) => {
            if 0 <= i < bs@.len() {
                match bs@[i].expr {
                    SymbolicExpressionType::List(pair) => {
                        if pair@.len() == 2 {
                            match pair@[0].expr {
                                SymbolicExpressionType::Atom(_) => {
                                    lemma_eval_env_evolution(pair@[1], env, ctx);
                                    let head = spec_eval(pair@[1], env, ctx);
                                    if head.0 is Ok {
                                        lemma_eval_bindings_env_evolution(b, i + 1, head.1, ctx);
                                    }
                                },
                                _ => {},
                            }
                        }
                    },
                    _ => {},
                }
            }
        },
        _ => {},
    }
}

proof fn lemma_special_if_env_evolution(e: SymbolicExpression, env: EnvView, ctx: ContextView)
    ensures
        env_evolution(env, spec_special_if(e, env, ctx).1),
    decreases e, 1int, 0int,
{
    match e.expr {
        SymbolicExpressionType::List(cs) => {
            if cs@.len() - 1 == 3 {
                lemma_charge_env_evolution(CostFunction::If, env, 0);
                let charged = spec_charge(CostFunction::If, env, 0);
                if charged.0 is Ok {
                    lemma_eval_env_evolution(cs@[1], charged.1, ctx);
                    let cond = spec_eval(cs@[1], charged.1, ctx);
                    match cond.0 {
                        Ok(ValueView::Bool(result)) => {
                            if result {
                                lemma_eval_env_evolution(cs@[2], cond.1, ctx);
                            } else {
                                lemma_eval_env_evolution(cs@[3], cond.1, ctx);
                            }
                        },
                        _ => {},
                    }
                }
            }
        },
        _ => {},
    }
}

proof fn lemma_special_asserts_env_evolution(e: SymbolicExpression, env: EnvView, ctx: ContextView)
    ensures
        env_evolution(env, spec_special_asserts(e, env, ctx).1),
    decreases e, 1int, 0int,
{
    match e.expr {
        SymbolicExpressionType::List(cs) => {
            if cs@.len() - 1 == 2 {
                lemma_charge_env_evolution(CostFunction::Asserts, env, 0);
                let charged = spec_charge(CostFunction::Asserts, env, 0);
                if charged.0 is Ok {
                    lemma_eval_env_evolution(cs@[1], charged.1, ctx);
                    let cond = spec_eval(cs@[1], charged.1, ctx);
                    match cond.0 {
                        Ok(ValueView::Bool(result)) => {
                            if !result {
                                lemma_eval_env_evolution(cs@[2], cond.1, ctx);
                            }
                        },
                        _ => {},
                    }
                }
            }
        },
        _ => {},
    }
}

proof fn lemma_special_let_env_evolution(e: SymbolicExpression, env: EnvView, ctx: ContextView)
    ensures
        env_evolution(env, spec_special_let(e, env, ctx).1),
    decreases e, 1int, 0int,
{
    match e.expr {
        SymbolicExpressionType::List(cs) => {
            if cs@.len() - 1 >= 2 && (cs@[1].expr matches SymbolicExpressionType::List(_)) {
                lemma_eval_bindings_env_evolution(cs@[1], 0, env, ctx);
                let bound = spec_eval_bindings(cs@[1], 0, env, ctx);
                match bound.0 {
                    Ok(pairs) => {
                        lemma_charge_env_evolution(CostFunction::Let, bound.1, pairs.len() as usize);
                        let charged = spec_charge(CostFunction::Let, bound.1, pairs.len() as usize);
                        if charged.0 is Ok && ctx.len() < MAX_CONTEXT_DEPTH + 1 {
                            match spec_insert_all(
                                pairs,
                                0,
                                charged.1,
                                ctx.push(Seq::<(Seq<char>, ValueView)>::empty()),
                            ) {
                                Ok(inner) => {
                                    lemma_eval_body_env_evolution(e, 2, charged.1, inner);
                                },
                                Err(_) => {},
                            }
                        }
                    },
                    Err(_) => {},
                }
            }
        },
        _ => {},
    }
}

proof fn lemma_special_as_contract_env_evolution(
    e: SymbolicExpression,
    env: EnvView,
    ctx: ContextView,
)
    ensures
        env_evolution(env, spec_special_as_contract(e, env, ctx).1),
    decreases e, 1int, 0int,
{
    match e.expr {
        SymbolicExpressionType::List(cs) => {
            if cs@.len() - 1 == 1 {
                lemma_charge_env_evolution(CostFunction::AsContract, env, 0);
                let charged = spec_charge(CostFunction::AsContract, env, 0);
                if charged.0 is Ok {
                    let nested = EnvView {
                        sender: Option::Some(PrincipalView::Contract(env.contract_id)),
                        ..charged.1
                    };
                    lemma_eval_env_evolution(cs@[1], nested, ctx);
                }
            }
        },
        _ => {},
    }
}

} // verus!
