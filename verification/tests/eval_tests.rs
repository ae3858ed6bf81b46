use clarity_core::contexts::{ContractContext, Environment, LocalContext};
use clarity_core::errors::{CheckErrors, RuntimeErrorType, ShortReturnType, VmError};
use clarity_core::eval::eval;
use clarity_core::representations::{ClarityName, ContractName, SymbolicExpression};
use clarity_core::types::{
    PrincipalData, QualifiedContractIdentifier, StandardPrincipalData, Value,
};

fn name(s: &str) -> ClarityName {
    ClarityName::try_from(s.to_string()).unwrap()
}

fn atom(s: &str) -> SymbolicExpression {
    SymbolicExpression::atom(name(s))
}

fn int_lit(i: i128) -> SymbolicExpression {
    SymbolicExpression::atom_value(Value::Int(i))
}

fn uint_lit(u: u128) -> SymbolicExpression {
    SymbolicExpression::atom_value(Value::UInt(u))
}

fn bool_lit(b: bool) -> SymbolicExpression {
    SymbolicExpression::atom_value(Value::Bool(b))
}

fn buff_lit(data: Vec<u8>) -> SymbolicExpression {
    SymbolicExpression::atom_value(Value::buff_from(data).unwrap())
}

fn call(op: &str, args: Vec<SymbolicExpression>) -> SymbolicExpression {
    let mut children = vec![atom(op)];
    children.extend(args);
    SymbolicExpression::list(children)
}

fn contract_id() -> QualifiedContractIdentifier {
    QualifiedContractIdentifier {
        issuer: StandardPrincipalData { version: 26, bytes: vec![7u8; 20] },
        name: ContractName::try_from("core-demo".to_string()).unwrap(),
    }
}

fn sender() -> PrincipalData {
    PrincipalData::Standard(StandardPrincipalData { version: 26, bytes: vec![1u8; 20] })
}

fn fresh_env() -> Environment {
    fresh_env_with_functions(vec![])
}

fn fresh_env_with_functions(function_names: Vec<ClarityName>) -> Environment {
    Environment::new(
        ContractContext { contract_identifier: contract_id(), function_names },
        1_000_000,
        Some(sender()),
    )
}

fn run(expr: &SymbolicExpression) -> Result<Value, VmError> {
    let mut env = fresh_env();
    let context = LocalContext::new();
    eval(expr, &mut env, &context)
}

#[test]
fn if_true_never_touches_else_branch() {
    let expr = call(
        "if",
        vec![bool_lit(true), int_lit(1), call("/", vec![int_lit(1), int_lit(0)])],
    );
    assert_eq!(run(&expr), Ok(Value::Int(1)));
}

#[test]
fn if_false_never_touches_then_branch() {
    let expr = call(
        "if",
        vec![bool_lit(false), call("/", vec![int_lit(1), int_lit(0)]), int_lit(2)],
    );
    assert_eq!(run(&expr), Ok(Value::Int(2)));
}

#[test]
fn if_requires_exactly_three_arguments() {
    let expr = call("if", vec![bool_lit(true), int_lit(1)]);
    assert_eq!(
        run(&expr),
        Err(VmError::Check(CheckErrors::IncorrectArgumentCount(3, 2)))
    );
}

#[test]
fn if_rejects_non_boolean_condition() {
    let expr = call("if", vec![int_lit(1), int_lit(2), int_lit(3)]);
    assert!(matches!(
        run(&expr),
        Err(VmError::Check(CheckErrors::TypeValueError(_, _)))
    ));
}

#[test]
fn asserts_false_short_returns_with_payload() {
    let expr = call(
        "asserts!",
        vec![bool_lit(false), call("err", vec![int_lit(1)])],
    );
    assert_eq!(
        run(&expr),
        Err(VmError::ShortReturn(ShortReturnType::AssertionFailed(
            Value::error(Value::Int(1))
        )))
    );
}

#[test]
fn asserts_true_returns_true() {
    let expr = call(
        "asserts!",
        vec![bool_lit(true), call("err", vec![int_lit(1)])],
    );
    assert_eq!(run(&expr), Ok(Value::Bool(true)));
}

#[test]
fn is_eq_of_equal_ints_is_true() {
    let expr = call("is-eq", vec![int_lit(1), int_lit(1), int_lit(1)]);
    assert_eq!(run(&expr), Ok(Value::Bool(true)));
}

#[test]
fn is_eq_of_different_ints_is_false() {
    let expr = call("is-eq", vec![int_lit(1), int_lit(2)]);
    assert_eq!(run(&expr), Ok(Value::Bool(false)));
}

#[test]
fn is_eq_of_nothing_is_true() {
    let expr = call("is-eq", vec![]);
    assert_eq!(run(&expr), Ok(Value::Bool(true)));
}

#[test]
fn is_eq_of_int_and_uint_is_a_type_union_error() {
    let expr = call("is-eq", vec![int_lit(1), uint_lit(1)]);
    assert!(matches!(
        run(&expr),
        Err(VmError::Check(CheckErrors::UnionTypeError(_, _)))
    ));
}

#[test]
fn is_eq_type_union_error_wins_over_earlier_value_mismatch() {
    let expr = call("is-eq", vec![int_lit(1), int_lit(2), uint_lit(3)]);
    assert!(matches!(
        run(&expr),
        Err(VmError::Check(CheckErrors::UnionTypeError(_, _)))
    ));
}

#[test]
fn is_eq_unifies_none_with_some() {
    let expr = call("is-eq", vec![atom("none"), call("some", vec![int_lit(1)])]);
    assert_eq!(run(&expr), Ok(Value::Bool(false)));
}

#[test]
fn is_eq_unifies_ok_with_err() {
    let expr = call(
        "is-eq",
        vec![call("ok", vec![int_lit(1)]), call("err", vec![int_lit(1)])],
    );
    assert_eq!(run(&expr), Ok(Value::Bool(false)));
}

#[test]
fn is_eq_of_equal_buffers_is_true() {
    let expr = call("is-eq", vec![buff_lit(vec![1, 2]), buff_lit(vec![1, 2])]);
    assert_eq!(run(&expr), Ok(Value::Bool(true)));
}

#[test]
fn begin_returns_the_last_value() {
    let expr = call("begin", vec![int_lit(1), int_lit(2), int_lit(3)]);
    assert_eq!(run(&expr), Ok(Value::Int(3)));
}

#[test]
fn begin_of_nothing_is_an_arity_error() {
    let expr = call("begin", vec![]);
    assert_eq!(
        run(&expr),
        Err(VmError::Check(CheckErrors::RequiresAtLeastArguments(1, 0)))
    );
}

#[test]
fn print_is_identity() {
    let expr = call("print", vec![int_lit(7)]);
    assert_eq!(run(&expr), Ok(Value::Int(7)));
}

#[test]
fn ok_err_some_build_their_payloads() {
    assert_eq!(
        run(&call("ok", vec![int_lit(5)])),
        Ok(Value::okay(Value::Int(5)))
    );
    assert_eq!(
        run(&call("err", vec![int_lit(5)])),
        Ok(Value::error(Value::Int(5)))
    );
    assert_eq!(
        run(&call("some", vec![int_lit(5)])),
        Ok(Value::some(Value::Int(5)))
    );
    assert_eq!(run(&atom("none")), Ok(Value::none()));
}

fn binding(var: &str, expr: SymbolicExpression) -> SymbolicExpression {
    SymbolicExpression::list(vec![atom(var), expr])
}

fn let_form(bindings: Vec<SymbolicExpression>, body: Vec<SymbolicExpression>) -> SymbolicExpression {
    let mut children = vec![atom("let"), SymbolicExpression::list(bindings)];
    children.extend(body);
    SymbolicExpression::list(children)
}

#[test]
fn let_binds_and_returns_last_body_value() {
    let expr = let_form(
        vec![binding("x", int_lit(1)), binding("y", int_lit(2))],
        vec![atom("x"), atom("y")],
    );
    assert_eq!(run(&expr), Ok(Value::Int(2)));
}

#[test]
fn let_bindings_see_only_the_outer_context() {
    let expr = let_form(
        vec![binding("x", int_lit(1)), binding("y", atom("x"))],
        vec![atom("y")],
    );
    assert_eq!(
        run(&expr),
        Err(VmError::Check(CheckErrors::UndefinedVariable("x".to_string())))
    );
}

#[test]
fn let_rejects_same_scope_collision() {
    let expr = let_form(
        vec![binding("x", int_lit(1)), binding("x", int_lit(2))],
        vec![atom("x")],
    );
    assert_eq!(
        run(&expr),
        Err(VmError::Check(CheckErrors::NameAlreadyUsed("x".to_string())))
    );
}

#[test]
fn let_allows_shadowing_an_outer_scope() {
    let inner = let_form(vec![binding("x", int_lit(2))], vec![atom("x")]);
    let expr = let_form(vec![binding("x", int_lit(1))], vec![inner]);
    assert_eq!(run(&expr), Ok(Value::Int(2)));
}

#[test]
fn let_rejects_shadowing_a_reserved_word() {
    let expr = let_form(vec![binding("if", int_lit(1))], vec![int_lit(0)]);
    assert_eq!(
        run(&expr),
        Err(VmError::Check(CheckErrors::NameAlreadyUsed("if".to_string())))
    );
    let expr = let_form(vec![binding("map", int_lit(1))], vec![int_lit(0)]);
    assert_eq!(
        run(&expr),
        Err(VmError::Check(CheckErrors::NameAlreadyUsed("map".to_string())))
    );
    let expr = let_form(vec![binding("tx-sender", int_lit(1))], vec![int_lit(0)]);
    assert_eq!(
        run(&expr),
        Err(VmError::Check(CheckErrors::NameAlreadyUsed("tx-sender".to_string())))
    );
}

#[test]
fn let_rejects_shadowing_a_user_function() {
    let expr = let_form(vec![binding("my-fn", int_lit(1))], vec![int_lit(0)]);
    let mut env = fresh_env_with_functions(vec![name("my-fn")]);
    let context = LocalContext::new();
    assert_eq!(
        eval(&expr, &mut env, &context),
        Err(VmError::Check(CheckErrors::NameAlreadyUsed("my-fn".to_string())))
    );
}

#[test]
fn let_requires_bindings_and_a_body() {
    let expr = SymbolicExpression::list(vec![
        atom("let"),
        SymbolicExpression::list(vec![binding("x", int_lit(1))]),
    ]);
    assert_eq!(
        run(&expr),
        Err(VmError::Check(CheckErrors::RequiresAtLeastArguments(2, 1)))
    );
}

#[test]
fn let_rejects_a_non_list_binding_block() {
    let expr = SymbolicExpression::list(vec![atom("let"), int_lit(5), int_lit(1)]);
    assert_eq!(run(&expr), Err(VmError::Check(CheckErrors::BadLetSyntax)));
}

#[test]
fn let_rejects_a_malformed_binding() {
    let expr = let_form(vec![atom("x")], vec![int_lit(1)]);
    assert_eq!(run(&expr), Err(VmError::Check(CheckErrors::BadSyntaxBinding)));
}

#[test]
fn tx_sender_resolves_to_the_acting_principal() {
    assert_eq!(run(&atom("tx-sender")), Ok(Value::Principal(sender())));
}

#[test]
fn tx_sender_without_a_sender_is_a_runtime_error() {
    let mut env = Environment::new(
        ContractContext { contract_identifier: contract_id(), function_names: vec![] },
        1_000_000,
        None,
    );
    let context = LocalContext::new();
    assert_eq!(
        eval(&atom("tx-sender"), &mut env, &context),
        Err(VmError::Runtime(RuntimeErrorType::NoSenderInContext))
    );
}

#[test]
fn as_contract_switches_the_acting_principal() {
    let expr = call("as-contract", vec![atom("tx-sender")]);
    assert_eq!(
        run(&expr),
        Ok(Value::Principal(PrincipalData::Contract(contract_id())))
    );
}

#[test]
fn as_contract_restores_the_sender_after_success() {
    let mut env = fresh_env();
    let context = LocalContext::new();
    let expr = call("as-contract", vec![atom("tx-sender")]);
    eval(&expr, &mut env, &context).unwrap();
    assert_eq!(
        eval(&atom("tx-sender"), &mut env, &context),
        Ok(Value::Principal(sender()))
    );
}

#[test]
fn as_contract_restores_the_sender_after_any_error() {
    let mut env = fresh_env();
    let context = LocalContext::new();
    let failing = call(
        "as-contract",
        vec![call("asserts!", vec![bool_lit(false), call("err", vec![int_lit(1)])])],
    );
    assert!(eval(&failing, &mut env, &context).is_err());
    assert_eq!(
        eval(&atom("tx-sender"), &mut env, &context),
        Ok(Value::Principal(sender()))
    );
    let invalid = call(
        "as-contract",
        vec![call("if", vec![int_lit(1), int_lit(2), int_lit(3)])],
    );
    assert!(eval(&invalid, &mut env, &context).is_err());
    assert_eq!(
        eval(&atom("tx-sender"), &mut env, &context),
        Ok(Value::Principal(sender()))
    );
}

#[test]
fn collaborator_operator_is_refused_by_name_before_any_charge() {
    let mut env = fresh_env();
    let context = LocalContext::new();
    let expr = call("+", vec![int_lit(1), int_lit(2)]);
    assert_eq!(
        eval(&expr, &mut env, &context),
        Err(VmError::Check(CheckErrors::ExternalCollaboratorRequired("+".to_string())))
    );
    assert_eq!(env.budget.consumed, 0);
    let expr = call("and", vec![bool_lit(true), bool_lit(false)]);
    assert_eq!(
        eval(&expr, &mut env, &context),
        Err(VmError::Check(CheckErrors::ExternalCollaboratorRequired("and".to_string())))
    );
    let expr = call("map-get?", vec![atom("accounts"), int_lit(1)]);
    assert_eq!(
        eval(&expr, &mut env, &context),
        Err(VmError::Check(CheckErrors::ExternalCollaboratorRequired("map-get?".to_string())))
    );
    assert_eq!(env.budget.consumed, 0);
}

#[test]
fn collaborator_variables_are_refused_by_name() {
    for var in ["contract-caller", "block-height", "burn-block-height"] {
        assert_eq!(
            run(&atom(var)),
            Err(VmError::Check(CheckErrors::ExternalCollaboratorRequired(var.to_string())))
        );
    }
}

#[test]
fn unknown_operator_is_an_undefined_function() {
    let expr = call("frobnicate", vec![int_lit(1)]);
    assert_eq!(
        run(&expr),
        Err(VmError::Check(CheckErrors::UndefinedFunction("frobnicate".to_string())))
    );
}

#[test]
fn unbound_atom_is_an_undefined_variable() {
    assert_eq!(
        run(&atom("nope")),
        Err(VmError::Check(CheckErrors::UndefinedVariable("nope".to_string())))
    );
}

#[test]
fn empty_list_is_not_a_function_application() {
    let expr = SymbolicExpression::list(vec![]);
    assert_eq!(
        run(&expr),
        Err(VmError::Check(CheckErrors::NonFunctionApplication))
    );
}

#[test]
fn non_atom_head_is_a_bad_function_name() {
    let expr = SymbolicExpression::list(vec![int_lit(1), int_lit(2)]);
    assert_eq!(run(&expr), Err(VmError::Check(CheckErrors::BadFunctionName)));
}

#[test]
fn budget_exhaustion_is_a_runtime_error() {
    let mut env = Environment::new(
        ContractContext { contract_identifier: contract_id(), function_names: vec![] },
        1,
        Some(sender()),
    );
    let context = LocalContext::new();
    let expr = call("begin", vec![int_lit(1)]);
    assert_eq!(
        eval(&expr, &mut env, &context),
        Err(VmError::Runtime(RuntimeErrorType::CostBalanceExceeded))
    );
}

#[test]
fn identical_programs_consume_identical_budgets() {
    let expr = call(
        "if",
        vec![
            bool_lit(true),
            let_form(vec![binding("x", int_lit(1))], vec![atom("x")]),
            int_lit(9),
        ],
    );
    let context = LocalContext::new();
    let mut env1 = fresh_env();
    let mut env2 = fresh_env();
    let r1 = eval(&expr, &mut env1, &context);
    let r2 = eval(&expr, &mut env2, &context);
    assert_eq!(r1, r2);
    assert_eq!(env1.budget.consumed, env2.budget.consumed);
    assert!(env1.budget.consumed > 0);
}

#[test]
fn untaken_branch_is_not_charged_for() {
    let cheap = call("if", vec![bool_lit(true), int_lit(1), int_lit(2)]);
    let pricey_else = call(
        "if",
        vec![
            bool_lit(true),
            int_lit(1),
            call("begin", vec![int_lit(1), int_lit(2), int_lit(3)]),
        ],
    );
    let context = LocalContext::new();
    let mut env1 = fresh_env();
    let mut env2 = fresh_env();
    assert_eq!(eval(&cheap, &mut env1, &context), Ok(Value::Int(1)));
    assert_eq!(eval(&pricey_else, &mut env2, &context), Ok(Value::Int(1)));
    assert_eq!(env1.budget.consumed, env2.budget.consumed);
}
