use clarity_core::contexts::{ContractContext, Environment, LocalContext};
use clarity_core::errors::{CheckErrors, RuntimeErrorType, VmError};
use clarity_core::eval::eval;
use clarity_core::hashes::{i128_to_le_bytes, u128_to_le_bytes};
use clarity_core::representations::{
    depth_traverse, ClarityName, ContractName, PreSymbolicExpression, PreSymbolicExpressionType,
    Span, SymbolicExpression, SymbolicExpressionType, TraitDefinition, TraitIdentifier,
};
use clarity_core::run_loop::{BootAction, BootMode, RoundAction, RunLoop};
use clarity_core::text::str_eq;
use clarity_core::types::{
    PrincipalData, QualifiedContractIdentifier, StandardPrincipalData, TypeSignature, Value,
};

fn name(s: &str) -> ClarityName {
    ClarityName::try_from(s.to_string()).unwrap()
}

fn contract_id() -> QualifiedContractIdentifier {
    QualifiedContractIdentifier {
        issuer: StandardPrincipalData { version: 26, bytes: vec![7u8; 20] },
        name: ContractName::try_from("core-demo".to_string()).unwrap(),
    }
}

fn fresh_env() -> Environment {
    Environment::new(
        ContractContext { contract_identifier: contract_id(), function_names: vec![] },
        1_000_000,
        Some(PrincipalData::Standard(StandardPrincipalData { version: 26, bytes: vec![1u8; 20] })),
    )
}

fn hash_call(op: &str, arg: Value) -> Result<Value, VmError> {
    let expr = SymbolicExpression::list(vec![
        SymbolicExpression::atom(name(op)),
        SymbolicExpression::atom_value(arg),
    ]);
    let mut env = fresh_env();
    let context = LocalContext::new();
    eval(&expr, &mut env, &context)
}

fn digest_len(v: &Result<Value, VmError>) -> usize {
    match v {
        Ok(Value::Buffer(b)) => b.data.len(),
        other => panic!("expected a buffer, got {:?}", other),
    }
}

#[test]
fn hash160_is_deterministic_and_fixed_length() {
    let a = hash_call("hash160", Value::buff_from(vec![1, 2]).unwrap());
    let b = hash_call("hash160", Value::buff_from(vec![1, 2]).unwrap());
    assert_eq!(a, b);
    assert_eq!(digest_len(&a), 20);
    let long = hash_call("hash160", Value::buff_from(vec![9u8; 300]).unwrap());
    assert_eq!(digest_len(&long), 20);
}

#[test]
fn hash_digests_have_their_documented_lengths() {
    let input = Value::buff_from(vec![1, 2, 3]).unwrap();
    assert_eq!(digest_len(&hash_call("sha256", input)), 32);
    let input = Value::buff_from(vec![1, 2, 3]).unwrap();
    assert_eq!(digest_len(&hash_call("sha512", input)), 64);
    let input = Value::buff_from(vec![1, 2, 3]).unwrap();
    assert_eq!(digest_len(&hash_call("sha512/256", input)), 32);
    let input = Value::buff_from(vec![1, 2, 3]).unwrap();
    assert_eq!(digest_len(&hash_call("keccak256", input)), 32);
}

#[test]
fn hash_digest_differs_from_its_input() {
    let r = hash_call("sha256", Value::buff_from(vec![1, 2]).unwrap());
    match r {
        Ok(Value::Buffer(b)) => assert_ne!(b.data, vec![1, 2]),
        other => panic!("expected a buffer, got {:?}", other),
    }
}

#[test]
fn sha256_of_empty_input_matches_the_published_vector() {
    let r = hash_call("sha256", Value::buff_from(vec![]).unwrap());
    let expected: Vec<u8> = vec![
        0xe3, 0xb0, 0xc4, 0x42, 0x98, 0xfc, 0x1c, 0x14, 0x9a, 0xfb, 0xf4, 0xc8, 0x99, 0x6f, 0xb9,
        0x24, 0x27, 0xae, 0x41, 0xe4, 0x64, 0x9b, 0x93, 0x4c, 0xa4, 0x95, 0x99, 0x1b, 0x78, 0x52,
        0xb8, 0x55,
    ];
    match r {
        Ok(Value::Buffer(b)) => assert_eq!(b.data, expected),
        other => panic!("expected a buffer, got {:?}", other),
    }
}

#[test]
fn integers_hash_over_their_little_endian_encoding() {
    let signed = hash_call("hash160", Value::Int(1));
    let unsigned = hash_call("hash160", Value::UInt(1));
    assert_eq!(signed, unsigned);
}

#[test]
fn hash_of_a_boolean_is_a_union_type_error() {
    assert!(matches!(
        hash_call("hash160", Value::Bool(true)),
        Err(VmError::Check(CheckErrors::UnionTypeValueError(_, _)))
    ));
}

#[test]
fn le_bytes_are_little_endian_and_twos_complement() {
    assert_eq!(u128_to_le_bytes(0x0102)[0], 2);
    assert_eq!(u128_to_le_bytes(0x0102)[1], 1);
    assert_eq!(u128_to_le_bytes(0x0102).len(), 16);
    assert_eq!(i128_to_le_bytes(-1), vec![0xffu8; 16]);
    assert_eq!(i128_to_le_bytes(1), u128_to_le_bytes(1));
}

#[test]
fn least_supertype_rejects_int_against_uint() {
    assert!(
        TypeSignature::least_supertype(&TypeSignature::IntType, &TypeSignature::UIntType).is_err()
    );
    assert_eq!(
        TypeSignature::least_supertype(&TypeSignature::BufferType(2), &TypeSignature::BufferType(5)),
        Ok(TypeSignature::BufferType(5))
    );
}

#[test]
fn context_extension_hits_the_depth_bound() {
    let mut context = LocalContext::new();
    for _ in 0..256 {
        context = context.extend().unwrap();
    }
    match context.extend() {
        Err(e) => assert_eq!(e, RuntimeErrorType::MaxContextDepthReached),
        Ok(_) => panic!("expected the depth bound to reject a further extension"),
    }
}

#[test]
fn context_lookup_prefers_the_innermost_scope() {
    let base = LocalContext::new();
    let mut outer = base.extend().unwrap();
    outer.insert_binding(name("x"), Value::Int(1));
    let mut inner = outer.extend().unwrap();
    inner.insert_binding(name("x"), Value::Int(2));
    assert_eq!(inner.lookup_variable("x"), Some(Value::Int(2)));
    assert_eq!(outer.lookup_variable("x"), Some(Value::Int(1)));
    assert_eq!(outer.lookup_variable("y"), None);
}

#[test]
fn span_zero_and_set_span() {
    let zero = Span::zero();
    assert_eq!(zero, Span { start_line: 0, start_column: 0, end_line: 0, end_column: 0 });
    let mut e = SymbolicExpression::atom_value(Value::Int(1));
    assert_eq!(e.span, None);
    e.set_span(1, 2, 3, 4);
    assert_eq!(e.span, Some(Span { start_line: 1, start_column: 2, end_line: 3, end_column: 4 }));
    assert_eq!(e.id, 0);
    let mut p = PreSymbolicExpression::atom(name("x"));
    assert_eq!(p.span, None);
    p.set_span(5, 6, 7, 8);
    assert_eq!(p.span, Some(Span { start_line: 5, start_column: 6, end_line: 7, end_column: 8 }));
}

#[test]
fn matchers_answer_only_for_their_own_shape() {
    let a = SymbolicExpression::atom(name("x"));
    assert!(a.match_atom().is_some());
    assert!(a.match_atom_value().is_none());
    assert!(a.match_list().is_none());
    let v = SymbolicExpression::atom_value(Value::Int(3));
    assert_eq!(v.match_atom_value(), Some(&Value::Int(3)));
    let l = SymbolicExpression::literal_value(Value::Int(4));
    assert_eq!(l.match_literal_value(), Some(&Value::Int(4)));
    assert!(l.match_atom_value().is_none());
    let lst = SymbolicExpression::list(vec![a]);
    assert_eq!(lst.match_list().map(|cs| cs.len()), Some(1));
    let tid = TraitIdentifier { name: name("my-trait"), contract_identifier: contract_id() };
    let f = SymbolicExpression::field(tid);
    assert!(f.match_field().is_some());
    assert!(f.match_trait_reference().is_none());
    let tid2 = TraitIdentifier { name: name("my-trait"), contract_identifier: contract_id() };
    let tr = SymbolicExpression::trait_reference(name("my-trait"), TraitDefinition::Defined(tid2));
    assert!(tr.match_trait_reference().is_some());
}

#[test]
fn pre_expression_matchers_answer_only_for_their_own_shape() {
    let sugar = PreSymbolicExpression::sugared_contract_identifier(
        ContractName::try_from("other".to_string()).unwrap(),
    );
    assert!(matches!(
        sugar.pre_expr,
        PreSymbolicExpressionType::SugaredContractIdentifier(_)
    ));
    let field = PreSymbolicExpression::sugared_field_identifier(
        ContractName::try_from("other".to_string()).unwrap(),
        name("get-value"),
    );
    assert!(matches!(
        field.pre_expr,
        PreSymbolicExpressionType::SugaredFieldIdentifier(_, _)
    ));
    let tid = TraitIdentifier { name: name("t"), contract_identifier: contract_id() };
    let fid = PreSymbolicExpression::field_identifier(tid);
    assert!(fid.match_field_identifier().is_some());
    assert!(fid.match_atom().is_none());
    let tr = PreSymbolicExpression::trait_reference(name("t"));
    assert!(tr.match_trait_reference().is_some());
    let av = PreSymbolicExpression::atom_value(Value::Bool(true));
    assert_eq!(av.match_atom_value(), Some(&Value::Bool(true)));
    let at = PreSymbolicExpression::atom(name("z"));
    assert_eq!(at.match_atom(), Some(&name("z")));
    let ls = PreSymbolicExpression::list(vec![]);
    assert_eq!(ls.match_list().map(|cs| cs.len()), Some(0));
}

#[test]
fn depth_traverse_visits_node_then_children_in_reverse() {
    let tree = SymbolicExpression::list(vec![
        SymbolicExpression::atom(name("begin")),
        SymbolicExpression::atom_value(Value::Int(1)),
        SymbolicExpression::atom_value(Value::Int(2)),
    ]);
    let visited = depth_traverse(&tree);
    assert_eq!(visited.len(), 4);
    assert!(matches!(visited[0].expr, SymbolicExpressionType::List(_)));
    assert_eq!(visited[1].match_atom_value(), Some(&Value::Int(2)));
    assert_eq!(visited[2].match_atom_value(), Some(&Value::Int(1)));
    assert_eq!(visited[3].match_atom(), Some(&name("begin")));
}

#[test]
fn str_eq_compares_text_not_pointers() {
    assert!(str_eq("tx-sender", "tx-sender"));
    assert!(!str_eq("tx-sender", "tx-sender2"));
    assert!(str_eq("caf\u{e9}", "caf\u{e9}"));
    assert!(!str_eq("caf\u{e9}", "cafe"));
}

#[test]
fn run_loop_counts_rounds_and_finishes() {
    let mut rl = RunLoop::new(3);
    assert_eq!(rl.next_round_action(true, true), RoundAction::AdvanceRound);
    assert_eq!(rl.round_index, 2);
    assert_eq!(rl.next_round_action(true, true), RoundAction::AdvanceRound);
    assert_eq!(rl.next_round_action(true, true), RoundAction::Finish);
    assert_eq!(rl.round_index, 3);
}

#[test]
fn run_loop_exits_when_the_relayer_hangs_up() {
    let mut rl = RunLoop::new(10);
    assert_eq!(rl.next_round_action(false, true), RoundAction::ExitRelayerHungUp);
    assert_eq!(rl.next_round_action(true, false), RoundAction::ExitRelayerHungUp);
    assert_eq!(rl.round_index, 1);
}

#[test]
fn boot_decisions_follow_the_observations() {
    assert_eq!(RunLoop::boot_mode(0), BootMode::Genesis);
    assert_eq!(RunLoop::boot_mode(100), BootMode::Unsupported);
    assert_eq!(RunLoop::vrf_wait_action(0), BootAction::WaitForAnotherBlock);
    assert_eq!(RunLoop::vrf_wait_action(2), BootAction::Proceed);
    assert_eq!(RunLoop::boot_step_action(true), BootAction::Proceed);
    assert_eq!(RunLoop::boot_step_action(false), BootAction::Abort);
}
