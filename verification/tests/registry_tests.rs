use clarity_core::contexts::{ContractContext, Environment, LocalContext};
use clarity_core::errors::{
    check_argument_count, check_arguments_at_least, CheckErrors, VmError,
};
use clarity_core::eval::eval;
use clarity_core::functions::{
    handle_binding_list, is_reserved, lookup_reserved_functions, CallableType, NativeHandle,
};
use clarity_core::representations::{ClarityName, ContractName, SymbolicExpression, TraitDefinition,
    TraitIdentifier};
use clarity_core::types::{
    bytes_equal, clone_value, copy_bytes, values_equal, PrincipalData, QualifiedContractIdentifier,
    StandardPrincipalData, TypeSignature, Value, MAX_VALUE_SIZE,
};

fn name(s: &str) -> ClarityName {
    ClarityName::try_from(s.to_string()).unwrap()
}

fn contract_id() -> QualifiedContractIdentifier {
    QualifiedContractIdentifier {
        issuer: StandardPrincipalData { version: 26, bytes: vec![7u8; 20] },
        name: ContractName::try_from("core-demo".to_string()).unwrap(),
    }
}

fn run(expr: &SymbolicExpression) -> Result<Value, VmError> {
    let mut env = Environment::new(
        ContractContext { contract_identifier: contract_id(), function_names: vec![] },
        1_000_000,
        Some(PrincipalData::Standard(StandardPrincipalData { version: 26, bytes: vec![1u8; 20] })),
    );
    let context = LocalContext::new();
    eval(expr, &mut env, &context)
}

#[test]
fn registry_resolves_every_reserved_operator() {
    let all = [
        "+", "-", "*", "/", ">=", "<=", "<", ">", "to-int", "to-uint", "mod", "pow", "xor",
        "and", "or", "not", "is-eq", "if", "let", "map", "fold", "append", "concat",
        "as-max-len?", "len", "list", "var-get", "var-set", "map-get?", "contract-map-get?",
        "map-set", "map-insert", "map-delete", "tuple", "get", "begin", "hash160", "sha256",
        "sha512", "sha512/256", "keccak256", "print", "contract-call?", "as-contract",
        "at-block", "get-block-info?", "err", "ok", "some", "default-to", "asserts!",
        "unwrap!", "unwrap-err!", "unwrap-panic", "unwrap-err-panic", "match", "try!",
        "is-ok", "is-none", "is-err", "is-some", "filter", "ft-get-balance", "nft-get-owner?",
        "ft-transfer?", "nft-transfer?", "nft-mint?", "ft-mint?", "stx-transfer?", "stx-burn?",
    ];
    assert_eq!(all.len(), 70);
    for op in all {
        assert!(lookup_reserved_functions(op).is_some(), "{}", op);
        assert!(is_reserved(op), "{}", op);
    }
    assert!(lookup_reserved_functions("frobnicate").is_none());
    assert!(lookup_reserved_functions("").is_none());
}

#[test]
fn registry_classifies_natives_and_special_forms_as_registered() {
    for special in ["and", "or", "if", "let", "map", "fold", "filter", "tuple", "match",
        "var-get", "map-set", "contract-call?", "as-contract", "asserts!", "at-block",
        "nft-mint?", "stx-transfer?"] {
        assert!(
            matches!(
                lookup_reserved_functions(special),
                Some(CallableType::SpecialFunction(_))
            ),
            "{}",
            special
        );
    }
    for single in ["to-int", "to-uint", "not", "len", "is-ok", "unwrap-panic", "try!", "print",
        "hash160", "some"] {
        assert!(
            matches!(
                lookup_reserved_functions(single),
                Some(CallableType::NativeFunction(NativeHandle::SingleArg(_), _))
            ),
            "{}",
            single
        );
    }
    for double in ["mod", "pow", "xor", ">=", "<=", "<", ">", "default-to", "unwrap!",
        "unwrap-err!"] {
        assert!(
            matches!(
                lookup_reserved_functions(double),
                Some(CallableType::NativeFunction(NativeHandle::DoubleArg(_), None))
            ),
            "{}",
            double
        );
    }
    for more in ["+", "-", "*", "/", "is-eq", "begin"] {
        assert!(
            matches!(
                lookup_reserved_functions(more),
                Some(CallableType::NativeFunction(NativeHandle::MoreArg(_), _))
            ),
            "{}",
            more
        );
    }
    // A cost function is attached exactly where this core holds the handler.
    for held in ["is-eq", "begin", "print", "hash160", "sha256", "sha512", "sha512/256",
        "keccak256", "some", "ok", "err"] {
        assert!(
            matches!(
                lookup_reserved_functions(held),
                Some(CallableType::NativeFunction(_, Some(_)))
            ),
            "{}",
            held
        );
    }
    for collaborator in ["+", "not", "len", "try!"] {
        assert!(
            matches!(
                lookup_reserved_functions(collaborator),
                Some(CallableType::NativeFunction(_, None))
            ),
            "{}",
            collaborator
        );
    }
}

#[test]
fn reserved_words_cover_operators_and_variables() {
    for word in ["+", "map", "contract-call?", "stx-burn?", "tx-sender", "none", "block-height"] {
        assert!(is_reserved(word), "{}", word);
    }
    assert!(!is_reserved("frobnicate"));
    assert!(!is_reserved("my-var"));
}

#[test]
fn argument_count_checks_report_expected_and_found() {
    assert_eq!(check_argument_count(3, 3), Ok(()));
    assert_eq!(
        check_argument_count(3, 1),
        Err(CheckErrors::IncorrectArgumentCount(3, 1))
    );
    assert_eq!(check_arguments_at_least(2, 5), Ok(()));
    assert_eq!(
        check_arguments_at_least(2, 1),
        Err(CheckErrors::RequiresAtLeastArguments(2, 1))
    );
}

#[test]
fn binding_list_parser_returns_names_in_order() {
    let bindings = vec![
        SymbolicExpression::list(vec![
            SymbolicExpression::atom(name("x")),
            SymbolicExpression::atom_value(Value::Int(1)),
        ]),
        SymbolicExpression::list(vec![
            SymbolicExpression::atom(name("y")),
            SymbolicExpression::atom_value(Value::Int(2)),
        ]),
    ];
    let names = handle_binding_list(&bindings).unwrap();
    assert_eq!(names, vec![name("x"), name("y")]);
}

#[test]
fn binding_list_parser_rejects_malformed_bindings() {
    let not_a_pair = vec![SymbolicExpression::list(vec![SymbolicExpression::atom(name("x"))])];
    assert_eq!(handle_binding_list(&not_a_pair), Err(CheckErrors::BadSyntaxBinding));
    let not_a_name = vec![SymbolicExpression::list(vec![
        SymbolicExpression::atom_value(Value::Int(1)),
        SymbolicExpression::atom_value(Value::Int(2)),
    ])];
    assert_eq!(handle_binding_list(&not_a_name), Err(CheckErrors::BadSyntaxBinding));
    let not_a_list = vec![SymbolicExpression::atom(name("x"))];
    assert_eq!(handle_binding_list(&not_a_list), Err(CheckErrors::BadSyntaxBinding));
}

#[test]
fn trait_nodes_are_invalid_in_evaluation_position() {
    let tid = TraitIdentifier { name: name("t"), contract_identifier: contract_id() };
    let field = SymbolicExpression::field(tid);
    assert_eq!(
        run(&field),
        Err(VmError::Check(CheckErrors::BadSymbolicRepresentation))
    );
    let tid2 = TraitIdentifier { name: name("t"), contract_identifier: contract_id() };
    let tr = SymbolicExpression::trait_reference(name("t"), TraitDefinition::Imported(tid2));
    assert_eq!(
        run(&tr),
        Err(VmError::Check(CheckErrors::BadSymbolicRepresentation))
    );
}

#[test]
fn oversized_buffers_are_rejected() {
    let data = vec![0u8; (MAX_VALUE_SIZE as usize) + 1];
    assert_eq!(Value::buff_from(data), Err(CheckErrors::ValueTooLarge));
    let exactly = vec![0u8; MAX_VALUE_SIZE as usize];
    assert!(Value::buff_from(exactly).is_ok());
}

#[test]
fn value_helpers_compare_and_copy_deeply() {
    let a = Value::some(Value::okay(Value::buff_from(vec![1, 2, 3]).unwrap()));
    let b = clone_value(&a);
    assert!(values_equal(&a, &b));
    assert_eq!(a, b);
    let c = Value::some(Value::error(Value::buff_from(vec![1, 2, 3]).unwrap()));
    assert!(!values_equal(&a, &c));
    assert!(bytes_equal(&vec![1, 2], &vec![1, 2]));
    assert!(!bytes_equal(&vec![1, 2], &vec![1, 3]));
    assert_eq!(copy_bytes(&vec![4, 5]), vec![4, 5]);
}

#[test]
fn type_of_distinguishes_the_core_shapes() {
    assert_eq!(TypeSignature::type_of(&Value::Int(1)), TypeSignature::IntType);
    assert_eq!(TypeSignature::type_of(&Value::UInt(1)), TypeSignature::UIntType);
    assert_eq!(TypeSignature::type_of(&Value::Bool(true)), TypeSignature::BoolType);
    assert_eq!(
        TypeSignature::type_of(&Value::buff_from(vec![1, 2]).unwrap()),
        TypeSignature::BufferType(2)
    );
    assert_eq!(
        TypeSignature::type_of(&Value::none()),
        TypeSignature::OptionalType(Box::new(TypeSignature::NoType))
    );
    assert_eq!(
        TypeSignature::type_of(&Value::okay(Value::Int(1))),
        TypeSignature::ResponseType(
            Box::new(TypeSignature::IntType),
            Box::new(TypeSignature::NoType)
        )
    );
    assert_eq!(TypeSignature::max_buffer(), TypeSignature::BufferType(MAX_VALUE_SIZE));
}
