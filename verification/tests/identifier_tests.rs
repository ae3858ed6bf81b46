use clarity_core::errors::RuntimeErrorType;
use clarity_core::representations::{ClarityName, ContractName, UrlString, MAX_STRING_LEN};

#[test]
fn clarity_name_length_127_succeeds_and_round_trips() {
    let text = "a".repeat(127);
    let name = ClarityName::try_from(text.clone()).unwrap();
    assert_eq!(name.as_str(), text.as_str());
    assert_eq!(name.len(), 127u8);
}

#[test]
fn clarity_name_length_128_succeeds_and_round_trips() {
    let text = "b".repeat(128);
    let name = ClarityName::try_from(text.clone()).unwrap();
    assert_eq!(name.as_str(), text.as_str());
    assert_eq!(name.len(), MAX_STRING_LEN);
}

#[test]
fn clarity_name_length_129_fails() {
    let text = "c".repeat(129);
    match ClarityName::try_from(text.clone()) {
        Err(RuntimeErrorType::BadNameValue(label, value)) => {
            assert_eq!(label, "ClarityName");
            assert_eq!(value, text);
        }
        other => panic!("expected a bad-name error, got {:?}", other),
    }
}

#[test]
fn clarity_name_grammar_accepts_operators() {
    for ok in ["hello-world!", "is-eq?", "x", "a9", "+", "-", "*", "/", "=", "<", ">", "<=", ">="] {
        assert!(ClarityName::try_from(ok.to_string()).is_ok(), "{}", ok);
    }
}

#[test]
fn clarity_name_grammar_rejects_bad_text() {
    for bad in ["", "9abc", "_x", "a b", "==", "<>", "caf\u{e9}"] {
        assert!(ClarityName::try_from(bad.to_string()).is_err(), "{}", bad);
    }
}

#[test]
fn contract_name_accepts_transient_and_plain_names() {
    assert!(ContractName::try_from("__transient".to_string()).is_ok());
    assert!(ContractName::try_from("my-contract_v2".to_string()).is_ok());
    assert!(ContractName::try_from("9bad".to_string()).is_err());
    assert!(ContractName::try_from("has!bang".to_string()).is_err());
    assert!(ContractName::try_from("_almost__transient".to_string()).is_err());
}

#[test]
fn contract_name_length_bounds() {
    assert!(ContractName::try_from("d".repeat(128)).is_ok());
    assert!(ContractName::try_from("d".repeat(129)).is_err());
}

#[test]
fn url_string_accepts_urls_and_empty() {
    assert!(UrlString::try_from(String::new()).is_ok());
    let url = UrlString::try_from("https://example.com/p?q=1&r=%20".to_string()).unwrap();
    assert_eq!(url.as_str(), "https://example.com/p?q=1&r=%20");
    assert!(UrlString::try_from("spa ce".to_string()).is_err());
    assert!(UrlString::try_from("e".repeat(129)).is_err());
}

#[test]
fn guarded_names_compare_by_text() {
    let a = ClarityName::try_from("same".to_string()).unwrap();
    let b = ClarityName::try_from("same".to_string()).unwrap();
    let c = ClarityName::try_from("other".to_string()).unwrap();
    assert!(a.eq_name(&b));
    assert!(!a.eq_name(&c));
    assert!(a.is_str("same"));
    assert!(!a.is_str("same2"));
}
