//! Guarded identifier types and the two expression-tree representations.
//!
//! A guarded identifier wraps text that was validated at construction against
//! a fixed maximum length and a type-specific grammar; invalid text never
//! produces a value of the type.

use vstd::prelude::*;

verus! {

use vstd::string::StrSliceExecFns;
use crate::errors::RuntimeErrorType;
use crate::text::str_eq;
use crate::types::{Value, QualifiedContractIdentifier};

/// Maximum length of any guarded identifier, in characters (the grammars
/// admit only ASCII text, so this is also a byte bound).
pub const MAX_STRING_LEN: u8 = 128;

// ---------------------------------------------------------------------------
// Character classes, by Unicode code point.
// ---------------------------------------------------------------------------
/// `a`-`z` or `A`-`Z`.
pub open spec fn is_alpha(c: char) -> bool {
    (65 <= c as u32 && c as u32 <= 90) || (97 <= c as u32 && c as u32 <= 122)
}

/// `0`-`9`.
pub open spec fn is_dec_digit(c: char) -> bool {
    48 <= c as u32 && c as u32 <= 57
}

/// One of `- _ ! ? + < > = / *`.
pub open spec fn is_name_symbol(c: char) -> bool {
    let u = c as u32;
    u == 45 || u == 95 || u == 33 || u == 63 || u == 43 || u == 60 || u == 62 || u == 61 || u == 47
        || u == 42
}

/// A character allowed after the leading letter of an operator name.
pub open spec fn is_name_rest(c: char) -> bool {
    is_alpha(c) || is_dec_digit(c) || is_name_symbol(c)
}

/// One of the single-character operator names `- + = / * < >`.
pub open spec fn is_single_op(c: char) -> bool {
    let u = c as u32;
    u == 45 || u == 43 || u == 61 || u == 47 || u == 42 || u == 60 || u == 62
}

/// `<` or `>`, the first character of `<=` and `>=`.
pub open spec fn is_cmp_start(c: char) -> bool {
    c as u32 == 60 || c as u32 == 62
}

/// A character allowed after the leading letter of a contract name: letters,
/// digits, `-` and `_`.
pub open spec fn is_contract_rest(c: char) -> bool {
    is_alpha(c) || is_dec_digit(c) || c as u32 == 45 || c as u32 == 95
}

/// A character allowed anywhere in a URL string: letters, digits, or one of
/// ``. _ ~ : / ? # [ ] @ ! $ & ' ( ) * + , ; % = -``.
pub open spec fn is_url_char(c: char) -> bool {
    let u = c as u32;
    is_alpha(c) || is_dec_digit(c) || u == 46 || u == 95 || u == 126 || u == 58 || u == 47 || u
        == 63 || u == 35 || u == 91 || u == 93 || u == 64 || u == 33 || u == 36 || u == 38 || u
        == 39 || u == 40 || u == 41 || u == 42 || u == 43 || u == 44 || u == 59 || u == 37 || u
        == 61 || u == 45
}

// ---------------------------------------------------------------------------
// Grammars.
// ---------------------------------------------------------------------------
/// The grammar of operator and variable names: a letter followed by letters,
/// digits or name symbols; or a single-character operator; or `<=` / `>=`.
pub open spec fn clarity_name_grammar(s: Seq<char>) -> bool {
    ||| (s.len() >= 1 && is_alpha(s[0]) && (forall|j: int|
        1 <= j < s.len() ==> is_name_rest(#[trigger] s[j])))
    ||| (s.len() == 1 && is_single_op(s[0]))
    ||| (s.len() == 2 && is_cmp_start(s[0]) && s[1] as u32 == 61)
}

/// The grammar of contract names: a letter followed by letters, digits, `-`
/// or `_`; or the reserved transient name.
pub open spec fn contract_name_grammar(s: Seq<char>) -> bool {
    ||| (s.len() >= 1 && is_alpha(s[0]) && (forall|j: int|
        1 <= j < s.len() ==> is_contract_rest(#[trigger] s[j])))
    ||| s == "__transient"@
}

/// The grammar of URL strings: any run (possibly empty) of URL characters.
pub open spec fn url_string_grammar(s: Seq<char>) -> bool {
    forall|j: int| 0 <= j < s.len() ==> is_url_char(#[trigger] s[j])
}

/// Valid text for a `ClarityName`: within the length bound and in the grammar.
pub open spec fn valid_clarity_name(s: Seq<char>) -> bool {
    s.len() <= MAX_STRING_LEN && clarity_name_grammar(s)
}

/// Valid text for a `ContractName`.
pub open spec fn valid_contract_name(s: Seq<char>) -> bool {
    s.len() <= MAX_STRING_LEN && contract_name_grammar(s)
}

/// Valid text for a `UrlString`.
pub open spec fn valid_url_string(s: Seq<char>) -> bool {
    s.len() <= MAX_STRING_LEN && url_string_grammar(s)
}

// ---------------------------------------------------------------------------
// Executable grammar checks.
// ---------------------------------------------------------------------------
fn check_clarity_name_text(s: &str) -> (r: bool)
    ensures
        r == clarity_name_grammar(s@),
{
    let n = s.unicode_len();
    if n == 0 {
        return false;
    }
    let c0 = s.get_char(0);
    let u0 = c0 as u32;
    if (65 <= u0 && u0 <= 90) || (97 <= u0 && u0 <= 122) {
        let mut i: usize = 1;
        while i < n
            invariant
                n == s@.len(),
                1 <= i <= n,
                is_alpha(s@[0]),
                forall|j: int| 1 <= j < i ==> is_name_rest(#[trigger] s@[j]),
            decreases n - i,
        {
            let c = s.get_char(i);
            let u = c as u32;
            let ok = (65 <= u && u <= 90) || (97 <= u && u <= 122) || (48 <= u && u <= 57) || u
                == 45 || u == 95 || u == 33 || u == 63 || u == 43 || u == 60 || u == 62 || u == 61
                || u == 47 || u == 42;
            if !ok {
                proof {
                    assert(!is_name_rest(s@[i as int]));
                }
                return false;
            }
            i += 1;
        }
        true
    } else if n == 1 {
        u0 == 45 || u0 == 43 || u0 == 61 || u0 == 47 || u0 == 42 || u0 == 60 || u0 == 62
    } else if n == 2 && (u0 == 60 || u0 == 62) {
        let c1 = s.get_char(1);
        c1 as u32 == 61
    } else {
        false
    }
}

fn check_contract_name_text(s: &str) -> (r: bool)
    ensures
        r == contract_name_grammar(s@),
{
    if str_eq(s, "__transient") {
        return true;
    }
    let n = s.unicode_len();
    if n == 0 {
        return false;
    }
    let c0 = s.get_char(0);
    let u0 = c0 as u32;
    if (65 <= u0 && u0 <= 90) || (97 <= u0 && u0 <= 122) {
        let mut i: usize = 1;
        while i < n
            invariant
                n == s@.len(),
                1 <= i <= n,
                is_alpha(s@[0]),
                s@ != "__transient"@,
                forall|j: int| 1 <= j < i ==> is_contract_rest(#[trigger] s@[j]),
            decreases n - i,
        {
            let c = s.get_char(i);
            let u = c as u32;
            let ok = (65 <= u && u <= 90) || (97 <= u && u <= 122) || (48 <= u && u <= 57) || u
                == 45 || u == 95;
            if !ok {
                proof {
                    assert(!is_contract_rest(s@[i as int]));
                }
                return false;
            }
            i += 1;
        }
        true
    } else {
        false
    }
}

fn check_url_string_text(s: &str) -> (r: bool)
    ensures
        r == url_string_grammar(s@),
{
    let n = s.unicode_len();
    let mut i: usize = 0;
    while i < n
        invariant
            n == s@.len(),
            i <= n,
            forall|j: int| 0 <= j < i ==> is_url_char(#[trigger] s@[j]),
        decreases n - i,
    {
        let c = s.get_char(i);
        let u = c as u32;
        let ok = (65 <= u && u <= 90) || (97 <= u && u <= 122) || (48 <= u && u <= 57) || u == 46
            || u == 95 || u == 126 || u == 58 || u == 47 || u == 63 || u == 35 || u == 91 || u
            == 93 || u == 64 || u == 33 || u == 36 || u == 38 || u == 39 || u == 40 || u == 41 || u
            == 42 || u == 43 || u == 44 || u == 59 || u == 37 || u == 61 || u == 45;
        if !ok {
            return false;
        }
        i += 1;
    }
    true
}

// ---------------------------------------------------------------------------
// The guarded identifier types.
// ---------------------------------------------------------------------------
/// An operator or variable name, validated at construction.
#[derive(Debug, PartialEq, Eq, Hash, PartialOrd, Ord)]
pub struct ClarityName(String);

/// A contract name, validated at construction.
#[derive(Debug, PartialEq, Eq, Hash, PartialOrd, Ord)]
pub struct ContractName(String);

/// A URL string, validated at construction.
#[derive(Debug, PartialEq, Eq, Hash, PartialOrd, Ord)]
pub struct UrlString(String);

impl View for ClarityName {
    type V = Seq<char>;

    closed spec fn view(&self) -> Seq<char> {
        self.0@
    }
}

impl View for ContractName {
    type V = Seq<char>;

    closed spec fn view(&self) -> Seq<char> {
        self.0@
    }
}

impl View for UrlString {
    type V = Seq<char>;

    closed spec fn view(&self) -> Seq<char> {
        self.0@
    }
}

impl ClarityName {
    /// The invariant every value of the type carries.
    #[verifier::type_invariant]
    pub closed spec fn inv(&self) -> bool {
        valid_clarity_name(self@)
    }

    /// Validated construction: succeeds exactly on text within the length
    /// bound and in the name grammar.
    pub fn try_from(value: String) -> (r: Result<ClarityName, RuntimeErrorType>)
        ensures
            match r {
                Ok(n) => valid_clarity_name(value@) && n@ == value@,
                Err(e) => !valid_clarity_name(value@) && e@
                    == crate::errors::RuntimeErrorView::BadNameValue(
                    "ClarityName"@,
                    value@,
                ),
            },
    {
        let s = value.as_str();
        let too_long = s.unicode_len() > MAX_STRING_LEN as usize;
        let ok_grammar = if too_long {
            false
        } else {
            check_clarity_name_text(s)
        };
        if !too_long && ok_grammar {
            Ok(ClarityName(value))
        } else {
            Err(RuntimeErrorType::BadNameValue(String::from_str("ClarityName"), value))
        }
    }

    /// The wrapped text.
    pub fn as_str(&self) -> (r: &str)
        ensures
            r@ == self@,
    {
        self.0.as_str()
    }

    /// The wrapped text, by value.
    pub fn into_string(self) -> (r: String)
        ensures
            r@ == self@,
    {
        self.0
    }

    /// Length in bytes, which the invariant bounds by the maximum.
    pub fn len(&self) -> (r: u8)
        ensures
            r as nat == self@.len(),
    {
        let s = self.0.as_str();
        proof {
            use_type_invariant(self);
        }
        s.unicode_len() as u8
    }

    /// Structural copy with an exact contract.
    pub fn clone_name(&self) -> (r: ClarityName)
        ensures
            r == *self,
    {
        proof {
            use_type_invariant(self);
        }
        ClarityName(self.0.clone())
    }

    /// Text comparison against a plain string slice.
    pub fn is_str(&self, s: &str) -> (r: bool)
        ensures
            r == (self@ == s@),
    {
        str_eq(self.0.as_str(), s)
    }

    /// Text comparison against another name.
    pub fn eq_name(&self, other: &ClarityName) -> (r: bool)
        ensures
            r == (self@ == other@),
    {
        str_eq(self.0.as_str(), other.0.as_str())
    }
}

impl ContractName {
    /// The invariant every value of the type carries.
    #[verifier::type_invariant]
    pub closed spec fn inv(&self) -> bool {
        valid_contract_name(self@)
    }

    /// Validated construction: succeeds exactly on text within the length
    /// bound and in the contract-name grammar.
    pub fn try_from(value: String) -> (r: Result<ContractName, RuntimeErrorType>)
        ensures
            match r {
                Ok(n) => valid_contract_name(value@) && n@ == value@,
                Err(e) => !valid_contract_name(value@) && e@
                    == crate::errors::RuntimeErrorView::BadNameValue(
                    "ContractName"@,
                    value@,
                ),
            },
    {
        let s = value.as_str();
        let too_long = s.unicode_len() > MAX_STRING_LEN as usize;
        let ok_grammar = if too_long {
            false
        } else {
            check_contract_name_text(s)
        };
        if !too_long && ok_grammar {
            Ok(ContractName(value))
        } else {
            Err(RuntimeErrorType::BadNameValue(String::from_str("ContractName"), value))
        }
    }

    /// The wrapped text.
    pub fn as_str(&self) -> (r: &str)
        ensures
            r@ == self@,
    {
        self.0.as_str()
    }

    /// The wrapped text, by value.
    pub fn into_string(self) -> (r: String)
        ensures
            r@ == self@,
    {
        self.0
    }

    /// Length in bytes, which the invariant bounds by the maximum.
    pub fn len(&self) -> (r: u8)
        ensures
            r as nat == self@.len(),
    {
        let s = self.0.as_str();
        proof {
            use_type_invariant(self);
        }
        s.unicode_len() as u8
    }

    /// Structural copy with an exact contract.
    pub fn clone_name(&self) -> (r: ContractName)
        ensures
            r == *self,
    {
        proof {
            use_type_invariant(self);
        }
        ContractName(self.0.clone())
    }

    /// Text comparison against another contract name.
    pub fn eq_name(&self, other: &ContractName) -> (r: bool)
        ensures
            r == (self@ == other@),
    {
        str_eq(self.0.as_str(), other.0.as_str())
    }
}

impl UrlString {
    /// The invariant every value of the type carries.
    #[verifier::type_invariant]
    pub closed spec fn inv(&self) -> bool {
        valid_url_string(self@)
    }

    /// Validated construction: succeeds exactly on text within the length
    /// bound and in the URL grammar.
    pub fn try_from(value: String) -> (r: Result<UrlString, RuntimeErrorType>)
        ensures
            match r {
                Ok(n) => valid_url_string(value@) && n@ == value@,
                Err(e) => !valid_url_string(value@) && e@
                    == crate::errors::RuntimeErrorView::BadNameValue(
                    "UrlString"@,
                    value@,
                ),
            },
    {
        let s = value.as_str();
        let too_long = s.unicode_len() > MAX_STRING_LEN as usize;
        let ok_grammar = if too_long {
            false
        } else {
            check_url_string_text(s)
        };
        if !too_long && ok_grammar {
            Ok(UrlString(value))
        } else {
            Err(RuntimeErrorType::BadNameValue(String::from_str("UrlString"), value))
        }
    }

    /// The wrapped text.
    pub fn as_str(&self) -> (r: &str)
        ensures
            r@ == self@,
    {
        self.0.as_str()
    }

    /// The wrapped text, by value.
    pub fn into_string(self) -> (r: String)
        ensures
            r@ == self@,
    {
        self.0
    }

    /// Length in bytes, which the invariant bounds by the maximum.
    pub fn len(&self) -> (r: u8)
        ensures
            r as nat == self@.len(),
    {
        let s = self.0.as_str();
        proof {
            use_type_invariant(self);
        }
        s.unicode_len() as u8
    }
}

// ---------------------------------------------------------------------------
// Source spans.
// ---------------------------------------------------------------------------
/// A source location, tracked only when a diagnostics build mode asks for it.
#[derive(Debug, Clone, PartialEq, Eq, Hash, Structural)]
pub struct Span {
    pub start_line: u32,
    pub start_column: u32,
    pub end_line: u32,
    pub end_column: u32,
}

impl Span {
    /// The all-zero span.
    pub fn zero() -> (r: Span)
        ensures
            r == (Span { start_line: 0, start_column: 0, end_line: 0, end_column: 0 }),
    {
        Span { start_line: 0, start_column: 0, end_line: 0, end_column: 0 }
    }
}


// ---------------------------------------------------------------------------
// Trait identifiers.
// ---------------------------------------------------------------------------
/// A fully resolved reference to a trait member: the defining contract plus
/// the trait's name.
#[derive(Debug, PartialEq, Eq)]
pub struct TraitIdentifier {
    pub name: ClarityName,
    pub contract_identifier: QualifiedContractIdentifier,
}

// ---------------------------------------------------------------------------
// Pre-resolution expressions.
// ---------------------------------------------------------------------------
/// The shape of a pre-resolution expression node.
#[derive(Debug, PartialEq, Eq)]
pub enum PreSymbolicExpressionType {
    AtomValue(Value),
    Atom(ClarityName),
    List(Vec<PreSymbolicExpression>),
    SugaredContractIdentifier(ContractName),
    SugaredFieldIdentifier(ContractName, ClarityName),
    FieldIdentifier(TraitIdentifier),
    TraitReference(ClarityName),
}

/// A pre-resolution expression node: its shape, a unique id assigned once at
/// construction, and a source span present only when diagnostics ask for it.
#[derive(Debug, PartialEq, Eq)]
pub struct PreSymbolicExpression {
    pub pre_expr: PreSymbolicExpressionType,
    pub id: u64,
    pub span: Option<Span>,
}

impl PreSymbolicExpression {
    fn cons() -> (r: PreSymbolicExpression)
        ensures
            r == (PreSymbolicExpression {
                pre_expr: PreSymbolicExpressionType::AtomValue(Value::Bool(false)),
                id: 0,
                span: Option::None,
            }),
    {
        PreSymbolicExpression {
            pre_expr: PreSymbolicExpressionType::AtomValue(Value::Bool(false)),
            id: 0,
            span: Option::None,
        }
    }

    /// Records a source span; the node is otherwise unchanged.
    pub fn set_span(&mut self, start_line: u32, start_column: u32, end_line: u32, end_column: u32)
        ensures
            final(self).pre_expr == old(self).pre_expr,
            final(self).id == old(self).id,
            final(self).span == Option::Some(
                Span { start_line, start_column, end_line, end_column },
            ),
    {
        self.span = Option::Some(Span { start_line, start_column, end_line, end_column });
    }

    /// A sugared contract reference node.
    pub fn sugared_contract_identifier(val: ContractName) -> (r: PreSymbolicExpression)
        ensures
            r == (PreSymbolicExpression {
                pre_expr: PreSymbolicExpressionType::SugaredContractIdentifier(val),
                id: 0,
                span: Option::None,
            }),
    {
        PreSymbolicExpression {
            pre_expr: PreSymbolicExpressionType::SugaredContractIdentifier(val),
            ..PreSymbolicExpression::cons()
        }
    }

    /// A sugared qualified-field reference node.
    pub fn sugared_field_identifier(contract_name: ContractName, name: ClarityName) -> (r:
        PreSymbolicExpression)
        ensures
            r == (PreSymbolicExpression {
                pre_expr: PreSymbolicExpressionType::SugaredFieldIdentifier(contract_name, name),
                id: 0,
                span: Option::None,
            }),
    {
        PreSymbolicExpression {
            pre_expr: PreSymbolicExpressionType::SugaredFieldIdentifier(contract_name, name),
            ..PreSymbolicExpression::cons()
        }
    }

    /// A literal value node.
    pub fn atom_value(val: Value) -> (r: PreSymbolicExpression)
        ensures
            r == (PreSymbolicExpression {
                pre_expr: PreSymbolicExpressionType::AtomValue(val),
                id: 0,
                span: Option::None,
            }),
    {
        PreSymbolicExpression {
            pre_expr: PreSymbolicExpressionType::AtomValue(val),
            ..PreSymbolicExpression::cons()
        }
    }

    /// A bare name node.
    pub fn atom(val: ClarityName) -> (r: PreSymbolicExpression)
        ensures
            r == (PreSymbolicExpression {
                pre_expr: PreSymbolicExpressionType::Atom(val),
                id: 0,
                span: Option::None,
            }),
    {
        PreSymbolicExpression {
            pre_expr: PreSymbolicExpressionType::Atom(val),
            ..PreSymbolicExpression::cons()
        }
    }

    /// A trait-reference placeholder node.
    pub fn trait_reference(val: ClarityName) -> (r: PreSymbolicExpression)
        ensures
            r == (PreSymbolicExpression {
                pre_expr: PreSymbolicExpressionType::TraitReference(val),
                id: 0,
                span: Option::None,
            }),
    {
        PreSymbolicExpression {
            pre_expr: PreSymbolicExpressionType::TraitReference(val),
            ..PreSymbolicExpression::cons()
        }
    }

    /// A resolved field reference node.
    pub fn field_identifier(val: TraitIdentifier) -> (r: PreSymbolicExpression)
        ensures
            r == (PreSymbolicExpression {
                pre_expr: PreSymbolicExpressionType::FieldIdentifier(val),
                id: 0,
                span: Option::None,
            }),
    {
        PreSymbolicExpression {
            pre_expr: PreSymbolicExpressionType::FieldIdentifier(val),
            ..PreSymbolicExpression::cons()
        }
    }

    /// An ordered list node owning its children.
    pub fn list(val: Vec<PreSymbolicExpression>) -> (r: PreSymbolicExpression)
        ensures
            r == (PreSymbolicExpression {
                pre_expr: PreSymbolicExpressionType::List(val),
                id: 0,
                span: Option::None,
            }),
    {
        PreSymbolicExpression {
            pre_expr: PreSymbolicExpressionType::List(val),
            ..PreSymbolicExpression::cons()
        }
    }

    /// The wrapped name, when this node is a trait reference.
    pub fn match_trait_reference(&self) -> (r: Option<&ClarityName>)
        ensures
            match self.pre_expr {
                PreSymbolicExpressionType::TraitReference(ref name) => r matches Some(n) && *n
                    == *name,
                _ => r is None,
            },
    {
        if let PreSymbolicExpressionType::TraitReference(ref value) = self.pre_expr {
            Some(value)
        } else {
            None
        }
    }

    /// The wrapped value, when this node is a literal.
    pub fn match_atom_value(&self) -> (r: Option<&Value>)
        ensures
            match self.pre_expr {
                PreSymbolicExpressionType::AtomValue(ref v) => r matches Some(x) && *x == *v,
                _ => r is None,
            },
    {
        if let PreSymbolicExpressionType::AtomValue(ref value) = self.pre_expr {
            Some(value)
        } else {
            None
        }
    }

    /// The wrapped name, when this node is a bare name.
    pub fn match_atom(&self) -> (r: Option<&ClarityName>)
        ensures
            match self.pre_expr {
                PreSymbolicExpressionType::Atom(ref name) => r matches Some(n) && *n == *name,
                _ => r is None,
            },
    {
        if let PreSymbolicExpressionType::Atom(ref value) = self.pre_expr {
            Some(value)
        } else {
            None
        }
    }

    /// The children, when this node is a list.
    pub fn match_list(&self) -> (r: Option<&Vec<PreSymbolicExpression>>)
        ensures
            match self.pre_expr {
                PreSymbolicExpressionType::List(ref cs) => r matches Some(x) && *x == *cs,
                _ => r is None,
            },
    {
        if let PreSymbolicExpressionType::List(ref list) = self.pre_expr {
            Some(list)
        } else {
            None
        }
    }

    /// The wrapped identifier, when this node is a resolved field reference.
    pub fn match_field_identifier(&self) -> (r: Option<&TraitIdentifier>)
        ensures
            match self.pre_expr {
                PreSymbolicExpressionType::FieldIdentifier(ref f) => r matches Some(x) && *x == *f,
                _ => r is None,
            },
    {
        if let PreSymbolicExpressionType::FieldIdentifier(ref value) = self.pre_expr {
            Some(value)
        } else {
            None
        }
    }
}

// ---------------------------------------------------------------------------
// Resolved expressions.
// ---------------------------------------------------------------------------
/// Whether a trait was defined in the current contract or imported.
#[derive(Debug, PartialEq, Eq)]
pub enum TraitDefinition {
    Defined(TraitIdentifier),
    Imported(TraitIdentifier),
}

/// The shape of a resolved expression node. A literal written by the user
/// (`AtomValue`) is tracked apart from one substituted by a rewrite pass
/// (`LiteralValue`), though both hold a value.
#[derive(Debug, PartialEq, Eq)]
pub enum SymbolicExpressionType {
    AtomValue(Value),
    Atom(ClarityName),
    List(Vec<SymbolicExpression>),
    LiteralValue(Value),
    Field(TraitIdentifier),
    TraitReference(ClarityName, TraitDefinition),
}

/// A resolved expression node: its shape, a unique id assigned once at
/// construction and used only as an external key into side tables, and a
/// source span present only when diagnostics ask for it.
#[derive(Debug, PartialEq, Eq)]
pub struct SymbolicExpression {
    pub expr: SymbolicExpressionType,
    pub id: u64,
    pub span: Option<Span>,
}

impl SymbolicExpression {
    fn cons() -> (r: SymbolicExpression)
        ensures
            r == (SymbolicExpression {
                expr: SymbolicExpressionType::AtomValue(Value::Bool(false)),
                id: 0,
                span: Option::None,
            }),
    {
        SymbolicExpression {
            expr: SymbolicExpressionType::AtomValue(Value::Bool(false)),
            id: 0,
            span: Option::None,
        }
    }

    /// Records a source span; the node is otherwise unchanged.
    pub fn set_span(&mut self, start_line: u32, start_column: u32, end_line: u32, end_column: u32)
        ensures
            final(self).expr == old(self).expr,
            final(self).id == old(self).id,
            final(self).span == Option::Some(
                Span { start_line, start_column, end_line, end_column },
            ),
    {
        self.span = Option::Some(Span { start_line, start_column, end_line, end_column });
    }

    /// A literal value node, as written by the user.
    pub fn atom_value(val: Value) -> (r: SymbolicExpression)
        ensures
            r == (SymbolicExpression {
                expr: SymbolicExpressionType::AtomValue(val),
                id: 0,
                span: Option::None,
            }),
    {
        SymbolicExpression {
            expr: SymbolicExpressionType::AtomValue(val),
            ..SymbolicExpression::cons()
        }
    }

    /// A bare name node.
    pub fn atom(val: ClarityName) -> (r: SymbolicExpression)
        ensures
            r == (SymbolicExpression {
                expr: SymbolicExpressionType::Atom(val),
                id: 0,
                span: Option::None,
            }),
    {
        SymbolicExpression { expr: SymbolicExpressionType::Atom(val), ..SymbolicExpression::cons() }
    }

    /// A literal value node introduced by a rewrite pass.
    pub fn literal_value(val: Value) -> (r: SymbolicExpression)
        ensures
            r == (SymbolicExpression {
                expr: SymbolicExpressionType::LiteralValue(val),
                id: 0,
                span: Option::None,
            }),
    {
        SymbolicExpression {
            expr: SymbolicExpressionType::LiteralValue(val),
            ..SymbolicExpression::cons()
        }
    }

    /// An ordered list node owning its children.
    pub fn list(val: Vec<SymbolicExpression>) -> (r: SymbolicExpression)
        ensures
            r == (SymbolicExpression {
                expr: SymbolicExpressionType::List(val),
                id: 0,
                span: Option::None,
            }),
    {
        SymbolicExpression { expr: SymbolicExpressionType::List(val), ..SymbolicExpression::cons() }
    }

    /// A resolved trait-reference node.
    pub fn trait_reference(val: ClarityName, trait_definition: TraitDefinition) -> (r:
        SymbolicExpression)
        ensures
            r == (SymbolicExpression {
                expr: SymbolicExpressionType::TraitReference(val, trait_definition),
                id: 0,
                span: Option::None,
            }),
    {
        SymbolicExpression {
            expr: SymbolicExpressionType::TraitReference(val, trait_definition),
            ..SymbolicExpression::cons()
        }
    }

    /// A resolved trait-member field node.
    pub fn field(val: TraitIdentifier) -> (r: SymbolicExpression)
        ensures
            r == (SymbolicExpression {
                expr: SymbolicExpressionType::Field(val),
                id: 0,
                span: Option::None,
            }),
    {
        SymbolicExpression { expr: SymbolicExpressionType::Field(val), ..SymbolicExpression::cons() }
    }

    /// The children, when this node is a list.
    pub fn match_list(&self) -> (r: Option<&Vec<SymbolicExpression>>)
        ensures
            match self.expr {
                SymbolicExpressionType::List(ref cs) => r matches Some(x) && *x == *cs,
                _ => r is None,
            },
    {
        if let SymbolicExpressionType::List(ref list) = self.expr {
            Some(list)
        } else {
            None
        }
    }

    /// The wrapped name, when this node is a bare name.
    pub fn match_atom(&self) -> (r: Option<&ClarityName>)
        ensures
            match self.expr {
                SymbolicExpressionType::Atom(ref name) => r matches Some(n) && *n == *name,
                _ => r is None,
            },
    {
        if let SymbolicExpressionType::Atom(ref value) = self.expr {
            Some(value)
        } else {
            None
        }
    }

    /// The wrapped value, when this node is a user-written literal.
    pub fn match_atom_value(&self) -> (r: Option<&Value>)
        ensures
            match self.expr {
                SymbolicExpressionType::AtomValue(ref v) => r matches Some(x) && *x == *v,
                _ => r is None,
            },
    {
        if let SymbolicExpressionType::AtomValue(ref value) = self.expr {
            Some(value)
        } else {
            None
        }
    }

    /// The wrapped value, when this node is a rewrite-introduced literal.
    pub fn match_literal_value(&self) -> (r: Option<&Value>)
        ensures
            match self.expr {
                SymbolicExpressionType::LiteralValue(ref v) => r matches Some(x) && *x == *v,
                _ => r is None,
            },
    {
        if let SymbolicExpressionType::LiteralValue(ref value) = self.expr {
            Some(value)
        } else {
            None
        }
    }

    /// The wrapped name, when this node is a trait reference.
    pub fn match_trait_reference(&self) -> (r: Option<&ClarityName>)
        ensures
            match self.expr {
                SymbolicExpressionType::TraitReference(ref name, _) => r matches Some(n) && *n
                    == *name,
                _ => r is None,
            },
    {
        if let SymbolicExpressionType::TraitReference(ref value, _) = self.expr {
            Some(value)
        } else {
            None
        }
    }

    /// The wrapped identifier, when this node is a trait-member field.
    pub fn match_field(&self) -> (r: Option<&TraitIdentifier>)
        ensures
            match self.expr {
                SymbolicExpressionType::Field(ref f) => r matches Some(x) && *x == *f,
                _ => r is None,
            },
    {
        if let SymbolicExpressionType::Field(ref value) = self.expr {
            Some(value)
        } else {
            None
        }
    }
}

// ---------------------------------------------------------------------------
// Depth-first traversal.
// ---------------------------------------------------------------------------
/// The order `depth_traverse` visits the tree rooted at `e`: the node itself,
/// then the subtrees of its children, last child first.
pub open spec fn traversal(e: SymbolicExpression) -> Seq<SymbolicExpression>
    decreases e, 1int, 0int,
{
    match e.expr {
        SymbolicExpressionType::List(cs) => seq![e] + traversal_children(e, cs@.len() as int),
        _ => seq![e],
    }
}

/// The traversal of the first `i` children of the list node `e`, visited in
/// reverse order.
pub open spec fn traversal_children(e: SymbolicExpression, i: int) -> Seq<SymbolicExpression>
    decreases e, 0int, i,
{
    match e.expr {
        SymbolicExpressionType::List(cs) => if i <= 0 || i > cs@.len() {
            Seq::empty()
        } else {
            traversal(cs@[i - 1]) + traversal_children(e, i - 1)
        },
        _ => Seq::empty(),
    }
}

/// Erases the references from a traversal result.
pub open spec fn deref_seq(s: Seq<&SymbolicExpression>) -> Seq<SymbolicExpression> {
    s.map_values(|x: &SymbolicExpression| *x)
}

/// Visits every node of the tree, depth first, children of a list in reverse
/// order, and returns the nodes in visit order. Callers apply their own
/// action to each visited node.
pub fn depth_traverse<'a>(expr: &'a SymbolicExpression) -> (r: Vec<&'a SymbolicExpression>)
    ensures
        deref_seq(r@) == traversal(*expr),
    decreases *expr, 1int, 0int,
{
    let mut out: Vec<&'a SymbolicExpression> = Vec::new();
    out.push(expr);
    proof {
        assert(deref_seq(out@) =~= seq![*expr]);
    }
    match &expr.expr {
        SymbolicExpressionType::List(cs) => {
            let mut rest = depth_traverse_children(expr, cs.len());
            out.append(&mut rest);
            proof {
                assert(deref_seq(out@) =~= traversal(*expr));
            }
        },
        _ => {},
    }
    out
}

fn depth_traverse_children<'a>(expr: &'a SymbolicExpression, i: usize) -> (r: Vec<
    &'a SymbolicExpression,
>)
    requires
        expr.expr matches SymbolicExpressionType::List(cs) && i <= cs@.len(),
    ensures
        deref_seq(r@) == traversal_children(*expr, i as int),
    decreases *expr, 0int, i,
{
    if i == 0 {
        let r: Vec<&'a SymbolicExpression> = Vec::new();
        proof {
            assert(deref_seq(r@) =~= traversal_children(*expr, 0));
        }
        r
    } else {
        match &expr.expr {
            SymbolicExpressionType::List(cs) => {
                let mut out = depth_traverse(&cs[i - 1]);
                let mut rest = depth_traverse_children(expr, i - 1);
                out.append(&mut rest);
                proof {
                    assert(deref_seq(out@) =~= traversal_children(*expr, i as int));
                }
                out
            },
            _ => {
                let r: Vec<&'a SymbolicExpression> = Vec::new();
                r
            },
        }
    }
}


/// Text longer than the guard bound never constructs any guarded
/// identifier, whatever its content.
pub proof fn lemma_guarded_length_bound(s: Seq<char>)
    requires
        s.len() > MAX_STRING_LEN,
    ensures
        !valid_clarity_name(s),
        !valid_contract_name(s),
        !valid_url_string(s),
{
}

} // verus!
