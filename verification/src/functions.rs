//! The function registry and the operators the core dispatches.
//!
//! The registry is a static, immutable map from operator name to callable
//! that resolves every reserved operator of the language, each classified
//! as it was registered: native or special form, with the native's arity
//! specialization and, where this core holds the handler, its cost
//! function. The handlers the core holds are the control-flow special forms
//! and the representative natives; the remaining operators resolve but
//! dispatch to external collaborators, which this core refuses with a named
//! check error.
//!
//! A native receives already-evaluated argument values and cannot affect
//! evaluation order, scope or short-return. A special form receives the raw
//! argument expressions plus environment and context, and fully controls
//! which sub-expressions it evaluates.

use vstd::prelude::*;

verus! {

use crate::contexts::{Environment, LocalContext, scope_view, scope_lookup, spec_has_function};
use crate::costs::CostFunction;
use crate::errors::{
    CheckErrors, CheckErrorView, VmError, ErrorView, ShortReturnType, res_view,
    check_argument_count, check_arguments_at_least,
};
use crate::eval::{
    eval, eval_body, spec_eval_bindings, spec_special_if, spec_special_asserts, spec_special_let,
    spec_special_as_contract, spec_insert_all, children_of,
};
use crate::hashes::{
    hash160, sha256_digest, sha512_digest, sha512_256_digest, keccak256_digest, hash160_of,
    sha256_of, sha512_of, sha512_256_of, keccak256_of, le_bytes_i128, le_bytes_u128,
    i128_to_le_bytes, u128_to_le_bytes,
};
use crate::representations::{ClarityName, SymbolicExpression, SymbolicExpressionType};
use crate::text::str_eq;
use crate::types::{
    Value, ValueView, value_view, vals_view, TypeSignature, values_equal, clone_value,
    clone_principal, PrincipalData, QualifiedContractIdentifier, StandardPrincipalData,
};

// ---------------------------------------------------------------------------
// Callables.
// ---------------------------------------------------------------------------
/// Every native of the registry. The core holds handlers for the equality,
/// sequencing, print, constructor and hash natives; the others (arithmetic,
/// comparisons, casts, option and response accessors) are computed by the
/// type-system collaborator and dispatch to them raises a named check error
/// here.
#[derive(Debug, Clone, Copy, PartialEq, Eq, Structural)]
pub enum NativeOp {
    Add,
    Subtract,
    Multiply,
    Divide,
    CmpGeq,
    CmpLeq,
    CmpLess,
    CmpGreater,
    ToUInt,
    ToInt,
    Modulo,
    Power,
    BitwiseXor,
    Not,
    Eq,
    Len,
    Begin,
    Hash160,
    Sha256,
    Sha512,
    Sha512T256,
    Keccak256,
    Print,
    SomeCons,
    OkCons,
    ErrCons,
    DefaultTo,
    UnwrapRet,
    UnwrapErrRet,
    IsOkay,
    IsNone,
    IsErr,
    IsSome,
    Unwrap,
    UnwrapErr,
    TryRet,
}

/// Arity specialization of a native, fixed at registration: exactly one
/// argument, exactly two arguments, or a variable-length sequence.
#[derive(Debug, Clone, Copy, PartialEq, Eq, Structural)]
pub enum NativeHandle {
    SingleArg(NativeOp),
    DoubleArg(NativeOp),
    MoreArg(NativeOp),
}

/// Every special form of the registry. The core holds the four control-flow
/// forms; the others (boolean short-circuiting, iteration, collections,
/// tuples, the database, block state and assets) belong to external
/// collaborators and dispatch to them raises a named check error here.
#[derive(Debug, Clone, Copy, PartialEq, Eq, Structural)]
pub enum SpecialOp {
    And,
    Or,
    If,
    Let,
    FetchVar,
    SetVar,
    MapElements,
    Filter,
    Fold,
    Concat,
    AsMaxLen,
    Append,
    ListCons,
    FetchEntry,
    FetchContractEntry,
    SetEntry,
    InsertEntry,
    DeleteEntry,
    TupleCons,
    TupleGet,
    ContractCall,
    AsContract,
    GetBlockInfo,
    Asserts,
    Match,
    MintAsset,
    MintToken,
    TransferAsset,
    TransferToken,
    GetTokenBalance,
    GetAssetOwner,
    AtBlock,
    StxTransfer,
    StxBurn,
}

/// One entry of the registry: a native with its arity specialization, or a
/// special form. The cost function is attached at registration and present
/// exactly for the natives whose handlers this core holds; a native without
/// one is backed by an external collaborator, and dispatching it raises the
/// named check error before anything is charged, since its true cost
/// function belongs to the cost collaborator too.
#[derive(Debug, Clone, Copy, PartialEq, Eq)]
pub enum CallableType {
    NativeFunction(NativeHandle, Option<CostFunction>),
    SpecialFunction(SpecialOp),
}

/// The registry as a mathematical map from operator name to callable: it
/// answers `Some` exactly for the reserved operator names, classified as
/// native or special with the arity specialization fixed at registration.
pub open spec fn spec_lookup_reserved(name: Seq<char>) -> Option<CallableType> {
    if name == "is-eq"@ {
        Some(CallableType::NativeFunction(NativeHandle::MoreArg(NativeOp::Eq), Option::Some(CostFunction::Eq)))
    } else if name == "begin"@ {
        Some(CallableType::NativeFunction(NativeHandle::MoreArg(NativeOp::Begin), Option::Some(CostFunction::Begin)))
    } else if name == "print"@ {
        Some(CallableType::NativeFunction(NativeHandle::SingleArg(NativeOp::Print), Option::Some(CostFunction::Print)))
    } else if name == "hash160"@ {
        Some(CallableType::NativeFunction(NativeHandle::SingleArg(NativeOp::Hash160), Option::Some(CostFunction::Hash160)))
    } else if name == "sha256"@ {
        Some(CallableType::NativeFunction(NativeHandle::SingleArg(NativeOp::Sha256), Option::Some(CostFunction::Sha256)))
    } else if name == "sha512"@ {
        Some(CallableType::NativeFunction(NativeHandle::SingleArg(NativeOp::Sha512), Option::Some(CostFunction::Sha512)))
    } else if name == "sha512/256"@ {
        Some(CallableType::NativeFunction(NativeHandle::SingleArg(NativeOp::Sha512T256), Option::Some(CostFunction::Sha512T256)))
    } else if name == "keccak256"@ {
        Some(CallableType::NativeFunction(NativeHandle::SingleArg(NativeOp::Keccak256), Option::Some(CostFunction::Keccak256)))
    } else if name == "some"@ {
        Some(CallableType::NativeFunction(NativeHandle::SingleArg(NativeOp::SomeCons), Option::Some(CostFunction::SomeCons)))
    } else if name == "ok"@ {
        Some(CallableType::NativeFunction(NativeHandle::SingleArg(NativeOp::OkCons), Option::Some(CostFunction::OkCons)))
    } else if name == "err"@ {
        Some(CallableType::NativeFunction(NativeHandle::SingleArg(NativeOp::ErrCons), Option::Some(CostFunction::ErrCons)))
    } else if name == "+"@ {
        Some(CallableType::NativeFunction(NativeHandle::MoreArg(NativeOp::Add), Option::None))
    } else if name == "-"@ {
        Some(CallableType::NativeFunction(NativeHandle::MoreArg(NativeOp::Subtract), Option::None))
    } else if name == "*"@ {
        Some(CallableType::NativeFunction(NativeHandle::MoreArg(NativeOp::Multiply), Option::None))
    } else if name == "/"@ {
        Some(CallableType::NativeFunction(NativeHandle::MoreArg(NativeOp::Divide), Option::None))
    } else if name == ">="@ {
        Some(CallableType::NativeFunction(NativeHandle::DoubleArg(NativeOp::CmpGeq), Option::None))
    } else if name == "<="@ {
        Some(CallableType::NativeFunction(NativeHandle::DoubleArg(NativeOp::CmpLeq), Option::None))
    } else if name == "<"@ {
        Some(CallableType::NativeFunction(NativeHandle::DoubleArg(NativeOp::CmpLess), Option::None))
    } else if name == ">"@ {
        Some(CallableType::NativeFunction(NativeHandle::DoubleArg(NativeOp::CmpGreater), Option::None))
    } else if name == "to-uint"@ {
        Some(CallableType::NativeFunction(NativeHandle::SingleArg(NativeOp::ToUInt), Option::None))
    } else if name == "to-int"@ {
        Some(CallableType::NativeFunction(NativeHandle::SingleArg(NativeOp::ToInt), Option::None))
    } else if name == "mod"@ {
        Some(CallableType::NativeFunction(NativeHandle::DoubleArg(NativeOp::Modulo), Option::None))
    } else if name == "pow"@ {
        Some(CallableType::NativeFunction(NativeHandle::DoubleArg(NativeOp::Power), Option::None))
    } else if name == "xor"@ {
        Some(CallableType::NativeFunction(NativeHandle::DoubleArg(NativeOp::BitwiseXor), Option::None))
    } else if name == "not"@ {
        Some(CallableType::NativeFunction(NativeHandle::SingleArg(NativeOp::Not), Option::None))
    } else if name == "len"@ {
        Some(CallableType::NativeFunction(NativeHandle::SingleArg(NativeOp::Len), Option::None))
    } else if name == "default-to"@ {
        Some(CallableType::NativeFunction(NativeHandle::DoubleArg(NativeOp::DefaultTo), Option::None))
    } else if name == "unwrap!"@ {
        Some(CallableType::NativeFunction(NativeHandle::DoubleArg(NativeOp::UnwrapRet), Option::None))
    } else if name == "unwrap-err!"@ {
        Some(CallableType::NativeFunction(NativeHandle::DoubleArg(NativeOp::UnwrapErrRet), Option::None))
    } else if name == "is-ok"@ {
        Some(CallableType::NativeFunction(NativeHandle::SingleArg(NativeOp::IsOkay), Option::None))
    } else if name == "is-none"@ {
        Some(CallableType::NativeFunction(NativeHandle::SingleArg(NativeOp::IsNone), Option::None))
    } else if name == "is-err"@ {
        Some(CallableType::NativeFunction(NativeHandle::SingleArg(NativeOp::IsErr), Option::None))
    } else if name == "is-some"@ {
        Some(CallableType::NativeFunction(NativeHandle::SingleArg(NativeOp::IsSome), Option::None))
    } else if name == "unwrap-panic"@ {
        Some(CallableType::NativeFunction(NativeHandle::SingleArg(NativeOp::Unwrap), Option::None))
    } else if name == "unwrap-err-panic"@ {
        Some(CallableType::NativeFunction(NativeHandle::SingleArg(NativeOp::UnwrapErr), Option::None))
    } else if name == "try!"@ {
        Some(CallableType::NativeFunction(NativeHandle::SingleArg(NativeOp::TryRet), Option::None))
    } else if name == "and"@ {
        Some(CallableType::SpecialFunction(SpecialOp::And))
    } else if name == "or"@ {
        Some(CallableType::SpecialFunction(SpecialOp::Or))
    } else if name == "if"@ {
        Some(CallableType::SpecialFunction(SpecialOp::If))
    } else if name == "let"@ {
        Some(CallableType::SpecialFunction(SpecialOp::Let))
    } else if name == "var-get"@ {
        Some(CallableType::SpecialFunction(SpecialOp::FetchVar))
    } else if name == "var-set"@ {
        Some(CallableType::SpecialFunction(SpecialOp::SetVar))
    } else if name == "map"@ {
        Some(CallableType::SpecialFunction(SpecialOp::MapElements))
    } else if name == "filter"@ {
        Some(CallableType::SpecialFunction(SpecialOp::Filter))
    } else if name == "fold"@ {
        Some(CallableType::SpecialFunction(SpecialOp::Fold))
    } else if name == "concat"@ {
        Some(CallableType::SpecialFunction(SpecialOp::Concat))
    } else if name == "as-max-len?"@ {
        Some(CallableType::SpecialFunction(SpecialOp::AsMaxLen))
    } else if name == "append"@ {
        Some(CallableType::SpecialFunction(SpecialOp::Append))
    } else if name == "list"@ {
        Some(CallableType::SpecialFunction(SpecialOp::ListCons))
    } else if name == "map-get?"@ {
        Some(CallableType::SpecialFunction(SpecialOp::FetchEntry))
    } else if name == "contract-map-get?"@ {
        Some(CallableType::SpecialFunction(SpecialOp::FetchContractEntry))
    } else if name == "map-set"@ {
        Some(CallableType::SpecialFunction(SpecialOp::SetEntry))
    } else if name == "map-insert"@ {
        Some(CallableType::SpecialFunction(SpecialOp::InsertEntry))
    } else if name == "map-delete"@ {
        Some(CallableType::SpecialFunction(SpecialOp::DeleteEntry))
    } else if name == "tuple"@ {
        Some(CallableType::SpecialFunction(SpecialOp::TupleCons))
    } else if name == "get"@ {
        Some(CallableType::SpecialFunction(SpecialOp::TupleGet))
    } else if name == "contract-call?"@ {
        Some(CallableType::SpecialFunction(SpecialOp::ContractCall))
    } else if name == "as-contract"@ {
        Some(CallableType::SpecialFunction(SpecialOp::AsContract))
    } else if name == "get-block-info?"@ {
        Some(CallableType::SpecialFunction(SpecialOp::GetBlockInfo))
    } else if name == "asserts!"@ {
        Some(CallableType::SpecialFunction(SpecialOp::Asserts))
    } else if name == "match"@ {
        Some(CallableType::SpecialFunction(SpecialOp::Match))
    } else if name == "nft-mint?"@ {
        Some(CallableType::SpecialFunction(SpecialOp::MintAsset))
    } else if name == "ft-mint?"@ {
        Some(CallableType::SpecialFunction(SpecialOp::MintToken))
    } else if name == "nft-transfer?"@ {
        Some(CallableType::SpecialFunction(SpecialOp::TransferAsset))
    } else if name == "ft-transfer?"@ {
        Some(CallableType::SpecialFunction(SpecialOp::TransferToken))
    } else if name == "ft-get-balance"@ {
        Some(CallableType::SpecialFunction(SpecialOp::GetTokenBalance))
    } else if name == "nft-get-owner?"@ {
        Some(CallableType::SpecialFunction(SpecialOp::GetAssetOwner))
    } else if name == "at-block"@ {
        Some(CallableType::SpecialFunction(SpecialOp::AtBlock))
    } else if name == "stx-transfer?"@ {
        Some(CallableType::SpecialFunction(SpecialOp::StxTransfer))
    } else if name == "stx-burn?"@ {
        Some(CallableType::SpecialFunction(SpecialOp::StxBurn))
    } else {
        None
    }
}

/// Resolves an operator name to its registry entry; `None` means the name is
/// not a reserved operator, and the caller falls back to user-defined
/// lookup.
pub fn lookup_reserved_functions(name: &str) -> (r: Option<CallableType>)
    ensures
        r == spec_lookup_reserved(name@),
{
    if str_eq(name, "is-eq") {
        Some(CallableType::NativeFunction(NativeHandle::MoreArg(NativeOp::Eq), Option::Some(CostFunction::Eq)))
    } else if str_eq(name, "begin") {
        Some(CallableType::NativeFunction(NativeHandle::MoreArg(NativeOp::Begin), Option::Some(CostFunction::Begin)))
    } else if str_eq(name, "print") {
        Some(CallableType::NativeFunction(NativeHandle::SingleArg(NativeOp::Print), Option::Some(CostFunction::Print)))
    } else if str_eq(name, "hash160") {
        Some(CallableType::NativeFunction(NativeHandle::SingleArg(NativeOp::Hash160), Option::Some(CostFunction::Hash160)))
    } else if str_eq(name, "sha256") {
        Some(CallableType::NativeFunction(NativeHandle::SingleArg(NativeOp::Sha256), Option::Some(CostFunction::Sha256)))
    } else if str_eq(name, "sha512") {
        Some(CallableType::NativeFunction(NativeHandle::SingleArg(NativeOp::Sha512), Option::Some(CostFunction::Sha512)))
    } else if str_eq(name, "sha512/256") {
        Some(CallableType::NativeFunction(NativeHandle::SingleArg(NativeOp::Sha512T256), Option::Some(CostFunction::Sha512T256)))
    } else if str_eq(name, "keccak256") {
        Some(CallableType::NativeFunction(NativeHandle::SingleArg(NativeOp::Keccak256), Option::Some(CostFunction::Keccak256)))
    } else if str_eq(name, "some") {
        Some(CallableType::NativeFunction(NativeHandle::SingleArg(NativeOp::SomeCons), Option::Some(CostFunction::SomeCons)))
    } else if str_eq(name, "ok") {
        Some(CallableType::NativeFunction(NativeHandle::SingleArg(NativeOp::OkCons), Option::Some(CostFunction::OkCons)))
    } else if str_eq(name, "err") {
        Some(CallableType::NativeFunction(NativeHandle::SingleArg(NativeOp::ErrCons), Option::Some(CostFunction::ErrCons)))
    } else if str_eq(name, "+") {
        Some(CallableType::NativeFunction(NativeHandle::MoreArg(NativeOp::Add), Option::None))
    } else if str_eq(name, "-") {
        Some(CallableType::NativeFunction(NativeHandle::MoreArg(NativeOp::Subtract), Option::None))
    } else if str_eq(name, "*") {
        Some(CallableType::NativeFunction(NativeHandle::MoreArg(NativeOp::Multiply), Option::None))
    } else if str_eq(name, "/") {
        Some(CallableType::NativeFunction(NativeHandle::MoreArg(NativeOp::Divide), Option::None))
    } else if str_eq(name, ">=") {
        Some(CallableType::NativeFunction(NativeHandle::DoubleArg(NativeOp::CmpGeq), Option::None))
    } else if str_eq(name, "<=") {
        Some(CallableType::NativeFunction(NativeHandle::DoubleArg(NativeOp::CmpLeq), Option::None))
    } else if str_eq(name, "<") {
        Some(CallableType::NativeFunction(NativeHandle::DoubleArg(NativeOp::CmpLess), Option::None))
    } else if str_eq(name, ">") {
        Some(CallableType::NativeFunction(NativeHandle::DoubleArg(NativeOp::CmpGreater), Option::None))
    } else if str_eq(name, "to-uint") {
        Some(CallableType::NativeFunction(NativeHandle::SingleArg(NativeOp::ToUInt), Option::None))
    } else if str_eq(name, "to-int") {
        Some(CallableType::NativeFunction(NativeHandle::SingleArg(NativeOp::ToInt), Option::None))
    } else if str_eq(name, "mod") {
        Some(CallableType::NativeFunction(NativeHandle::DoubleArg(NativeOp::Modulo), Option::None))
    } else if str_eq(name, "pow") {
        Some(CallableType::NativeFunction(NativeHandle::DoubleArg(NativeOp::Power), Option::None))
    } else if str_eq(name, "xor") {
        Some(CallableType::NativeFunction(NativeHandle::DoubleArg(NativeOp::BitwiseXor), Option::None))
    } else if str_eq(name, "not") {
        Some(CallableType::NativeFunction(NativeHandle::SingleArg(NativeOp::Not), Option::None))
    } else if str_eq(name, "len") {
        Some(CallableType::NativeFunction(NativeHandle::SingleArg(NativeOp::Len), Option::None))
    } else if str_eq(name, "default-to") {
        Some(CallableType::NativeFunction(NativeHandle::DoubleArg(NativeOp::DefaultTo), Option::None))
    } else if str_eq(name, "unwrap!") {
        Some(CallableType::NativeFunction(NativeHandle::DoubleArg(NativeOp::UnwrapRet), Option::None))
    } else if str_eq(name, "unwrap-err!") {
        Some(CallableType::NativeFunction(NativeHandle::DoubleArg(NativeOp::UnwrapErrRet), Option::None))
    } else if str_eq(name, "is-ok") {
        Some(CallableType::NativeFunction(NativeHandle::SingleArg(NativeOp::IsOkay), Option::None))
    } else if str_eq(name, "is-none") {
        Some(CallableType::NativeFunction(NativeHandle::SingleArg(NativeOp::IsNone), Option::None))
    } else if str_eq(name, "is-err") {
        Some(CallableType::NativeFunction(NativeHandle::SingleArg(NativeOp::IsErr), Option::None))
    } else if str_eq(name, "is-some") {
        Some(CallableType::NativeFunction(NativeHandle::SingleArg(NativeOp::IsSome), Option::None))
    } else if str_eq(name, "unwrap-panic") {
        Some(CallableType::NativeFunction(NativeHandle::SingleArg(NativeOp::Unwrap), Option::None))
    } else if str_eq(name, "unwrap-err-panic") {
        Some(CallableType::NativeFunction(NativeHandle::SingleArg(NativeOp::UnwrapErr), Option::None))
    } else if str_eq(name, "try!") {
        Some(CallableType::NativeFunction(NativeHandle::SingleArg(NativeOp::TryRet), Option::None))
    } else if str_eq(name, "and") {
        Some(CallableType::SpecialFunction(SpecialOp::And))
    } else if str_eq(name, "or") {
        Some(CallableType::SpecialFunction(SpecialOp::Or))
    } else if str_eq(name, "if") {
        Some(CallableType::SpecialFunction(SpecialOp::If))
    } else if str_eq(name, "let") {
        Some(CallableType::SpecialFunction(SpecialOp::Let))
    } else if str_eq(name, "var-get") {
        Some(CallableType::SpecialFunction(SpecialOp::FetchVar))
    } else if str_eq(name, "var-set") {
        Some(CallableType::SpecialFunction(SpecialOp::SetVar))
    } else if str_eq(name, "map") {
        Some(CallableType::SpecialFunction(SpecialOp::MapElements))
    } else if str_eq(name, "filter") {
        Some(CallableType::SpecialFunction(SpecialOp::Filter))
    } else if str_eq(name, "fold") {
        Some(CallableType::SpecialFunction(SpecialOp::Fold))
    } else if str_eq(name, "concat") {
        Some(CallableType::SpecialFunction(SpecialOp::Concat))
    } else if str_eq(name, "as-max-len?") {
        Some(CallableType::SpecialFunction(SpecialOp::AsMaxLen))
    } else if str_eq(name, "append") {
        Some(CallableType::SpecialFunction(SpecialOp::Append))
    } else if str_eq(name, "list") {
        Some(CallableType::SpecialFunction(SpecialOp::ListCons))
    } else if str_eq(name, "map-get?") {
        Some(CallableType::SpecialFunction(SpecialOp::FetchEntry))
    } else if str_eq(name, "contract-map-get?") {
        Some(CallableType::SpecialFunction(SpecialOp::FetchContractEntry))
    } else if str_eq(name, "map-set") {
        Some(CallableType::SpecialFunction(SpecialOp::SetEntry))
    } else if str_eq(name, "map-insert") {
        Some(CallableType::SpecialFunction(SpecialOp::InsertEntry))
    } else if str_eq(name, "map-delete") {
        Some(CallableType::SpecialFunction(SpecialOp::DeleteEntry))
    } else if str_eq(name, "tuple") {
        Some(CallableType::SpecialFunction(SpecialOp::TupleCons))
    } else if str_eq(name, "get") {
        Some(CallableType::SpecialFunction(SpecialOp::TupleGet))
    } else if str_eq(name, "contract-call?") {
        Some(CallableType::SpecialFunction(SpecialOp::ContractCall))
    } else if str_eq(name, "as-contract") {
        Some(CallableType::SpecialFunction(SpecialOp::AsContract))
    } else if str_eq(name, "get-block-info?") {
        Some(CallableType::SpecialFunction(SpecialOp::GetBlockInfo))
    } else if str_eq(name, "asserts!") {
        Some(CallableType::SpecialFunction(SpecialOp::Asserts))
    } else if str_eq(name, "match") {
        Some(CallableType::SpecialFunction(SpecialOp::Match))
    } else if str_eq(name, "nft-mint?") {
        Some(CallableType::SpecialFunction(SpecialOp::MintAsset))
    } else if str_eq(name, "ft-mint?") {
        Some(CallableType::SpecialFunction(SpecialOp::MintToken))
    } else if str_eq(name, "nft-transfer?") {
        Some(CallableType::SpecialFunction(SpecialOp::TransferAsset))
    } else if str_eq(name, "ft-transfer?") {
        Some(CallableType::SpecialFunction(SpecialOp::TransferToken))
    } else if str_eq(name, "ft-get-balance") {
        Some(CallableType::SpecialFunction(SpecialOp::GetTokenBalance))
    } else if str_eq(name, "nft-get-owner?") {
        Some(CallableType::SpecialFunction(SpecialOp::GetAssetOwner))
    } else if str_eq(name, "at-block") {
        Some(CallableType::SpecialFunction(SpecialOp::AtBlock))
    } else if str_eq(name, "stx-transfer?") {
        Some(CallableType::SpecialFunction(SpecialOp::StxTransfer))
    } else if str_eq(name, "stx-burn?") {
        Some(CallableType::SpecialFunction(SpecialOp::StxBurn))
    } else {
        None
    }
}

// ---------------------------------------------------------------------------
// Reserved words.
// ---------------------------------------------------------------------------
/// Whether a name is one of the language's reserved operator names:
/// exactly the names the registry resolves.
pub open spec fn spec_is_reserved_function_name(name: Seq<char>) -> bool {
    spec_lookup_reserved(name) is Some
}

/// Whether a name is one of the language's reserved variable names.
pub open spec fn spec_is_reserved_variable(name: Seq<char>) -> bool {
    ||| name == "tx-sender"@
    ||| name == "contract-caller"@
    ||| name == "block-height"@
    ||| name == "burn-block-height"@
    ||| name == "none"@
}

/// Whether a name is reserved by the language and so may not be shadowed:
/// an operator name of the registry, or a reserved variable name.
pub fn is_reserved(name: &str) -> (r: bool)
    ensures
        r == spec_is_reserved(name@),
{
    if lookup_reserved_functions(name).is_some() {
        return true;
    }
    str_eq(name, "tx-sender") || str_eq(name, "contract-caller") || str_eq(name, "block-height")
        || str_eq(name, "burn-block-height") || str_eq(name, "none")
}

/// Whether a name is reserved by the language.
pub open spec fn spec_is_reserved(name: Seq<char>) -> bool {
    spec_is_reserved_function_name(name) || spec_is_reserved_variable(name)
}

// ---------------------------------------------------------------------------
// Native semantics.
// ---------------------------------------------------------------------------
/// Folds the least common supertype over the argument types, starting from
/// `acc`, in element order; the first incompatibility is the error.
pub open spec fn spec_eq_types(args: Seq<ValueView>, i: int, acc: TypeSignature) -> Result<
    TypeSignature,
    ErrorView,
>
    decreases args.len() - i,
{
    if i < 0 || i >= args.len() {
        Ok(acc)
    } else {
        match TypeSignature::spec_least_supertype(TypeSignature::spec_type_of(args[i]), acc) {
            Err(e) => Err(ErrorView::Check(e)),
            Ok(t) => spec_eq_types(args, i + 1, t),
        }
    }
}

/// Whether every argument's raw value equals the first.
pub open spec fn spec_all_eq(args: Seq<ValueView>) -> bool {
    forall|k: int| 0 <= k < args.len() ==> #[trigger] args[k] == args[0]
}

/// The equality native: zero or one argument is vacuously true; otherwise
/// the type-union check runs over every element in order, its failure taking
/// precedence, and the result is whether every raw value equals the first.
pub open spec fn spec_native_eq(args: Seq<ValueView>) -> Result<ValueView, ErrorView> {
    if args.len() < 2 {
        Ok(ValueView::Bool(true))
    } else {
        match spec_eq_types(args, 0, TypeSignature::spec_type_of(args[0])) {
            Err(e) => Err(e),
            Ok(_) => Ok(ValueView::Bool(spec_all_eq(args))),
        }
    }
}

/// The sequencing native: all arguments were evaluated for effect; the last
/// value is returned, and zero arguments is an arity error.
pub open spec fn spec_native_begin(args: Seq<ValueView>) -> Result<ValueView, ErrorView> {
    if args.len() == 0 {
        Err(ErrorView::Check(CheckErrorView::RequiresAtLeastArguments(1, 0)))
    } else {
        Ok(args.last())
    }
}

/// The bytes an argument of a hash native is hashed over: integers over
/// their little-endian fixed-width encoding, buffers over their raw bytes.
pub open spec fn spec_hash_input_bytes(v: ValueView) -> Option<Seq<u8>> {
    match v {
        ValueView::Int(x) => Some(le_bytes_i128(x)),
        ValueView::UInt(x) => Some(le_bytes_u128(x)),
        ValueView::Buff(s) => Some(s),
        _ => None,
    }
}

/// The error a hash native raises on an argument that is not an integer or
/// a buffer.
pub open spec fn spec_hash_type_error(v: ValueView) -> ErrorView {
    ErrorView::Check(
        CheckErrorView::UnionTypeValueError(
            seq![
                TypeSignature::IntType,
                TypeSignature::UIntType,
                TypeSignature::BufferType(crate::types::MAX_VALUE_SIZE),
            ],
            v,
        ),
    )
}

/// A single-argument native applied to its evaluated argument.
pub open spec fn spec_native_single(op: NativeOp, v: ValueView) -> Result<ValueView, ErrorView> {
    match op {
        NativeOp::Print => Ok(v),
        NativeOp::SomeCons => Ok(ValueView::Optional(Some(Box::new(v)))),
        NativeOp::OkCons => Ok(ValueView::Response(true, Box::new(v))),
        NativeOp::ErrCons => Ok(ValueView::Response(false, Box::new(v))),
        NativeOp::Hash160 => match spec_hash_input_bytes(v) {
            None => Err(spec_hash_type_error(v)),
            Some(bytes) => Ok(ValueView::Buff(hash160_of(bytes))),
        },
        NativeOp::Sha256 => match spec_hash_input_bytes(v) {
            None => Err(spec_hash_type_error(v)),
            Some(bytes) => Ok(ValueView::Buff(sha256_of(bytes))),
        },
        NativeOp::Sha512 => match spec_hash_input_bytes(v) {
            None => Err(spec_hash_type_error(v)),
            Some(bytes) => Ok(ValueView::Buff(sha512_of(bytes))),
        },
        NativeOp::Sha512T256 => match spec_hash_input_bytes(v) {
            None => Err(spec_hash_type_error(v)),
            Some(bytes) => Ok(ValueView::Buff(sha512_256_of(bytes))),
        },
        NativeOp::Keccak256 => match spec_hash_input_bytes(v) {
            None => Err(spec_hash_type_error(v)),
            Some(bytes) => Ok(ValueView::Buff(keccak256_of(bytes))),
        },
        _ => Err(ErrorView::Check(CheckErrorView::BadFunctionName)),
    }
}

/// A variadic native applied to its evaluated arguments.
pub open spec fn spec_native_more(op: NativeOp, args: Seq<ValueView>) -> Result<
    ValueView,
    ErrorView,
> {
    match op {
        NativeOp::Eq => spec_native_eq(args),
        NativeOp::Begin => spec_native_begin(args),
        _ => Err(ErrorView::Check(CheckErrorView::BadFunctionName)),
    }
}

/// Decides variadic equality as the specification states it.
pub fn native_eq(args: Vec<Value>) -> (r: Result<Value, VmError>)
    ensures
        res_view(r) == spec_native_eq(vals_view(args@)),
{
    if args.len() < 2 {
        return Ok(Value::Bool(true));
    }
    let ghost vs = vals_view(args@);
    let mut arg_type = TypeSignature::type_of(&args[0]);
    let mut all_eq = true;
    let mut i: usize = 0;
    while i < args.len()
        invariant
            vs == vals_view(args@),
            vs.len() == args@.len(),
            2 <= args@.len(),
            i <= args@.len(),
            spec_eq_types(vs, 0, TypeSignature::spec_type_of(vs[0])) == spec_eq_types(
                vs,
                i as int,
                arg_type,
            ),
            all_eq == (forall|k: int| 0 <= k < i ==> #[trigger] vs[k] == vs[0]),
        decreases args@.len() - i,
    {
        let t = TypeSignature::type_of(&args[i]);
        match TypeSignature::least_supertype(&t, &arg_type) {
            Err(e) => {
                return Err(VmError::Check(e));
            },
            Ok(next) => {
                if !values_equal(&args[i], &args[0]) {
                    all_eq = false;
                }
                arg_type = next;
            },
        }
        i += 1;
    }
    Ok(Value::Bool(all_eq))
}

/// Returns the last of the evaluated arguments; none is an arity error.
pub fn native_begin(mut args: Vec<Value>) -> (r: Result<Value, VmError>)
    ensures
        res_view(r) == spec_native_begin(vals_view(args@)),
{
    match args.pop() {
        Some(v) => Ok(v),
        None => Err(VmError::Check(CheckErrors::RequiresAtLeastArguments(1, 0))),
    }
}

/// Identity on its argument in every build mode; a diagnostics build may
/// additionally emit the value to a developer trace channel at the outer
/// edge of the program.
pub fn native_print(input: Value) -> (r: Result<Value, VmError>)
    ensures
        res_view(r) == Ok::<ValueView, ErrorView>(value_view(input)),
{
    Ok(input)
}

/// Applies one of the hash natives to its evaluated argument.
fn native_hash(op: NativeOp, input: Value) -> (r: Result<Value, VmError>)
    requires
        op == NativeOp::Hash160 || op == NativeOp::Sha256 || op == NativeOp::Sha512 || op
            == NativeOp::Sha512T256 || op == NativeOp::Keccak256,
    ensures
        res_view(r) == spec_native_single(op, value_view(input)),
{
    let bytes: Vec<u8> = match input {
        Value::Int(x) => i128_to_le_bytes(x),
        Value::UInt(x) => u128_to_le_bytes(x),
        Value::Buffer(b) => b.data,
        other => {
            let mut expected: Vec<TypeSignature> = Vec::new();
            expected.push(TypeSignature::IntType);
            expected.push(TypeSignature::UIntType);
            expected.push(TypeSignature::max_buffer());
            proof {
                assert(expected@ =~= seq![
                    TypeSignature::IntType,
                    TypeSignature::UIntType,
                    TypeSignature::BufferType(crate::types::MAX_VALUE_SIZE),
                ]);
            }
            return Err(VmError::Check(CheckErrors::UnionTypeValueError(expected, other)));
        },
    };
    let digest: Vec<u8> = match op {
        NativeOp::Hash160 => hash160(bytes.as_slice()),
        NativeOp::Sha256 => sha256_digest(bytes.as_slice()),
        NativeOp::Sha512 => sha512_digest(bytes.as_slice()),
        NativeOp::Sha512T256 => sha512_256_digest(bytes.as_slice()),
        _ => keccak256_digest(bytes.as_slice()),
    };
    match Value::buff_from(digest) {
        Ok(v) => Ok(v),
        Err(e) => {
            proof {
                assert(false);
            }
            Err(VmError::Check(e))
        },
    }
}

/// Dispatches a single-argument native.
pub fn apply_native_single(op: NativeOp, input: Value) -> (r: Result<Value, VmError>)
    ensures
        res_view(r) == spec_native_single(op, value_view(input)),
{
    match op {
        NativeOp::Print => native_print(input),
        NativeOp::SomeCons => Ok(Value::some(input)),
        NativeOp::OkCons => Ok(Value::okay(input)),
        NativeOp::ErrCons => Ok(Value::error(input)),
        NativeOp::Hash160 => native_hash(NativeOp::Hash160, input),
        NativeOp::Sha256 => native_hash(NativeOp::Sha256, input),
        NativeOp::Sha512 => native_hash(NativeOp::Sha512, input),
        NativeOp::Sha512T256 => native_hash(NativeOp::Sha512T256, input),
        NativeOp::Keccak256 => native_hash(NativeOp::Keccak256, input),
        _ => Err(VmError::Check(CheckErrors::BadFunctionName)),
    }
}

/// Dispatches a variadic native.
pub fn apply_native_more(op: NativeOp, args: Vec<Value>) -> (r: Result<Value, VmError>)
    ensures
        res_view(r) == spec_native_more(op, vals_view(args@)),
{
    match op {
        NativeOp::Eq => native_eq(args),
        NativeOp::Begin => native_begin(args),
        _ => Err(VmError::Check(CheckErrors::BadFunctionName)),
    }
}

// ---------------------------------------------------------------------------
// Special forms.
// ---------------------------------------------------------------------------
/// The conditional: exactly three raw arguments; the boolean condition picks
/// the branch, and the other branch is never evaluated nor charged for.
pub fn special_if(expr: &SymbolicExpression, env: &mut Environment, context: &LocalContext) -> (r:
    Result<Value, VmError>)
    requires
        expr.expr matches SymbolicExpressionType::List(cs) && cs@.len() >= 1,
    ensures
        ({
            let (sr, senv) = spec_special_if(*expr, old(env)@, context@);
            res_view(r) == sr && final(env)@ == senv
        }),
    decreases *expr, 1int, 0int,
{
    match &expr.expr {
        SymbolicExpressionType::List(cs) => {
            let n = cs.len() - 1;
            if let Err(e) = check_argument_count(3, n) {
                return Err(VmError::Check(e));
            }
            if let Err(e) = env.runtime_cost(CostFunction::If, 0) {
                return Err(e);
            }
            let conditional = eval(&cs[1], env, context);
            match conditional {
                Err(e) => Err(e),
                Ok(Value::Bool(result)) => {
                    if result {
                        eval(&cs[2], env, context)
                    } else {
                        eval(&cs[3], env, context)
                    }
                },
                Ok(other) => Err(
                    VmError::Check(CheckErrors::TypeValueError(TypeSignature::BoolType, other)),
                ),
            }
        },
        _ => Err(VmError::Check(CheckErrors::NonFunctionApplication)),
    }
}

/// The assertion: exactly two raw arguments; a true boolean condition is
/// returned unchanged, a false one evaluates the else-thunk and fails with a
/// short-return carrying that value.
pub fn special_asserts(expr: &SymbolicExpression, env: &mut Environment, context: &LocalContext)
    -> (r: Result<Value, VmError>)
    requires
        expr.expr matches SymbolicExpressionType::List(cs) && cs@.len() >= 1,
    ensures
        ({
            let (sr, senv) = spec_special_asserts(*expr, old(env)@, context@);
            res_view(r) == sr && final(env)@ == senv
        }),
    decreases *expr, 1int, 0int,
{
    match &expr.expr {
        SymbolicExpressionType::List(cs) => {
            let n = cs.len() - 1;
            if let Err(e) = check_argument_count(2, n) {
                return Err(VmError::Check(e));
            }
            if let Err(e) = env.runtime_cost(CostFunction::Asserts, 0) {
                return Err(e);
            }
            let conditional = eval(&cs[1], env, context);
            match conditional {
                Err(e) => Err(e),
                Ok(Value::Bool(result)) => {
                    if result {
                        Ok(Value::Bool(true))
                    } else {
                        match eval(&cs[2], env, context) {
                            Err(e) => Err(e),
                            Ok(thrown) => Err(
                                VmError::ShortReturn(ShortReturnType::AssertionFailed(thrown)),
                            ),
                        }
                    }
                },
                Ok(other) => Err(
                    VmError::Check(CheckErrors::TypeValueError(TypeSignature::BoolType, other)),
                ),
            }
        },
        _ => Err(VmError::Check(CheckErrors::NonFunctionApplication)),
    }
}

/// Parses a binding list: each element must be a two-element list whose
/// first element is a bare name. Returns the bound names in order.
pub fn handle_binding_list(bindings: &Vec<SymbolicExpression>) -> (r: Result<
    Vec<ClarityName>,
    CheckErrors,
>)
    ensures
        match r {
            Ok(names) => names@.len() == bindings@.len() && forall|k: int|
                0 <= k < bindings@.len() ==> ((#[trigger] bindings@[k].expr) matches
                    SymbolicExpressionType::List(pair) && pair@.len() == 2 && (pair@[0].expr
                    matches SymbolicExpressionType::Atom(nm) && names@[k] == nm)),
            Err(e) => e@ == CheckErrorView::BadSyntaxBinding && exists|k: int|
                0 <= k < bindings@.len() && !((#[trigger] bindings@[k].expr) matches
                    SymbolicExpressionType::List(pair) && pair@.len() == 2 && (pair@[0].expr
                    matches SymbolicExpressionType::Atom(_))),
        },
{
    let mut names: Vec<ClarityName> = Vec::new();
    let mut i: usize = 0;
    while i < bindings.len()
        invariant
            i <= bindings@.len(),
            names@.len() == i,
            forall|k: int|
                0 <= k < i ==> ((#[trigger] bindings@[k].expr) matches
                    SymbolicExpressionType::List(pair) && pair@.len() == 2 && (pair@[0].expr
                    matches SymbolicExpressionType::Atom(nm) && names@[k] == nm)),
        decreases bindings@.len() - i,
    {
        match &bindings[i].expr {
            SymbolicExpressionType::List(pair) => {
                if pair.len() != 2 {
                    return Err(CheckErrors::BadSyntaxBinding);
                }
                match &pair[0].expr {
                    SymbolicExpressionType::Atom(name) => {
                        names.push(name.clone_name());
                    },
                    _ => {
                        return Err(CheckErrors::BadSyntaxBinding);
                    },
                }
            },
            _ => {
                return Err(CheckErrors::BadSyntaxBinding);
            },
        }
        i += 1;
    }
    Ok(names)
}

/// Parses a binding list and evaluates every binding expression against the
/// given context, which is the pre-binding outer context: bindings cannot
/// reference each other.
pub fn parse_eval_bindings(
    bindings: &SymbolicExpression,
    env: &mut Environment,
    context: &LocalContext,
) -> (r: Result<Vec<(ClarityName, Value)>, VmError>)
    requires
        bindings.expr matches SymbolicExpressionType::List(bs),
    ensures
        ({
            let (br, benv) = spec_eval_bindings(*bindings, 0, old(env)@, context@);
            final(env)@ == benv && match r {
                Ok(pairs) => br == Ok::<_, ErrorView>(scope_view(pairs)),
                Err(e) => br == Err::<Seq<(Seq<char>, ValueView)>, _>(e@),
            }
        }),
    decreases *bindings, 1int, 0int,
{
    eval_bindings_from(bindings, 0, env, context)
}

fn eval_bindings_from(
    bindings: &SymbolicExpression,
    i: usize,
    env: &mut Environment,
    context: &LocalContext,
) -> (r: Result<Vec<(ClarityName, Value)>, VmError>)
    requires
        bindings.expr matches SymbolicExpressionType::List(bs) && i <= bs@.len(),
    ensures
        ({
            let (br, benv) = spec_eval_bindings(*bindings, i as int, old(env)@, context@);
            final(env)@ == benv && match r {
                Ok(pairs) => br == Ok::<_, ErrorView>(scope_view(pairs)),
                Err(e) => br == Err::<Seq<(Seq<char>, ValueView)>, _>(e@),
            }
        }),
    decreases *bindings, 0int, children_of(*bindings).len() - i,
{
    match &bindings.expr {
        SymbolicExpressionType::List(bs) => {
            if i == bs.len() {
                let pairs: Vec<(ClarityName, Value)> = Vec::new();
                proof {
                    assert(scope_view(pairs) =~= Seq::<(Seq<char>, ValueView)>::empty());
                }
                return Ok(pairs);
            }
            match &bs[i].expr {
                SymbolicExpressionType::List(pair) => {
                    if pair.len() != 2 {
                        return Err(VmError::Check(CheckErrors::BadSyntaxBinding));
                    }
                    match &pair[0].expr {
                        SymbolicExpressionType::Atom(var_name) => {
                            let value = match eval(&pair[1], env, context) {
                                Err(e) => {
                                    return Err(e);
                                },
                                Ok(v) => v,
                            };
                            let mut rest = match eval_bindings_from(bindings, i + 1, env, context) {
                                Err(e) => {
                                    return Err(e);
                                },
                                Ok(tl) => tl,
                            };
                            let ghost tail_view = scope_view(rest);
                            rest.insert(0, (var_name.clone_name(), value));
                            proof {
                                assert(scope_view(rest) =~= seq![(var_name@, value_view(value))]
                                    + tail_view);
                            }
                            Ok(rest)
                        },
                        _ => Err(VmError::Check(CheckErrors::BadSyntaxBinding)),
                    }
                },
                _ => Err(VmError::Check(CheckErrors::BadSyntaxBinding)),
            }
        },
        _ => Err(VmError::Check(CheckErrors::BadSyntaxBinding)),
    }
}

/// Inserts evaluated bindings into the child context one at a time,
/// rejecting a name that shadows a reserved word, a user-defined function,
/// or an earlier binding of the same binding list.
fn insert_all(
    pairs: &Vec<(ClarityName, Value)>,
    j: usize,
    env: &Environment,
    inner: &mut LocalContext,
) -> (r: Result<(), VmError>)
    requires
        j <= pairs@.len(),
        old(inner)@.len() >= 1,
    ensures
        final(inner)@.len() >= 1,
        match r {
            Ok(()) => spec_insert_all(scope_view(*pairs), j as int, env@, old(inner)@) == Ok::<
                _,
                ErrorView,
            >(final(inner)@),
            Err(e) => spec_insert_all(scope_view(*pairs), j as int, env@, old(inner)@) == Err::<
                crate::contexts::ContextView,
                _,
            >(e@),
        },
    decreases pairs@.len() - j,
{
    if j == pairs.len() {
        return Ok(());
    }
    let name = &pairs[j].0;
    if is_reserved(name.as_str()) || env.has_function(name.as_str()) || inner.innermost_binds(
        name.as_str(),
    ) {
        return Err(
            VmError::Check(CheckErrors::NameAlreadyUsed(String::from_str(name.as_str()))),
        );
    }
    inner.insert_binding(name.clone_name(), clone_value(&pairs[j].1));
    insert_all(pairs, j + 1, env, inner)
}

/// The binding form: a binding list and at least one body expression. Every
/// binding expression is evaluated against the outer context; one child
/// context is built, collisions are rejected; cost is charged once,
/// proportional to the binding count, before any body evaluation; the body
/// expressions run in order in the child context and the last value is
/// returned.
pub fn special_let(expr: &SymbolicExpression, env: &mut Environment, context: &LocalContext) -> (r:
    Result<Value, VmError>)
    requires
        expr.expr matches SymbolicExpressionType::List(cs) && cs@.len() >= 1,
    ensures
        ({
            let (sr, senv) = spec_special_let(*expr, old(env)@, context@);
            res_view(r) == sr && final(env)@ == senv
        }),
    decreases *expr, 1int, 0int,
{
    match &expr.expr {
        SymbolicExpressionType::List(cs) => {
            let n = cs.len() - 1;
            if let Err(e) = check_arguments_at_least(2, n) {
                return Err(VmError::Check(e));
            }
            match &cs[1].expr {
                SymbolicExpressionType::List(_) => {},
                _ => {
                    return Err(VmError::Check(CheckErrors::BadLetSyntax));
                },
            }
            let binding_results = match parse_eval_bindings(&cs[1], env, context) {
                Err(e) => {
                    return Err(e);
                },
                Ok(pairs) => pairs,
            };
            if let Err(e) = env.runtime_cost(CostFunction::Let, binding_results.len()) {
                return Err(e);
            }
            let mut inner_context = match context.extend() {
                Err(e) => {
                    return Err(VmError::Runtime(e));
                },
                Ok(c) => c,
            };
            if let Err(e) = insert_all(&binding_results, 0, env, &mut inner_context) {
                return Err(e);
            }
            eval_body(expr, 2, env, &inner_context)
        },
        _ => Err(VmError::Check(CheckErrors::NonFunctionApplication)),
    }
}

/// The identity switch: one raw argument, evaluated in a nested environment
/// whose acting principal is the contract's own identity; the substitution
/// is restored on every exit path, normal return, error or short-return.
pub fn special_as_contract(
    expr: &SymbolicExpression,
    env: &mut Environment,
    context: &LocalContext,
) -> (r: Result<Value, VmError>)
    requires
        expr.expr matches SymbolicExpressionType::List(cs) && cs@.len() >= 1,
    ensures
        ({
            let (sr, senv) = spec_special_as_contract(*expr, old(env)@, context@);
            res_view(r) == sr && final(env)@ == senv
        }),
        final(env)@.sender == old(env)@.sender,
    decreases *expr, 1int, 0int,
{
    match &expr.expr {
        SymbolicExpressionType::List(cs) => {
            let n = cs.len() - 1;
            if let Err(e) = check_argument_count(1, n) {
                return Err(VmError::Check(e));
            }
            if let Err(e) = env.runtime_cost(CostFunction::AsContract, 0) {
                return Err(e);
            }
            let saved: Option<PrincipalData> = match &env.sender {
                Option::None => Option::None,
                Option::Some(p) => Option::Some(clone_principal(p)),
            };
            let contract_principal = PrincipalData::Contract(
                QualifiedContractIdentifier {
                    issuer: StandardPrincipalData {
                        version: env.contract_context.contract_identifier.issuer.version,
                        bytes: crate::types::copy_bytes(
                            &env.contract_context.contract_identifier.issuer.bytes,
                        ),
                    },
                    name: env.contract_context.contract_identifier.name.clone_name(),
                },
            );
            env.sender = Option::Some(contract_principal);
            let result = eval(&cs[1], env, context);
            env.sender = saved;
            result
        },
        _ => Err(VmError::Check(CheckErrors::NonFunctionApplication)),
    }
}

} // verus!
