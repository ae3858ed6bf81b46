//! The four disjoint outcomes of an evaluation step: success, check error,
//! runtime error, and short-return.
//!
//! A check error says the program itself is invalid; a runtime error says the
//! environment could not continue; a short-return is an intentional, typed
//! early exit consumed at the nearest function or call boundary.

use vstd::prelude::*;

verus! {

use crate::types::{Value, ValueView, TypeSignature, value_view};

/// Errors that mean the evaluated program is invalid.
#[derive(Debug, PartialEq, Eq)]
pub enum CheckErrors {
    BadSyntaxBinding,
    BadLetSyntax,
    RequiresAtLeastArguments(usize, usize),
    IncorrectArgumentCount(usize, usize),
    TypeValueError(TypeSignature, Value),
    UnionTypeValueError(Vec<TypeSignature>, Value),
    UnionTypeError(TypeSignature, TypeSignature),
    NameAlreadyUsed(String),
    NonFunctionApplication,
    BadFunctionName,
    UndefinedVariable(String),
    UndefinedFunction(String),
    BadSymbolicRepresentation,
    ValueTooLarge,
    /// The name is reserved and resolves in the registry, but producing its
    /// value or running its handler needs an external collaborator (type
    /// arithmetic and comparisons, iteration, the database, block state,
    /// assets) that lies outside this evaluation core.
    ExternalCollaboratorRequired(String),
}

/// Mathematical model of a check error.
pub enum CheckErrorView {
    BadSyntaxBinding,
    BadLetSyntax,
    RequiresAtLeastArguments(usize, usize),
    IncorrectArgumentCount(usize, usize),
    TypeValueError(TypeSignature, ValueView),
    UnionTypeValueError(Seq<TypeSignature>, ValueView),
    UnionTypeError(TypeSignature, TypeSignature),
    NameAlreadyUsed(Seq<char>),
    NonFunctionApplication,
    BadFunctionName,
    UndefinedVariable(Seq<char>),
    UndefinedFunction(Seq<char>),
    BadSymbolicRepresentation,
    ValueTooLarge,
    ExternalCollaboratorRequired(Seq<char>),
}

impl View for CheckErrors {
    type V = CheckErrorView;

    open spec fn view(&self) -> CheckErrorView {
        match self {
            CheckErrors::BadSyntaxBinding => CheckErrorView::BadSyntaxBinding,
            CheckErrors::BadLetSyntax => CheckErrorView::BadLetSyntax,
            CheckErrors::RequiresAtLeastArguments(e, f) => CheckErrorView::RequiresAtLeastArguments(
                *e,
                *f,
            ),
            CheckErrors::IncorrectArgumentCount(e, f) => CheckErrorView::IncorrectArgumentCount(
                *e,
                *f,
            ),
            CheckErrors::TypeValueError(t, v) => CheckErrorView::TypeValueError(
                *t,
                value_view(*v),
            ),
            CheckErrors::UnionTypeValueError(ts, v) => CheckErrorView::UnionTypeValueError(
                ts@,
                value_view(*v),
            ),
            CheckErrors::UnionTypeError(a, b) => CheckErrorView::UnionTypeError(*a, *b),
            CheckErrors::NameAlreadyUsed(n) => CheckErrorView::NameAlreadyUsed(n@),
            CheckErrors::NonFunctionApplication => CheckErrorView::NonFunctionApplication,
            CheckErrors::BadFunctionName => CheckErrorView::BadFunctionName,
            CheckErrors::UndefinedVariable(n) => CheckErrorView::UndefinedVariable(n@),
            CheckErrors::UndefinedFunction(n) => CheckErrorView::UndefinedFunction(n@),
            CheckErrors::BadSymbolicRepresentation => CheckErrorView::BadSymbolicRepresentation,
            CheckErrors::ValueTooLarge => CheckErrorView::ValueTooLarge,
            CheckErrors::ExternalCollaboratorRequired(n) => CheckErrorView::ExternalCollaboratorRequired(
                n@,
            ),
        }
    }
}

/// Errors that mean the environment could not continue.
#[derive(Debug, PartialEq, Eq)]
pub enum RuntimeErrorType {
    BadNameValue(String, String),
    CostBalanceExceeded,
    MaxContextDepthReached,
    NoSenderInContext,
}

/// Mathematical model of a runtime error.
pub enum RuntimeErrorView {
    BadNameValue(Seq<char>, Seq<char>),
    CostBalanceExceeded,
    MaxContextDepthReached,
    NoSenderInContext,
}

impl View for RuntimeErrorType {
    type V = RuntimeErrorView;

    open spec fn view(&self) -> RuntimeErrorView {
        match self {
            RuntimeErrorType::BadNameValue(l, v) => RuntimeErrorView::BadNameValue(l@, v@),
            RuntimeErrorType::CostBalanceExceeded => RuntimeErrorView::CostBalanceExceeded,
            RuntimeErrorType::MaxContextDepthReached => RuntimeErrorView::MaxContextDepthReached,
            RuntimeErrorType::NoSenderInContext => RuntimeErrorView::NoSenderInContext,
        }
    }
}

/// A typed, payload-carrying early exit, distinct from an error.
#[derive(Debug, PartialEq, Eq)]
pub enum ShortReturnType {
    AssertionFailed(Value),
}

/// Mathematical model of a short-return.
pub enum ShortReturnView {
    AssertionFailed(ValueView),
}

impl View for ShortReturnType {
    type V = ShortReturnView;

    open spec fn view(&self) -> ShortReturnView {
        match self {
            ShortReturnType::AssertionFailed(v) => ShortReturnView::AssertionFailed(value_view(*v)),
        }
    }
}

/// Any non-success outcome of one evaluation step.
#[derive(Debug, PartialEq, Eq)]
pub enum VmError {
    Check(CheckErrors),
    Runtime(RuntimeErrorType),
    ShortReturn(ShortReturnType),
}

/// Mathematical model of a non-success outcome.
pub enum ErrorView {
    Check(CheckErrorView),
    Runtime(RuntimeErrorView),
    ShortReturn(ShortReturnView),
}

impl View for VmError {
    type V = ErrorView;

    open spec fn view(&self) -> ErrorView {
        match self {
            VmError::Check(e) => ErrorView::Check(e@),
            VmError::Runtime(e) => ErrorView::Runtime(e@),
            VmError::ShortReturn(e) => ErrorView::ShortReturn(e@),
        }
    }
}

/// Rejects a call form whose argument count is not exactly the expected one.
pub fn check_argument_count(expected: usize, found: usize) -> (r: Result<(), CheckErrors>)
    ensures
        match r {
            Ok(()) => found == expected,
            Err(e) => found != expected && e@ == CheckErrorView::IncorrectArgumentCount(
                expected,
                found,
            ),
        },
{
    if found == expected {
        Ok(())
    } else {
        Err(CheckErrors::IncorrectArgumentCount(expected, found))
    }
}

/// Rejects a call form with fewer arguments than the expected minimum.
pub fn check_arguments_at_least(expected: usize, found: usize) -> (r: Result<(), CheckErrors>)
    ensures
        match r {
            Ok(()) => found >= expected,
            Err(e) => found < expected && e@ == CheckErrorView::RequiresAtLeastArguments(
                expected,
                found,
            ),
        },
{
    if found >= expected {
        Ok(())
    } else {
        Err(CheckErrors::RequiresAtLeastArguments(expected, found))
    }
}


/// Model of an evaluation outcome.
pub open spec fn res_view(r: Result<Value, VmError>) -> Result<ValueView, ErrorView> {
    match r {
        Ok(v) => Ok(value_view(v)),
        Err(e) => Err(e@),
    }
}

} // verus!
