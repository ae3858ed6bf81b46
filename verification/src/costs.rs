//! The deterministic cost table: every dispatch charges a cost computed from
//! the operator and the input size alone, so every node reaches the same
//! resource totals for the same program.

use vstd::prelude::*;

verus! {

/// The cost function attached to each operator the core dispatches.
#[derive(Debug, Clone, Copy, PartialEq, Eq, Structural)]
pub enum CostFunction {
    If,
    Asserts,
    Let,
    AsContract,
    Eq,
    Begin,
    Print,
    Hash160,
    Sha256,
    Sha512,
    Sha512T256,
    Keccak256,
    SomeCons,
    OkCons,
    ErrCons,
}

/// Fixed charge of a cost function.
pub open spec fn spec_cost_base(f: CostFunction) -> u64 {
    match f {
        CostFunction::If => 2,
        CostFunction::Asserts => 2,
        CostFunction::Let => 3,
        CostFunction::AsContract => 2,
        CostFunction::Eq => 1,
        CostFunction::Begin => 1,
        CostFunction::Print => 1,
        CostFunction::Hash160 => 5,
        CostFunction::Sha256 => 5,
        CostFunction::Sha512 => 6,
        CostFunction::Sha512T256 => 6,
        CostFunction::Keccak256 => 5,
        CostFunction::SomeCons => 1,
        CostFunction::OkCons => 1,
        CostFunction::ErrCons => 1,
    }
}

/// Per-unit charge of a cost function, multiplied by the input size.
pub open spec fn spec_cost_mult(f: CostFunction) -> u64 {
    match f {
        CostFunction::If => 0,
        CostFunction::Asserts => 0,
        CostFunction::Let => 1,
        CostFunction::AsContract => 0,
        CostFunction::Eq => 1,
        CostFunction::Begin => 1,
        CostFunction::Print => 0,
        CostFunction::Hash160 => 1,
        CostFunction::Sha256 => 1,
        CostFunction::Sha512 => 1,
        CostFunction::Sha512T256 => 1,
        CostFunction::Keccak256 => 1,
        CostFunction::SomeCons => 0,
        CostFunction::OkCons => 0,
        CostFunction::ErrCons => 0,
    }
}

/// Total charge of one dispatch: base plus per-unit times size, as an
/// unbounded integer.
pub open spec fn spec_cost(f: CostFunction, size: usize) -> int {
    spec_cost_base(f) + spec_cost_mult(f) * size
}

/// Fixed charge of a cost function.
pub fn cost_base(f: CostFunction) -> (r: u64)
    ensures
        r == spec_cost_base(f),
{
    match f {
        CostFunction::If => 2,
        CostFunction::Asserts => 2,
        CostFunction::Let => 3,
        CostFunction::AsContract => 2,
        CostFunction::Eq => 1,
        CostFunction::Begin => 1,
        CostFunction::Print => 1,
        CostFunction::Hash160 => 5,
        CostFunction::Sha256 => 5,
        CostFunction::Sha512 => 6,
        CostFunction::Sha512T256 => 6,
        CostFunction::Keccak256 => 5,
        CostFunction::SomeCons => 1,
        CostFunction::OkCons => 1,
        CostFunction::ErrCons => 1,
    }
}

/// Per-unit charge of a cost function.
pub fn cost_mult(f: CostFunction) -> (r: u64)
    ensures
        r == spec_cost_mult(f),
{
    match f {
        CostFunction::If => 0,
        CostFunction::Asserts => 0,
        CostFunction::Let => 1,
        CostFunction::AsContract => 0,
        CostFunction::Eq => 1,
        CostFunction::Begin => 1,
        CostFunction::Print => 0,
        CostFunction::Hash160 => 1,
        CostFunction::Sha256 => 1,
        CostFunction::Sha512 => 1,
        CostFunction::Sha512T256 => 1,
        CostFunction::Keccak256 => 1,
        CostFunction::SomeCons => 0,
        CostFunction::OkCons => 0,
        CostFunction::ErrCons => 0,
    }
}

} // verus!
