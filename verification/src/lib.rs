//! Evaluation core of a Lisp-like smart-contract language.
//!
//! The crate models the abstract syntax tree of the language, a registry of
//! reserved operators, and the evaluator that dispatches call forms, charges
//! a deterministic resource cost per dispatch, and propagates errors and
//! short-returns. The semantics lives in `eval` as a mathematical function
//! of the expression, the environment model and the context model; every
//! executable operation carries a contract pinning it to that function, so
//! the same program yields the same value and the same cost totals on every
//! machine that runs it.
//!
//! - `representations`: guarded identifiers, source spans, and the two
//!   expression-tree representations;
//! - `types`: dynamic values and type signatures;
//! - `errors`: the four disjoint outcomes of an evaluation step;
//! - `costs` and `contexts`: the cost table, the budget, the lexical
//!   context chain and the execution environment;
//! - `functions`: the operator registry, the natives and the special forms;
//! - `hashes`: the digest primitives behind the hash natives;
//! - `eval`: the semantics, the evaluator, and the laws proved of them;
//! - `run_loop`: the decision core of the node's tenure run loop.

pub mod contexts;
pub mod costs;
pub mod errors;
pub mod eval;
pub mod functions;
pub mod hashes;
pub mod representations;
pub mod run_loop;
pub mod text;
pub mod types;
