//! Verified building blocks of an openGauss / GaussDB SQL parser.
use vstd::prelude::*;

pub mod ast;
pub mod error;
pub mod function_registry;
pub mod function_table;
pub mod function_validator;
pub mod hint_validator;
pub mod parser;
pub mod text;
pub mod token;

verus! {
} // verus!
