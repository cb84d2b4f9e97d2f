//! Grammar model for a restricted C subset: the abstract-syntax tree a parser
//! driver builds, together with the token-to-operator classification maps and
//! the operator precedence table the driver must consult while building it.

pub mod ast;
pub mod ops;
pub mod tokens;
