//! Flags that a program reads from its environment.
//!
//! A flag is declared as a constant-like item under an annotation. The
//! declaration is compiled, by [`envflag`], to an item that holds an
//! [`EnvFlag`] or an [`EnvFlagWithDefault`]; resolving that descriptor with
//! `fetch` turns what the environment holds under the flag's key into the
//! flag's value.

pub mod attr;
pub mod context;
pub mod declare;
pub mod error;
pub mod flag;
pub mod laws;
pub mod parsers;
pub mod scan;
pub mod shape;
pub mod synth;
pub mod token;

pub use crate::attr::{AttrKey, FlagConfig};
pub use crate::context::FlagContext;
pub use crate::declare::{
    bool_flag, bool_flag_with_default, i64_flag, i64_flag_with_default, str_flag,
    str_flag_with_default,
};
pub use crate::error::{Cause, ConfigError, ResolveError};
pub use crate::flag::{EnvFlag, EnvFlagWithDefault, EnvLookup};
pub use crate::parsers::{bool_parser, conversion, float_fault, i64_parser, str_parser};
pub use crate::shape::TypeShape;
pub use crate::synth::{envflag, BaseKind};
pub use crate::token::{Delimiter, Spacing, Token};
