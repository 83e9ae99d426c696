//! Descriptors of the builtin families, made by a call.
//!
//! Each helper takes the name of the variable and a description of the flag.
//! The description is for the reader of the declaration: the descriptor does
//! not hold it. The helpers with a third argument take the default as well,
//! and make a descriptor that always resolves to a value.

use crate::error::ResolveError;
use crate::flag::{EnvFlag, EnvFlagWithDefault};
use crate::parsers::{bool_parser, i64_parser, str_parser};
use vstd::prelude::*;

verus! {

/// Does `parser` take every key and text, and answer only what `builtin`
/// may answer?
pub open spec fn parses_as<
    T,
    P: Fn(&str, &str) -> Result<T, ResolveError>,
    Q: Fn(&str, &str) -> Result<T, ResolveError>,
>(parser: P, builtin: Q) -> bool {
    &&& forall|key: &str, text: &str| call_requires(parser, (key, text))
    &&& forall|key: &str, text: &str, answer: Result<T, ResolveError>|
        call_ensures(parser, (key, text), answer) ==> call_ensures(builtin, (key, text), answer)
}

/// A `String` flag that may be absent.
pub fn str_flag(name: &'static str, _description: &str) -> (r: EnvFlag<
    impl Fn(&str, &str) -> Result<String, ResolveError>,
>)
    ensures
        r.key == name,
        parses_as(r.parser, str_parser),
{
    EnvFlag { key: name, parser: str_parser }
}

/// A `bool` flag that may be absent.
pub fn bool_flag(name: &'static str, _description: &str) -> (r: EnvFlag<
    impl Fn(&str, &str) -> Result<bool, ResolveError>,
>)
    ensures
        r.key == name,
        parses_as(r.parser, bool_parser),
{
    EnvFlag { key: name, parser: bool_parser }
}

/// An `i64` flag that may be absent.
pub fn i64_flag(name: &'static str, _description: &str) -> (r: EnvFlag<
    impl Fn(&str, &str) -> Result<i64, ResolveError>,
>)
    ensures
        r.key == name,
        parses_as(r.parser, i64_parser),
{
    EnvFlag { key: name, parser: i64_parser }
}

/// A `String` flag with a default.
pub fn str_flag_with_default(name: &'static str, _description: &str, default: &str) -> (r:
    EnvFlagWithDefault<String, impl Fn(&str, &str) -> Result<String, ResolveError>>)
    ensures
        r.env.key == name,
        parses_as(r.env.parser, str_parser),
        r.default@ == default@,
{
    EnvFlagWithDefault { env: EnvFlag { key: name, parser: str_parser }, default: default.to_owned() }
}

/// A `bool` flag with a default.
pub fn bool_flag_with_default(name: &'static str, _description: &str, default: bool) -> (r:
    EnvFlagWithDefault<bool, impl Fn(&str, &str) -> Result<bool, ResolveError>>)
    ensures
        r.env.key == name,
        parses_as(r.env.parser, bool_parser),
        r.default == default,
{
    EnvFlagWithDefault { env: EnvFlag { key: name, parser: bool_parser }, default }
}

/// An `i64` flag with a default.
pub fn i64_flag_with_default(name: &'static str, _description: &str, default: i64) -> (r:
    EnvFlagWithDefault<i64, impl Fn(&str, &str) -> Result<i64, ResolveError>>)
    ensures
        r.env.key == name,
        parses_as(r.env.parser, i64_parser),
        r.default == default,
{
    EnvFlagWithDefault { env: EnvFlag { key: name, parser: i64_parser }, default }
}

} // verus!
