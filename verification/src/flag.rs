//! Flags as a program holds them: a key, a parser, and perhaps a default.
//!
//! Resolving a flag does not read the environment itself. The caller looks
//! the variable named by the flag's key up, once, and hands over what it
//! found; the flag turns that into its value.

use crate::error::{ResolveError, ResolveErrorView};
use vstd::prelude::*;

verus! {

/// What looking a variable up in the environment came to.
#[derive(Clone, Copy, Debug, PartialEq, Eq)]
pub enum EnvLookup<'a> {
    /// The variable is not set.
    NotPresent,
    /// The variable is set to this text.
    Text(&'a str),
    /// The variable is set, but what it holds is not text.
    NotUnicode,
}

/// A flag without a default: it may be absent.
///
/// `parser` takes the key and the text of the variable, and gives the value
/// of the flag or says why the text is none.
pub struct EnvFlag<P> {
    pub key: &'static str,
    pub parser: P,
}

/// A flag with a default, which stands in when the variable is not set.
pub struct EnvFlagWithDefault<T, P> {
    pub env: EnvFlag<P>,
    pub default: T,
}

impl<T, P: Fn(&str, &str) -> Result<T, ResolveError>> EnvFlag<P> {
    /// Is `r` what this flag resolves to when the lookup of its variable came
    /// to `found`?
    ///
    /// A variable that is not set gives no value and no error. One that holds
    /// no text gives an error that names the key. For one that holds text,
    /// `r` is what the parser, given the key and that text, answers: its
    /// value as it is, or its error as it is.
    pub open spec fn resolves(&self, found: EnvLookup<'_>, r: Result<Option<T>, ResolveError>) -> bool {
        match found {
            EnvLookup::NotPresent => r == Ok::<Option<T>, ResolveError>(None),
            EnvLookup::NotUnicode => r matches Err(e) && e@ == (ResolveErrorView::NonUnicodeValue {
                key: self.key@,
            }),
            EnvLookup::Text(text) => match r {
                Ok(Some(v)) => call_ensures(self.parser, (self.key, text), Ok::<T, ResolveError>(v)),
                Ok(None) => false,
                Err(e) => call_ensures(self.parser, (self.key, text), Err::<T, ResolveError>(e)),
            },
        }
    }

    /// The value of the flag, given what the lookup of the variable named
    /// `self.key` came to.
    pub fn fetch(&self, found: EnvLookup<'_>) -> (r: Result<Option<T>, ResolveError>)
        requires
            found matches EnvLookup::Text(text) ==> call_requires(self.parser, (self.key, text)),
        ensures
            self.resolves(found, r),
    {
        match found {
            EnvLookup::NotPresent => Ok(None),
            EnvLookup::Text(text) => match (self.parser)(self.key, text) {
                Ok(v) => Ok(Some(v)),
                Err(e) => Err(e),
            },
            EnvLookup::NotUnicode => Err(
                ResolveError::NonUnicodeValue { key: self.key.to_owned() },
            ),
        }
    }
}

impl<T: Clone, P: Fn(&str, &str) -> Result<T, ResolveError>> EnvFlagWithDefault<T, P> {
    /// Is `r` what this flag resolves to when the lookup of its variable came
    /// to `found`?
    ///
    /// A variable that is not set gives a clone of the default. One that holds
    /// no text gives an error that names the key. For one that holds text,
    /// `r` is what the parser, given the key and that text, answers.
    pub open spec fn resolves(&self, found: EnvLookup<'_>, r: Result<T, ResolveError>) -> bool {
        match found {
            EnvLookup::NotPresent => r matches Ok(v) && cloned(self.default, v),
            EnvLookup::NotUnicode => r matches Err(e) && e@ == (ResolveErrorView::NonUnicodeValue {
                key: self.env.key@,
            }),
            EnvLookup::Text(text) => call_ensures(self.env.parser, (self.env.key, text), r),
        }
    }

    /// The value of the flag, given what the lookup of the variable named
    /// `self.env.key` came to.
    pub fn fetch(&self, found: EnvLookup<'_>) -> (r: Result<T, ResolveError>)
        requires
            found matches EnvLookup::Text(text) ==> call_requires(
                self.env.parser,
                (self.env.key, text),
            ),
        ensures
            self.resolves(found, r),
    {
        match self.env.fetch(found) {
            Ok(Some(v)) => Ok(v),
            Ok(None) => Ok(self.default.clone()),
            Err(e) => Err(e),
        }
    }
}

} // verus!
