//! The annotation's option list, read into a [`FlagConfig`].
//!
//! An annotation is a list of `key = value` options separated by commas. The
//! value of an option is every token up to the next comma of the list itself;
//! commas inside a group belong to the value.

use crate::error::ConfigError;
use crate::scan::{after, collect_until, first_punct, lemma_first_punct, take_front};
use crate::token::{Token, TokenView};
use std::collections::VecDeque;
use vstd::prelude::*;

verus! {

/// The options that an annotation may set.
#[derive(Clone, Copy, Debug, PartialEq, Eq, Structural)]
pub enum AttrKey {
    /// `default`: the value of the flag when its variable is not set.
    Default,
    /// `crate`: the path under which the generated code finds this library.
    Crate,
    /// `env_name`: the name of the variable, in place of the declared name.
    EnvName,
    /// `parser`: the function that reads the variable's text.
    Parser,
}

/// What an annotation says. Every value is kept as the tokens it was written
/// with; none is evaluated.
#[derive(Debug, PartialEq, Eq)]
pub struct FlagConfig {
    pub default: Option<Vec<Token>>,
    pub namespace: Option<Vec<Token>>,
    pub env_name: Option<Token>,
    pub parser: Option<Vec<Token>>,
}

/// The mathematical value of a [`FlagConfig`].
pub struct FlagConfigView {
    pub default: Option<Seq<TokenView>>,
    pub namespace: Option<Seq<TokenView>>,
    pub env_name: Option<TokenView>,
    pub parser: Option<Seq<TokenView>>,
}

impl View for FlagConfig {
    type V = FlagConfigView;

    open spec fn view(&self) -> FlagConfigView {
        FlagConfigView {
            default: self.default.deep_view(),
            namespace: self.namespace.deep_view(),
            env_name: self.env_name.deep_view(),
            parser: self.parser.deep_view(),
        }
    }
}

impl TokenView {
    /// The option that this token names, if it names one.
    pub open spec fn attr_key(self) -> Option<AttrKey> {
        if self.is_ident("default"@) {
            Some(AttrKey::Default)
        } else if self.is_ident("crate"@) {
            Some(AttrKey::Crate)
        } else if self.is_ident("env_name"@) {
            Some(AttrKey::EnvName)
        } else if self.is_ident("parser"@) {
            Some(AttrKey::Parser)
        } else {
            None
        }
    }
}

impl FlagConfigView {
    /// The configuration of an empty annotation.
    pub open spec fn empty() -> FlagConfigView {
        FlagConfigView { default: None, namespace: None, env_name: None, parser: None }
    }

    /// This configuration after the option `key` was given `value`. An option
    /// given again replaces what it was given before. The value of `env_name`
    /// must be one string literal.
    pub open spec fn assign(self, key: AttrKey, value: Seq<TokenView>) -> Result<
        FlagConfigView,
        ConfigError,
    > {
        match key {
            AttrKey::Default => Ok(FlagConfigView { default: Some(value), ..self }),
            AttrKey::Crate => Ok(FlagConfigView { namespace: Some(value), ..self }),
            AttrKey::EnvName => if value.len() == 1 && value[0].is_string_literal() {
                Ok(FlagConfigView { env_name: Some(value[0]), ..self })
            } else {
                Err(ConfigError::InvalidEnvNameLiteral)
            },
            AttrKey::Parser => Ok(FlagConfigView { parser: Some(value), ..self }),
        }
    }

    /// Holds when the name override, if there is one, is a string literal.
    pub open spec fn wf(self) -> bool {
        self.env_name matches Some(literal) ==> literal.is_string_literal()
    }
}

/// What the options `ts` make of the configuration `start`, read from left
/// to right; the first option that is at fault gives the error.
pub open spec fn read_options(ts: Seq<TokenView>, start: FlagConfigView) -> Result<
    FlagConfigView,
    ConfigError,
>
    decreases ts.len(),
{
    if ts.len() == 0 {
        Ok(start)
    } else {
        match ts[0].attr_key() {
            None => Err(ConfigError::UnknownAttributeKey),
            Some(key) => if ts.len() < 2 || !ts[1].is_punct('=') {
                Err(ConfigError::AttributeMissingValue)
            } else {
                let body = ts.skip(2);
                let end = first_punct(body, ',');
                match start.assign(key, body.take(end)) {
                    Err(e) => Err(e),
                    Ok(next) => read_options(after(body, end), next),
                }
            },
        }
    }
}

impl Token {
    /// The option that this token names, if it names one.
    pub fn attr_key(&self) -> (r: Option<AttrKey>)
        ensures
            r == self@.attr_key(),
    {
        if self.is_ident("default") {
            Some(AttrKey::Default)
        } else if self.is_ident("crate") {
            Some(AttrKey::Crate)
        } else if self.is_ident("env_name") {
            Some(AttrKey::EnvName)
        } else if self.is_ident("parser") {
            Some(AttrKey::Parser)
        } else {
            None
        }
    }
}

impl FlagConfig {
    /// The configuration of an empty annotation.
    pub fn empty() -> (r: FlagConfig)
        ensures
            r@ == FlagConfigView::empty(),
    {
        FlagConfig { default: None, namespace: None, env_name: None, parser: None }
    }

    /// Gives the option `key` the value `value`.
    pub fn assign(self, key: AttrKey, value: Vec<Token>) -> (r: Result<FlagConfig, ConfigError>)
        ensures
            match r {
                Ok(next) => self@.assign(key, value.deep_view()) == Ok::<
                    FlagConfigView,
                    ConfigError,
                >(next@),
                Err(e) => self@.assign(key, value.deep_view()) == Err::<
                    FlagConfigView,
                    ConfigError,
                >(e),
            },
    {
        let mut next = self;
        let mut value = value;
        match key {
            AttrKey::Default => {
                next.default = Some(value);
            },
            AttrKey::Crate => {
                next.namespace = Some(value);
            },
            AttrKey::EnvName => {
                if value.len() != 1 {
                    return Err(ConfigError::InvalidEnvNameLiteral);
                }
                let ghost given = value.deep_view();
                match value.pop() {
                    Some(literal) => {
                        assert(literal@ == given[0]);
                        if !literal.is_string_literal() {
                            return Err(ConfigError::InvalidEnvNameLiteral);
                        }
                        next.env_name = Some(literal);
                    },
                    None => {
                        return Err(ConfigError::InvalidEnvNameLiteral);
                    },
                }
            },
            AttrKey::Parser => {
                next.parser = Some(value);
            },
        }
        Ok(next)
    }

    /// Reads the option list of an annotation.
    ///
    /// The options are read from left to right. Each is a key, `=`, and a
    /// value that runs to the next comma of the list or to its end. The
    /// result is `Ok` exactly when every option is one of the four keys, has
    /// its `=`, and, for `env_name`, one string literal as its value; the
    /// first option at fault decides the error. An option given twice keeps
    /// its last value.
    pub fn parse(attr: VecDeque<Token>) -> (r: Result<FlagConfig, ConfigError>)
        ensures
            match r {
                Ok(config) => read_options(attr.deep_view(), FlagConfigView::empty()) == Ok::<
                    FlagConfigView,
                    ConfigError,
                >(config@),
                Err(e) => read_options(attr.deep_view(), FlagConfigView::empty()) == Err::<
                    FlagConfigView,
                    ConfigError,
                >(e),
            },
            r matches Ok(config) ==> config@.wf(),
    {
        let ghost all = attr.deep_view();
        let mut input = attr;
        let mut config = FlagConfig::empty();
        loop
            invariant
                read_options(all, FlagConfigView::empty()) == read_options(
                    input.deep_view(),
                    config@,
                ),
                all == attr.deep_view(),
                config@.wf(),
            decreases input.deep_view().len(),
        {
            let ghost rest = input.deep_view();
            let key = match take_front(&mut input) {
                None => {
                    return Ok(config);
                },
                Some(t) => match t.attr_key() {
                    None => {
                        return Err(ConfigError::UnknownAttributeKey);
                    },
                    Some(key) => key,
                },
            };
            match take_front(&mut input) {
                None => {
                    return Err(ConfigError::AttributeMissingValue);
                },
                Some(t) => {
                    if !t.is_punct('=') {
                        return Err(ConfigError::AttributeMissingValue);
                    }
                },
            }
            assert(input.deep_view() =~= rest.skip(2));
            let mut value: Vec<Token> = Vec::new();
            let _ = collect_until(&mut value, &mut input, ',');
            assert(value.deep_view() =~= rest.skip(2).take(first_punct(rest.skip(2), ',')));
            proof {
                lemma_first_punct(rest.skip(2), ',');
            }
            match config.assign(key, value) {
                Err(e) => {
                    return Err(e);
                },
                Ok(next) => {
                    config = next;
                },
            }
        }
    }
}

} // verus!
