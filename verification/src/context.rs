//! A flag declaration, taken apart: what the annotation and the declaration
//! under it say, before any code is generated from them.

use crate::attr::{read_options, FlagConfig, FlagConfigView};
use crate::error::ConfigError;
use crate::scan::{collect_until, drain, first_punct, lemma_first_punct, take_back};
use crate::shape::{filter_out_option, shape_of, TypeShape, TypeShapeView};
use crate::token::{Token, TokenView};
use std::collections::VecDeque;
use vstd::prelude::*;

verus! {

/// A declaration `<preamble> <name> : <type> ;` with its annotation.
#[derive(Debug, PartialEq, Eq)]
pub struct FlagContext {
    /// What stands before the name: attributes, visibility, `static` or `const`.
    pub preamble: Vec<Token>,
    /// The declared name.
    pub name: String,
    /// The declared type.
    pub shape: TypeShape,
    /// What the annotation says.
    pub config: FlagConfig,
}

/// The mathematical value of a [`FlagContext`].
pub struct FlagContextView {
    pub preamble: Seq<TokenView>,
    pub name: Seq<char>,
    pub shape: TypeShapeView,
    pub config: FlagConfigView,
}

impl View for FlagContext {
    type V = FlagContextView;

    open spec fn view(&self) -> FlagContextView {
        FlagContextView {
            preamble: self.preamble.deep_view(),
            name: self.name@,
            shape: self.shape@,
            config: self.config@,
        }
    }
}

impl FlagContextView {
    /// Holds when the name is not empty and the name override, if there is
    /// one, is a string literal.
    pub open spec fn wf(self) -> bool {
        self.name.len() > 0 && self.config.wf()
    }
}

/// What the declaration `items` says, under the configuration `config`.
///
/// The name is the token before the first `:`, the preamble what stands
/// before the name, the type what stands between that `:` and the `;` that
/// ends the declaration.
pub open spec fn analyze(items: Seq<TokenView>, config: FlagConfigView) -> Result<
    FlagContextView,
    ConfigError,
> {
    let colon = first_punct(items, ':');
    if colon >= items.len() {
        Err(ConfigError::MissingType)
    } else if colon == 0 || !items[colon - 1].is_name() {
        Err(ConfigError::MissingName)
    } else {
        let rest = items.skip(colon + 1);
        if rest.len() == 0 || !rest.last().is_punct(';') {
            Err(ConfigError::MissingTerminator)
        } else {
            match shape_of(rest.drop_last()) {
                Err(e) => Err(e),
                Ok(shape) => Ok(
                    FlagContextView {
                        preamble: items.take(colon - 1),
                        name: items[colon - 1]->Ident_0,
                        shape,
                        config,
                    },
                ),
            }
        }
    }
}

/// What the annotation `attr` and the declaration `items` under it say. The
/// annotation is read first: a fault in it comes before any in the declaration.
pub open spec fn declared(attr: Seq<TokenView>, items: Seq<TokenView>) -> Result<
    FlagContextView,
    ConfigError,
> {
    match read_options(attr, FlagConfigView::empty()) {
        Err(e) => Err(e),
        Ok(config) => analyze(items, config),
    }
}

impl FlagContext {
    /// Takes an annotation and the declaration under it apart.
    ///
    /// The result is `Ok` exactly when the annotation is a well-formed option
    /// list, the declaration has a `:` with an identifier before it and ends
    /// in `;`, and an `Option` in its type has both its brackets. Otherwise
    /// the error is that of the first of these that fails, in this order.
    pub fn new(attr: VecDeque<Token>, items: VecDeque<Token>) -> (r: Result<
        FlagContext,
        ConfigError,
    >)
        ensures
            match r {
                Ok(context) => declared(attr.deep_view(), items.deep_view()) == Ok::<
                    FlagContextView,
                    ConfigError,
                >(context@),
                Err(e) => declared(attr.deep_view(), items.deep_view()) == Err::<
                    FlagContextView,
                    ConfigError,
                >(e),
            },
            r matches Ok(context) ==> context@.wf(),
    {
        let config = match FlagConfig::parse(attr) {
            Ok(config) => config,
            Err(e) => {
                return Err(e);
            },
        };
        let ghost all = items.deep_view();
        let ghost colon = first_punct(all, ':');
        proof {
            lemma_first_punct(all, ':');
        }
        let mut rest = items;
        let mut preamble: Vec<Token> = Vec::new();
        match collect_until(&mut preamble, &mut rest, ':') {
            None => {
                return Err(ConfigError::MissingType);
            },
            Some(_) => {},
        }
        assert(preamble.deep_view() =~= all.take(colon));
        let ghost before = preamble@;
        let last = preamble.pop();
        assert(last matches Some(t) ==> colon > 0 && t@ == all[colon - 1]) by {
            if colon > 0 {
                assert(before[colon - 1]@ == all.take(colon)[colon - 1]);
            }
        }
        let name = match last {
            Some(Token::Ident(name)) => {
                if name.as_str().is_empty() {
                    return Err(ConfigError::MissingName);
                }
                name
            },
            _ => {
                return Err(ConfigError::MissingName);
            },
        };
        assert(preamble.deep_view() =~= all.take(colon - 1));
        match take_back(&mut rest) {
            None => {
                return Err(ConfigError::MissingTerminator);
            },
            Some(t) => {
                if !t.is_punct(';') {
                    return Err(ConfigError::MissingTerminator);
                }
            },
        }
        let has_option = match filter_out_option(&mut rest) {
            Ok(has_option) => has_option,
            Err(e) => {
                return Err(e);
            },
        };
        let base_type = drain(rest);
        Ok(FlagContext { preamble, name, shape: TypeShape { has_option, base_type }, config })
    }
}

} // verus!
