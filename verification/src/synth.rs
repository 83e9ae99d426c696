//! The code that a flag declaration is compiled to.
//!
//! An optional flag `NAME: Option<T>` becomes
//!
//! ```text
//! <preamble> NAME: ns::EnvFlag<T> = ns::EnvFlag::<T> { key: K, parser: P, };
//! ```
//!
//! and a flag `NAME: T` with a default becomes
//!
//! ```text
//! <preamble> NAME: ns::EnvFlagWithDefault<T, D> =
//!     ns::EnvFlagWithDefault::<T, D> { env: ns::EnvFlag::<T> { key: K, parser: P, }, default: V, };
//! ```
//!
//! where `ns` is the namespace, `K` the name of the variable, `P` the parser,
//! `D` the type the default is stored as and `V` the default value.
//!
//! A default belongs to the second form and to no other: an optional flag
//! with a default is at fault, and so is any other flag without one.
//!
//! The generated item is written for a program, which holds its flags in
//! statics: it names `EnvFlag` by the type of the flag's value and hands it
//! the parser as a plain function, and it names the type `D` that the default
//! is stored as. The crate that the program imports under `ns` lays its
//! items out so; [`crate::flag::EnvFlag`] is generic in the parser instead,
//! and is what those items resolve through.

use crate::context::{declared, FlagContext, FlagContextView};
use crate::error::ConfigError;
use crate::scan::queue;
use crate::shape::{TypeShape, TypeShapeView};
use crate::token::{emit, emit_all, lemma_group_view, Delimiter, Spacing, Token, TokenView};
use vstd::prelude::*;

verus! {

/// The families of base types that have a builtin parser, and the rest.
#[derive(Clone, Copy, Debug, PartialEq, Eq, Structural)]
pub enum BaseKind {
    /// `String`
    Text,
    /// `i64`
    Integer,
    /// `f64`
    Float,
    /// `bool`
    Boolean,
    /// Any other type.
    Other,
}

/// `::`
pub open spec fn path_sep() -> Seq<TokenView> {
    seq![TokenView::Punct(':', Spacing::Joint), TokenView::Punct(':', Spacing::Alone)]
}

/// `&'static`
pub open spec fn static_ref() -> Seq<TokenView> {
    seq![
        TokenView::Punct('&', Spacing::Alone),
        TokenView::Punct('\'', Spacing::Joint),
        TokenView::Ident("static"@),
    ]
}

impl TypeShapeView {
    /// The family of the base type, told by the identifier it ends in.
    pub open spec fn kind(self) -> BaseKind {
        if self.base_type.len() == 0 {
            BaseKind::Other
        } else if self.base_type.last().is_ident("String"@) {
            BaseKind::Text
        } else if self.base_type.last().is_ident("i64"@) {
            BaseKind::Integer
        } else if self.base_type.last().is_ident("f64"@) {
            BaseKind::Float
        } else if self.base_type.last().is_ident("bool"@) {
            BaseKind::Boolean
        } else {
            BaseKind::Other
        }
    }
}

impl BaseKind {
    /// The name of the builtin parser of this family.
    pub open spec fn builtin_parser(self) -> Option<Seq<char>> {
        match self {
            BaseKind::Text => Some("str_parser"@),
            BaseKind::Integer => Some("i64_parser"@),
            BaseKind::Float => Some("f64_parser"@),
            BaseKind::Boolean => Some("bool_parser"@),
            BaseKind::Other => None,
        }
    }
}

impl FlagContextView {
    /// The path under which the generated code finds this library: the one
    /// the annotation gives, else `rs_envflag`.
    pub open spec fn crate_name(self) -> Seq<TokenView> {
        match self.config.namespace {
            Some(path) => path,
            None => seq![TokenView::Ident("rs_envflag"@)],
        }
    }

    /// The name of the variable, as a literal: the one the annotation gives,
    /// else the declared name.
    pub open spec fn env_name(self) -> TokenView {
        match self.config.env_name {
            Some(literal) => literal,
            None => TokenView::Quoted(self.name),
        }
    }

    /// The parser: the one the annotation gives, else the builtin parser of
    /// the base type's family, found under the namespace.
    pub open spec fn parser(self) -> Result<Seq<TokenView>, ConfigError> {
        match self.config.parser {
            Some(path) => Ok(path),
            None => match self.shape.kind().builtin_parser() {
                Some(name) => Ok(self.crate_name() + path_sep() + seq![TokenView::Ident(name)]),
                None => Err(ConfigError::UnknownBaseType),
            },
        }
    }

    /// `, D`, where `D` is the type that the default is stored as: text for
    /// `String`, the base type itself for a number or a truth value, and a
    /// reference to the base type otherwise.
    pub open spec fn default_type_param(self) -> Seq<TokenView> {
        seq![TokenView::Punct(',', Spacing::Alone)] + match self.shape.kind() {
            BaseKind::Text => static_ref() + seq![TokenView::Ident("str"@)],
            BaseKind::Integer | BaseKind::Float | BaseKind::Boolean => seq![
                self.shape.base_type.last(),
            ],
            BaseKind::Other => static_ref() + self.shape.base_type,
        }
    }

    /// The default value as it is written into the generated code: borrowed
    /// for `String`, else as the annotation gives it. An annotation that
    /// gives none is at fault.
    pub open spec fn default_value(self) -> Result<Seq<TokenView>, ConfigError> {
        match self.config.default {
            None => Err(ConfigError::DefaultMissing),
            Some(given) => Ok(
                match self.shape.kind() {
                    BaseKind::Text => seq![TokenView::Punct('&', Spacing::Alone)] + given,
                    _ => given,
                },
            ),
        }
    }

    /// `ns::EnvFlag`
    pub open spec fn wo_default_base(self) -> Seq<TokenView> {
        self.crate_name() + path_sep() + seq![TokenView::Ident("EnvFlag"@)]
    }

    /// `ns::EnvFlagWithDefault`
    pub open spec fn w_default_base(self) -> Seq<TokenView> {
        self.crate_name() + path_sep() + seq![TokenView::Ident("EnvFlagWithDefault"@)]
    }

    /// `<T>`
    pub open spec fn wo_default_type_params(self) -> Seq<TokenView> {
        seq![TokenView::Punct('<', Spacing::Alone)] + self.shape.base_type + seq![
            TokenView::Punct('>', Spacing::Alone),
        ]
    }

    /// `<T, D>`
    pub open spec fn w_default_type_params(self) -> Seq<TokenView> {
        seq![TokenView::Punct('<', Spacing::Alone)] + self.shape.base_type
            + self.default_type_param() + seq![TokenView::Punct('>', Spacing::Alone)]
    }

    /// The type of the generated item.
    pub open spec fn wrapped_type(self) -> Seq<TokenView> {
        if self.shape.has_option {
            self.wo_default_base() + self.wo_default_type_params()
        } else {
            self.w_default_base() + self.w_default_type_params()
        }
    }

    /// `{ key: K, parser: P, }`
    pub open spec fn wo_default_fields(self) -> Result<TokenView, ConfigError> {
        match self.parser() {
            Err(e) => Err(e),
            Ok(parser) => Ok(
                TokenView::Group(
                    Delimiter::Brace,
                    seq![
                        TokenView::Ident("key"@),
                        TokenView::Punct(':', Spacing::Alone),
                        self.env_name(),
                        TokenView::Punct(',', Spacing::Alone),
                        TokenView::Ident("parser"@),
                        TokenView::Punct(':', Spacing::Alone),
                    ] + parser + seq![TokenView::Punct(',', Spacing::Alone)],
                ),
            ),
        }
    }

    /// `ns::EnvFlag::<T> { key: K, parser: P, }`
    pub open spec fn init_wo_default(self) -> Result<Seq<TokenView>, ConfigError> {
        match self.wo_default_fields() {
            Err(e) => Err(e),
            Ok(fields) => Ok(
                self.wo_default_base() + path_sep() + self.wo_default_type_params() + seq![fields],
            ),
        }
    }

    /// `{ env: ns::EnvFlag::<T> { key: K, parser: P, }, default: V, }`
    ///
    /// A missing default is found before a base type without a parser.
    pub open spec fn init_w_default(self) -> Result<TokenView, ConfigError> {
        match self.default_value() {
            Err(e) => Err(e),
            Ok(default) => match self.init_wo_default() {
                Err(e) => Err(e),
                Ok(env) => Ok(
                    TokenView::Group(
                        Delimiter::Brace,
                        seq![TokenView::Ident("env"@), TokenView::Punct(':', Spacing::Alone)] + env
                            + seq![
                            TokenView::Punct(',', Spacing::Alone),
                            TokenView::Ident("default"@),
                            TokenView::Punct(':', Spacing::Alone),
                        ] + default + seq![TokenView::Punct(',', Spacing::Alone)],
                    ),
                ),
            },
        }
    }

    /// The value of the generated item.
    ///
    /// An optional flag must have no default, and any other flag must have
    /// one. Either fault is found before a base type without a parser.
    pub open spec fn init_value(self) -> Result<Seq<TokenView>, ConfigError> {
        if self.shape.has_option {
            if self.config.default is Some {
                Err(ConfigError::DefaultForbidden)
            } else {
                self.init_wo_default()
            }
        } else {
            match self.init_w_default() {
                Err(e) => Err(e),
                Ok(fields) => Ok(
                    self.w_default_base() + path_sep() + self.w_default_type_params() + seq![
                        fields,
                    ],
                ),
            }
        }
    }

    /// The generated item: `<preamble> NAME: <type> = <value>;`
    pub open spec fn expansion(self) -> Result<Seq<TokenView>, ConfigError> {
        match self.init_value() {
            Err(e) => Err(e),
            Ok(value) => Ok(
                self.preamble + seq![
                    TokenView::Ident(self.name),
                    TokenView::Punct(':', Spacing::Alone),
                ] + self.wrapped_type() + seq![TokenView::Punct('=', Spacing::Alone)] + value
                    + seq![TokenView::Punct(';', Spacing::Alone)],
            ),
        }
    }
}

/// Appends `::` to `out`.
fn emit_path_sep(out: &mut Vec<Token>)
    ensures
        final(out).deep_view() == old(out).deep_view() + path_sep(),
{
    emit(out, Token::Punct(':', Spacing::Joint));
    emit(out, Token::Punct(':', Spacing::Alone));
    assert(out.deep_view() =~= old(out).deep_view() + path_sep());
}

/// Appends `&'static` to `out`.
fn emit_static_ref(out: &mut Vec<Token>)
    ensures
        final(out).deep_view() == old(out).deep_view() + static_ref(),
{
    emit(out, Token::Punct('&', Spacing::Alone));
    emit(out, Token::Punct('\'', Spacing::Joint));
    emit(out, Token::ident("static"));
    assert(out.deep_view() =~= old(out).deep_view() + static_ref());
}

impl TypeShape {
    /// The family of the base type.
    pub fn kind(&self) -> (r: BaseKind)
        ensures
            r == self@.kind(),
    {
        let n = self.base_type.len();
        if n == 0 {
            return BaseKind::Other;
        }
        let last = &self.base_type[n - 1];
        assert(last@ == self@.base_type.last());
        if last.is_ident("String") {
            BaseKind::Text
        } else if last.is_ident("i64") {
            BaseKind::Integer
        } else if last.is_ident("f64") {
            BaseKind::Float
        } else if last.is_ident("bool") {
            BaseKind::Boolean
        } else {
            BaseKind::Other
        }
    }
}

impl FlagContext {
    /// Appends the namespace to `out`.
    pub fn crate_name(&self, out: &mut Vec<Token>)
        ensures
            final(out).deep_view() == old(out).deep_view() + self@.crate_name(),
    {
        match &self.config.namespace {
            Some(path) => {
                emit_all(out, path);
            },
            None => {
                emit(out, Token::ident("rs_envflag"));
                assert(out.deep_view() =~= old(out).deep_view() + self@.crate_name());
            },
        }
    }

    /// Appends the literal that names the variable to `out`.
    pub fn env_name(&self, out: &mut Vec<Token>)
        ensures
            final(out).deep_view() == old(out).deep_view().push(self@.env_name()),
    {
        match &self.config.env_name {
            Some(literal) => {
                emit(out, literal.duplicate());
            },
            None => {
                emit(out, Token::quoted(self.name.as_str()));
            },
        }
    }

    /// Appends the parser to `out`. Fails, with `out` as it was, when the
    /// annotation gives no parser and the base type has no builtin one.
    pub fn parser(&self, out: &mut Vec<Token>) -> (r: Result<(), ConfigError>)
        ensures
            match r {
                Ok(_) => self@.parser() matches Ok(path) && final(out).deep_view()
                    == old(out).deep_view() + path,
                Err(e) => self@.parser() == Err::<Seq<TokenView>, ConfigError>(e)
                    && final(out).deep_view() == old(out).deep_view(),
            },
    {
        match &self.config.parser {
            Some(path) => {
                emit_all(out, path);
            },
            None => {
                let builtin_parser = match self.shape.kind() {
                    BaseKind::Text => "str_parser",
                    BaseKind::Integer => "i64_parser",
                    BaseKind::Float => "f64_parser",
                    BaseKind::Boolean => "bool_parser",
                    BaseKind::Other => {
                        return Err(ConfigError::UnknownBaseType);
                    },
                };
                self.crate_name(out);
                emit_path_sep(out);
                emit(out, Token::ident(builtin_parser));
                assert(out.deep_view() =~= old(out).deep_view() + (self@.crate_name() + path_sep()
                    + seq![TokenView::Ident(builtin_parser@)]));
            },
        }
        Ok(())
    }

    /// Appends `, D` to `out`, where `D` is the type the default is stored as.
    pub fn default_type_param(&self, out: &mut Vec<Token>)
        ensures
            final(out).deep_view() == old(out).deep_view() + self@.default_type_param(),
    {
        emit(out, Token::Punct(',', Spacing::Alone));
        match self.shape.kind() {
            BaseKind::Text => {
                emit_static_ref(out);
                emit(out, Token::ident("str"));
            },
            BaseKind::Integer | BaseKind::Float | BaseKind::Boolean => {
                let n = self.shape.base_type.len();
                emit(out, self.shape.base_type[n - 1].duplicate());
            },
            BaseKind::Other => {
                emit_static_ref(out);
                emit_all(out, &self.shape.base_type);
            },
        }
        assert(out.deep_view() =~= old(out).deep_view() + self@.default_type_param());
    }

    /// Appends the default value to `out`. Fails, with `out` as it was, when
    /// the annotation gives no default.
    pub fn default_value(&self, out: &mut Vec<Token>) -> (r: Result<(), ConfigError>)
        ensures
            match r {
                Ok(_) => self@.default_value() matches Ok(value) && final(out).deep_view()
                    == old(out).deep_view() + value,
                Err(e) => self@.default_value() == Err::<Seq<TokenView>, ConfigError>(e)
                    && final(out).deep_view() == old(out).deep_view(),
            },
    {
        match &self.config.default {
            None => Err(ConfigError::DefaultMissing),
            Some(value) => {
                match self.shape.kind() {
                    BaseKind::Text => {
                        emit(out, Token::Punct('&', Spacing::Alone));
                    },
                    _ => {},
                }
                emit_all(out, value);
                assert(out.deep_view() =~= old(out).deep_view() + self@.default_value()->Ok_0);
                Ok(())
            },
        }
    }

    /// Appends `ns::EnvFlag` to `out`.
    pub fn wo_default_base(&self, out: &mut Vec<Token>)
        ensures
            final(out).deep_view() == old(out).deep_view() + self@.wo_default_base(),
    {
        self.crate_name(out);
        emit_path_sep(out);
        emit(out, Token::ident("EnvFlag"));
        assert(out.deep_view() =~= old(out).deep_view() + self@.wo_default_base());
    }

    /// Appends `ns::EnvFlagWithDefault` to `out`.
    pub fn w_default_base(&self, out: &mut Vec<Token>)
        ensures
            final(out).deep_view() == old(out).deep_view() + self@.w_default_base(),
    {
        self.crate_name(out);
        emit_path_sep(out);
        emit(out, Token::ident("EnvFlagWithDefault"));
        assert(out.deep_view() =~= old(out).deep_view() + self@.w_default_base());
    }

    /// Appends `<T>` to `out`.
    pub fn wo_default_type_params(&self, out: &mut Vec<Token>)
        ensures
            final(out).deep_view() == old(out).deep_view() + self@.wo_default_type_params(),
    {
        emit(out, Token::Punct('<', Spacing::Alone));
        emit_all(out, &self.shape.base_type);
        emit(out, Token::Punct('>', Spacing::Alone));
        assert(out.deep_view() =~= old(out).deep_view() + self@.wo_default_type_params());
    }

    /// Appends `<T, D>` to `out`.
    pub fn w_default_type_params(&self, out: &mut Vec<Token>)
        ensures
            final(out).deep_view() == old(out).deep_view() + self@.w_default_type_params(),
    {
        emit(out, Token::Punct('<', Spacing::Alone));
        emit_all(out, &self.shape.base_type);
        self.default_type_param(out);
        emit(out, Token::Punct('>', Spacing::Alone));
        assert(out.deep_view() =~= old(out).deep_view() + self@.w_default_type_params());
    }

    /// Appends the type of the generated item to `out`.
    pub fn wrapped_type(&self, out: &mut Vec<Token>)
        ensures
            final(out).deep_view() == old(out).deep_view() + self@.wrapped_type(),
    {
        if self.shape.has_option {
            self.wo_default_base(out);
            self.wo_default_type_params(out);
        } else {
            self.w_default_base(out);
            self.w_default_type_params(out);
        }
        assert(out.deep_view() =~= old(out).deep_view() + self@.wrapped_type());
    }

    /// Appends `ns::EnvFlag::<T> { key: K, parser: P, }` to `out`.
    pub fn init_wo_default(&self, out: &mut Vec<Token>) -> (r: Result<(), ConfigError>)
        ensures
            match r {
                Ok(_) => self@.init_wo_default() matches Ok(value) && final(out).deep_view()
                    == old(out).deep_view() + value,
                Err(e) => self@.init_wo_default() == Err::<Seq<TokenView>, ConfigError>(e),
            },
    {
        self.wo_default_base(out);
        emit_path_sep(out);
        self.wo_default_type_params(out);
        let mut res: Vec<Token> = Vec::new();
        emit(&mut res, Token::ident("key"));
        emit(&mut res, Token::Punct(':', Spacing::Alone));
        self.env_name(&mut res);
        emit(&mut res, Token::Punct(',', Spacing::Alone));
        emit(&mut res, Token::ident("parser"));
        emit(&mut res, Token::Punct(':', Spacing::Alone));
        match self.parser(&mut res) {
            Err(e) => {
                return Err(e);
            },
            Ok(_) => {},
        }
        emit(&mut res, Token::Punct(',', Spacing::Alone));
        proof {
            lemma_group_view(Delimiter::Brace, res);
            assert(res.deep_view() =~= self@.wo_default_fields()->Ok_0->Group_1);
        }
        emit(out, Token::Group(Delimiter::Brace, res));
        assert(out.deep_view() =~= old(out).deep_view() + self@.init_wo_default()->Ok_0);
        Ok(())
    }

    /// The fields of the generated item of a flag with a default:
    /// `{ env: ns::EnvFlag::<T> { key: K, parser: P, }, default: V, }`.
    pub fn init_w_default(&self) -> (r: Result<Token, ConfigError>)
        ensures
            match r {
                Ok(fields) => self@.init_w_default() == Ok::<TokenView, ConfigError>(fields@),
                Err(e) => self@.init_w_default() == Err::<TokenView, ConfigError>(e),
            },
    {
        if self.config.default.is_none() {
            return Err(ConfigError::DefaultMissing);
        }
        let mut res: Vec<Token> = Vec::new();
        emit(&mut res, Token::ident("env"));
        emit(&mut res, Token::Punct(':', Spacing::Alone));
        match self.init_wo_default(&mut res) {
            Err(e) => {
                return Err(e);
            },
            Ok(_) => {},
        }
        emit(&mut res, Token::Punct(',', Spacing::Alone));
        emit(&mut res, Token::ident("default"));
        emit(&mut res, Token::Punct(':', Spacing::Alone));
        match self.default_value(&mut res) {
            Err(e) => {
                return Err(e);
            },
            Ok(_) => {},
        }
        emit(&mut res, Token::Punct(',', Spacing::Alone));
        proof {
            lemma_group_view(Delimiter::Brace, res);
            assert(res.deep_view() =~= self@.init_w_default()->Ok_0->Group_1);
        }
        Ok(Token::Group(Delimiter::Brace, res))
    }

    /// Appends the value of the generated item to `out`.
    pub fn init_value(&self, out: &mut Vec<Token>) -> (r: Result<(), ConfigError>)
        ensures
            match r {
                Ok(_) => self@.init_value() matches Ok(value) && final(out).deep_view()
                    == old(out).deep_view() + value,
                Err(e) => self@.init_value() == Err::<Seq<TokenView>, ConfigError>(e),
            },
    {
        if self.shape.has_option {
            if self.config.default.is_some() {
                return Err(ConfigError::DefaultForbidden);
            }
            self.init_wo_default(out)
        } else {
            self.w_default_base(out);
            emit_path_sep(out);
            self.w_default_type_params(out);
            match self.init_w_default() {
                Err(e) => {
                    return Err(e);
                },
                Ok(fields) => {
                    emit(out, fields);
                },
            }
            assert(out.deep_view() =~= old(out).deep_view() + self@.init_value()->Ok_0);
            Ok(())
        }
    }

    /// The item that this declaration is compiled to.
    ///
    /// Fails with `DefaultForbidden` when the flag is optional and has a
    /// default, and with `DefaultMissing` when it is not optional and has
    /// none. Otherwise it fails, with `UnknownBaseType`, exactly when the
    /// annotation gives no parser and the base type is none of `String`,
    /// `i64`, `f64` and `bool`.
    pub fn into_tokens(self) -> (r: Result<Vec<Token>, ConfigError>)
        ensures
            match r {
                Ok(tokens) => self@.expansion() == Ok::<Seq<TokenView>, ConfigError>(
                    tokens.deep_view(),
                ),
                Err(e) => self@.expansion() == Err::<Seq<TokenView>, ConfigError>(e),
            },
    {
        let mut res: Vec<Token> = Vec::new();
        emit_all(&mut res, &self.preamble);
        emit(&mut res, Token::ident(self.name.as_str()));
        emit(&mut res, Token::Punct(':', Spacing::Alone));
        self.wrapped_type(&mut res);
        emit(&mut res, Token::Punct('=', Spacing::Alone));
        match self.init_value(&mut res) {
            Err(e) => {
                return Err(e);
            },
            Ok(_) => {},
        }
        emit(&mut res, Token::Punct(';', Spacing::Alone));
        assert(res.deep_view() =~= self@.expansion()->Ok_0);
        Ok(res)
    }
}

/// The item that the declaration `item` under the annotation `attr` is
/// compiled to: what the two say, expanded.
pub open spec fn compiled(attr: Seq<TokenView>, item: Seq<TokenView>) -> Result<
    Seq<TokenView>,
    ConfigError,
> {
    match declared(attr, item) {
        Err(e) => Err(e),
        Ok(context) => context.expansion(),
    }
}

/// Compiles a flag declaration: `attr` is the option list of its annotation,
/// `item` the declaration itself, and the result the item that replaces it.
///
/// The annotation is read first, then the declaration, then the code is
/// generated; the first fault on that way is the error, and with an error
/// nothing is generated. So the faults come in this order: those of the
/// annotation, from left to right; `MissingType`, `MissingName`,
/// `MissingTerminator` and `OptionDelimiterMissing` of the declaration;
/// `DefaultForbidden` or `DefaultMissing`; and last `UnknownBaseType`.
pub fn envflag(attr: Vec<Token>, item: Vec<Token>) -> (r: Result<Vec<Token>, ConfigError>)
    ensures
        match r {
            Ok(tokens) => compiled(attr.deep_view(), item.deep_view()) == Ok::<
                Seq<TokenView>,
                ConfigError,
            >(tokens.deep_view()),
            Err(e) => compiled(attr.deep_view(), item.deep_view()) == Err::<
                Seq<TokenView>,
                ConfigError,
            >(e),
        },
{
    match FlagContext::new(queue(attr), queue(item)) {
        Err(e) => Err(e),
        Ok(flag) => flag.into_tokens(),
    }
}

} // verus!
