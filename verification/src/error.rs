//! What can go wrong: while a declaration is compiled, and while a flag is resolved.

use vstd::prelude::*;
use vstd::string::StringExecFns;

verus! {

/// Why a flag declaration could not be compiled. Each of these ends the
/// compilation of the declaration it was found in; nothing is emitted for it.
#[derive(Clone, Copy, Debug, PartialEq, Eq, Structural)]
pub enum ConfigError {
    /// The declaration has no `:` before its type.
    MissingType,
    /// The token before the `:` is not an identifier.
    MissingName,
    /// The declaration does not end in `;`.
    MissingTerminator,
    /// An option of the annotation is none of `default`, `crate`, `env_name`, `parser`.
    UnknownAttributeKey,
    /// An option of the annotation is not followed by `=`.
    AttributeMissingValue,
    /// The value of `env_name` is not exactly one string literal.
    InvalidEnvNameLiteral,
    /// The type names `Option` but lacks its `<` or its closing `>`.
    OptionDelimiterMissing,
    /// A default was given for a flag whose type is an `Option`.
    DefaultForbidden,
    /// No default was given for a flag whose type is not an `Option`.
    DefaultMissing,
    /// No parser was given and the base type has no builtin one.
    UnknownBaseType,
}

/// Why a text is not a value of the type it was read as.
#[derive(Clone, Copy, Debug, PartialEq, Eq, Structural)]
pub enum Cause {
    /// The text is empty.
    Empty,
    /// The text is not a value of the type.
    Invalid,
    /// The text holds a character that a number cannot have in that place.
    InvalidDigit,
    /// The number is too large for the type.
    PosOverflow,
    /// The number is too small for the type.
    NegOverflow,
    /// Another fault.
    Other,
}

/// Why a flag could not be resolved.
#[derive(Debug, PartialEq, Eq)]
pub enum ResolveError {
    /// The variable is set, but not to text.
    NonUnicodeValue { key: String },
    /// The variable is set to text that the parser does not accept.
    ConversionFailure { key: String, raw_text: String, cause: Cause },
}

/// The mathematical value of a [`ResolveError`].
pub enum ResolveErrorView {
    NonUnicodeValue { key: Seq<char> },
    ConversionFailure { key: Seq<char>, raw_text: Seq<char>, cause: Cause },
}

impl View for ResolveError {
    type V = ResolveErrorView;

    open spec fn view(&self) -> ResolveErrorView {
        match self {
            ResolveError::NonUnicodeValue { key } => ResolveErrorView::NonUnicodeValue { key: key@ },
            ResolveError::ConversionFailure {
                key,
                raw_text,
                cause,
            } => ResolveErrorView::ConversionFailure {
                key: key@,
                raw_text: raw_text@,
                cause: *cause,
            },
        }
    }
}

impl Clone for ResolveError {
    fn clone(&self) -> (r: Self)
        ensures
            r == *self,
    {
        match self {
            ResolveError::NonUnicodeValue { key } => ResolveError::NonUnicodeValue {
                key: key.clone(),
            },
            ResolveError::ConversionFailure {
                key,
                raw_text,
                cause,
            } => ResolveError::ConversionFailure {
                key: key.clone(),
                raw_text: raw_text.clone(),
                cause: *cause,
            },
        }
    }
}

impl ConfigError {
    /// The diagnostic for this error, as text.
    pub open spec fn message_text(self) -> Seq<char> {
        match self {
            ConfigError::MissingType => "Type is required for an env flag."@,
            ConfigError::MissingName => "A flag needs a name."@,
            ConfigError::MissingTerminator => "A flag definition must be ended by ';'."@,
            ConfigError::UnknownAttributeKey => "Unknown attr."@,
            ConfigError::AttributeMissingValue => "An attr must be assigned a value."@,
            ConfigError::InvalidEnvNameLiteral => "\"env_name\" must be assigned a string literal."@,
            ConfigError::OptionDelimiterMissing => "Option has no delimiter."@,
            ConfigError::DefaultForbidden => "An Option flag must not be given a \"default\"."@,
            ConfigError::DefaultMissing => "A flag that is not an Option needs a \"default\"."@,
            ConfigError::UnknownBaseType => "Unknown base type to parse."@,
        }
    }

    /// The diagnostic for this error.
    pub fn message(self) -> (r: &'static str)
        ensures
            r@ == self.message_text(),
    {
        match self {
            ConfigError::MissingType => "Type is required for an env flag.",
            ConfigError::MissingName => "A flag needs a name.",
            ConfigError::MissingTerminator => "A flag definition must be ended by ';'.",
            ConfigError::UnknownAttributeKey => "Unknown attr.",
            ConfigError::AttributeMissingValue => "An attr must be assigned a value.",
            ConfigError::InvalidEnvNameLiteral => "\"env_name\" must be assigned a string literal.",
            ConfigError::OptionDelimiterMissing => "Option has no delimiter.",
            ConfigError::DefaultForbidden => "An Option flag must not be given a \"default\".",
            ConfigError::DefaultMissing => "A flag that is not an Option needs a \"default\".",
            ConfigError::UnknownBaseType => "Unknown base type to parse.",
        }
    }
}

impl Cause {
    /// What this fault is called in a message.
    pub open spec fn description_text(self) -> Seq<char> {
        match self {
            Cause::Empty => "empty text"@,
            Cause::Invalid => "not a value of the type"@,
            Cause::InvalidDigit => "invalid digit"@,
            Cause::PosOverflow => "number too large"@,
            Cause::NegOverflow => "number too small"@,
            Cause::Other => "not accepted"@,
        }
    }

    /// What this fault is called in a message.
    pub fn description(self) -> (r: &'static str)
        ensures
            r@ == self.description_text(),
    {
        match self {
            Cause::Empty => "empty text",
            Cause::Invalid => "not a value of the type",
            Cause::InvalidDigit => "invalid digit",
            Cause::PosOverflow => "number too large",
            Cause::NegOverflow => "number too small",
            Cause::Other => "not accepted",
        }
    }
}

impl ResolveErrorView {
    /// The message for this error: it names the variable, and for a
    /// conversion failure the text and the fault as well.
    pub open spec fn message_text(self) -> Seq<char> {
        match self {
            ResolveErrorView::NonUnicodeValue { key } => "Fail to fetch ENV "@ + key
                + ": not unicode"@,
            ResolveErrorView::ConversionFailure { key, raw_text, cause } => "Unrecognized ENV \""@
                + key + "\": \""@ + raw_text + "\": "@ + cause.description_text(),
        }
    }
}

impl ResolveError {
    /// The message for this error.
    pub fn message(&self) -> (r: String)
        ensures
            r@ == self@.message_text(),
    {
        match self {
            ResolveError::NonUnicodeValue { key } => {
                let mut text = "Fail to fetch ENV ".to_owned();
                text.append(key.as_str());
                text.append(": not unicode");
                text
            },
            ResolveError::ConversionFailure { key, raw_text, cause } => {
                let mut text = "Unrecognized ENV \"".to_owned();
                text.append(key.as_str());
                text.append("\": \"");
                text.append(raw_text.as_str());
                text.append("\": ");
                text.append(cause.description());
                text
            },
        }
    }
}

} // verus!
