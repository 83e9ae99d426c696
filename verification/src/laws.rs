//! What holds of every flag, stated once and proved.

use crate::context::FlagContextView;
use crate::declare::parses_as;
use crate::error::{Cause, ConfigError, ResolveError, ResolveErrorView};
use crate::flag::{EnvFlag, EnvFlagWithDefault, EnvLookup};
use crate::parsers::{
    bool_of_text, bool_parser, i64_fault, i64_of_text, i64_parser, str_parser,
};
use crate::token::TokenView;
use vstd::prelude::*;

verus! {

/// Does every rejection of the parser name the key and the text it was
/// given, in a conversion failure?
pub open spec fn names_what_it_rejects<T, P: Fn(&str, &str) -> Result<T, ResolveError>>(
    parser: P,
) -> bool {
    forall|key: &str, text: &str, e: ResolveError|
        #[trigger] call_ensures(parser, (key, text), Err::<T, ResolveError>(e)) ==> (e@ matches ResolveErrorView::ConversionFailure {
            key: k,
            raw_text: t,
            ..
        } && k == key@ && t == text@)
}

/// A flag without a default whose variable is not set resolves to no value,
/// whatever the type of the flag and whatever its parser.
pub proof fn lemma_unset_resolves_to_absent<T, P: Fn(&str, &str) -> Result<T, ResolveError>>(
    flag: EnvFlag<P>,
    r: Result<Option<T>, ResolveError>,
)
    requires
        flag.resolves(EnvLookup::NotPresent, r),
    ensures
        r == Ok::<Option<T>, ResolveError>(None),
{
}

/// A flag with a default whose variable is not set resolves to exactly the
/// default, for every type whose clones equal what they were made from.
pub proof fn lemma_unset_resolves_to_default<
    T: Clone,
    P: Fn(&str, &str) -> Result<T, ResolveError>,
>(flag: EnvFlagWithDefault<T, P>, r: Result<T, ResolveError>)
    requires
        flag.resolves(EnvLookup::NotPresent, r),
        forall|made: T| cloned(flag.default, made) ==> made == flag.default,
    ensures
        r == Ok::<T, ResolveError>(flag.default),
{
}

/// The clones of a `bool`, of an `i64` and of a `String` equal what they were
/// made from: flags of these types resolve to exactly their default.
pub proof fn lemma_builtin_defaults_are_exact(
    truth: bool,
    truth_made: bool,
    number: i64,
    number_made: i64,
    text: String,
    text_made: String,
)
    ensures
        cloned(truth, truth_made) ==> truth_made == truth,
        cloned(number, number_made) ==> number_made == number,
        cloned(text, text_made) ==> text_made == text,
{
}

/// A flag whose variable is set to a text that its parser accepts resolves
/// to the value that the parser gives for the flag's key and that text.
pub proof fn lemma_set_resolves_as_parsed<T, P: Fn(&str, &str) -> Result<T, ResolveError>>(
    flag: EnvFlag<P>,
    text: &str,
    parsed: T,
    r: Result<Option<T>, ResolveError>,
)
    requires
        flag.resolves(EnvLookup::Text(text), r),
        forall|answer: Result<T, ResolveError>|
            call_ensures(flag.parser, (flag.key, text), answer) ==> answer == Ok::<
                T,
                ResolveError,
            >(parsed),
    ensures
        r == Ok::<Option<T>, ResolveError>(Some(parsed)),
{
}

/// The same for a flag with a default: a text that the parser accepts
/// resolves to the parser's value, not to the default.
pub proof fn lemma_set_resolves_as_parsed_with_default<
    T: Clone,
    P: Fn(&str, &str) -> Result<T, ResolveError>,
>(flag: EnvFlagWithDefault<T, P>, text: &str, parsed: T, r: Result<T, ResolveError>)
    requires
        flag.resolves(EnvLookup::Text(text), r),
        forall|answer: Result<T, ResolveError>|
            call_ensures(flag.env.parser, (flag.env.key, text), answer) ==> answer == Ok::<
                T,
                ResolveError,
            >(parsed),
    ensures
        r == Ok::<T, ResolveError>(parsed),
{
}

/// A flag whose variable is set to a text that its parser rejects resolves
/// to a conversion failure that names the flag's key and that text, for
/// every parser that names what it rejects.
pub proof fn lemma_rejected_text_is_named<T, P: Fn(&str, &str) -> Result<T, ResolveError>>(
    flag: EnvFlag<P>,
    text: &str,
    r: Result<Option<T>, ResolveError>,
)
    requires
        flag.resolves(EnvLookup::Text(text), r),
        names_what_it_rejects::<T, P>(flag.parser),
        forall|answer: Result<T, ResolveError>|
            call_ensures(flag.parser, (flag.key, text), answer) ==> answer is Err,
    ensures
        r matches Err(e) && (e@ matches ResolveErrorView::ConversionFailure {
            key: k,
            raw_text: t,
            ..
        } && k == flag.key@ && t == text@),
{
}

/// The same for a flag with a default.
pub proof fn lemma_rejected_text_is_named_with_default<
    T: Clone,
    P: Fn(&str, &str) -> Result<T, ResolveError>,
>(flag: EnvFlagWithDefault<T, P>, text: &str, r: Result<T, ResolveError>)
    requires
        flag.resolves(EnvLookup::Text(text), r),
        names_what_it_rejects::<T, P>(flag.env.parser),
        forall|answer: Result<T, ResolveError>|
            call_ensures(flag.env.parser, (flag.env.key, text), answer) ==> answer is Err,
    ensures
        r matches Err(e) && (e@ matches ResolveErrorView::ConversionFailure {
            key: k,
            raw_text: t,
            ..
        } && k == flag.env.key@ && t == text@),
{
}

/// The builtin parsers name what they reject.
pub proof fn lemma_builtin_parsers_name_what_they_reject()
    ensures
        names_what_it_rejects::<String, _>(str_parser),
        names_what_it_rejects::<bool, _>(bool_parser),
        names_what_it_rejects::<i64, _>(i64_parser),
{
}

/// A `String` flag whose variable is set resolves to the text of the
/// variable, whatever that text is.
pub proof fn lemma_str_flag_resolves<P: Fn(&str, &str) -> Result<String, ResolveError>>(
    flag: EnvFlag<P>,
    text: &str,
    r: Result<Option<String>, ResolveError>,
)
    requires
        parses_as(flag.parser, str_parser),
        flag.resolves(EnvLookup::Text(text), r),
    ensures
        r matches Ok(Some(value)) && value@ == text@,
{
}

/// A `bool` flag whose variable is set resolves to the truth value that the
/// text spells, and for a text that spells none to a conversion failure that
/// names the flag's key and the text.
pub proof fn lemma_bool_flag_resolves<P: Fn(&str, &str) -> Result<bool, ResolveError>>(
    flag: EnvFlag<P>,
    text: &str,
    r: Result<Option<bool>, ResolveError>,
)
    requires
        parses_as(flag.parser, bool_parser),
        flag.resolves(EnvLookup::Text(text), r),
    ensures
        match bool_of_text(text@) {
            Some(value) => r == Ok::<Option<bool>, ResolveError>(Some(value)),
            None => r matches Err(e) && e@ == (ResolveErrorView::ConversionFailure {
                key: flag.key@,
                raw_text: text@,
                cause: Cause::Invalid,
            }),
        },
{
}

/// An `i64` flag whose variable is set resolves to the number that the text
/// spells, and for a text that spells none to a conversion failure that
/// names the flag's key and the text.
pub proof fn lemma_i64_flag_resolves<P: Fn(&str, &str) -> Result<i64, ResolveError>>(
    flag: EnvFlag<P>,
    text: &str,
    r: Result<Option<i64>, ResolveError>,
)
    requires
        parses_as(flag.parser, i64_parser),
        flag.resolves(EnvLookup::Text(text), r),
    ensures
        match i64_of_text(text@) {
            Some(value) => r == Ok::<Option<i64>, ResolveError>(Some(value)),
            None => r matches Err(e) && e@ == (ResolveErrorView::ConversionFailure {
                key: flag.key@,
                raw_text: text@,
                cause: i64_fault(text@),
            }),
        },
{
}

/// With a name override, the key of the generated descriptor is the
/// override, whatever the declared name is.
pub proof fn lemma_env_name_override(
    context: FlagContextView,
    literal: TokenView,
    other_name: Seq<char>,
)
    requires
        context.config.env_name == Some(literal),
    ensures
        context.env_name() == literal,
        (FlagContextView { name: other_name, ..context }).env_name() == literal,
        context.wo_default_fields() matches Ok(TokenView::Group(_, fields)) ==> fields[2]
            == literal,
{
}

/// Without a name override, the key of the generated descriptor is the
/// declared name, as a string literal.
pub proof fn lemma_env_name_declared(context: FlagContextView)
    requires
        context.config.env_name is None,
    ensures
        context.env_name() == TokenView::Quoted(context.name),
        context.wo_default_fields() matches Ok(TokenView::Group(_, fields)) ==> fields[2]
            == TokenView::Quoted(context.name),
{
}

/// The key that a declaration is compiled to without a name override is not
/// the empty text.
pub proof fn lemma_declared_key_is_not_empty(context: FlagContextView)
    requires
        context.wf(),
        context.config.env_name is None,
    ensures
        context.env_name() matches TokenView::Quoted(text) && text.len() > 0,
{
}

/// A default goes with a flag that is not optional, and with no other: a
/// declaration compiles only if it is optional or has a default, not both
/// and not neither.
pub proof fn lemma_default_goes_with_shape(context: FlagContextView)
    ensures
        context.shape.has_option && context.config.default is Some ==> context.expansion()
            == Err::<Seq<TokenView>, ConfigError>(ConfigError::DefaultForbidden),
        !context.shape.has_option && context.config.default is None ==> context.expansion()
            == Err::<Seq<TokenView>, ConfigError>(ConfigError::DefaultMissing),
        context.expansion() is Ok ==> (context.shape.has_option <==> context.config.default is None),
{
}

/// The namespace decides under which path the generated code looks for the
/// descriptor types and the builtin parsers, and nothing else: not the key,
/// not the default, not the family of the base type, not a parser that the
/// annotation gives, and not whether the declaration compiles.
pub proof fn lemma_namespace_only_renames(
    context: FlagContextView,
    namespace: Option<Seq<TokenView>>,
)
    ensures
        ({
            let renamed = FlagContextView {
                config: crate::attr::FlagConfigView { namespace, ..context.config },
                ..context
            };
            &&& renamed.env_name() == context.env_name()
            &&& renamed.default_value() == context.default_value()
            &&& renamed.default_type_param() == context.default_type_param()
            &&& renamed.shape.kind() == context.shape.kind()
            &&& context.config.parser is Some ==> renamed.parser() == context.parser()
            &&& context.expansion() is Ok <==> renamed.expansion() is Ok
            &&& context.expansion() matches Err(e) ==> renamed.expansion() == Err::<
                Seq<TokenView>,
                ConfigError,
            >(e)
        }),
{
}

} // verus!
