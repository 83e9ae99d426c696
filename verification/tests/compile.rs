//! Declarations and annotations: how they are taken apart, what they are
//! compiled to, and each way in which they can be at fault.

use rs_envflag::scan::collect_until;
use rs_envflag::shape::filter_out_option;
use rs_envflag::{
    envflag, AttrKey, BaseKind, ConfigError, Delimiter, FlagConfig, FlagContext, Spacing, Token,
    TypeShape,
};
use std::collections::VecDeque;

fn id(name: &str) -> Token {
    Token::Ident(name.to_string())
}

fn p(ch: char) -> Token {
    Token::Punct(ch, Spacing::Alone)
}

fn joint(ch: char) -> Token {
    Token::Punct(ch, Spacing::Joint)
}

fn lit(spelling: &str) -> Token {
    Token::Literal(spelling.to_string())
}

fn quoted(text: &str) -> Token {
    Token::Quoted(text.to_string())
}

fn group(delimiter: Delimiter, inner: Vec<Token>) -> Token {
    Token::Group(delimiter, inner)
}

fn cat(parts: Vec<Vec<Token>>) -> Vec<Token> {
    parts.into_iter().flatten().collect()
}

/// The tokens that a line of words stands for. Words are separated by
/// blanks; `::` is two colons, the first of them joint; a word that opens
/// with a quote mark is a lifetime; one that opens with a digit or a double
/// quote is a literal; one character that is no letter is punctuation.
fn toks(line: &str) -> Vec<Token> {
    let mut out = Vec::new();
    for word in line.split_whitespace() {
        let first = word.chars().next().unwrap();
        if word == "::" {
            out.push(joint(':'));
            out.push(p(':'));
        } else if first == '\'' && word.len() > 1 {
            out.push(joint('\''));
            out.push(id(&word[1..]));
        } else if first.is_ascii_digit() || first == '"' {
            out.push(lit(word));
        } else if first.is_alphabetic() || first == '_' {
            out.push(id(word));
        } else {
            assert_eq!(word.chars().count(), 1);
            out.push(p(first));
        }
    }
    out
}

fn queue(tokens: Vec<Token>) -> VecDeque<Token> {
    tokens.into_iter().collect()
}

fn compile(attr: &str, item: &str) -> Result<Vec<Token>, ConfigError> {
    envflag(toks(attr), toks(item))
}

fn brace(inner: Vec<Token>) -> Token {
    group(Delimiter::Brace, inner)
}

// ---- the annotation ----

#[test]
fn empty_annotation_sets_nothing() {
    let config = FlagConfig::parse(VecDeque::new()).unwrap();
    assert_eq!(config, FlagConfig::empty());
    assert_eq!(config.default, None);
    assert_eq!(config.namespace, None);
    assert_eq!(config.env_name, None);
    assert_eq!(config.parser, None);
}

#[test]
fn annotation_with_every_option() {
    let config = FlagConfig::parse(queue(toks(
        "default = 1 + 2 , crate = my :: alias , env_name = \"PORT\" , parser = parse :: port",
    )))
    .unwrap();
    assert_eq!(config.default, Some(toks("1 + 2")));
    assert_eq!(config.namespace, Some(toks("my :: alias")));
    assert_eq!(config.env_name, Some(lit("\"PORT\"")));
    assert_eq!(config.parser, Some(toks("parse :: port")));
}

#[test]
fn annotation_may_end_in_a_comma() {
    let config = FlagConfig::parse(queue(toks("default = 1 ,"))).unwrap();
    assert_eq!(config.default, Some(toks("1")));
    assert_eq!(config.parser, None);
}

#[test]
fn annotation_value_may_be_empty() {
    let config = FlagConfig::parse(queue(toks("parser = , default ="))).unwrap();
    assert_eq!(config.parser, Some(vec![]));
    assert_eq!(config.default, Some(vec![]));
}

#[test]
fn annotation_value_keeps_the_commas_inside_groups() {
    let call = vec![id("make"), group(Delimiter::Parenthesis, toks("1 , 2"))];
    let attr = cat(vec![toks("default ="), call.clone(), toks(", parser = p")]);
    let config = FlagConfig::parse(queue(attr)).unwrap();
    assert_eq!(config.default, Some(call));
    assert_eq!(config.parser, Some(toks("p")));
}

#[test]
fn annotation_value_is_kept_token_for_token() {
    let value = vec![joint('-'), p('>'), lit("0x1f"), joint(':'), p(':'), id("r#type")];
    let attr = cat(vec![toks("default ="), value.clone()]);
    assert_eq!(FlagConfig::parse(queue(attr)).unwrap().default, Some(value));
}

#[test]
fn option_given_twice_keeps_the_last_value() {
    let config = FlagConfig::parse(queue(toks(
        "default = 1 , crate = a , env_name = \"A\" , parser = p , default = 2 , crate = b , env_name = \"B\" , parser = q",
    )))
    .unwrap();
    assert_eq!(config.default, Some(toks("2")));
    assert_eq!(config.namespace, Some(toks("b")));
    assert_eq!(config.env_name, Some(lit("\"B\"")));
    assert_eq!(config.parser, Some(toks("q")));
}

#[test]
fn unknown_attribute_key() {
    for attr in ["name = 1", "Default = 1", "defaults = 1", "r#default = 1", ", default = 1", "1 = 2", "default = 1 , , parser = p", "= 1"] {
        assert_eq!(
            FlagConfig::parse(queue(toks(attr))),
            Err(ConfigError::UnknownAttributeKey),
            "{}",
            attr
        );
    }
    let grouped = vec![group(Delimiter::Parenthesis, toks("default = 1"))];
    assert_eq!(FlagConfig::parse(queue(grouped)), Err(ConfigError::UnknownAttributeKey));
}

#[test]
fn attribute_missing_value() {
    for attr in ["default", "default 1", "default , parser = p", "crate", "env_name \"A\"", "parser : p", "default = 1 , parser"] {
        assert_eq!(
            FlagConfig::parse(queue(toks(attr))),
            Err(ConfigError::AttributeMissingValue),
            "{}",
            attr
        );
    }
}

#[test]
fn invalid_env_name_literal() {
    for attr in [
        "env_name = XYZ",
        "env_name =",
        "env_name = , default = 1",
        "env_name = \"A\" \"B\"",
        "env_name = \"A\" + \"B\"",
        "env_name = 42",
        "env_name = 4.2",
        "env_name = - \"A\"",
    ] {
        assert_eq!(
            FlagConfig::parse(queue(toks(attr))),
            Err(ConfigError::InvalidEnvNameLiteral),
            "{}",
            attr
        );
    }
    for spelling in ["b\"bytes\"", "'c'", "c\"text\"", "br\"raw\"", "", "r", "rx"] {
        let attr = cat(vec![toks("env_name ="), vec![lit(spelling)]]);
        assert_eq!(
            FlagConfig::parse(queue(attr)),
            Err(ConfigError::InvalidEnvNameLiteral),
            "{}",
            spelling
        );
    }
    let grouped = cat(vec![toks("env_name ="), vec![group(Delimiter::Parenthesis, toks("\"A\""))]]);
    assert_eq!(FlagConfig::parse(queue(grouped)), Err(ConfigError::InvalidEnvNameLiteral));
}

#[test]
fn env_name_takes_any_string_literal() {
    for spelling in ["\"XYZ\"", "\"\"", "r\"XYZ\"", "r#\"X\"Z\"#", "\"with space\""] {
        let attr = cat(vec![toks("env_name ="), vec![lit(spelling)]]);
        assert_eq!(FlagConfig::parse(queue(attr)).unwrap().env_name, Some(lit(spelling)));
    }
    let attr = cat(vec![toks("env_name ="), vec![quoted("XYZ")]]);
    assert_eq!(FlagConfig::parse(queue(attr)).unwrap().env_name, Some(quoted("XYZ")));
}

#[test]
fn first_fault_of_the_annotation_decides() {
    assert_eq!(
        FlagConfig::parse(queue(toks("default , bogus = 1"))),
        Err(ConfigError::AttributeMissingValue)
    );
    assert_eq!(
        FlagConfig::parse(queue(toks("bogus , default"))),
        Err(ConfigError::UnknownAttributeKey)
    );
    assert_eq!(
        FlagConfig::parse(queue(toks("env_name = 1 , bogus = 1"))),
        Err(ConfigError::InvalidEnvNameLiteral)
    );
    assert_eq!(
        FlagConfig::parse(queue(toks("default = 1 , bogus = 1 , env_name = 1"))),
        Err(ConfigError::UnknownAttributeKey)
    );
}

#[test]
fn assign_sets_one_option() {
    let config = FlagConfig::empty().assign(AttrKey::Default, toks("7")).unwrap();
    assert_eq!(config.default, Some(toks("7")));
    let config = config.assign(AttrKey::Crate, toks("ns")).unwrap();
    let config = config.assign(AttrKey::Parser, toks("p")).unwrap();
    let config = config.assign(AttrKey::EnvName, toks("\"K\"")).unwrap();
    assert_eq!(
        config,
        FlagConfig {
            default: Some(toks("7")),
            namespace: Some(toks("ns")),
            env_name: Some(lit("\"K\"")),
            parser: Some(toks("p")),
        }
    );
    assert_eq!(
        FlagConfig::empty().assign(AttrKey::EnvName, toks("K")),
        Err(ConfigError::InvalidEnvNameLiteral)
    );
}

#[test]
fn attr_key_of_a_token() {
    assert_eq!(id("default").attr_key(), Some(AttrKey::Default));
    assert_eq!(id("crate").attr_key(), Some(AttrKey::Crate));
    assert_eq!(id("env_name").attr_key(), Some(AttrKey::EnvName));
    assert_eq!(id("parser").attr_key(), Some(AttrKey::Parser));
    assert_eq!(id("Parser").attr_key(), None);
    assert_eq!(lit("\"parser\"").attr_key(), None);
    assert_eq!(quoted("parser").attr_key(), None);
    assert_eq!(p('=').attr_key(), None);
}

#[test]
fn collect_until_moves_up_to_the_stop() {
    let mut out = toks("kept");
    let mut input = queue(toks("a b , c , d"));
    assert_eq!(collect_until(&mut out, &mut input, ','), Some(p(',')));
    assert_eq!(out, toks("kept a b"));
    assert_eq!(input, queue(toks("c , d")));
    assert_eq!(collect_until(&mut out, &mut input, ';'), None);
    assert_eq!(out, toks("kept a b c , d"));
    assert!(input.is_empty());
    assert_eq!(collect_until(&mut out, &mut input, ','), None);
    assert_eq!(out, toks("kept a b c , d"));
}

#[test]
fn collect_until_stops_at_either_spacing() {
    let mut out = Vec::new();
    let mut input = queue(vec![id("a"), joint(':'), p(':'), id("b")]);
    assert_eq!(collect_until(&mut out, &mut input, ':'), Some(joint(':')));
    assert_eq!(out, toks("a"));
    assert_eq!(input, queue(vec![p(':'), id("b")]));
}

// ---- the declaration ----

#[test]
fn declaration_is_taken_apart() {
    let context =
        FlagContext::new(queue(toks("default = 5")), queue(toks("pub static PORT : i64 ;"))).unwrap();
    assert_eq!(context.preamble, toks("pub static"));
    assert_eq!(context.name, "PORT");
    assert_eq!(context.shape, TypeShape { has_option: false, base_type: toks("i64") });
    assert_eq!(context.config.default, Some(toks("5")));
    assert_eq!(context.config.namespace, None);
}

#[test]
fn optional_declaration_is_taken_apart() {
    let context =
        FlagContext::new(VecDeque::new(), queue(toks("const NAME : Option < String > ;"))).unwrap();
    assert_eq!(context.preamble, toks("const"));
    assert_eq!(context.name, "NAME");
    assert_eq!(context.shape, TypeShape { has_option: true, base_type: toks("String") });
    assert_eq!(context.config, FlagConfig::empty());
}

#[test]
fn preamble_may_be_empty_or_hold_groups() {
    let context = FlagContext::new(VecDeque::new(), queue(toks("NAME : bool ;"))).unwrap();
    assert_eq!(context.preamble, vec![]);
    let attribute = vec![p('#'), group(Delimiter::Bracket, toks("doc = \"a:b;\""))];
    let item = cat(vec![attribute.clone(), toks("pub const NAME : bool ;")]);
    let context = FlagContext::new(VecDeque::new(), queue(item)).unwrap();
    assert_eq!(context.preamble, cat(vec![attribute, toks("pub const")]));
    assert_eq!(context.name, "NAME");
}

#[test]
fn missing_type() {
    for item in ["", "const NAME", "const NAME ;", "const NAME Option < bool > ;", "NAME = 1 ;"] {
        assert_eq!(
            FlagContext::new(VecDeque::new(), queue(toks(item))).map(|_| ()),
            Err(ConfigError::MissingType),
            "{}",
            item
        );
    }
    let inside = vec![id("const"), group(Delimiter::Parenthesis, toks("NAME : bool")), p(';')];
    assert_eq!(
        FlagContext::new(VecDeque::new(), queue(inside)).map(|_| ()),
        Err(ConfigError::MissingType)
    );
}

#[test]
fn missing_name() {
    for item in [": bool ;", "const 1 : bool ;", "const \"NAME\" : bool ;", "const # : bool ;", "const NAME < T > : bool ;"] {
        assert_eq!(
            FlagContext::new(VecDeque::new(), queue(toks(item))).map(|_| ()),
            Err(ConfigError::MissingName),
            "{}",
            item
        );
    }
    let grouped = cat(vec![vec![group(Delimiter::Invisible, toks("NAME"))], toks(": bool ;")]);
    assert_eq!(
        FlagContext::new(VecDeque::new(), queue(grouped)).map(|_| ()),
        Err(ConfigError::MissingName)
    );
    let nameless = cat(vec![vec![id("const"), id("")], toks(": bool ;")]);
    assert_eq!(
        FlagContext::new(VecDeque::new(), queue(nameless)).map(|_| ()),
        Err(ConfigError::MissingName)
    );
}

#[test]
fn the_first_colon_ends_the_name_whatever_follows_it() {
    let context =
        FlagContext::new(VecDeque::new(), queue(toks("const NAME :: T : bool ;"))).unwrap();
    assert_eq!(context.preamble, toks("const"));
    assert_eq!(context.name, "NAME");
    assert_eq!(context.shape, TypeShape { has_option: false, base_type: toks(": T : bool") });
    let context = FlagContext::new(VecDeque::new(), queue(toks("const : bool ;"))).unwrap();
    assert_eq!(context.preamble, vec![]);
    assert_eq!(context.name, "const");
}

#[test]
fn missing_terminator() {
    for item in ["const NAME : bool", "const NAME :", "const NAME : bool ; bool", "const NAME : bool ,"] {
        assert_eq!(
            FlagContext::new(VecDeque::new(), queue(toks(item))).map(|_| ()),
            Err(ConfigError::MissingTerminator),
            "{}",
            item
        );
    }
}

#[test]
fn option_delimiter_missing() {
    for item in [
        "const NAME : Option ;",
        "const NAME : Option < bool ;",
        "const NAME : Option bool > ;",
        "const NAME : Option > ;",
        "const NAME : Option < ;",
        "const NAME : Option < > bool ;",
    ] {
        assert_eq!(
            FlagContext::new(VecDeque::new(), queue(toks(item))).map(|_| ()),
            Err(ConfigError::OptionDelimiterMissing),
            "{}",
            item
        );
    }
}

#[test]
fn faults_of_the_declaration_in_their_order() {
    let check = |attr: &str, item: &str| FlagContext::new(queue(toks(attr)), queue(toks(item))).map(|_| ());
    assert_eq!(check("bogus", "1"), Err(ConfigError::UnknownAttributeKey));
    assert_eq!(check("default", ": Option"), Err(ConfigError::AttributeMissingValue));
    assert_eq!(check("env_name = 1", ""), Err(ConfigError::InvalidEnvNameLiteral));
    assert_eq!(check("", "1 Option"), Err(ConfigError::MissingType));
    assert_eq!(check("", "1 : Option"), Err(ConfigError::MissingName));
    assert_eq!(check("", "N : Option"), Err(ConfigError::MissingTerminator));
    assert_eq!(check("", "N : Option ;"), Err(ConfigError::OptionDelimiterMissing));
    assert_eq!(check("", "N : Option < V > ;"), Ok(()));
    assert_eq!(compile("", "N : Option < V > ;"), Err(ConfigError::UnknownBaseType));
    assert_eq!(compile("bogus", "N : Option < V > ;"), Err(ConfigError::UnknownAttributeKey));
    assert_eq!(compile("", "N : Option < V ;"), Err(ConfigError::OptionDelimiterMissing));
}

#[test]
fn filter_out_option_leaves_other_types_alone() {
    for ty in ["bool", "String", "std :: string :: String", "Vec < Option < i64 > >", "option < bool >", "Optional < bool >", "", "< Option >", "& ' static str"] {
        let mut base = queue(toks(ty));
        assert_eq!(filter_out_option(&mut base), Ok(false), "{}", ty);
        assert_eq!(base, queue(toks(ty)));
    }
}

#[test]
fn filter_out_option_strips_the_wrapper() {
    let cases = [
        ("Option < bool >", "bool"),
        ("Option < std :: string :: String >", "std :: string :: String"),
        ("std :: option :: Option < i64 >", "i64"),
        ("core :: option :: Option < Vec < u8 > >", "Vec < u8 >"),
        ("Option < Option < bool > >", "Option < bool >"),
        ("Option < >", ""),
        ("Option < & ' static str >", "& ' static str"),
    ];
    for (ty, inner) in cases {
        let mut base = queue(toks(ty));
        assert_eq!(filter_out_option(&mut base), Ok(true), "{}", ty);
        assert_eq!(base, queue(toks(inner)), "{}", ty);
    }
}

#[test]
fn filter_out_option_wants_both_brackets() {
    for ty in ["Option", "Option < bool", "Option bool >", "Option < bool > ;", "Option >"] {
        let mut base = queue(toks(ty));
        assert_eq!(filter_out_option(&mut base), Err(ConfigError::OptionDelimiterMissing), "{}", ty);
    }
}

// ---- the generated item ----

#[test]
fn optional_flag_is_compiled_to_an_env_flag() {
    let expected = cat(vec![
        toks("pub static VERBOSE : rs_envflag :: EnvFlag < bool > = rs_envflag :: EnvFlag :: < bool >"),
        vec![brace(cat(vec![
            toks("key :"),
            vec![quoted("VERBOSE")],
            toks(", parser : rs_envflag :: bool_parser ,"),
        ]))],
        toks(";"),
    ]);
    assert_eq!(compile("", "pub static VERBOSE : Option < bool > ;"), Ok(expected));
}

#[test]
fn flag_with_default_is_compiled_to_an_env_flag_with_default() {
    let expected = cat(vec![
        toks("const PORT : rs_envflag :: EnvFlagWithDefault < i64 , i64 > = rs_envflag :: EnvFlagWithDefault :: < i64 , i64 >"),
        vec![brace(cat(vec![
            toks("env : rs_envflag :: EnvFlag :: < i64 >"),
            vec![brace(cat(vec![
                toks("key :"),
                vec![quoted("PORT")],
                toks(", parser : rs_envflag :: i64_parser ,"),
            ]))],
            toks(", default : 8080 ,"),
        ]))],
        toks(";"),
    ]);
    assert_eq!(compile("default = 8080", "const PORT : i64 ;"), Ok(expected));
}

#[test]
fn string_default_is_stored_as_text_and_borrowed() {
    let expected = cat(vec![
        toks("const HOST : rs_envflag :: EnvFlagWithDefault < String , & 'static str > = rs_envflag :: EnvFlagWithDefault :: < String , & 'static str >"),
        vec![brace(cat(vec![
            toks("env : rs_envflag :: EnvFlag :: < String >"),
            vec![brace(cat(vec![
                toks("key :"),
                vec![quoted("HOST")],
                toks(", parser : rs_envflag :: str_parser ,"),
            ]))],
            toks(", default : & \"localhost\" ,"),
        ]))],
        toks(";"),
    ]);
    assert_eq!(compile("default = \"localhost\"", "const HOST : String ;"), Ok(expected));
}

#[test]
fn custom_default_is_stored_as_a_reference_to_the_base_type() {
    let expected = cat(vec![
        toks("const MODE : rs_envflag :: EnvFlagWithDefault < my :: Mode , & 'static my :: Mode > = rs_envflag :: EnvFlagWithDefault :: < my :: Mode , & 'static my :: Mode >"),
        vec![brace(cat(vec![
            toks("env : rs_envflag :: EnvFlag :: < my :: Mode >"),
            vec![brace(cat(vec![
                toks("key :"),
                vec![quoted("MODE")],
                toks(", parser : my :: parse_mode ,"),
            ]))],
            toks(", default : & my :: FAST ,"),
        ]))],
        toks(";"),
    ]);
    assert_eq!(
        compile("parser = my :: parse_mode , default = & my :: FAST", "const MODE : my :: Mode ;"),
        Ok(expected)
    );
}

#[test]
fn every_option_at_once() {
    let expected = cat(vec![
        toks("const RATE : alias :: EnvFlagWithDefault < f64 , f64 > = alias :: EnvFlagWithDefault :: < f64 , f64 >"),
        vec![brace(cat(vec![
            toks("env : alias :: EnvFlag :: < f64 >"),
            vec![brace(toks("key : \"APP_RATE\" , parser : scaled ,"))],
            toks(", default : 0.5 ,"),
        ]))],
        toks(";"),
    ]);
    assert_eq!(
        compile(
            "default = 0.5 , crate = alias , env_name = \"APP_RATE\" , parser = scaled",
            "const RATE : f64 ;"
        ),
        Ok(expected)
    );
}

#[test]
fn builtin_parser_is_chosen_by_the_last_identifier_of_the_base_type() {
    let parser_of = |ty: &str| {
        let item = format!("N : Option < {} > ;", ty);
        compile("", &item).map(|tokens| match &tokens[tokens.len() - 2] {
            Token::Group(_, fields) => fields[6..fields.len() - 1].to_vec(),
            other => panic!("{:?}", other),
        })
    };
    assert_eq!(parser_of("String"), Ok(toks("rs_envflag :: str_parser")));
    assert_eq!(parser_of("i64"), Ok(toks("rs_envflag :: i64_parser")));
    assert_eq!(parser_of("f64"), Ok(toks("rs_envflag :: f64_parser")));
    assert_eq!(parser_of("bool"), Ok(toks("rs_envflag :: bool_parser")));
}

#[test]
fn base_type_given_by_a_path() {
    let expected = cat(vec![
        toks("N : rs_envflag :: EnvFlag < std :: string :: String > = rs_envflag :: EnvFlag :: < std :: string :: String >"),
        vec![brace(cat(vec![
            toks("key :"),
            vec![quoted("N")],
            toks(", parser : rs_envflag :: str_parser ,"),
        ]))],
        toks(";"),
    ]);
    assert_eq!(compile("", "N : std :: option :: Option < std :: string :: String > ;"), Ok(expected));
}

#[test]
fn unknown_base_type() {
    for (attr, item) in [
        ("", "N : Option < V > ;"),
        ("", "N : Option < u64 > ;"),
        ("", "N : Option < string > ;"),
        ("", "N : Option < Vec < String > > ;"),
        ("", "N : Option < > ;"),
        ("default = 1", "N : i32 ;"),
        ("default = 1 , crate = x", "N : I64 ;"),
        ("default = 1", "N : Vec < Option < i64 > > ;"),
        ("default = 1", "N : ;"),
    ] {
        assert_eq!(compile(attr, item), Err(ConfigError::UnknownBaseType), "{} / {}", attr, item);
    }
}

#[test]
fn a_given_parser_serves_any_base_type() {
    for item in ["N : Option < V > ;", "N : Option < Vec < String > > ;", "N : Option < > ;", "N : Option < i64 > ;"] {
        assert!(compile("parser = p", item).is_ok(), "{}", item);
    }
}

#[test]
fn default_of_an_optional_flag_is_forbidden() {
    for (attr, item) in [
        ("default = 1", "const N : Option < i64 > ;"),
        ("default = true", "N : Option < bool > ;"),
        ("default = \"abc\" , crate = x", "N : Option < String > ;"),
        ("parser = p , default = & V", "N : Option < V > ;"),
        ("default =", "N : Option < bool > ;"),
        ("default = 1 , default = 2", "N : std :: option :: Option < i64 > ;"),
    ] {
        assert_eq!(compile(attr, item), Err(ConfigError::DefaultForbidden), "{} / {}", attr, item);
    }
}

#[test]
fn flag_that_is_not_optional_needs_a_default() {
    for (attr, item) in [
        ("", "const N : i64 ;"),
        ("", "N : bool ;"),
        ("crate = x , env_name = \"K\"", "N : String ;"),
        ("parser = p", "N : V ;"),
        ("", "N : Vec < Option < i64 > > ;"),
    ] {
        assert_eq!(compile(attr, item), Err(ConfigError::DefaultMissing), "{} / {}", attr, item);
    }
}

#[test]
fn a_default_fault_comes_before_an_unknown_base_type() {
    assert_eq!(compile("default = 1", "N : Option < V > ;"), Err(ConfigError::DefaultForbidden));
    assert_eq!(compile("", "N : V ;"), Err(ConfigError::DefaultMissing));
    assert_eq!(compile("", "N : ;"), Err(ConfigError::DefaultMissing));
    assert_eq!(compile("", "N : Option < V > ;"), Err(ConfigError::UnknownBaseType));
    assert_eq!(compile("default = 1", "N : V ;"), Err(ConfigError::UnknownBaseType));
}

#[test]
fn a_default_fault_comes_after_the_faults_of_the_declaration() {
    assert_eq!(compile("default = 1", "N : Option < V ;"), Err(ConfigError::OptionDelimiterMissing));
    assert_eq!(compile("default = 1", "N : Option < V >"), Err(ConfigError::MissingTerminator));
    assert_eq!(compile("", "1 : i64 ;"), Err(ConfigError::MissingName));
    assert_eq!(compile("", "N i64 ;"), Err(ConfigError::MissingType));
    assert_eq!(compile("bogus = 1", "N : i64 ;"), Err(ConfigError::UnknownAttributeKey));
}

#[test]
fn a_default_is_written_as_it_was_given() {
    let call = vec![id("make"), group(Delimiter::Parenthesis, toks("1 , 2"))];
    let attr = cat(vec![toks("default ="), call.clone()]);
    let tokens = envflag(attr, toks("N : i64 ;")).unwrap();
    match tokens.get(tokens.len() - 2) {
        Some(Token::Group(Delimiter::Brace, fields)) => {
            let expected = cat(vec![toks(", default :"), call, toks(",")]);
            assert_eq!(fields[fields.len() - expected.len()..], expected[..]);
        },
        other => panic!("{:?}", other),
    }
}

#[test]
fn kind_of_a_base_type() {
    let kind = |ty: &str| TypeShape { has_option: false, base_type: toks(ty) }.kind();
    assert_eq!(kind("String"), BaseKind::Text);
    assert_eq!(kind("i64"), BaseKind::Integer);
    assert_eq!(kind("f64"), BaseKind::Float);
    assert_eq!(kind("bool"), BaseKind::Boolean);
    assert_eq!(kind("std :: primitive :: bool"), BaseKind::Boolean);
    assert_eq!(kind("V"), BaseKind::Other);
    assert_eq!(kind("str"), BaseKind::Other);
    assert_eq!(kind(""), BaseKind::Other);
    assert_eq!(kind("Vec < bool >"), BaseKind::Other);
    assert_eq!(kind("\"bool\""), BaseKind::Other);
}

fn context(attr: &str, item: &str) -> FlagContext {
    FlagContext::new(queue(toks(attr)), queue(toks(item))).unwrap()
}

#[test]
fn parts_are_appended_after_what_is_there() {
    let c = context("default = 1", "const N : i64 ;");
    let mut out = toks("kept");
    c.crate_name(&mut out);
    assert_eq!(out, toks("kept rs_envflag"));
    c.wo_default_base(&mut out);
    assert_eq!(out, toks("kept rs_envflag rs_envflag :: EnvFlag"));
    let mut out = toks("kept");
    c.w_default_base(&mut out);
    assert_eq!(out, toks("kept rs_envflag :: EnvFlagWithDefault"));
    c.wo_default_type_params(&mut out);
    assert_eq!(out, toks("kept rs_envflag :: EnvFlagWithDefault < i64 >"));
    let mut out = toks("kept");
    c.w_default_type_params(&mut out);
    assert_eq!(out, toks("kept < i64 , i64 >"));
    let mut out = toks("kept");
    c.default_type_param(&mut out);
    assert_eq!(out, toks("kept , i64"));
    assert_eq!(c.default_value(&mut out), Ok(()));
    assert_eq!(out, toks("kept , i64 1"));
    c.env_name(&mut out);
    assert_eq!(out, cat(vec![toks("kept , i64 1"), vec![quoted("N")]]));
    let mut out = toks("kept");
    assert_eq!(c.parser(&mut out), Ok(()));
    assert_eq!(out, toks("kept rs_envflag :: i64_parser"));
    let mut out = toks("kept");
    c.wrapped_type(&mut out);
    assert_eq!(out, toks("kept rs_envflag :: EnvFlagWithDefault < i64 , i64 >"));
}

#[test]
fn parser_leaves_the_output_alone_when_it_fails() {
    let c = context("", "const N : Option < V > ;");
    let mut out = toks("kept");
    assert_eq!(c.parser(&mut out), Err(ConfigError::UnknownBaseType));
    assert_eq!(out, toks("kept"));
    assert_eq!(c.init_wo_default(&mut out), Err(ConfigError::UnknownBaseType));
    assert_eq!(c.init_value(&mut out), Err(ConfigError::UnknownBaseType));
    assert_eq!(c.into_tokens(), Err(ConfigError::UnknownBaseType));
    let c = context("default = & V", "const N : V ;");
    assert_eq!(c.init_w_default(), Err(ConfigError::UnknownBaseType));
    assert_eq!(c.into_tokens(), Err(ConfigError::UnknownBaseType));
}

#[test]
fn default_value_leaves_the_output_alone_when_it_fails() {
    let c = context("", "const N : i64 ;");
    let mut out = toks("kept");
    assert_eq!(c.default_value(&mut out), Err(ConfigError::DefaultMissing));
    assert_eq!(out, toks("kept"));
    assert_eq!(c.init_w_default(), Err(ConfigError::DefaultMissing));
    assert_eq!(c.init_value(&mut out), Err(ConfigError::DefaultMissing));
    assert_eq!(c.into_tokens(), Err(ConfigError::DefaultMissing));
    let c = context("default = 1", "const N : Option < i64 > ;");
    let mut out = toks("kept");
    assert_eq!(c.init_value(&mut out), Err(ConfigError::DefaultForbidden));
    assert_eq!(out, toks("kept"));
    assert_eq!(c.into_tokens(), Err(ConfigError::DefaultForbidden));
}

#[test]
fn string_default_is_borrowed_and_others_are_not() {
    let mut out = Vec::new();
    assert_eq!(context("default = \"abc\"", "N : String ;").default_value(&mut out), Ok(()));
    assert_eq!(out, toks("& \"abc\""));
    let mut out = Vec::new();
    assert_eq!(context("default = true", "N : bool ;").default_value(&mut out), Ok(()));
    assert_eq!(out, toks("true"));
    let mut out = Vec::new();
    assert_eq!(context("default = & V :: D", "N : V ;").default_value(&mut out), Ok(()));
    assert_eq!(out, toks("& V :: D"));
}

#[test]
fn init_values_of_both_shapes() {
    let c = context("", "const N : Option < bool > ;");
    let fields = brace(cat(vec![
        toks("key :"),
        vec![quoted("N")],
        toks(", parser : rs_envflag :: bool_parser ,"),
    ]));
    let env = cat(vec![toks("rs_envflag :: EnvFlag :: < bool >"), vec![fields]]);
    let mut out = Vec::new();
    assert_eq!(c.init_wo_default(&mut out), Ok(()));
    assert_eq!(out, env);
    let mut out = Vec::new();
    assert_eq!(c.init_value(&mut out), Ok(()));
    assert_eq!(out, env);

    let c = context("default = true", "const N : bool ;");
    let with_default = brace(cat(vec![toks("env :"), env, toks(", default : true ,")]));
    assert_eq!(c.init_w_default(), Ok(with_default.clone()));
    let mut out = Vec::new();
    assert_eq!(c.init_value(&mut out), Ok(()));
    assert_eq!(
        out,
        cat(vec![toks("rs_envflag :: EnvFlagWithDefault :: < bool , bool >"), vec![with_default]])
    );
}

#[test]
fn into_tokens_of_a_context_built_by_hand() {
    let c = FlagContext {
        preamble: toks("pub ( crate ) static"),
        name: "LEVEL".to_string(),
        shape: TypeShape { has_option: true, base_type: toks("i64") },
        config: FlagConfig {
            default: None,
            namespace: Some(toks(":: flags")),
            env_name: Some(quoted("APP_LEVEL")),
            parser: None,
        },
    };
    let expected = cat(vec![
        toks("pub ( crate ) static LEVEL : :: flags :: EnvFlag < i64 > = :: flags :: EnvFlag :: < i64 >"),
        vec![brace(cat(vec![
            toks("key :"),
            vec![quoted("APP_LEVEL")],
            toks(", parser : :: flags :: i64_parser ,"),
        ]))],
        toks(";"),
    ]);
    assert_eq!(c.into_tokens(), Ok(expected));
}
