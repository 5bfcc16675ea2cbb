use accessors_rs::accessors_attr::{is_accessors_path, parse_params, AccessorsAttrData, GetKind};
use accessors_rs::error::{
    combine_syn_errors, invalid_accessors_arg_error_message, invalid_quoted_arg_error_message,
    ACCESSORS_ATTR_DATA_ONLY_TAKE_ACCESSORS_ATTR, EXPECTED_COMMA_ERROR_MESSAGE,
    EXPECTED_IDENTIFIER_ERROR_MESSAGE,
};
use accessors_rs::syntax::{Delimiter, MetaItem, MetaList, Path, Token};
use proc_macro2::Span;

fn params(names: &[&str]) -> Vec<String> {
    names.iter().map(|name| name.to_string()).collect()
}

fn messages(error: syn::Error) -> Vec<String> {
    error.into_iter().map(|message| message.to_string()).collect()
}

fn accessors() -> Path {
    Path { ident: Some("accessors".to_string()), span: Span::call_site() }
}

fn ident(name: &str) -> Token {
    Token::Ident(name.to_string())
}

fn comma() -> Token {
    Token::Punct(',')
}

fn separated(names: &[&str]) -> Vec<Token> {
    let mut tokens = Vec::new();
    for name in names {
        if !tokens.is_empty() {
            tokens.push(comma());
        }
        tokens.push(ident(name));
    }
    tokens
}

fn list(names: &[&str]) -> MetaItem {
    MetaItem::List(MetaList {
        path: accessors(),
        delimiter: Delimiter::Parenthesis,
        nested: separated(names),
        spans: vec![],
    })
}

fn invalid(arg: &str) -> String {
    format!("Invalid arg \"{}\" as input for accessors. Try get, get_copy, get_mut or set.", arg)
}

#[test]
fn default_asks_for_nothing() {
    let data = AccessorsAttrData::default();
    assert_eq!(data, AccessorsAttrData { get: None, get_mut: None, set: None });
}

#[test]
fn merge_takes_the_later_read_mode() {
    let earlier = AccessorsAttrData { get: Some(GetKind::Ref), get_mut: Some(()), set: None };
    let later = AccessorsAttrData { get: Some(GetKind::Copy), get_mut: None, set: None };
    let merged = earlier.merge(&later);
    assert_eq!(merged.get, Some(GetKind::Copy));
    assert_eq!(merged.get_mut, Some(()));
    assert_eq!(merged.set, None);
    let back = later.merge(&earlier);
    assert_eq!(back.get, Some(GetKind::Ref));
}

#[test]
fn merge_keeps_the_earlier_slot_where_the_later_is_silent() {
    let earlier = AccessorsAttrData { get: Some(GetKind::Ref), get_mut: None, set: Some(()) };
    let later = AccessorsAttrData { get: None, get_mut: Some(()), set: None };
    assert_eq!(
        earlier.merge(&later),
        AccessorsAttrData { get: Some(GetKind::Ref), get_mut: Some(()), set: Some(()) }
    );
}

#[test]
fn merge_with_the_default_changes_nothing() {
    let parsed = AccessorsAttrData::from_params(&params(&["get_copy", "set"]), &vec![], Span::call_site()).unwrap();
    assert_eq!(AccessorsAttrData::default().merge(&parsed), parsed);
    assert_eq!(parsed.merge(&AccessorsAttrData::default()), parsed);
}

#[test]
fn merge_is_associative_on_three_sets() {
    let first = AccessorsAttrData { get: Some(GetKind::Ref), get_mut: None, set: Some(()) };
    let second = AccessorsAttrData { get: Some(GetKind::Copy), get_mut: None, set: None };
    let third = AccessorsAttrData { get: None, get_mut: Some(()), set: None };
    assert_eq!(first.merge(&second).merge(&third), first.merge(&second.merge(&third)));
}

#[test]
fn from_params_reads_each_word_of_the_vocabulary() {
    assert_eq!(
        AccessorsAttrData::from_params(&params(&["get"]), &vec![], Span::call_site()).unwrap(),
        AccessorsAttrData { get: Some(GetKind::Ref), get_mut: None, set: None }
    );
    assert_eq!(
        AccessorsAttrData::from_params(&params(&["get_copy"]), &vec![], Span::call_site()).unwrap(),
        AccessorsAttrData { get: Some(GetKind::Copy), get_mut: None, set: None }
    );
    assert_eq!(
        AccessorsAttrData::from_params(&params(&["get_mut"]), &vec![], Span::call_site()).unwrap(),
        AccessorsAttrData { get: None, get_mut: Some(()), set: None }
    );
    assert_eq!(
        AccessorsAttrData::from_params(&params(&["set"]), &vec![], Span::call_site()).unwrap(),
        AccessorsAttrData { get: None, get_mut: None, set: Some(()) }
    );
}

#[test]
fn from_params_of_nothing_is_the_default() {
    assert_eq!(
        AccessorsAttrData::from_params(&params(&[]), &vec![], Span::call_site()).unwrap(),
        AccessorsAttrData::default()
    );
}

#[test]
fn from_params_lets_the_last_read_mode_win() {
    let data = AccessorsAttrData::from_params(&params(&["get", "get_copy"]), &vec![], Span::call_site()).unwrap();
    assert_eq!(data.get, Some(GetKind::Copy));
    let data = AccessorsAttrData::from_params(&params(&["get_copy", "set", "get"]), &vec![], Span::call_site()).unwrap();
    assert_eq!(data, AccessorsAttrData { get: Some(GetKind::Ref), get_mut: None, set: Some(()) });
}

#[test]
fn from_params_names_the_invalid_token() {
    let error = AccessorsAttrData::from_params(&params(&["foo"]), &vec![], Span::call_site()).unwrap_err();
    assert_eq!(
        error.to_string(),
        "Invalid arg \"foo\" as input for accessors. Try get, get_copy, get_mut or set."
    );
    assert_eq!(messages(error), vec![invalid("foo")]);
}

#[test]
fn from_params_reports_every_invalid_token() {
    let error =
        AccessorsAttrData::from_params(&params(&["foo", "get", "bar", "set"]), &vec![], Span::call_site()).unwrap_err();
    assert_eq!(messages(error), vec![invalid("foo"), invalid("bar")]);
}

#[test]
fn from_params_tells_words_apart_by_case_and_prefix() {
    let error = AccessorsAttrData::from_params(&params(&["Get", "get_", "r#get"]), &vec![], Span::call_site()).unwrap_err();
    assert_eq!(messages(error), vec![invalid("Get"), invalid("get_"), invalid("r#get")]);
}

#[test]
fn try_from_reads_the_list_form() {
    let data = AccessorsAttrData::try_from(list(&["get", "get_mut", "set"])).unwrap();
    assert_eq!(
        data,
        AccessorsAttrData { get: Some(GetKind::Ref), get_mut: Some(()), set: Some(()) }
    );
}

#[test]
fn try_from_rejects_an_attribute_without_arguments() {
    let error = AccessorsAttrData::try_from(MetaItem::Path(accessors())).unwrap_err();
    assert_eq!(messages(error), vec![ACCESSORS_ATTR_DATA_ONLY_TAKE_ACCESSORS_ATTR.to_string()]);
}

#[test]
fn try_from_rejects_the_key_value_form() {
    let error = AccessorsAttrData::try_from(MetaItem::NameValue(accessors())).unwrap_err();
    assert_eq!(messages(error), vec![ACCESSORS_ATTR_DATA_ONLY_TAKE_ACCESSORS_ATTR.to_string()]);
}

#[test]
fn try_from_rejects_a_list_under_another_path() {
    let other = MetaItem::List(MetaList {
        path: Path { ident: Some("serde".to_string()), span: Span::call_site() },
        delimiter: Delimiter::Parenthesis,
        nested: separated(&["get"]),
        spans: vec![],
    });
    let error = AccessorsAttrData::try_from(other).unwrap_err();
    assert_eq!(messages(error), vec![ACCESSORS_ATTR_DATA_ONLY_TAKE_ACCESSORS_ATTR.to_string()]);
    let longer = MetaItem::List(MetaList {
        path: Path { ident: None, span: Span::call_site() },
        delimiter: Delimiter::Parenthesis,
        nested: vec![],
        spans: vec![],
    });
    let error = AccessorsAttrData::try_from(longer).unwrap_err();
    assert_eq!(messages(error), vec![ACCESSORS_ATTR_DATA_ONLY_TAKE_ACCESSORS_ATTR.to_string()]);
}

#[test]
fn try_from_rejects_a_list_between_other_delimiters() {
    for delimiter in [Delimiter::Brace, Delimiter::Bracket] {
        let other =
            MetaItem::List(MetaList {
            path: accessors(),
            delimiter,
            nested: separated(&["get"]),
            spans: vec![],
        });
        let error = AccessorsAttrData::try_from(other).unwrap_err();
        assert_eq!(
            messages(error),
            vec![ACCESSORS_ATTR_DATA_ONLY_TAKE_ACCESSORS_ATTR.to_string()]
        );
    }
}

#[test]
fn try_from_rejects_arguments_that_are_no_list_of_identifiers() {
    let broken = MetaItem::List(MetaList {
        path: accessors(),
        delimiter: Delimiter::Parenthesis,
        nested: vec![ident("get"), ident("set")],
        spans: vec![],
    });
    let error = AccessorsAttrData::try_from(broken).unwrap_err();
    assert_eq!(messages(error), vec!["expected `,`".to_string()]);
    let broken = MetaItem::List(MetaList {
        path: accessors(),
        delimiter: Delimiter::Parenthesis,
        nested: vec![Token::Literal],
        spans: vec![],
    });
    let error = AccessorsAttrData::try_from(broken).unwrap_err();
    assert_eq!(messages(error), vec!["expected identifier".to_string()]);
}

#[test]
fn try_from_reports_the_list_before_the_vocabulary() {
    let broken = MetaItem::List(MetaList {
        path: accessors(),
        delimiter: Delimiter::Parenthesis,
        nested: vec![ident("foo"), comma(), ident("bar"), Token::Group],
        spans: vec![],
    });
    let error = AccessorsAttrData::try_from(broken).unwrap_err();
    assert_eq!(messages(error), vec!["expected `,`".to_string()]);
}

#[test]
fn parse_params_reads_identifiers_between_commas() {
    assert_eq!(parse_params(vec![], &vec![], Span::call_site()).unwrap().0, Vec::<String>::new());
    assert_eq!(parse_params(vec![ident("get")], &vec![], Span::call_site()).unwrap().0, params(&["get"]));
    assert_eq!(parse_params(vec![ident("get"), comma()], &vec![], Span::call_site()).unwrap().0, params(&["get"]));
    assert_eq!(
        parse_params(vec![ident("get"), comma(), ident("foo"), comma(), ident("set")], &vec![], Span::call_site()).unwrap().0,
        params(&["get", "foo", "set"])
    );
    assert_eq!(
        parse_params(vec![ident("a"), comma(), ident("b"), comma()], &vec![], Span::call_site()).unwrap().0,
        params(&["a", "b"])
    );
}

#[test]
fn parse_params_expects_an_identifier_at_even_places() {
    for tokens in [
        vec![comma()],
        vec![Token::Literal],
        vec![Token::Group],
        vec![Token::Punct('+')],
        vec![ident("get"), comma(), comma()],
        vec![ident("get"), comma(), Token::Literal, ident("set")],
    ] {
        let error = parse_params(tokens, &vec![], Span::call_site()).unwrap_err();
        assert_eq!(messages(error), vec![EXPECTED_IDENTIFIER_ERROR_MESSAGE.to_string()]);
    }
    assert_eq!(EXPECTED_IDENTIFIER_ERROR_MESSAGE, "expected identifier");
}

#[test]
fn parse_params_expects_a_comma_at_odd_places() {
    for tokens in [
        vec![ident("get"), ident("set")],
        vec![ident("get"), Token::Punct(';'), ident("set")],
        vec![ident("a"), Token::Punct(':'), Token::Punct(':'), ident("b")],
        vec![ident("get"), Token::Group],
        vec![ident("get"), Token::Punct('='), Token::Literal],
        vec![ident("get"), comma(), ident("set"), Token::Literal, comma()],
    ] {
        let error = parse_params(tokens, &vec![], Span::call_site()).unwrap_err();
        assert_eq!(messages(error), vec![EXPECTED_COMMA_ERROR_MESSAGE.to_string()]);
    }
    assert_eq!(EXPECTED_COMMA_ERROR_MESSAGE, "expected `,`");
}

#[test]
fn parse_params_stops_at_the_first_token_out_of_place() {
    let error = parse_params(vec![ident("a"), ident("b"), comma(), comma()], &vec![], Span::call_site()).unwrap_err();
    assert_eq!(messages(error), vec!["expected `,`".to_string()]);
    let error = parse_params(vec![Token::Literal, ident("b")], &vec![], Span::call_site()).unwrap_err();
    assert_eq!(messages(error), vec!["expected identifier".to_string()]);
}

#[test]
fn is_accessors_path_knows_the_marker_only() {
    assert!(is_accessors_path(&accessors()));
    assert!(!is_accessors_path(&Path { ident: Some("accessor".to_string()), span: Span::call_site() }));
    assert!(!is_accessors_path(&Path { ident: Some("Accessors".to_string()), span: Span::call_site() }));
    assert!(!is_accessors_path(&Path { ident: Some("doc".to_string()), span: Span::call_site() }));
    assert!(!is_accessors_path(&Path { ident: None, span: Span::call_site() }));
}

#[test]
fn invalid_arg_message_quotes_the_argument() {
    assert_eq!(
        invalid_accessors_arg_error_message("foo"),
        "Invalid arg \"foo\" as input for accessors. Try get, get_copy, get_mut or set."
    );
    assert_eq!(
        invalid_accessors_arg_error_message("a\"b\\c"),
        "Invalid arg \"a\\\"b\\\\c\" as input for accessors. Try get, get_copy, get_mut or set."
    );
    assert_eq!(
        invalid_accessors_arg_error_message(""),
        "Invalid arg \"\" as input for accessors. Try get, get_copy, get_mut or set."
    );
}

#[test]
fn invalid_arg_message_lists_the_vocabulary() {
    let message = invalid_accessors_arg_error_message("foo");
    for word in ["get", "get_copy", "get_mut", "set"] {
        assert!(message.contains(word));
    }
}

#[test]
fn invalid_quoted_arg_message_takes_the_argument_as_it_is() {
    assert_eq!(
        invalid_quoted_arg_error_message("<foo>"),
        "Invalid arg <foo> as input for accessors. Try get, get_copy, get_mut or set."
    );
}

#[test]
fn combine_keeps_every_value_in_order() {
    let results: Vec<Result<u32, syn::Error>> = vec![Ok(3), Ok(1), Ok(2)];
    assert_eq!(combine_syn_errors(results).unwrap(), vec![3, 1, 2]);
    let nothing: Vec<Result<u32, syn::Error>> = vec![];
    assert_eq!(combine_syn_errors(nothing).unwrap(), Vec::<u32>::new());
}

#[test]
fn combine_keeps_every_message_in_order() {
    let mut twice = syn::Error::new(Span::call_site(), "second");
    twice.combine(syn::Error::new(Span::call_site(), "third"));
    let results: Vec<Result<u32, syn::Error>> = vec![
        Ok(1),
        Err(syn::Error::new(Span::call_site(), "first")),
        Ok(2),
        Err(twice),
        Err(syn::Error::new(Span::call_site(), "fourth")),
    ];
    let error = combine_syn_errors(results).unwrap_err();
    assert_eq!(error.to_string(), "first");
    assert_eq!(
        messages(error),
        vec!["first".to_string(), "second".to_string(), "third".to_string(), "fourth".to_string()]
    );
}
