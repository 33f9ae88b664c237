use instrumented_core::annotation::{
    key_named, level_of_parsed, Fault, FaultKind, Format, Key, NamedOptions, Options,
};
use instrumented_core::codegen::{
    generate_function, get_logger_token, instrument, level_path, write_log_statement,
    FormattedAttributes,
};
use instrumented_core::function::{
    check_if_return_result, is_result_type, make_closure, replace_function_headers, ExprClosure,
    ItemFn, ReturnType, Type, TypePath,
};
use instrumented_core::literal::quote_string;
use instrumented_core::syntax::{Ident, Lit, LitKind, Meta, NestedMeta};

fn ident(text: &str) -> Ident {
    Ident::new(text).unwrap()
}

fn word(text: &str) -> NestedMeta {
    NestedMeta::Meta(Meta::Word(ident(text)))
}

fn name_value(name: &str, value: &str) -> NestedMeta {
    NestedMeta::Meta(Meta::NameValue(ident(name), Lit::Str(value.to_string())))
}

fn list(name: &str, items: Vec<NestedMeta>) -> NestedMeta {
    NestedMeta::Meta(Meta::List(ident(name), items))
}

fn type_path(text: &str) -> TypePath {
    let parsed: syn::TypePath = syn::parse_str(text).unwrap();
    let segments = parsed
        .path
        .segments
        .iter()
        .map(|segment| ident(&segment.ident.to_string()))
        .collect();
    TypePath { segments }
}

fn function(header: &str, name: &str, output: ReturnType, block: &str) -> ItemFn {
    ItemFn {
        header: header.to_string(),
        ident: ident(name),
        output,
        block: block.to_string(),
    }
}

fn fault(kind: FaultKind, item: usize) -> Fault {
    Fault { kind, item }
}

fn fallible_block(name: &str, ctx: &str, closure: &str, ok_expr: &str, err_expr: &str) -> String {
    format!(
        "{{ ::instrumented::inc_called_counter_for({n}, {c}); \
         ::instrumented::inc_inflight_for({n}, {c}); \
         let timer = ::instrumented::get_timer_for({n}, {c}); \
         ({closure})().map(|result| {{ {ok}; ::instrumented::dec_inflight_for({n}, {c}); result }})\
         .map_err(|err| {{ {err}; \
         ::instrumented::inc_error_counter_for({n}, {c}, format!(\"{{:?}}\", err)); \
         ::instrumented::dec_inflight_for({n}, {c}); err }}) }}",
        n = name,
        c = ctx,
        closure = closure,
        ok = ok_expr,
        err = err_expr,
    )
}

fn infallible_block(name: &str, ctx: &str, closure: &str, ok_expr: &str) -> String {
    format!(
        "{{ ::instrumented::inc_called_counter_for({n}, {c}); \
         ::instrumented::inc_inflight_for({n}, {c}); \
         let timer = ::instrumented::get_timer_for({n}, {c}); \
         let result = ({closure})(); {ok}; ::instrumented::dec_inflight_for({n}, {c}); result }}",
        n = name,
        c = ctx,
        closure = closure,
        ok = ok_expr,
    )
}

#[test]
fn result_type() {
    assert!(is_result_type(&type_path("Result<T, E>")));
    assert!(is_result_type(&type_path("std::result::Result<T, E>")));
    assert!(is_result_type(&type_path("fmt::Result")));
}

#[test]
fn other_types_are_no_result() {
    assert!(!is_result_type(&type_path("Option<T>")));
    assert!(!is_result_type(&type_path("Result::Inner")));
    assert!(!is_result_type(&type_path("result")));
    assert!(!is_result_type(&TypePath { segments: Vec::new() }));
}

#[test]
fn return_type_decides_fallibility() {
    let fallible = function(
        "fn f() -> io::Result<()>",
        "f",
        ReturnType::Type(Type::Path(type_path("io::Result<()>"))),
        "{ Ok(()) }",
    );
    assert!(check_if_return_result(&fallible));
    let unit = function("fn f()", "f", ReturnType::Default, "{ }");
    assert!(!check_if_return_result(&unit));
    let reference = function("fn f() -> &'static str", "f", ReturnType::Type(Type::Other), "{ \"\" }");
    assert!(!check_if_return_result(&reference));
    let plain = function(
        "fn f() -> String",
        "f",
        ReturnType::Type(Type::Path(type_path("String"))),
        "{ String::new() }",
    );
    assert!(!check_if_return_result(&plain));
}

#[test]
fn ident_is_never_empty() {
    assert!(Ident::new("").is_none());
    let made = ident("level");
    assert_eq!(made.as_str(), "level");
    assert!(made.is("level"));
    assert!(!made.is("Level"));
    assert_eq!(made.duplicate().as_str(), "level");
}

#[test]
fn literal_kinds() {
    assert_eq!(Lit::Str("x".to_string()).kind(), LitKind::Str);
    assert_eq!(Lit::Bool(true).kind(), LitKind::Bool);
    assert_eq!(Lit::Int.kind(), LitKind::Int);
    assert_eq!(Lit::Float.kind(), LitKind::Float);
    assert_eq!(Lit::Char.kind(), LitKind::Char);
    assert_eq!(Lit::Byte.kind(), LitKind::Byte);
    assert_eq!(Lit::ByteStr.kind(), LitKind::ByteStr);
    assert_eq!(Lit::Verbatim.kind(), LitKind::Verbatim);
}

#[test]
fn meta_names() {
    assert_eq!(Meta::Word(ident("INFO")).name(), "INFO");
    assert_eq!(Meta::NameValue(ident("ctx"), Lit::Int).name(), "ctx");
    assert_eq!(Meta::List(ident("fmt"), Vec::new()).name(), "fmt");
}

#[test]
fn logger_token_capitalises() {
    assert_eq!(get_logger_token(&ident("INFO")), "log::Level::Info");
    assert_eq!(get_logger_token(&ident("warn")), "log::Level::Warn");
    assert_eq!(get_logger_token(&ident("dEbUg")), "log::Level::Debug");
    assert_eq!(get_logger_token(&ident("e")), "log::Level::E");
    assert_eq!(get_logger_token(&ident("\u{df}x")), "log::Level::SSx");
}

#[test]
fn level_path_joins_its_parts() {
    assert_eq!(level_path("I", "nfo"), "log::Level::Info");
    assert_eq!(level_path("", ""), "log::Level::");
}

#[test]
fn quote_string_escapes() {
    assert_eq!(quote_string(""), "\"\"");
    assert_eq!(quote_string("default"), "\"default\"");
    assert_eq!(quote_string("f() => {:?}"), "\"f() => {:?}\"");
    assert_eq!(quote_string("it's"), "\"it's\"");
    assert_eq!(quote_string("a\"b\\c"), "\"a\\\"b\\\\c\"");
    assert_eq!(quote_string("\n\r\t"), "\"\\n\\r\\t\"");
    assert_eq!(quote_string("\u{0}"), "\"\\u{0}\"");
    assert_eq!(quote_string("\u{7f}"), "\"\\u{7f}\"");
    assert_eq!(quote_string("\u{e9}"), "\"\\u{e9}\"");
    assert_eq!(quote_string("\u{10ffff}"), "\"\\u{10ffff}\"");
    assert_eq!(quote_string(" ~"), "\" ~\"");
}

#[test]
fn quoted_string_reads_back() {
    for text in ["plain", "a\"b\\c", "\n\r\t\u{0}", "caf\u{e9} \u{1f600}", "{:?}"] {
        let parsed: syn::LitStr = syn::parse_str(&quote_string(text)).unwrap();
        assert_eq!(parsed.value(), text);
    }
}

#[test]
fn keys_and_their_names() {
    for key in [Key::OkLevel, Key::ErrLevel, Key::Fmt, Key::Ctx] {
        assert_eq!(key_named(key.name()), Some(key));
    }
    assert_eq!(Key::OkLevel.name(), "ok");
    assert_eq!(Key::ErrLevel.name(), "err");
    assert_eq!(Key::Fmt.name(), "fmt");
    assert_eq!(Key::Ctx.name(), "ctx");
    assert_eq!(key_named("OK"), None);
    assert_eq!(key_named(""), None);
    assert_eq!(key_named("ctx "), None);
}

#[test]
fn level_of_a_parsed_string() {
    let level = level_of_parsed(Key::OkLevel, Some("info".to_string())).unwrap();
    assert_eq!(level.as_str(), "info");
    assert_eq!(
        level_of_parsed(Key::ErrLevel, None).unwrap_err(),
        FaultKind::UnknownValue(Key::ErrLevel)
    );
    assert_eq!(
        level_of_parsed(Key::OkLevel, Some(String::new())).unwrap_err(),
        FaultKind::UnknownValue(Key::OkLevel)
    );
}

#[test]
fn empty_list_is_rejected() {
    let faults = Options::from_list(&[]).unwrap_err();
    assert_eq!(faults, vec![fault(FaultKind::TooFewItems(1), 0)]);
}

#[test]
fn leading_level_sets_both() {
    let options = Options::from_list(&[word("INFO")]).unwrap();
    assert_eq!(options.leading_level.as_ref().unwrap().as_str(), "INFO");
    assert_eq!(options.ok_log().unwrap().as_str(), "INFO");
    assert_eq!(options.err_log().unwrap().as_str(), "INFO");
    assert_eq!(get_logger_token(options.ok_log().unwrap()), "log::Level::Info");
    assert_eq!(get_logger_token(options.err_log().unwrap()), "log::Level::Info");
    assert!(options.fmt().is_none());
    assert!(options.ctx().is_none());
}

#[test]
fn context_alone_is_valid() {
    let options = Options::from_list(&[name_value("ctx", "x")]).unwrap();
    assert_eq!(options.ctx(), Some("x"));
    assert!(options.leading_level.is_none());
    assert!(options.ok_log().is_none());
    assert!(options.err_log().is_none());
    assert!(options.fmt().is_none());
}

#[test]
fn context_in_parentheses_is_valid() {
    let items = [list("ctx", vec![NestedMeta::Literal(Lit::Str("x".to_string()))])];
    let options = Options::from_list(&items).unwrap();
    assert_eq!(options.ctx(), Some("x"));
    assert!(options.ok_log().is_none());
    assert!(options.err_log().is_none());
}

#[test]
fn named_levels_override_the_leading_one() {
    let items = [word("INFO"), name_value("ok", "debug"), name_value("ctx", "special")];
    let options = Options::from_list(&items).unwrap();
    assert_eq!(options.ok_log().unwrap().as_str(), "debug");
    assert_eq!(options.err_log().unwrap().as_str(), "INFO");
    assert_eq!(options.ctx(), Some("special"));
    let items = [word("WARN"), name_value("err", "error"), name_value("fmt", "got {:?}")];
    let options = Options::from_list(&items).unwrap();
    assert_eq!(options.ok_log().unwrap().as_str(), "WARN");
    assert_eq!(options.err_log().unwrap().as_str(), "error");
    assert_eq!(options.fmt(), Some("got {:?}"));
}

#[test]
fn named_level_without_leading_one() {
    let options = Options::from_list(&[name_value("err", "warn")]).unwrap();
    assert!(options.leading_level.is_none());
    assert!(options.ok_log().is_none());
    assert_eq!(options.err_log().unwrap().as_str(), "warn");
}

#[test]
fn first_bare_name_is_the_level_whatever_it_is() {
    let options = Options::from_list(&[word("ctx")]).unwrap();
    assert_eq!(options.leading_level.as_ref().unwrap().as_str(), "ctx");
    assert!(options.ctx().is_none());
}

#[test]
fn unknown_key_is_rejected() {
    let faults = Options::from_list(&[word("INFO"), name_value("context", "x")]).unwrap_err();
    assert_eq!(faults, vec![fault(FaultKind::UnknownField, 1)]);
    let faults = Options::from_list(&[name_value("level", "info")]).unwrap_err();
    assert_eq!(faults, vec![fault(FaultKind::UnknownField, 0)]);
}

#[test]
fn duplicate_key_is_rejected() {
    let items = [name_value("ctx", "a"), name_value("ctx", "b")];
    let faults = Options::from_list(&items).unwrap_err();
    assert_eq!(faults, vec![fault(FaultKind::DuplicateField(Key::Ctx), 1)]);
}

#[test]
fn value_of_the_wrong_shape_is_rejected() {
    let items = [NestedMeta::Meta(Meta::NameValue(ident("ctx"), Lit::Int))];
    assert_eq!(
        Options::from_list(&items).unwrap_err(),
        vec![fault(FaultKind::UnexpectedType(Key::Ctx, LitKind::Int), 0)]
    );
    let items = [NestedMeta::Meta(Meta::NameValue(ident("fmt"), Lit::Bool(true)))];
    assert_eq!(
        Options::from_list(&items).unwrap_err(),
        vec![fault(FaultKind::UnexpectedType(Key::Fmt, LitKind::Bool), 0)]
    );
    let items = [NestedMeta::Meta(Meta::NameValue(ident("ok"), Lit::Char))];
    assert_eq!(
        Options::from_list(&items).unwrap_err(),
        vec![fault(FaultKind::UnexpectedType(Key::OkLevel, LitKind::Char), 0)]
    );
    let items = [word("INFO"), word("err")];
    assert_eq!(
        Options::from_list(&items).unwrap_err(),
        vec![fault(FaultKind::UnexpectedFormat(Key::ErrLevel, Format::Word), 1)]
    );
    let items = [list("ctx", Vec::new())];
    assert_eq!(
        Options::from_list(&items).unwrap_err(),
        vec![fault(FaultKind::UnexpectedFormat(Key::Ctx, Format::List), 0)]
    );
    let two = vec![
        NestedMeta::Literal(Lit::Str("a".to_string())),
        NestedMeta::Literal(Lit::Str("b".to_string())),
    ];
    assert_eq!(
        Options::from_list(&[list("ctx", two)]).unwrap_err(),
        vec![fault(FaultKind::UnexpectedFormat(Key::Ctx, Format::List), 0)]
    );
    assert_eq!(
        Options::from_list(&[list("ctx", vec![word("x")])]).unwrap_err(),
        vec![fault(FaultKind::UnexpectedFormat(Key::Ctx, Format::List), 0)]
    );
}

#[test]
fn level_that_is_no_identifier_is_rejected() {
    for text in ["not an ident", "", "1st", "fn", "a-b"] {
        let faults = Options::from_list(&[name_value("ok", text)]).unwrap_err();
        assert_eq!(faults, vec![fault(FaultKind::UnknownValue(Key::OkLevel), 0)]);
    }
    let options = Options::from_list(&[name_value("err", " info ")]).unwrap();
    assert_eq!(options.err_log().unwrap().as_str(), "info");
}

#[test]
fn all_faults_come_in_order() {
    let items = [
        word("INFO"),
        name_value("nope", "x"),
        name_value("ctx", "a"),
        NestedMeta::Meta(Meta::NameValue(ident("fmt"), Lit::Float)),
        name_value("ctx", "b"),
        name_value("fmt", "again"),
    ];
    assert_eq!(
        Options::from_list(&items).unwrap_err(),
        vec![
            fault(FaultKind::UnknownField, 1),
            fault(FaultKind::UnexpectedType(Key::Fmt, LitKind::Float), 3),
            fault(FaultKind::DuplicateField(Key::Ctx), 4),
            fault(FaultKind::DuplicateField(Key::Fmt), 5),
        ]
    );
}

#[test]
fn bare_literal_is_passed_over() {
    let items = [word("INFO"), NestedMeta::Literal(Lit::Int), name_value("ctx", "x")];
    let options = Options::from_list(&items).unwrap();
    assert_eq!(options.ctx(), Some("x"));
}

#[test]
fn named_options_take_no_leading_level() {
    let named = NamedOptions::from_list(&[]).unwrap();
    assert!(named.ok.is_none() && named.err.is_none() && named.fmt.is_none() && named.ctx.is_none());
    let named = NamedOptions::default();
    assert!(named.ok.is_none() && named.err.is_none() && named.fmt.is_none() && named.ctx.is_none());
    let faults = NamedOptions::from_list(&[word("INFO")]).unwrap_err();
    assert_eq!(faults, vec![fault(FaultKind::UnknownField, 0)]);
    let named = NamedOptions::from_list(&[name_value("ok", "info"), name_value("fmt", "m")]).unwrap();
    assert_eq!(named.ok.unwrap().as_str(), "info");
    assert_eq!(named.fmt.as_deref(), Some("m"));
}

#[test]
fn log_statement_text() {
    assert_eq!(
        write_log_statement("log::Level::Info", "\"f() => {:?}\"", "result"),
        "log::log!(log::Level::Info, \"f() => {:?}\", result);"
    );
}

#[test]
fn attributes_are_formatted() {
    let formatted =
        FormattedAttributes::parse_attributes(&[word("INFO")], "f() => {:?}", "default").unwrap();
    assert_eq!(formatted.ok_expr, "log::log!(log::Level::Info, \"f() => {:?}\", result);");
    assert_eq!(formatted.err_expr, "log::log!(log::Level::Info, \"f() => {:?}\", err);");
    assert_eq!(formatted.ctx, "default");

    let items = [name_value("ctx", "x")];
    let formatted = FormattedAttributes::parse_attributes(&items, "f() => {:?}", "default").unwrap();
    assert_eq!(formatted.ok_expr, "()");
    assert_eq!(formatted.err_expr, "()");
    assert_eq!(formatted.ctx, "x");

    let items = [name_value("err", "WARN"), name_value("fmt", "say \"{:?}\"")];
    let formatted = FormattedAttributes::parse_attributes(&items, "f() => {:?}", "default").unwrap();
    assert_eq!(formatted.ok_expr, "()");
    assert_eq!(formatted.err_expr, "log::log!(log::Level::Warn, \"say \\\"{:?}\\\"\", err);");

    let faults = FormattedAttributes::parse_attributes(&[], "f() => {:?}", "default").unwrap_err();
    assert_eq!(faults, vec![fault(FaultKind::TooFewItems(1), 0)]);
}

#[test]
fn streams_follow_the_options() {
    let options = Options::from_list(&[word("DEBUG"), name_value("ok", "trace")]).unwrap();
    let formatted = FormattedAttributes::get_ok_err_streams(&options, "g() => {:?}", "default");
    assert_eq!(formatted.ok_expr, "log::log!(log::Level::Trace, \"g() => {:?}\", result);");
    assert_eq!(formatted.err_expr, "log::log!(log::Level::Debug, \"g() => {:?}\", err);");
    assert_eq!(formatted.ctx, "default");
}

#[test]
fn closure_takes_the_body_by_move() {
    let item = function("pub fn f(x: u8) -> u8", "f", ReturnType::Type(Type::Other), "{ x + 1 }");
    let closure = make_closure(&item);
    assert!(closure.capture);
    assert_eq!(closure.body, "{ x + 1 }");
    assert_eq!(closure.source(), "move || { x + 1 }");
    let borrowed = ExprClosure { capture: false, body: "{ 1 }".to_string() };
    assert_eq!(borrowed.source(), "|| { 1 }");
}

#[test]
fn headers_are_replaced_and_the_block_is_kept() {
    let kept = function(
        "#[inline] pub fn f(x: u8) -> Result<u8, E>",
        "f",
        ReturnType::Type(Type::Path(type_path("Result<u8, E>"))),
        "{ Ok(x) }",
    );
    let mut new = function("fn temp()", "temp", ReturnType::Default, "{ wrapped }");
    replace_function_headers(kept, &mut new);
    assert_eq!(new.header, "#[inline] pub fn f(x: u8) -> Result<u8, E>");
    assert_eq!(new.ident.as_str(), "f");
    assert!(check_if_return_result(&new));
    assert_eq!(new.block, "{ wrapped }");
    assert_eq!(new.source(), "#[inline] pub fn f(x: u8) -> Result<u8, E> { wrapped }");
}

#[test]
fn generated_function_for_a_fallible_body() {
    let closure = ExprClosure { capture: true, body: "{ run() }".to_string() };
    let expressions = FormattedAttributes {
        ok_expr: "()".to_string(),
        err_expr: "log::log!(log::Level::Warn, \"m\", err);".to_string(),
        ctx: "site \"a\"".to_string(),
    };
    let generated = generate_function(&closure, &expressions, true, "f".to_string());
    assert_eq!(generated.header, "fn temp()");
    assert_eq!(generated.ident.as_str(), "temp");
    assert!(!check_if_return_result(&generated));
    assert_eq!(
        generated.block,
        fallible_block(
            "\"f\"",
            "\"site \\\"a\\\"\"",
            "move || { run() }",
            "()",
            "log::log!(log::Level::Warn, \"m\", err);"
        )
    );
}

#[test]
fn generated_function_for_an_infallible_body() {
    let closure = ExprClosure { capture: true, body: "{ run() }".to_string() };
    let expressions = FormattedAttributes {
        ok_expr: "log::log!(log::Level::Info, \"m\", result);".to_string(),
        err_expr: "never used".to_string(),
        ctx: "default".to_string(),
    };
    let generated = generate_function(&closure, &expressions, false, "my_func".to_string());
    assert_eq!(
        generated.block,
        infallible_block(
            "\"my_func\"",
            "\"default\"",
            "move || { run() }",
            "log::log!(log::Level::Info, \"m\", result);"
        )
    );
    assert!(!generated.block.contains("inc_error_counter_for"));
    assert!(!generated.block.contains("never used"));
}

#[test]
fn instrument_wraps_a_fallible_function() {
    let item = function(
        "fn my_func_with_err_result() -> Result<String, crate::MyError>",
        "my_func_with_err_result",
        ReturnType::Type(Type::Path(type_path("Result<String, crate::MyError>"))),
        "{ Err(crate::MyError) }",
    );
    let attr = [word("INFO"), name_value("ctx", "my_context")];
    let rewritten = instrument(&attr, item).unwrap();
    assert_eq!(rewritten.header, "fn my_func_with_err_result() -> Result<String, crate::MyError>");
    assert_eq!(rewritten.ident.as_str(), "my_func_with_err_result");
    assert!(check_if_return_result(&rewritten));
    assert_eq!(
        rewritten.block,
        fallible_block(
            "\"my_func_with_err_result\"",
            "\"my_context\"",
            "move || { Err(crate::MyError) }",
            "log::log!(log::Level::Info, \"my_func_with_err_result() => {:?}\", result);",
            "log::log!(log::Level::Info, \"my_func_with_err_result() => {:?}\", err);"
        )
    );
}

#[test]
fn instrument_wraps_an_infallible_function() {
    let item = function("pub fn my_func()", "my_func", ReturnType::Default, "{ work(); }");
    let rewritten = instrument(&[name_value("ctx", "x")], item).unwrap();
    assert_eq!(rewritten.header, "pub fn my_func()");
    assert_eq!(
        rewritten.block,
        infallible_block("\"my_func\"", "\"x\"", "move || { work(); }", "()")
    );
}

#[test]
fn instrument_never_falls_back_on_defaults() {
    let item = function("fn f()", "f", ReturnType::Default, "{ }");
    assert_eq!(instrument(&[], item).unwrap_err(), vec![fault(FaultKind::TooFewItems(1), 0)]);
    let item = function("fn f()", "f", ReturnType::Default, "{ }");
    assert_eq!(
        instrument(&[word("INFO"), name_value("colour", "red")], item).unwrap_err(),
        vec![fault(FaultKind::UnknownField, 1)]
    );
}

#[test]
fn emitted_source_is_a_function() {
    let item = function(
        "pub fn f(input: &str) -> Result<String, MyError>",
        "f",
        ReturnType::Type(Type::Path(type_path("Result<String, MyError>"))),
        "{ Ok(input.to_string()) }",
    );
    let attr = [word("INFO"), name_value("fmt", "f said \"{:?}\""), name_value("ctx", "a\\b")];
    let rewritten = instrument(&attr, item).unwrap();
    let parsed: syn::ItemFn = syn::parse_str(&rewritten.source()).unwrap();
    assert_eq!(parsed.ident.to_string(), "f");
    assert_eq!(parsed.block.stmts.len(), 4);

    let item = function("fn g()", "g", ReturnType::Default, "{ }");
    let rewritten = instrument(&[word("WARN")], item).unwrap();
    let parsed: syn::ItemFn = syn::parse_str(&rewritten.source()).unwrap();
    assert_eq!(parsed.block.stmts.len(), 7);
}
