use console_strip::options::{ErrorFormat, FileIdentity, Options};
use console_strip::pipeline::{convert_err, run, transform, Context, ErrorKind};
use console_strip::transform_sync;

fn code_of(source: &str) -> String {
    transform_sync(source).unwrap().code
}

fn reprinted(source: &str) -> String {
    let context = Context::new();
    let unit = context.register(FileIdentity::Anonymous, source);
    let tree = context.parse(&unit).unwrap();
    context.emit(tree).unwrap().code
}

#[test]
fn test_visitor() {
    let code = r#"
    if (foo) {
        console.log("Foo")
    } else {
        console.log("Bar")
    }"#;
    let c = Context::new();

    let opts: Options = Options::default();

    let result = run(&c, code, &opts).unwrap().code;

    assert_eq!(
        result,
        r#"if (foo) {
    void 0("Foo");
} else {
    void 0("Bar");
}
"#
    )
}

#[test]
fn entry_point_rewrites_the_literal_example() {
    let out = transform_sync("if (foo) {\n    console.log(\"Foo\")\n} else {\n    console.log(\"Bar\")\n}").unwrap();
    assert_eq!(out.code, "if (foo) {\n    void 0(\"Foo\");\n} else {\n    void 0(\"Bar\");\n}\n");
    assert_eq!(out.map, None);
    assert!(out.diagnostics.is_empty());
}

#[test]
fn nested_targets_are_both_rewritten() {
    assert_eq!(code_of("console.log(console.info(\"x\"))"), "void 0(void 0(\"x\"));\n");
}

#[test]
fn computed_property_is_left_alone() {
    assert_eq!(code_of("console[\"log\"](\"x\")"), "console[\"log\"](\"x\");\n");
}

#[test]
fn private_property_is_left_alone() {
    let source = "class A {\n    #p;\n    m() {\n        return console.#p;\n    }\n}\n";
    assert_eq!(code_of(source), source);
}

#[test]
fn shadowing_local_is_rewritten_all_the_same() {
    assert_eq!(
        code_of("let console = { log() {} }; console.log(1);"),
        "let console = {\n    log () {}\n};\nvoid 0(1);\n"
    );
}

#[test]
fn only_the_reserved_name_matches() {
    assert_eq!(code_of("Console.log(1)"), "Console.log(1);\n");
    assert_eq!(code_of("consoles.log(1)"), "consoles.log(1);\n");
    assert_eq!(code_of("log(1)"), "log(1);\n");
    assert_eq!(code_of("foo(console)"), "foo(console);\n");
}

#[test]
fn object_that_is_no_identifier_does_not_match() {
    assert_eq!(code_of("a.console.log(1)"), "a.console.log(1);\n");
    assert_eq!(code_of("f().log(1)"), "f().log(1);\n");
}

#[test]
fn longer_chain_loses_its_first_link_only() {
    assert_eq!(code_of("console.a.b.c(1)"), "void 0.b.c(1);\n");
}

#[test]
fn member_access_is_rewritten_where_it_is_a_value() {
    assert_eq!(code_of("x = console.log"), "x = void 0;\n");
    assert_eq!(code_of("new console.X(1)"), "new void 0(1);\n");
    assert_eq!(
        code_of("import c from 'c'; export default console.log;"),
        "import c from 'c';\nexport default void 0;\n"
    );
}

#[test]
fn arguments_are_kept_and_visited() {
    assert_eq!(code_of("console.log(a, b + 1, \"c\")"), "void 0(a, b + 1, \"c\");\n");
    assert_eq!(
        code_of("const f = () => console.warn(`t ${console.x}`);"),
        "const f = ()=>void 0(`t ${void 0}`);\n"
    );
}

#[test]
fn assignment_target_and_optional_chain_are_no_expressions_of_the_tree() {
    assert_eq!(code_of("console.log = function () {};"), "console.log = function() {};\n");
    assert_eq!(code_of("console?.log(1)"), "console?.log(1);\n");
}

#[test]
fn comments_stay_where_they_were() {
    assert_eq!(
        code_of("/* head */\nconsole.log(1); // c\n/* d */ f(/* in */ console.x)"),
        "/* head */ void 0(1); // c\n/* d */ f(/* in */ void 0);\n"
    );
}

#[test]
fn empty_text_gives_empty_code() {
    assert_eq!(code_of(""), "");
}

#[test]
fn byte_order_mark_is_dropped_on_registration() {
    assert_eq!(code_of("\u{feff}console.log(1)"), "void 0(1);\n");
}

#[test]
fn second_pass_changes_nothing() {
    let sources = [
        "console.log(console.info(\"x\"))",
        "x = console.log",
        "if (foo) { console.log(\"Foo\") } else { console.log(\"Bar\") }",
        "let console = {}; console.log(1); x = console.y",
        "f(1)",
    ];
    for source in sources {
        let once = code_of(source);
        let twice = code_of(&once);
        assert_eq!(twice, once);
    }
}

#[test]
fn text_without_targets_is_printed_as_by_no_rewrite() {
    let sources = [
        "if (foo) { bar(\"Foo\") } else { baz.log(\"Bar\") }",
        "console[\"log\"](\"x\")",
        "const f = (a) => a.console.log(`x ${a}`);",
        "class A { #p; m() { return console.#p; } }",
        "void 0(1)",
        "",
    ];
    for source in sources {
        assert_eq!(code_of(source), reprinted(source));
    }
}

#[test]
fn text_with_a_target_is_not_printed_as_by_no_rewrite() {
    assert_eq!(reprinted("console.log(1)"), "console.log(1);\n");
    assert_eq!(code_of("console.log(1)"), "void 0(1);\n");
}

#[test]
fn apply_hands_back_the_rewritten_tree() {
    let context = Context::new();
    let unit = context.register(FileIdentity::Anonymous, "console.log(1)");
    let tree = context.parse(&unit).unwrap();
    assert_eq!(context.emit(tree).unwrap().code, "console.log(1);\n");
    let tree = context.parse(&unit).unwrap().apply();
    assert_eq!(context.emit(tree).unwrap().code, "void 0(1);\n");
}

#[test]
fn applying_twice_prints_as_applying_once() {
    let sources = [
        "console.log(console.info(\"x\"))",
        "console.a.b.c(1)",
        "a[console.b](console.c, d.console.e)",
        "f(1)",
    ];
    let context = Context::new();
    for source in sources {
        let unit = context.register(FileIdentity::Anonymous, source);
        let once = context.emit(context.parse(&unit).unwrap().apply()).unwrap();
        let twice = context.emit(context.parse(&unit).unwrap().apply().apply()).unwrap();
        assert_eq!(twice, once);
    }
}

#[test]
fn invalid_syntax_is_an_error_in_every_format() {
    let context = Context::new();
    for error_format in [None, Some(ErrorFormat::Normal), Some(ErrorFormat::Json)] {
        for filename in ["", "a/b.js"] {
            let options = Options { filename: filename.to_string(), error_format };
            assert!(run(&context, "if (", &options).is_err());
        }
    }
    assert!(transform_sync("if (").is_err());
}

#[test]
fn parse_failure_has_its_kind() {
    let context = Context::new();
    let unit = context.register(FileIdentity::Anonymous, "if (");
    let failure = transform(&context, &unit).unwrap_err();
    assert_eq!(failure.kind, ErrorKind::Parse);
    let failure = context.parse(&unit).err().unwrap();
    assert_eq!(failure.kind, ErrorKind::Parse);
}

#[test]
fn strict_mode_violation_is_a_parse_failure() {
    let context = Context::new();
    let unit = context.register(FileIdentity::Anonymous, "with (a) {}");
    assert_eq!(transform(&context, &unit).unwrap_err().kind, ErrorKind::Parse);
}

#[test]
fn normal_report_is_text_and_json_report_is_json() {
    let context = Context::new();
    let normal = Options { filename: String::new(), error_format: Some(ErrorFormat::Normal) };
    let report = run(&context, "if (", &normal).unwrap_err();
    assert!(report.contains("failed to process input file"));
    assert!(report.contains("Syntax Error"));
    assert!(!report.starts_with('{'));

    let json = Options { filename: String::new(), error_format: Some(ErrorFormat::Json) };
    let report = run(&context, "if (", &json).unwrap_err();
    assert!(report.starts_with("{\"message\":\""));
    assert!(report.ends_with("\"stack\":[\"failed to process input file\",\"Syntax Error\"]}"));
}

#[test]
fn default_report_is_the_normal_one() {
    let context = Context::new();
    let unit = context.register(FileIdentity::Anonymous, "if (");
    let failure = context.parse(&unit).err().unwrap();
    let options = Options::default();
    assert_eq!(
        convert_err(&failure, options.error_format()),
        convert_err(&failure, ErrorFormat::Normal)
    );
    assert_ne!(
        convert_err(&failure, ErrorFormat::Json),
        convert_err(&failure, ErrorFormat::Normal)
    );
}

#[test]
fn report_names_the_file_if_it_has_a_name() {
    let context = Context::new();
    let named = Options { filename: "a/b.js".to_string(), error_format: None };
    assert!(run(&context, "if (", &named).unwrap_err().contains("a/b.js"));
    let anonymous = Options::default();
    assert!(!run(&context, "if (", &anonymous).unwrap_err().contains("a/b.js"));
}

#[test]
fn registration_takes_any_text_and_keeps_the_identity() {
    let context = Context::new();
    let unit = context.register(FileIdentity::Real("x.js".to_string()), "if (");
    assert_eq!(*unit.identity(), FileIdentity::Real("x.js".to_string()));
    assert_eq!(unit.text(), "if (");
    let unit = context.register(FileIdentity::Anonymous, "\u{0}\u{1}");
    assert_eq!(*unit.identity(), FileIdentity::Anonymous);
    assert_eq!(unit.text(), "\u{0}\u{1}");
}

#[test]
fn registration_keeps_the_text_as_it_was_given() {
    let context = Context::new();
    let unit = context.register(FileIdentity::Anonymous, "\u{feff}console.log(1)\r\n");
    assert_eq!(unit.text(), "\u{feff}console.log(1)\r\n");
    let tree = context.parse(&unit).unwrap();
    assert_eq!(context.emit(tree).unwrap().code, "console.log(1);\n");
}

#[test]
fn one_unit_can_be_parsed_again() {
    let context = Context::new();
    let unit = context.register(FileIdentity::Anonymous, "/* a */ f(); // b\n");
    let first = context.emit(context.parse(&unit).unwrap()).unwrap();
    let second = context.emit(context.parse(&unit).unwrap()).unwrap();
    assert_eq!(first.code, "/* a */ f(); // b\n");
    assert_eq!(second, first);
}

#[test]
fn failure_of_a_stage_is_put_in_its_context() {
    let context = Context::new();
    let unit = context.register(FileIdentity::Anonymous, "if (");
    let failure = transform(&context, &unit).unwrap_err();
    let causes: Vec<String> = failure.error.chain().skip(1).map(|cause| cause.to_string()).collect();
    assert_eq!(causes, vec!["failed to process input file".to_string(), "Syntax Error".to_string()]);
}

#[test]
fn one_context_serves_many_transforms() {
    let context = Context::new();
    let options = Options::default();
    for _ in 0..3 {
        assert_eq!(run(&context, "console.log(1)", &options).unwrap().code, "void 0(1);\n");
    }
    assert!(run(&context, "if (", &options).is_err());
    assert_eq!(run(&context, "console.log(2)", &options).unwrap().code, "void 0(2);\n");
}

#[test]
fn large_text_is_taken() {
    let mut source = String::new();
    let mut expected = String::new();
    for i in 0..5000 {
        source.push_str(&format!("console.log({});\nf({});\n", i, i));
        expected.push_str(&format!("void 0({});\nf({});\n", i, i));
    }
    assert_eq!(code_of(&source), expected);
}
