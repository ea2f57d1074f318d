use host_bridge::options::{
    build_and_validate, convert_prettier_options_to_format_options, parse_line_ending,
    IndentStyle, LineEnding, QuoteStyle, RawNumber, RawValue, Semicolons,
};

fn object(fields: Vec<(&str, RawValue)>) -> RawValue {
    RawValue::Object(fields.into_iter().map(|(k, v)| (k.to_string(), v)).collect())
}

fn num(n: u64) -> RawValue {
    RawValue::Number(RawNumber::Unsigned(n))
}

fn text(s: &str) -> RawValue {
    RawValue::Text(s.to_string())
}

#[test]
fn null_payload_gives_defaults() {
    let o = convert_prettier_options_to_format_options(&RawValue::Null);
    assert_eq!(o.indent_style, IndentStyle::Space);
    assert_eq!(o.indent_width, 2);
    assert_eq!(o.line_width, 100);
    assert_eq!(o.quote_style, QuoteStyle::Double);
    assert_eq!(o.jsx_quote_style, QuoteStyle::Double);
    assert_eq!(o.semicolons, Semicolons::Always);
    assert_eq!(o.line_ending, LineEnding::Lf);
    assert!(!o.experimental_tailwindcss);
    assert!(!o.experimental_sort_imports);
}

#[test]
fn malformed_payloads_never_fail() {
    let payloads = vec![
        RawValue::Bool(true),
        num(7),
        text("useTabs"),
        RawValue::Array(vec![object(vec![("useTabs", RawValue::Bool(true))])]),
        object(vec![
            ("useTabs", text("yes")),
            ("tabWidth", RawValue::Number(RawNumber::Negative(-4))),
            ("printWidth", RawValue::Number(RawNumber::Fraction)),
            ("semi", RawValue::Null),
            ("endOfLine", RawValue::Bool(false)),
        ]),
    ];
    let defaults = convert_prettier_options_to_format_options(&RawValue::Null);
    for p in &payloads {
        assert_eq!(convert_prettier_options_to_format_options(p), defaults);
    }
}

#[test]
fn recognised_fields_are_applied() {
    let p = object(vec![
        ("useTabs", RawValue::Bool(true)),
        ("tabWidth", num(4)),
        ("printWidth", num(120)),
        ("singleQuote", RawValue::Bool(true)),
        ("jsxSingleQuote", RawValue::Bool(true)),
        ("semi", RawValue::Bool(false)),
        ("endOfLine", text("crlf")),
        ("experimentalSortImports", object(vec![])),
        ("unknownOption", num(3)),
    ]);
    let o = convert_prettier_options_to_format_options(&p);
    assert_eq!(o.indent_style, IndentStyle::Tab);
    assert_eq!(o.indent_width, 4);
    assert_eq!(o.line_width, 120);
    assert_eq!(o.quote_style, QuoteStyle::Single);
    assert_eq!(o.jsx_quote_style, QuoteStyle::Single);
    assert_eq!(o.semicolons, Semicolons::AsNeeded);
    assert_eq!(o.line_ending, LineEnding::Crlf);
    assert!(!o.experimental_tailwindcss);
    assert!(o.experimental_sort_imports);
}

#[test]
fn out_of_range_widths_fall_back() {
    let p = object(vec![("tabWidth", num(25)), ("printWidth", num(0))]);
    let o = convert_prettier_options_to_format_options(&p);
    assert_eq!(o.indent_width, 2);
    assert_eq!(o.line_width, 100);
    let p = object(vec![("tabWidth", num(24)), ("printWidth", num(320))]);
    let o = convert_prettier_options_to_format_options(&p);
    assert_eq!(o.indent_width, 24);
    assert_eq!(o.line_width, 320);
    let p = object(vec![("tabWidth", num(258)), ("printWidth", num(65_537))]);
    let o = convert_prettier_options_to_format_options(&p);
    assert_eq!(o.indent_width, 2);
    assert_eq!(o.line_width, 100);
}

#[test]
fn tailwind_enabled_by_flag_or_presence() {
    let on = object(vec![("_tailwindPluginEnabled", RawValue::Bool(true))]);
    assert!(convert_prettier_options_to_format_options(&on).experimental_tailwindcss);
    let off = object(vec![("_tailwindPluginEnabled", RawValue::Bool(false))]);
    assert!(!convert_prettier_options_to_format_options(&off).experimental_tailwindcss);
    let present = object(vec![("experimentalTailwindcss", RawValue::Null)]);
    assert!(convert_prettier_options_to_format_options(&present).experimental_tailwindcss);
}

#[test]
fn line_endings_by_name() {
    assert_eq!(parse_line_ending("lf"), LineEnding::Lf);
    assert_eq!(parse_line_ending("crlf"), LineEnding::Crlf);
    assert_eq!(parse_line_ending("cr"), LineEnding::Cr);
    assert_eq!(parse_line_ending("auto"), LineEnding::Lf);
}

#[test]
fn validation_accepts_good_payload() {
    let p = object(vec![("semi", RawValue::Bool(false)), ("endOfLine", text("cr"))]);
    let o = build_and_validate(&p).unwrap();
    assert_eq!(o, convert_prettier_options_to_format_options(&p));
    assert!(build_and_validate(&RawValue::Null).is_ok());
}

#[test]
fn validation_rejects_non_object() {
    let d = build_and_validate(&RawValue::Array(vec![])).unwrap_err();
    assert_eq!(d.message, "Options must be an object");
    assert!(d.note.is_none());
}

#[test]
fn validation_reports_first_bad_option() {
    let p = object(vec![("endOfLine", text("auto")), ("tabWidth", num(99))]);
    let d = build_and_validate(&p).unwrap_err();
    assert_eq!(d.message, "Invalid value for option `tabWidth`");
    let p = object(vec![("singleQuote", num(1))]);
    let d = build_and_validate(&p).unwrap_err();
    assert_eq!(d.message, "Invalid value for option `singleQuote`");
    let p = object(vec![("endOfLine", text("auto"))]);
    let d = build_and_validate(&p).unwrap_err();
    assert_eq!(d.message, "Invalid value for option `endOfLine`");
}
