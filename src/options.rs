use vstd::prelude::*;

use crate::diagnostic::{diag, str_eq, Diagnostic};

verus! {

/// A number as it arrived in a host payload. Fractions carry no value here:
/// no recognised option reads one.
#[derive(Clone, Copy, Debug, PartialEq, Eq, Structural)]
pub enum RawNumber {
    Unsigned(u64),
    Negative(i64),
    Fraction,
}

/// An untyped option tree supplied by the host. An object's keys are distinct.
#[derive(Debug)]
pub enum RawValue {
    Null,
    Bool(bool),
    Number(RawNumber),
    Text(String),
    Array(Vec<RawValue>),
    Object(Vec<(String, RawValue)>),
}

#[derive(Clone, Copy, Debug, PartialEq, Eq, Structural)]
pub enum IndentStyle {
    Tab,
    Space,
}

#[derive(Clone, Copy, Debug, PartialEq, Eq, Structural)]
pub enum QuoteStyle {
    Double,
    Single,
}

#[derive(Clone, Copy, Debug, PartialEq, Eq, Structural)]
pub enum Semicolons {
    Always,
    AsNeeded,
}

#[derive(Clone, Copy, Debug, PartialEq, Eq, Structural)]
pub enum LineEnding {
    Lf,
    Crlf,
    Cr,
}

/// Fully populated formatting options.
#[derive(Clone, Copy, Debug, PartialEq, Eq, Structural)]
pub struct FormatOptions {
    pub indent_style: IndentStyle,
    pub indent_width: u8,
    pub line_width: u16,
    pub quote_style: QuoteStyle,
    pub jsx_quote_style: QuoteStyle,
    pub semicolons: Semicolons,
    pub line_ending: LineEnding,
    /// Tailwind class sorting is on, with its default sub-options.
    pub experimental_tailwindcss: bool,
    /// Import sorting is on, with its default sub-options.
    pub experimental_sort_imports: bool,
}

pub const INDENT_WIDTH_MIN: u8 = 0;
pub const INDENT_WIDTH_MAX: u8 = 24;
pub const INDENT_WIDTH_DEFAULT: u8 = 2;
pub const LINE_WIDTH_MIN: u16 = 1;
pub const LINE_WIDTH_MAX: u16 = 320;
pub const LINE_WIDTH_DEFAULT: u16 = 100;

/// The options that apply when the payload says nothing.
pub open spec fn default_options() -> FormatOptions {
    FormatOptions {
        indent_style: IndentStyle::Space,
        indent_width: INDENT_WIDTH_DEFAULT,
        line_width: LINE_WIDTH_DEFAULT,
        quote_style: QuoteStyle::Double,
        jsx_quote_style: QuoteStyle::Double,
        semicolons: Semicolons::Always,
        line_ending: LineEnding::Lf,
        experimental_tailwindcss: false,
        experimental_sort_imports: false,
    }
}

/// The value of the first field named `key`, if any.
pub open spec fn lookup(fields: Seq<(String, RawValue)>, key: Seq<char>) -> Option<RawValue>
    decreases fields.len(),
{
    if fields.len() == 0 {
        None
    } else if fields[0].0@ == key {
        Some(fields[0].1)
    } else {
        lookup(fields.drop_first(), key)
    }
}

/// The member `key` of `v`, when `v` is an object that has one.
pub open spec fn member(v: RawValue, key: Seq<char>) -> Option<RawValue> {
    match v {
        RawValue::Object(fields) => lookup(fields@, key),
        _ => None,
    }
}

pub open spec fn as_bool(v: Option<RawValue>) -> Option<bool> {
    match v {
        Some(RawValue::Bool(b)) => Some(b),
        _ => None,
    }
}

pub open spec fn as_unsigned(v: Option<RawValue>) -> Option<u64> {
    match v {
        Some(RawValue::Number(RawNumber::Unsigned(n))) => Some(n),
        _ => None,
    }
}

pub open spec fn as_text(v: Option<RawValue>) -> Option<Seq<char>> {
    match v {
        Some(RawValue::Text(s)) => Some(s@),
        _ => None,
    }
}

pub open spec fn indent_width_in_range(n: u64) -> bool {
    INDENT_WIDTH_MIN <= n <= INDENT_WIDTH_MAX
}

pub open spec fn line_width_in_range(n: u64) -> bool {
    LINE_WIDTH_MIN <= n <= LINE_WIDTH_MAX
}

pub open spec fn quote_of(single: bool) -> QuoteStyle {
    if single {
        QuoteStyle::Single
    } else {
        QuoteStyle::Double
    }
}

/// The line ending that a recognised name selects; any other text selects `Lf`.
pub open spec fn line_ending_of(s: Seq<char>) -> LineEnding {
    if s == "crlf"@ {
        LineEnding::Crlf
    } else if s == "cr"@ {
        LineEnding::Cr
    } else {
        LineEnding::Lf
    }
}

/// The canonical options that a payload stands for: each recognised field of the
/// right shape sets its option, everything else leaves the default.
pub open spec fn normalized(v: RawValue) -> FormatOptions {
    let d = default_options();
    FormatOptions {
        indent_style: match as_bool(member(v, "useTabs"@)) {
            Some(true) => IndentStyle::Tab,
            _ => IndentStyle::Space,
        },
        indent_width: match as_unsigned(member(v, "tabWidth"@)) {
            Some(n) => if indent_width_in_range(n) { n as u8 } else { d.indent_width },
            None => d.indent_width,
        },
        line_width: match as_unsigned(member(v, "printWidth"@)) {
            Some(n) => if line_width_in_range(n) { n as u16 } else { d.line_width },
            None => d.line_width,
        },
        quote_style: match as_bool(member(v, "singleQuote"@)) {
            Some(b) => quote_of(b),
            None => d.quote_style,
        },
        jsx_quote_style: match as_bool(member(v, "jsxSingleQuote"@)) {
            Some(b) => quote_of(b),
            None => d.jsx_quote_style,
        },
        semicolons: match as_bool(member(v, "semi"@)) {
            Some(false) => Semicolons::AsNeeded,
            _ => Semicolons::Always,
        },
        line_ending: match as_text(member(v, "endOfLine"@)) {
            Some(s) => line_ending_of(s),
            None => d.line_ending,
        },
        experimental_tailwindcss: as_bool(member(v, "_tailwindPluginEnabled"@)) == Some(true)
            || member(v, "experimentalTailwindcss"@).is_some(),
        experimental_sort_imports: member(v, "experimentalSortImports"@).is_some(),
    }
}

/// The member `key` of `v`, when `v` is an object that has one.
pub fn get_member<'a>(v: &'a RawValue, key: &str) -> (r: Option<&'a RawValue>)
    ensures
        match r {
            Some(x) => member(*v, key@) == Some(*x),
            None => member(*v, key@).is_none(),
        },
{
    match v {
        RawValue::Object(fields) => {
            let mut i: usize = 0;
            assert(fields@.subrange(0, fields@.len() as int) =~= fields@);
            while i < fields.len()
                invariant
                    i <= fields@.len(),
                    member(*v, key@) == lookup(fields@, key@),
                    lookup(fields@, key@) == lookup(fields@.subrange(i as int, fields@.len() as int), key@),
                decreases fields.len() - i,
            {
                let ghost rest = fields@.subrange(i as int, fields@.len() as int);
                assert(rest.drop_first() =~= fields@.subrange(i + 1, fields@.len() as int));
                assert(rest[0] == fields@[i as int]);
                let name = fields[i].0.as_str();
                if str_eq(name, key) {
                    return Some(&fields[i].1);
                }
                i = i + 1;
            }
            None
        },
        _ => None,
    }
}

fn get_bool(v: &RawValue, key: &str) -> (r: Option<bool>)
    ensures
        r == as_bool(member(*v, key@)),
{
    match get_member(v, key) {
        Some(RawValue::Bool(b)) => Some(*b),
        _ => None,
    }
}

fn get_unsigned(v: &RawValue, key: &str) -> (r: Option<u64>)
    ensures
        r == as_unsigned(member(*v, key@)),
{
    match get_member(v, key) {
        Some(RawValue::Number(RawNumber::Unsigned(n))) => Some(*n),
        _ => None,
    }
}

fn get_text<'a>(v: &'a RawValue, key: &str) -> (r: Option<&'a String>)
    ensures
        match r {
            Some(s) => as_text(member(*v, key@)) == Some(s@),
            None => as_text(member(*v, key@)).is_none(),
        },
{
    match get_member(v, key) {
        Some(RawValue::Text(s)) => Some(s),
        _ => None,
    }
}

/// The options used when nothing is configured.
pub fn default_format_options() -> (r: FormatOptions)
    ensures
        r == default_options(),
{
    FormatOptions {
        indent_style: IndentStyle::Space,
        indent_width: INDENT_WIDTH_DEFAULT,
        line_width: LINE_WIDTH_DEFAULT,
        quote_style: QuoteStyle::Double,
        jsx_quote_style: QuoteStyle::Double,
        semicolons: Semicolons::Always,
        line_ending: LineEnding::Lf,
        experimental_tailwindcss: false,
        experimental_sort_imports: false,
    }
}

fn quote(single: bool) -> (r: QuoteStyle)
    ensures
        r == quote_of(single),
{
    if single {
        QuoteStyle::Single
    } else {
        QuoteStyle::Double
    }
}

/// The line ending named by `s`; unrecognised names give `Lf`.
pub fn parse_line_ending(s: &str) -> (r: LineEnding)
    ensures
        r == line_ending_of(s@),
{
    if str_eq(s, "crlf") {
        LineEnding::Crlf
    } else if str_eq(s, "cr") {
        LineEnding::Cr
    } else {
        LineEnding::Lf
    }
}

/// Converts a Prettier-style option payload into canonical options. Never fails:
/// a field of the wrong shape, or a payload that is not an object, leaves defaults.
pub fn convert_prettier_options_to_format_options(options: &RawValue) -> (r: FormatOptions)
    ensures
        r == normalized(*options),
{
    let mut o = default_format_options();
    if let Some(use_tabs) = get_bool(options, "useTabs") {
        o.indent_style = if use_tabs { IndentStyle::Tab } else { IndentStyle::Space };
    }
    if let Some(n) = get_unsigned(options, "tabWidth") {
        if INDENT_WIDTH_MIN as u64 <= n && n <= INDENT_WIDTH_MAX as u64 {
            o.indent_width = n as u8;
        }
    }
    if let Some(n) = get_unsigned(options, "printWidth") {
        if LINE_WIDTH_MIN as u64 <= n && n <= LINE_WIDTH_MAX as u64 {
            o.line_width = n as u16;
        }
    }
    if let Some(single) = get_bool(options, "singleQuote") {
        o.quote_style = quote(single);
    }
    if let Some(single) = get_bool(options, "jsxSingleQuote") {
        o.jsx_quote_style = quote(single);
    }
    if let Some(semi) = get_bool(options, "semi") {
        o.semicolons = if semi { Semicolons::Always } else { Semicolons::AsNeeded };
    }
    if let Some(eol) = get_text(options, "endOfLine") {
        o.line_ending = parse_line_ending(eol.as_str());
    }
    let tailwind_flag = get_bool(options, "_tailwindPluginEnabled");
    let tailwind_flag_on = match tailwind_flag {
        Some(b) => b,
        None => false,
    };
    if tailwind_flag_on || get_member(options, "experimentalTailwindcss").is_some() {
        o.experimental_tailwindcss = true;
    }
    if get_member(options, "experimentalSortImports").is_some() {
        o.experimental_sort_imports = true;
    }
    o
}

/// A recognised option that can be checked against its domain.
#[derive(Clone, Copy, Debug, PartialEq, Eq, Structural)]
pub enum OptionKey {
    UseTabs,
    TabWidth,
    PrintWidth,
    SingleQuote,
    JsxSingleQuote,
    Semi,
    EndOfLine,
}

pub open spec fn key_name(k: OptionKey) -> Seq<char> {
    match k {
        OptionKey::UseTabs => "useTabs"@,
        OptionKey::TabWidth => "tabWidth"@,
        OptionKey::PrintWidth => "printWidth"@,
        OptionKey::SingleQuote => "singleQuote"@,
        OptionKey::JsxSingleQuote => "jsxSingleQuote"@,
        OptionKey::Semi => "semi"@,
        OptionKey::EndOfLine => "endOfLine"@,
    }
}

impl OptionKey {
    /// The field name under which the option appears in a payload.
    pub fn name(&self) -> (r: &'static str)
        ensures
            r@ == key_name(*self),
    {
        match self {
            OptionKey::UseTabs => "useTabs",
            OptionKey::TabWidth => "tabWidth",
            OptionKey::PrintWidth => "printWidth",
            OptionKey::SingleQuote => "singleQuote",
            OptionKey::JsxSingleQuote => "jsxSingleQuote",
            OptionKey::Semi => "semi",
            OptionKey::EndOfLine => "endOfLine",
        }
    }
}

/// Whether a field, present or not, lies in the option's domain.
pub open spec fn field_ok(k: OptionKey, field: Option<RawValue>) -> bool {
    match field {
        None => true,
        Some(x) => match k {
            OptionKey::TabWidth => match as_unsigned(field) {
                Some(n) => indent_width_in_range(n),
                None => false,
            },
            OptionKey::PrintWidth => match as_unsigned(field) {
                Some(n) => line_width_in_range(n),
                None => false,
            },
            OptionKey::EndOfLine => match as_text(field) {
                Some(t) => t == "lf"@ || t == "crlf"@ || t == "cr"@,
                None => false,
            },
            _ => x is Bool,
        },
    }
}

pub open spec fn key_ok(v: RawValue, k: OptionKey) -> bool {
    field_ok(k, member(v, key_name(k)))
}

/// The first recognised option, in table order, whose value is out of its domain.
pub open spec fn first_invalid(v: RawValue) -> Option<OptionKey> {
    if !key_ok(v, OptionKey::UseTabs) {
        Some(OptionKey::UseTabs)
    } else if !key_ok(v, OptionKey::TabWidth) {
        Some(OptionKey::TabWidth)
    } else if !key_ok(v, OptionKey::PrintWidth) {
        Some(OptionKey::PrintWidth)
    } else if !key_ok(v, OptionKey::SingleQuote) {
        Some(OptionKey::SingleQuote)
    } else if !key_ok(v, OptionKey::JsxSingleQuote) {
        Some(OptionKey::JsxSingleQuote)
    } else if !key_ok(v, OptionKey::Semi) {
        Some(OptionKey::Semi)
    } else if !key_ok(v, OptionKey::EndOfLine) {
        Some(OptionKey::EndOfLine)
    } else {
        None
    }
}

/// A payload is an object, or null for "nothing configured".
pub open spec fn shape_ok(v: RawValue) -> bool {
    v is Null || v is Object
}

pub open spec fn invalid_option_message(k: OptionKey) -> Seq<char> {
    "Invalid value for option `"@ + key_name(k) + "`"@
}

pub open spec fn shape_message() -> Seq<char> {
    "Options must be an object"@
}

fn check_key(v: &RawValue, k: OptionKey) -> (r: bool)
    ensures
        r == key_ok(*v, k),
{
    let name = k.name();
    match get_member(v, name) {
        None => true,
        Some(x) => match k {
            OptionKey::TabWidth => match get_unsigned(v, name) {
                Some(n) => INDENT_WIDTH_MIN as u64 <= n && n <= INDENT_WIDTH_MAX as u64,
                None => false,
            },
            OptionKey::PrintWidth => match get_unsigned(v, name) {
                Some(n) => LINE_WIDTH_MIN as u64 <= n && n <= LINE_WIDTH_MAX as u64,
                None => false,
            },
            OptionKey::EndOfLine => match get_text(v, name) {
                Some(t) => str_eq(t.as_str(), "lf") || str_eq(t.as_str(), "crlf") || str_eq(
                    t.as_str(),
                    "cr",
                ),
                None => false,
            },
            _ => matches!(x, RawValue::Bool(_)),
        },
    }
}

/// Normalises a payload that arrives as one combined value, and checks it: the
/// payload must be null or an object, and each recognised option that is present
/// must lie in its domain. Reports the first violation.
pub fn build_and_validate(options: &RawValue) -> (r: Result<FormatOptions, Diagnostic>)
    ensures
        r is Ok <==> shape_ok(*options) && first_invalid(*options).is_none(),
        r matches Ok(o) ==> o == normalized(*options),
        !shape_ok(*options) ==> (r matches Err(d) && d@ == diag(shape_message(), None)),
        shape_ok(*options) ==> (first_invalid(*options) matches Some(k) ==> (r matches Err(d)
            && d@ == diag(invalid_option_message(k), None))),
{
    match options {
        RawValue::Null => {},
        RawValue::Object(_) => {},
        _ => {
            return Err(Diagnostic::error(String::from_str("Options must be an object")));
        },
    }
    let keys = [
        OptionKey::UseTabs,
        OptionKey::TabWidth,
        OptionKey::PrintWidth,
        OptionKey::SingleQuote,
        OptionKey::JsxSingleQuote,
        OptionKey::Semi,
        OptionKey::EndOfLine,
    ];
    let mut i: usize = 0;
    while i < 7
        invariant
            i <= 7,
            keys@ == seq![
                OptionKey::UseTabs,
                OptionKey::TabWidth,
                OptionKey::PrintWidth,
                OptionKey::SingleQuote,
                OptionKey::JsxSingleQuote,
                OptionKey::Semi,
                OptionKey::EndOfLine,
            ],
            forall|j: int| 0 <= j < i ==> key_ok(*options, #[trigger] keys@[j]),
        decreases 7 - i,
    {
        let k = keys[i];
        if !check_key(options, k) {
            let message = String::from_str("Invalid value for option `").concat(k.name()).concat(
                "`",
            );
            return Err(Diagnostic::error(message));
        }
        i = i + 1;
    }
    assert(key_ok(*options, keys@[6]));
    Ok(convert_prettier_options_to_format_options(options))
}

} // verus!
