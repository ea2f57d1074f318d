use vstd::prelude::*;

use crate::diagnostic::{diag, str_eq, Diagnostic};

verus! {

/// The kind of a file to format, chosen by its extension.
#[derive(Clone, Copy, Debug, PartialEq, Eq, Structural)]
pub enum FileStrategy {
    /// CommonJS script (`.cjs`).
    Script,
    /// ES module (`.js`, `.mjs`).
    Module,
    /// JavaScript with JSX (`.jsx`).
    Jsx,
    /// TypeScript (`.ts`, `.mts`, `.cts`).
    TypeScript,
    /// TypeScript with JSX (`.tsx`).
    Tsx,
    /// A file that the host formats as a whole, with the named parser.
    External(HostParser),
}

/// The host-side parsers to which whole files are handed.
#[derive(Clone, Copy, Debug, PartialEq, Eq, Structural)]
pub enum HostParser {
    Css,
    Scss,
    Less,
    Json,
    Jsonc,
    Json5,
    Markdown,
    Mdx,
    Yaml,
    Html,
    Vue,
    Graphql,
    Handlebars,
}

pub open spec fn parser_name(p: HostParser) -> Seq<char> {
    match p {
        HostParser::Css => "css"@,
        HostParser::Scss => "scss"@,
        HostParser::Less => "less"@,
        HostParser::Json => "json"@,
        HostParser::Jsonc => "jsonc"@,
        HostParser::Json5 => "json5"@,
        HostParser::Markdown => "markdown"@,
        HostParser::Mdx => "mdx"@,
        HostParser::Yaml => "yaml"@,
        HostParser::Html => "html"@,
        HostParser::Vue => "vue"@,
        HostParser::Graphql => "graphql"@,
        HostParser::Handlebars => "glimmer"@,
    }
}

impl HostParser {
    /// The name of the parser on the host side.
    pub fn name(&self) -> (r: &'static str)
        ensures
            r@ == parser_name(*self),
    {
        match self {
            HostParser::Css => "css",
            HostParser::Scss => "scss",
            HostParser::Less => "less",
            HostParser::Json => "json",
            HostParser::Jsonc => "jsonc",
            HostParser::Json5 => "json5",
            HostParser::Markdown => "markdown",
            HostParser::Mdx => "mdx",
            HostParser::Yaml => "yaml",
            HostParser::Html => "html",
            HostParser::Vue => "vue",
            HostParser::Graphql => "graphql",
            HostParser::Handlebars => "glimmer",
        }
    }
}

/// The host parser for an extension, if files with it are formatted by the host.
pub open spec fn host_parser_of_extension(e: Seq<char>) -> Option<HostParser> {
    if e == "css"@ {
        Some(HostParser::Css)
    } else if e == "scss"@ {
        Some(HostParser::Scss)
    } else if e == "less"@ {
        Some(HostParser::Less)
    } else if e == "json"@ {
        Some(HostParser::Json)
    } else if e == "jsonc"@ {
        Some(HostParser::Jsonc)
    } else if e == "json5"@ {
        Some(HostParser::Json5)
    } else if e == "md"@ || e == "markdown"@ {
        Some(HostParser::Markdown)
    } else if e == "mdx"@ {
        Some(HostParser::Mdx)
    } else if e == "yaml"@ || e == "yml"@ {
        Some(HostParser::Yaml)
    } else if e == "html"@ || e == "htm"@ {
        Some(HostParser::Html)
    } else if e == "vue"@ {
        Some(HostParser::Vue)
    } else if e == "graphql"@ || e == "gql"@ {
        Some(HostParser::Graphql)
    } else if e == "hbs"@ || e == "handlebars"@ {
        Some(HostParser::Handlebars)
    } else {
        None
    }
}

/// The host parser for an extension.
pub fn host_parser_for_extension(e: &str) -> (r: Option<HostParser>)
    ensures
        r == host_parser_of_extension(e@),
{
    if str_eq(e, "css") {
        Some(HostParser::Css)
    } else if str_eq(e, "scss") {
        Some(HostParser::Scss)
    } else if str_eq(e, "less") {
        Some(HostParser::Less)
    } else if str_eq(e, "json") {
        Some(HostParser::Json)
    } else if str_eq(e, "jsonc") {
        Some(HostParser::Jsonc)
    } else if str_eq(e, "json5") {
        Some(HostParser::Json5)
    } else if str_eq(e, "md") || str_eq(e, "markdown") {
        Some(HostParser::Markdown)
    } else if str_eq(e, "mdx") {
        Some(HostParser::Mdx)
    } else if str_eq(e, "yaml") || str_eq(e, "yml") {
        Some(HostParser::Yaml)
    } else if str_eq(e, "html") || str_eq(e, "htm") {
        Some(HostParser::Html)
    } else if str_eq(e, "vue") {
        Some(HostParser::Vue)
    } else if str_eq(e, "graphql") || str_eq(e, "gql") {
        Some(HostParser::Graphql)
    } else if str_eq(e, "hbs") || str_eq(e, "handlebars") {
        Some(HostParser::Handlebars)
    } else {
        None
    }
}

/// The extension of the last path component: the text after its last `.`,
/// searching backwards from position `end`.
pub open spec fn extension_before(p: Seq<char>, end: int) -> Option<Seq<char>>
    decreases end,
{
    if end <= 0 || end > p.len() {
        None
    } else if p[end - 1] == '/' || p[end - 1] == '\\' {
        None
    } else if p[end - 1] == '.' {
        Some(p.subrange(end, p.len() as int))
    } else {
        extension_before(p, end - 1)
    }
}

pub open spec fn extension(p: Seq<char>) -> Option<Seq<char>> {
    extension_before(p, p.len() as int)
}

pub open spec fn strategy_of_extension(e: Seq<char>) -> Option<FileStrategy> {
    if e == "js"@ || e == "mjs"@ {
        Some(FileStrategy::Module)
    } else if e == "cjs"@ {
        Some(FileStrategy::Script)
    } else if e == "jsx"@ {
        Some(FileStrategy::Jsx)
    } else if e == "ts"@ || e == "mts"@ || e == "cts"@ {
        Some(FileStrategy::TypeScript)
    } else if e == "tsx"@ {
        Some(FileStrategy::Tsx)
    } else {
        match host_parser_of_extension(e) {
            Some(p) => Some(FileStrategy::External(p)),
            None => None,
        }
    }
}

/// The strategy that applies to a path, if its extension is recognised.
pub open spec fn strategy_of_path(p: Seq<char>) -> Option<FileStrategy> {
    match extension(p) {
        Some(e) => strategy_of_extension(e),
        None => None,
    }
}

pub open spec fn unsupported_message(p: Seq<char>) -> Seq<char> {
    "Unsupported file type: "@ + p
}

/// The extension of the last component of `path`.
pub fn file_extension(path: &str) -> (r: Option<&str>)
    ensures
        match r {
            Some(e) => extension(path@) == Some(e@),
            None => extension(path@).is_none(),
        },
{
    let n = path.unicode_len();
    let mut end: usize = n;
    while end > 0
        invariant
            n == path@.len(),
            end <= n,
            extension(path@) == extension_before(path@, end as int),
        decreases end,
    {
        let c = path.get_char(end - 1);
        if c == '/' || c == '\\' {
            return None;
        }
        if c == '.' {
            return Some(path.substring_char(end, n));
        }
        end = end - 1;
    }
    None
}

/// The strategy selected by an extension.
pub fn strategy_for_extension(e: &str) -> (r: Option<FileStrategy>)
    ensures
        r == strategy_of_extension(e@),
{
    if str_eq(e, "js") || str_eq(e, "mjs") {
        Some(FileStrategy::Module)
    } else if str_eq(e, "cjs") {
        Some(FileStrategy::Script)
    } else if str_eq(e, "jsx") {
        Some(FileStrategy::Jsx)
    } else if str_eq(e, "ts") || str_eq(e, "mts") || str_eq(e, "cts") {
        Some(FileStrategy::TypeScript)
    } else if str_eq(e, "tsx") {
        Some(FileStrategy::Tsx)
    } else {
        match host_parser_for_extension(e) {
            Some(p) => Some(FileStrategy::External(p)),
            None => None,
        }
    }
}

/// Classifies a file by its extension. A path without a recognised extension is
/// reported as unsupported, naming the path.
pub fn resolve(path: &str) -> (r: Result<FileStrategy, Diagnostic>)
    ensures
        match strategy_of_path(path@) {
            Some(s) => r == Ok::<FileStrategy, Diagnostic>(s),
            None => r matches Err(d) && d@ == diag(unsupported_message(path@), None),
        },
{
    let found = match file_extension(path) {
        Some(e) => strategy_for_extension(e),
        None => None,
    };
    match found {
        Some(s) => Ok(s),
        None => Err(Diagnostic::prefixed("Unsupported file type: ", path)),
    }
}

/// Whether files of this kind may contain JSX.
pub open spec fn spec_allows_jsx(s: FileStrategy) -> bool {
    s is Jsx || s is Tsx
}

impl FileStrategy {
    pub fn allows_jsx(&self) -> (r: bool)
        ensures
            r == spec_allows_jsx(*self),
    {
        matches!(self, FileStrategy::Jsx | FileStrategy::Tsx)
    }
}

/// The source kinds that a caller may name directly.
#[derive(Clone, Copy, Debug, PartialEq, Eq, Structural)]
pub enum SourceKind {
    Js,
    Jsx,
    Ts,
    Tsx,
}

pub open spec fn source_kind_of(s: Seq<char>) -> Option<SourceKind> {
    if s == "js"@ {
        Some(SourceKind::Js)
    } else if s == "jsx"@ {
        Some(SourceKind::Jsx)
    } else if s == "ts"@ {
        Some(SourceKind::Ts)
    } else if s == "tsx"@ {
        Some(SourceKind::Tsx)
    } else {
        None
    }
}

pub open spec fn invalid_source_kind_message(s: Seq<char>) -> Seq<char> {
    "Invalid source type: "@ + s + ". Expected 'js', 'ts', 'jsx', or 'tsx'"@
}

/// Reads a source kind named `js`, `jsx`, `ts` or `tsx`; any other name is an error.
pub fn parse_source_kind(s: &str) -> (r: Result<SourceKind, Diagnostic>)
    ensures
        match source_kind_of(s@) {
            Some(k) => r == Ok::<SourceKind, Diagnostic>(k),
            None => r matches Err(d) && d@ == diag(invalid_source_kind_message(s@), None),
        },
{
    if str_eq(s, "js") {
        Ok(SourceKind::Js)
    } else if str_eq(s, "jsx") {
        Ok(SourceKind::Jsx)
    } else if str_eq(s, "ts") {
        Ok(SourceKind::Ts)
    } else if str_eq(s, "tsx") {
        Ok(SourceKind::Tsx)
    } else {
        let message = String::from_str("Invalid source type: ").concat(s).concat(
            ". Expected 'js', 'ts', 'jsx', or 'tsx'",
        );
        Err(Diagnostic::error(message))
    }
}

} // verus!
