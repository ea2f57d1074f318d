use vstd::prelude::*;

verus! {

/// What a diagnostic says, as mathematical text.
pub struct DiagnosticView {
    pub message: Seq<char>,
    pub note: Option<Seq<char>>,
    /// The file, and the start and end offsets within it.
    pub span: Option<(Seq<char>, u32, u32)>,
}

/// Where in a source file a diagnostic points: a file and a range of offsets.
#[derive(Clone, Debug)]
pub struct SourceSpan {
    pub file: String,
    pub start: u32,
    pub end: u32,
}

/// A structured error record: a message, an optional note and an optional
/// place in a source file.
#[derive(Clone, Debug)]
pub struct Diagnostic {
    pub message: String,
    pub note: Option<String>,
    pub span: Option<SourceSpan>,
}

/// The view of a diagnostic whose message is `message` and whose note is
/// `note`, pointing at no source.
pub open spec fn diag(message: Seq<char>, note: Option<Seq<char>>) -> DiagnosticView {
    DiagnosticView { message, note, span: None }
}

impl View for Diagnostic {
    type V = DiagnosticView;

    open spec fn view(&self) -> DiagnosticView {
        DiagnosticView {
            message: self.message@,
            note: match self.note {
                Some(n) => Some(n@),
                None => None,
            },
            span: match self.span {
                Some(l) => Some((l.file@, l.start, l.end)),
                None => None,
            },
        }
    }
}

/// The views of a sequence of diagnostics, in order.
pub open spec fn views(ds: Seq<Diagnostic>) -> Seq<DiagnosticView> {
    ds.map_values(|d: Diagnostic| d@)
}

impl Diagnostic {
    /// An error with the given message and no note.
    pub fn error(message: String) -> (r: Diagnostic)
        ensures
            r@ == diag(message@, None),
    {
        Diagnostic { message, note: None, span: None }
    }

    /// A copy of this diagnostic.
    pub fn copy(&self) -> (r: Diagnostic)
        ensures
            r@ == self@,
    {
        let note = match &self.note {
            Some(n) => Some(n.clone()),
            None => None,
        };
        let span = match &self.span {
            Some(l) => Some(SourceSpan { file: l.file.clone(), start: l.start, end: l.end }),
            None => None,
        };
        Diagnostic { message: self.message.clone(), note, span }
    }

    /// The same diagnostic, with `note` attached.
    pub fn with_note(self, note: String) -> (r: Diagnostic)
        ensures
            r@ == (DiagnosticView { note: Some(note@), ..self@ }),
    {
        Diagnostic { message: self.message, note: Some(note), span: self.span }
    }

    /// The same diagnostic, pointing at offsets `start` to `end` of `file`.
    pub fn with_span(self, file: String, start: u32, end: u32) -> (r: Diagnostic)
        requires
            start <= end,
        ensures
            r@ == (DiagnosticView { span: Some((file@, start, end)), ..self@ }),
    {
        Diagnostic {
            message: self.message,
            note: self.note,
            span: Some(SourceSpan { file, start, end }),
        }
    }

    /// An error whose message is `prefix` followed by `detail`.
    pub fn prefixed(prefix: &str, detail: &str) -> (r: Diagnostic)
        ensures
            r@ == diag(prefix@ + detail@, None),
    {
        Diagnostic::error(String::from_str(prefix).concat(detail))
    }
}

/// Whether two strings hold the same characters.
pub fn str_eq(a: &str, b: &str) -> (r: bool)
    ensures
        r == (a@ == b@),
{
    let n = a.unicode_len();
    if n != b.unicode_len() {
        return false;
    }
    let mut i: usize = 0;
    while i < n
        invariant
            n == a@.len() == b@.len(),
            i <= n,
            forall|j: int| 0 <= j < i ==> a@[j] == b@[j],
        decreases n - i,
    {
        if a.get_char(i) != b.get_char(i) {
            return false;
        }
        i = i + 1;
    }
    assert(a@ =~= b@);
    true
}

} // verus!
