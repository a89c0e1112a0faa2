//! The diagnostic model: the closed taxonomy of error kinds and severities,
//! their fixed phrases and terminal colors, and the rendering of an error
//! into a colorized, source-annotated message.

use vstd::prelude::*;

use crate::utils::{spec_decimal, decimal_string, Span};

verus! {

/// The closed set of problem diagnoses. A kind carries no parameters;
/// diagnostic specificity comes from the attached [`Span`].
#[derive(Clone, Copy, Debug, PartialEq, Eq, Structural)]
pub enum ErrorKind {
    UnexpectedToken,
    UnexpectedBinaryOperator,
    UnexpectedUnaryOperator,
    ExpectedLiteral,
    InvalidInteger,
}

/// The fixed human-readable phrase of an error kind.
pub open spec fn kind_phrase(k: ErrorKind) -> Seq<char> {
    match k {
        ErrorKind::UnexpectedToken => "unexpected token"@,
        ErrorKind::ExpectedLiteral => "expected literal"@,
        ErrorKind::InvalidInteger => "invalid integer"@,
        ErrorKind::UnexpectedBinaryOperator => "unexpected binary operator"@,
        ErrorKind::UnexpectedUnaryOperator => "unexpected unary operator"@,
    }
}

impl ErrorKind {
    /// The fixed phrase naming this kind of problem.
    pub fn to_string(&self) -> (r: String)
        ensures
            r@ == kind_phrase(*self),
    {
        match self {
            ErrorKind::UnexpectedToken => String::from_str("unexpected token"),
            ErrorKind::ExpectedLiteral => String::from_str("expected literal"),
            ErrorKind::InvalidInteger => String::from_str("invalid integer"),
            ErrorKind::UnexpectedBinaryOperator => String::from_str("unexpected binary operator"),
            ErrorKind::UnexpectedUnaryOperator => String::from_str("unexpected unary operator"),
        }
    }
}

/// Warning or hard error. The severity changes only the phrase and color of
/// a rendered message, never control flow; escalation policy belongs to the
/// driver that collects diagnostics.
#[derive(Clone, Copy, Debug, PartialEq, Eq, Structural)]
pub enum ErrorSeverity {
    Warning,
    Error,
}

/// The fixed terminal highlight color of a severity: yellow for a warning,
/// red for an error.
pub open spec fn severity_color(s: ErrorSeverity) -> Seq<char> {
    match s {
        ErrorSeverity::Warning => "\u{001b}[33m"@,
        ErrorSeverity::Error => "\u{001b}[31m"@,
    }
}

/// The fixed human-readable phrase of a severity.
pub open spec fn severity_phrase(s: ErrorSeverity) -> Seq<char> {
    match s {
        ErrorSeverity::Warning => "warning"@,
        ErrorSeverity::Error => "error"@,
    }
}

impl ErrorSeverity {
    /// The terminal escape code this severity highlights with.
    pub fn to_color(&self) -> (r: String)
        ensures
            r@ == severity_color(*self),
    {
        match self {
            ErrorSeverity::Warning => String::from_str("\u{001b}[33m"),
            ErrorSeverity::Error => String::from_str("\u{001b}[31m"),
        }
    }

    /// The fixed phrase naming this severity.
    pub fn to_string(&self) -> (r: String)
        ensures
            r@ == severity_phrase(*self),
    {
        match self {
            ErrorSeverity::Warning => String::from_str("warning"),
            ErrorSeverity::Error => String::from_str("error"),
        }
    }
}

/// A reported problem: a kind and a severity anchored to a source span.
#[derive(Clone, Copy, Debug, PartialEq, Eq, Structural)]
pub struct Error {
    pub span: Span,
    pub kind: ErrorKind,
    pub severity: ErrorSeverity,
}

impl Error {
    /// The complete message [`Error::show`] composes: a colorized summary
    /// line, a `path:line:column` locator (the line one-based, the column
    /// the raw start offset), the span's colorized source excerpt, and a
    /// closing separator.
    pub open spec fn message(self, contents: Seq<u8>, path: Seq<char>) -> Seq<char>
        recommends
            self.span.in_range(contents),
            self.span.line < usize::MAX,
    {
        severity_color(self.severity) + severity_phrase(self.severity) + "\u{001b}[0m"@ + ": "@
            + kind_phrase(self.kind) + "\n----- "@ + path + ":"@ + spec_decimal(
            (self.span.line + 1) as nat,
        ) + ":"@ + spec_decimal(self.span.start as nat) + "\n"@ + self.span.rendered(
            contents,
            severity_color(self.severity),
        ) + "\n-----"@
    }

    /// Renders this error against the raw source bytes and a file path.
    /// Yields the composed message exactly when the span lies within the
    /// buffer, and nothing otherwise: rendering is best-effort, never a
    /// failure of its own.
    pub fn show(&self, contents: &[u8], path: &str) -> (r: Option<String>)
        requires
            self.span.line < usize::MAX,
        ensures
            match r {
                Some(s) => self.span.in_range(contents@) && s@ == self.message(contents@, path@),
                None => !self.span.in_range(contents@),
            },
    {
        let color = self.severity.to_color();
        let code = match self.span.show(contents, color.as_str()) {
            Some(code) => code,
            None => {
                return None;
            },
        };
        let mut out = self.severity.to_color();
        let phrase = self.severity.to_string();
        out.append(phrase.as_str());
        out.append("\u{001b}[0m");
        out.append(": ");
        let kind = self.kind.to_string();
        out.append(kind.as_str());
        out.append("\n----- ");
        out.append(path);
        out.append(":");
        let line = decimal_string(self.span.line + 1);
        out.append(line.as_str());
        out.append(":");
        let column = decimal_string(self.span.start);
        out.append(column.as_str());
        out.append("\n");
        out.append(code.as_str());
        out.append("\n-----");
        Some(out)
    }
}

/// Whether `needle` occurs contiguously somewhere in `hay`.
pub open spec fn contains_seq(hay: Seq<char>, needle: Seq<char>) -> bool {
    exists|i: int|
        0 <= i && i + needle.len() <= hay.len() && #[trigger] hay.subrange(i, i + needle.len())
            == needle
}

proof fn lemma_contains_at(hay: Seq<char>, pre: Seq<char>, needle: Seq<char>, post: Seq<char>)
    requires
        hay == pre + needle + post,
    ensures
        contains_seq(hay, needle),
{
    assert(hay.subrange(pre.len() as int, pre.len() + needle.len() as int) =~= needle);
}

/// Law: a message rendered for an in-range span holds the severity phrase,
/// the kind phrase, the supplied path, and the one-based line number.
pub proof fn lemma_message_parts(e: Error, contents: Seq<u8>, path: Seq<char>)
    requires
        e.span.in_range(contents),
        e.span.line < usize::MAX,
    ensures
        contains_seq(e.message(contents, path), severity_phrase(e.severity)),
        contains_seq(e.message(contents, path), kind_phrase(e.kind)),
        contains_seq(e.message(contents, path), path),
        contains_seq(e.message(contents, path), spec_decimal((e.span.line + 1) as nat)),
{
    let m = e.message(contents, path);
    let excerpt = e.span.rendered(contents, severity_color(e.severity));
    let pre1 = severity_color(e.severity);
    let post1 = "\u{001b}[0m"@ + ": "@ + kind_phrase(e.kind) + "\n----- "@ + path + ":"@
        + spec_decimal((e.span.line + 1) as nat) + ":"@ + spec_decimal(e.span.start as nat)
        + "\n"@ + excerpt + "\n-----"@;
    assert(m =~= pre1 + severity_phrase(e.severity) + post1);
    lemma_contains_at(m, pre1, severity_phrase(e.severity), post1);

    let pre2 = severity_color(e.severity) + severity_phrase(e.severity) + "\u{001b}[0m"@ + ": "@;
    let post2 = "\n----- "@ + path + ":"@ + spec_decimal((e.span.line + 1) as nat) + ":"@
        + spec_decimal(e.span.start as nat) + "\n"@ + excerpt + "\n-----"@;
    assert(m =~= pre2 + kind_phrase(e.kind) + post2);
    lemma_contains_at(m, pre2, kind_phrase(e.kind), post2);

    let pre3 = pre2 + kind_phrase(e.kind) + "\n----- "@;
    let post3 = ":"@ + spec_decimal((e.span.line + 1) as nat) + ":"@ + spec_decimal(
        e.span.start as nat,
    ) + "\n"@ + excerpt + "\n-----"@;
    assert(m =~= pre3 + path + post3);
    lemma_contains_at(m, pre3, path, post3);

    let pre4 = pre3 + path + ":"@;
    let post4 = ":"@ + spec_decimal(e.span.start as nat) + "\n"@ + excerpt + "\n-----"@;
    assert(m =~= pre4 + spec_decimal((e.span.line + 1) as nat) + post4);
    lemma_contains_at(m, pre4, spec_decimal((e.span.line + 1) as nat), post4);
}

} // verus!
