use vstd::prelude::*;

verus! {

/// An abstract styling color: a semantic tag the rendering boundary maps to
/// concrete terminal styling (or to nothing at all, for plain output).
#[derive(Copy, Clone, PartialEq, Eq, Structural, Hash, Debug)]
pub enum ColorRole {
    BrightRed,
    BrightYellow,
    BrightBlue,
}

/// The severity of a command-line report, ordered by declaration:
/// `Error < Warning < Info`.
#[derive(Copy, Clone, PartialEq, Eq, Structural, PartialOrd, Ord, Hash, Debug)]
pub enum Severity {
    Error,
    Warning,
    Info,
}

/// The display label of a severity.
pub open spec fn spec_label(s: Severity) -> Seq<char> {
    match s {
        Severity::Error => "error"@,
        Severity::Warning => "warning"@,
        Severity::Info => "info"@,
    }
}

/// The color role associated with a severity.
pub open spec fn spec_color(s: Severity) -> ColorRole {
    match s {
        Severity::Error => ColorRole::BrightRed,
        Severity::Warning => ColorRole::BrightYellow,
        Severity::Info => ColorRole::BrightBlue,
    }
}

impl Severity {
    /// Gets the associated color role.
    pub fn color(&self) -> (r: ColorRole)
        ensures
            r == spec_color(*self),
    {
        match self {
            Self::Error => ColorRole::BrightRed,
            Self::Warning => ColorRole::BrightYellow,
            Self::Info => ColorRole::BrightBlue,
        }
    }

    /// Gets the label string.
    pub fn label(&self) -> (r: &'static str)
        ensures
            r@ == spec_label(*self),
    {
        match self {
            Self::Error => "error",
            Self::Warning => "warning",
            Self::Info => "info",
        }
    }
}

/// Law: every severity's label is one of exactly `"error"`, `"warning"` and
/// `"info"`, and the three labels are pairwise distinct, so a label
/// identifies its severity.
pub proof fn lemma_label_closed(s: Severity)
    ensures
        spec_label(s) == "error"@ || spec_label(s) == "warning"@ || spec_label(s) == "info"@,
        spec_label(Severity::Error) != spec_label(Severity::Warning),
        spec_label(Severity::Warning) != spec_label(Severity::Info),
        spec_label(Severity::Error) != spec_label(Severity::Info),
{
    reveal_strlit("error");
    reveal_strlit("warning");
    reveal_strlit("info");
    assert("error"@.len() == 5);
    assert("warning"@.len() == 7);
    assert("info"@.len() == 4);
}

} // verus!
