use crate::fragment::{FragView, Fragment, Role};
use crate::severity::{spec_color, spec_label, Severity};
use vstd::prelude::*;

verus! {

/// The mathematical model of a [`Code`]: its severity and the character
/// sequences of its identifier and message.
#[verifier::ext_equal]
pub ghost struct CodeView {
    pub severity: Severity,
    pub code: Seq<char>,
    pub message: Seq<char>,
}

/// A command-line report code with an associated severity and message.
///
/// Rendered as one header line:
///
/// ```text
/// severity[code]: message
/// ```
///
/// where the label, brackets and code carry the severity's color role and
/// the message carries the bold emphasis role.
#[derive(Debug)]
pub struct Code {
    severity: Severity,
    code: String,
    message: String,
}

impl View for Code {
    type V = CodeView;

    closed spec fn view(&self) -> CodeView {
        CodeView { severity: self.severity, code: self.code@, message: self.message@ }
    }
}

/// The header fragments of a code: label, opening bracket, identifier and
/// closing bracket colored by the severity, then the emphasized message.
pub open spec fn code_frags(c: CodeView) -> Seq<FragView> {
    seq![
        FragView { text: spec_label(c.severity), role: Role::Colored(spec_color(c.severity)) },
        FragView { text: "["@, role: Role::Colored(spec_color(c.severity)) },
        FragView { text: c.code, role: Role::Colored(spec_color(c.severity)) },
        FragView { text: "]: "@, role: Role::Colored(spec_color(c.severity)) },
        FragView { text: c.message, role: Role::Emphasis },
    ]
}

/// The header line's text, without styling.
pub open spec fn code_text(c: CodeView) -> Seq<char> {
    spec_label(c.severity) + "["@ + c.code + "]: "@ + c.message
}

impl Clone for Code {
    fn clone(&self) -> (r: Self)
        ensures
            r@ == self@,
    {
        Code { severity: self.severity, code: self.code.clone(), message: self.message.clone() }
    }
}

impl Code {
    /// Creates a new command-line report code from owned strings.
    pub fn new(severity: Severity, code: String, message: String) -> (r: Self)
        ensures
            r@ == (CodeView { severity, code: code@, message: message@ }),
    {
        Self { severity, code, message }
    }

    /// Creates a new command-line report code, copying the borrowed strings.
    pub fn from(severity: Severity, code: &str, message: &str) -> (r: Self)
        ensures
            r@ == (CodeView { severity, code: code@, message: message@ }),
    {
        Self::new(severity, String::from_str(code), String::from_str(message))
    }

    /// Creates a new error code.
    pub fn error(code: &str, message: &str) -> (r: Self)
        ensures
            r@ == (CodeView { severity: Severity::Error, code: code@, message: message@ }),
    {
        Self::from(Severity::Error, code, message)
    }

    /// Creates a new warning code.
    pub fn warning(code: &str, message: &str) -> (r: Self)
        ensures
            r@ == (CodeView { severity: Severity::Warning, code: code@, message: message@ }),
    {
        Self::from(Severity::Warning, code, message)
    }

    /// Creates a new info code.
    pub fn info(code: &str, message: &str) -> (r: Self)
        ensures
            r@ == (CodeView { severity: Severity::Info, code: code@, message: message@ }),
    {
        Self::from(Severity::Info, code, message)
    }

    /// Gets the severity.
    pub fn severity(&self) -> (r: Severity)
        ensures
            r == self@.severity,
    {
        self.severity
    }

    /// Gets the code.
    pub fn code(&self) -> (r: &str)
        ensures
            r@ == self@.code,
    {
        self.code.as_str()
    }

    /// Gets the message.
    pub fn message(&self) -> (r: &str)
        ensures
            r@ == self@.message,
    {
        self.message.as_str()
    }

    /// Constructs the header fragments of this code.
    pub fn fragments(&self) -> (r: Vec<Fragment>)
        ensures
            r.deep_view() == code_frags(self@),
    {
        let sev = Role::Colored(self.severity.color());
        let r: Vec<Fragment> = vec![
            Fragment::from_str(self.severity.label(), sev),
            Fragment::from_str("[", sev),
            Fragment::new(self.code.clone(), sev),
            Fragment::from_str("]: ", sev),
            Fragment::new(self.message.clone(), Role::Emphasis),
        ];
        assert(r.deep_view() =~~= code_frags(self@));
        r
    }
}

/// The header fragments concatenate to exactly the header line's text.
pub proof fn lemma_code_frags_text(c: CodeView)
    ensures
        crate::fragment::frags_text(code_frags(c)) == code_text(c),
{
    reveal_with_fuel(crate::fragment::frags_text, 6);
    let fs = code_frags(c);
    assert(fs.drop_last() =~= seq![fs[0], fs[1], fs[2], fs[3]]);
    assert(fs.drop_last().drop_last() =~= seq![fs[0], fs[1], fs[2]]);
    assert(fs.drop_last().drop_last().drop_last() =~= seq![fs[0], fs[1]]);
    assert(fs.drop_last().drop_last().drop_last().drop_last() =~= seq![fs[0]]);
    assert(seq![fs[0]].drop_last() =~= Seq::<FragView>::empty());
    assert(crate::fragment::frags_text(fs) =~= code_text(c));
}

} // verus!
