use crate::fragment::{FragView, Fragment, Role};
use crate::report::util;
use crate::severity::{spec_color, Severity};
use vstd::prelude::*;

verus! {

/// The mathematical model of a [`TokenInfo`]: its location counts and the
/// character sequences of its texts.
#[verifier::ext_equal]
pub ghost struct TokenInfoView {
    pub file_name: Seq<char>,
    pub line: nat,
    pub position: nat,
    pub line_text: Seq<char>,
    pub token_len: nat,
    pub severity: Severity,
    pub message: Seq<char>,
}

/// A token info entry: a compiler-style call-out that points at a character
/// range of one source line.
///
/// ```text
///  --> the/file/name.ext [line=8, position=5]
///   |
/// 8 | the line text
///   |     ^^^^ --- the message text
///   |
/// ```
///
/// `line` is 1-indexed; `position` is the 0-indexed character offset of the
/// token within `line_text`; `token_len` counts the characters to underline.
/// The renderer does not check `position + token_len` against `line_text`'s
/// length — an overrunning range simply overruns the drawn underline.
#[derive(Debug)]
pub struct TokenInfo {
    pub file_name: String,
    pub line: usize,
    pub position: usize,
    pub line_text: String,
    pub token_len: usize,
    pub severity: Severity,
    pub message: String,
}

impl View for TokenInfo {
    type V = TokenInfoView;

    open spec fn view(&self) -> TokenInfoView {
        TokenInfoView {
            file_name: self.file_name@,
            line: self.line as nat,
            position: self.position as nat,
            line_text: self.line_text@,
            token_len: self.token_len as nat,
            severity: self.severity,
            message: self.message@,
        }
    }
}

/// The gutter width of a call-out: the number of decimal digits of its line
/// number.
pub open spec fn gutter_width(t: TokenInfoView) -> nat {
    util::dec_str(t.line).len()
}

/// The twenty fragments of a token call-out, five lines of them: the arrow
/// line naming the file and location, a spacer bar, the numbered source
/// line, the caret line carrying the severity-colored underline and message,
/// and a closing bar without its own newline.
pub open spec fn token_frags(t: TokenInfoView) -> Seq<FragView> {
    let g = gutter_width(t);
    seq![
        FragView { text: util::spec_repeat(' ', g), role: Role::Plain },
        util::arrow_frag(),
        FragView { text: util::file_token_text(t.file_name, t.line, t.position), role: Role::Plain },
        util::nl_frag(),
        FragView { text: util::spec_repeat(' ', g), role: Role::Plain },
        util::vertical_frag(),
        util::nl_frag(),
        FragView { text: util::dec_str(t.line), role: Role::Colored(crate::severity::ColorRole::BrightBlue) },
        util::vertical_frag(),
        FragView { text: t.line_text, role: Role::Plain },
        util::nl_frag(),
        FragView { text: util::spec_repeat(' ', g), role: Role::Plain },
        util::vertical_frag(),
        FragView { text: util::spec_repeat(' ', t.position), role: Role::Plain },
        FragView { text: util::spec_repeat('^', t.token_len), role: Role::Colored(spec_color(t.severity)) },
        FragView { text: " --- "@, role: Role::Colored(spec_color(t.severity)) },
        FragView { text: t.message, role: Role::Colored(spec_color(t.severity)) },
        util::nl_frag(),
        FragView { text: util::spec_repeat(' ', g), role: Role::Plain },
        util::vertical_frag(),
    ]
}

impl TokenInfo {
    /// Constructs the report entry.
    pub fn entry(&self) -> (r: Vec<Fragment>)
        requires
            self.position < usize::MAX,
        ensures
            r.deep_view() == token_frags(self@),
    {
        let line_number = util::usize_to_string(self.line);
        let gutter = line_number.as_str().unicode_len();
        let sev = Role::Colored(self.severity.color());
        let r: Vec<Fragment> = vec![
            Fragment::new(util::char_count(' ', gutter), Role::Plain),
            util::arrow(),
            util::file_and_token(self.file_name.as_str(), self.line, self.position),
            util::newline(),
            Fragment::new(util::char_count(' ', gutter), Role::Plain),
            util::vertical(),
            util::newline(),
            Fragment::new(line_number, Role::Colored(crate::severity::ColorRole::BrightBlue)),
            util::vertical(),
            Fragment::new(self.line_text.clone(), Role::Plain),
            util::newline(),
            Fragment::new(util::char_count(' ', gutter), Role::Plain),
            util::vertical(),
            Fragment::new(util::char_count(' ', self.position), Role::Plain),
            Fragment::new(util::char_count('^', self.token_len), sev),
            Fragment::from_str(" --- ", sev),
            Fragment::new(self.message.clone(), sev),
            util::newline(),
            Fragment::new(util::char_count(' ', gutter), Role::Plain),
            util::vertical(),
        ];
        assert(r.deep_view() =~~= token_frags(self@));
        r
    }
}

} // verus!
