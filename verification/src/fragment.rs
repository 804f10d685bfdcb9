use crate::severity::ColorRole;
use vstd::prelude::*;

verus! {

/// The semantic style role of a text fragment.  Roles are abstract intent —
/// the boundary decides what, if anything, each role looks like on screen.
#[derive(Copy, Clone, PartialEq, Eq, Structural, Hash, Debug)]
pub enum Role {
    /// Neutral text, no styling.
    Plain,
    /// Bold, bright-white emphasis (used for the header message).
    Emphasis,
    /// Text carrying a specific color role.
    Colored(ColorRole),
}

/// The mathematical model of a fragment: its character sequence and its role.
#[verifier::ext_equal]
pub ghost struct FragView {
    pub text: Seq<char>,
    pub role: Role,
}

/// One unit of styled output: a piece of text together with the semantic
/// style role it should be rendered under.
#[derive(Debug)]
pub struct Fragment {
    pub text: String,
    pub role: Role,
}

impl View for Fragment {
    type V = FragView;

    open spec fn view(&self) -> FragView {
        FragView { text: self.text@, role: self.role }
    }
}

impl DeepView for Fragment {
    type V = FragView;

    open spec fn deep_view(&self) -> FragView {
        self@
    }
}

impl Clone for Fragment {
    fn clone(&self) -> (r: Self)
        ensures
            r@ == self@,
    {
        Fragment { text: self.text.clone(), role: self.role }
    }
}

impl Fragment {
    /// Creates a fragment from an owned text and a role.
    pub fn new(text: String, role: Role) -> (r: Self)
        ensures
            r@ == (FragView { text: text@, role }),
    {
        Fragment { text, role }
    }

    /// Creates a fragment by copying a borrowed text.
    pub fn from_str(text: &str, role: Role) -> (r: Self)
        ensures
            r@ == (FragView { text: text@, role }),
    {
        Fragment { text: String::from_str(text), role }
    }
}

/// The text of a fragment sequence: the concatenation of every fragment's
/// characters, in order.
pub open spec fn frags_text(fs: Seq<FragView>) -> Seq<char>
    decreases fs.len(),
{
    if fs.len() == 0 {
        Seq::empty()
    } else {
        frags_text(fs.drop_last()) + fs.last().text
    }
}

/// The text of a single fragment is its own text.
pub proof fn lemma_frags_text_singleton(f: FragView)
    ensures
        frags_text(seq![f]) == f.text,
{
    assert(seq![f].drop_last() =~= Seq::<FragView>::empty());
    assert(frags_text(Seq::<FragView>::empty()) == Seq::<char>::empty());
    assert(frags_text(seq![f]) =~= f.text);
}

/// Concatenating fragment sequences concatenates their texts.
pub proof fn lemma_frags_text_concat(a: Seq<FragView>, b: Seq<FragView>)
    ensures
        frags_text(a + b) == frags_text(a) + frags_text(b),
    decreases b.len(),
{
    if b.len() == 0 {
        assert(a + b =~= a);
        assert(frags_text(a) + frags_text(b) =~= frags_text(a));
    } else {
        lemma_frags_text_concat(a, b.drop_last());
        assert((a + b).drop_last() =~= a + b.drop_last());
        assert((a + b).last() == b.last());
        assert(frags_text(a) + (frags_text(b.drop_last()) + b.last().text) =~= (frags_text(a)
            + frags_text(b.drop_last())) + b.last().text);
    }
}

} // verus!
