use crate::fragment::{frags_text, FragView, Fragment, Role};
use crate::report::util;
use crate::severity::{spec_color, Severity};
use vstd::prelude::*;

verus! {

/// A properties entry: an ordered table of name/value pairs.
///
/// Rendered with every value column aligned:
///
/// ```text
///     first:  value
///     second: another value
///     third:  third value
/// ```
///
/// Insertion order is significant and preserved; duplicate names are kept.
#[derive(Debug)]
pub struct Properties {
    properties: Vec<(String, String)>,
}

impl View for Properties {
    type V = Seq<(Seq<char>, Seq<char>)>;

    closed spec fn view(&self) -> Seq<(Seq<char>, Seq<char>)> {
        self.properties@.map_values(|p: (String, String)| (p.0@, p.1@))
    }
}

/// The length of the longest name among the pairs, or 0 when there are none.
pub open spec fn max_name_len(ps: Seq<(Seq<char>, Seq<char>)>) -> nat
    decreases ps.len(),
{
    if ps.len() == 0 {
        0
    } else {
        let rest = max_name_len(ps.drop_last());
        if ps.last().0.len() > rest {
            ps.last().0.len()
        } else {
            rest
        }
    }
}

/// The six fragments of one property row: a four-space margin, the
/// info-colored name and colon, `maxlen - name_len + 2` spaces of padding —
/// so that with `maxlen` the length of the table's longest name, every value
/// column starts at the same offset — the plain value, and a newline.
pub open spec fn prop_row_frags(name: Seq<char>, value: Seq<char>, maxlen: nat) -> Seq<FragView> {
    seq![
        FragView { text: "    "@, role: Role::Plain },
        FragView { text: name, role: Role::Colored(spec_color(Severity::Info)) },
        FragView { text: ":"@, role: Role::Colored(spec_color(Severity::Info)) },
        FragView { text: util::spec_repeat(' ', (maxlen + 2 - name.len()) as nat), role: Role::Plain },
        FragView { text: value, role: Role::Plain },
        FragView { text: "\n"@, role: Role::Plain },
    ]
}

/// The rows of a property table, in order, all padded against `maxlen`.
pub open spec fn props_frags_at(ps: Seq<(Seq<char>, Seq<char>)>, maxlen: nat) -> Seq<FragView>
    decreases ps.len(),
{
    if ps.len() == 0 {
        Seq::empty()
    } else {
        props_frags_at(ps.drop_last(), maxlen) + prop_row_frags(
            ps.last().0,
            ps.last().1,
            maxlen,
        )
    }
}

/// The full fragment sequence of a property table.
pub open spec fn props_frags(ps: Seq<(Seq<char>, Seq<char>)>) -> Seq<FragView> {
    props_frags_at(ps, max_name_len(ps))
}

/// No name is longer than the longest name.
pub proof fn lemma_max_name_len_bound(ps: Seq<(Seq<char>, Seq<char>)>, i: int)
    requires
        0 <= i < ps.len(),
    ensures
        ps[i].0.len() <= max_name_len(ps),
    decreases ps.len(),
{
    if i < ps.len() - 1 {
        lemma_max_name_len_bound(ps.drop_last(), i);
    }
}

impl Default for Properties {
    /// Creates an empty property table.
    fn default() -> (r: Self)
        ensures
            r@ == Seq::<(Seq<char>, Seq<char>)>::empty(),
    {
        let r = Properties { properties: Vec::new() };
        proof {
            assert(r@ =~= Seq::<(Seq<char>, Seq<char>)>::empty());
        }
        r
    }
}

impl Properties {
    /// Gets the properties.
    pub fn properties(&self) -> (r: &Vec<(String, String)>)
        ensures
            r@.len() == self@.len(),
            forall|i: int| 0 <= i < self@.len() ==> (#[trigger] r@[i].0)@ == self@[i].0,
            forall|i: int| 0 <= i < self@.len() ==> (#[trigger] r@[i].1)@ == self@[i].1,
    {
        &self.properties
    }

    /// Adds the property.
    pub fn add(&mut self, name: &str, value: &str)
        ensures
            final(self)@ == old(self)@.push((name@, value@)),
    {
        self.properties.push((String::from_str(name), String::from_str(value)));
        proof {
            assert(self@ =~= old(self)@.push((name@, value@)));
        }
    }

    /// Adds the property.
    pub fn with(self, name: &str, value: &str) -> (r: Self)
        ensures
            r@ == self@.push((name@, value@)),
    {
        let mut this = self;
        this.add(name, value);
        this
    }

    /// Constructs the report entry: one aligned row per property, in
    /// insertion order, and no fragments at all for an empty table.
    ///
    /// The single precondition is the machine limit that the padding width
    /// `max_name_len + 2` fits in `usize`.
    pub fn entry(self) -> (r: Vec<Fragment>)
        requires
            max_name_len(self@) + 2 <= usize::MAX,
        ensures
            r.deep_view() == props_frags(self@),
    {
        let ghost ps = self@;
        let mut maxlen: usize = 0;
        let mut i: usize = 0;
        while i < self.properties.len()
            invariant
                i <= self.properties.len(),
                ps == self@,
                maxlen == max_name_len(ps.take(i as int)),
            decreases self.properties.len() - i,
        {
            let len = self.properties[i].0.as_str().unicode_len();
            proof {
                assert(ps.take(i + 1).drop_last() =~= ps.take(i as int));
                assert(ps.take(i + 1).last() == ps[i as int]);
            }
            if len > maxlen {
                maxlen = len;
            }
            i = i + 1;
        }
        proof {
            assert(ps.take(self.properties.len() as int) =~= ps);
        }
        let mut entry: Vec<Fragment> = Vec::new();
        let mut i: usize = 0;
        while i < self.properties.len()
            invariant
                i <= self.properties.len(),
                ps == self@,
                maxlen == max_name_len(ps),
                maxlen + 2 <= usize::MAX,
                entry.deep_view() =~~= props_frags_at(ps.take(i as int), maxlen as nat),
            decreases self.properties.len() - i,
        {
            let len = self.properties[i].0.as_str().unicode_len();
            proof {
                lemma_max_name_len_bound(ps, i as int);
            }
            let spaces: usize = maxlen - len + 2;
            entry.push(Fragment::from_str("    ", Role::Plain));
            entry.push(Fragment::new(self.properties[i].0.clone(), Role::Colored(
                Severity::Info.color(),
            )));
            entry.push(Fragment::from_str(":", Role::Colored(Severity::Info.color())));
            entry.push(Fragment::new(util::char_count(' ', spaces), Role::Plain));
            entry.push(Fragment::new(self.properties[i].1.clone(), Role::Plain));
            entry.push(Fragment::from_str("\n", Role::Plain));
            proof {
                assert(ps.take(i + 1).drop_last() =~= ps.take(i as int));
                assert(ps.take(i + 1).last() == ps[i as int]);
                assert(entry.deep_view() =~~= props_frags_at(ps.take(i + 1), maxlen as nat));
            }
            i = i + 1;
        }
        proof {
            assert(ps.take(self.properties.len() as int) =~= ps);
        }
        entry
    }
}

/// Law: an empty property table contributes no fragments, hence no data
/// rows, to its report entry.
pub proof fn lemma_empty_properties_frags()
    ensures
        props_frags(Seq::empty()) == Seq::<FragView>::empty(),
        frags_text(props_frags(Seq::empty())) == Seq::<char>::empty(),
{
}

/// Law: every value column of a rendered property table begins at the same
/// character offset, `4 + max_name_len + 3` (margin, padded name, colon and
/// spacing), independent of the row; the value itself stands there, followed
/// by the row's closing newline.
pub proof fn lemma_properties_alignment(ps: Seq<(Seq<char>, Seq<char>)>, i: int)
    requires
        0 <= i < ps.len(),
    ensures
        ({
            let m = max_name_len(ps);
            let t = frags_text(prop_row_frags(ps[i].0, ps[i].1, m));
            &&& t.len() == m + 8 + ps[i].1.len()
            &&& t.subrange(m as int + 7, m + 7 + ps[i].1.len() as int) == ps[i].1
        }),
{
    lemma_max_name_len_bound(ps, i);
    reveal_with_fuel(frags_text, 7);
    reveal_strlit("    ");
    reveal_strlit(":");
    reveal_strlit("\n");
    let m = max_name_len(ps);
    let fs = prop_row_frags(ps[i].0, ps[i].1, m);
    assert(fs.drop_last() =~= seq![fs[0], fs[1], fs[2], fs[3], fs[4]]);
    assert(fs.drop_last().drop_last() =~= seq![fs[0], fs[1], fs[2], fs[3]]);
    assert(fs.drop_last().drop_last().drop_last() =~= seq![fs[0], fs[1], fs[2]]);
    assert(fs.drop_last().drop_last().drop_last().drop_last() =~= seq![fs[0], fs[1]]);
    assert(fs.drop_last().drop_last().drop_last().drop_last().drop_last() =~= seq![fs[0]]);
    assert(seq![fs[0]].drop_last() =~= Seq::<FragView>::empty());
    let t = frags_text(fs);
    assert(t.len() == m + 8 + ps[i].1.len());
    assert(t.subrange(m as int + 7, m + 7 + ps[i].1.len() as int) =~= ps[i].1);
}

} // verus!
