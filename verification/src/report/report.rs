use crate::code::{code_frags, code_text, lemma_code_frags_text, Code, CodeView};
use crate::fragment::{
    frags_text, lemma_frags_text_concat, lemma_frags_text_singleton, FragView, Fragment,
};
use crate::report::util;
use vstd::prelude::*;

verus! {

/// The mathematical model of a [`Report`]: the header's model and the
/// fragment models of each entry, in insertion order.
#[verifier::ext_equal]
pub ghost struct ReportView {
    pub code: CodeView,
    pub entries: Seq<Seq<FragView>>,
}

/// A command-line report: one [`Code`] header line followed by zero or more
/// entries, rendered in insertion order.
///
/// ```text
/// severity[code]: message
/// entries
/// ```
#[derive(Debug)]
pub struct Report {
    code: Code,
    entries: Vec<Vec<Fragment>>,
}

impl View for Report {
    type V = ReportView;

    closed spec fn view(&self) -> ReportView {
        ReportView { code: self.code@, entries: self.entries.deep_view() }
    }
}

/// The flattened fragments of the entries: each entry's fragments in order,
/// every entry closed by one newline fragment of the report's own.
pub open spec fn entries_frags(es: Seq<Seq<FragView>>) -> Seq<FragView>
    decreases es.len(),
{
    if es.len() == 0 {
        Seq::empty()
    } else {
        entries_frags(es.drop_last()) + es.last() + seq![util::nl_frag()]
    }
}

/// The text of the entries: each entry's fragment texts concatenated and
/// newline-terminated.  An entry whose own last fragment is a newline still
/// receives this closing newline — the layout quirk is preserved, not
/// deduplicated.
pub open spec fn entries_text(es: Seq<Seq<FragView>>) -> Seq<char>
    decreases es.len(),
{
    if es.len() == 0 {
        Seq::empty()
    } else {
        entries_text(es.drop_last()) + frags_text(es.last()) + "\n"@
    }
}

/// The full fragment sequence of a report: the header fragments, a newline,
/// then the entries' fragments.
pub open spec fn report_frags(r: ReportView) -> Seq<FragView> {
    code_frags(r.code) + seq![util::nl_frag()] + entries_frags(r.entries)
}

/// The rendered text of a report: the header line, a newline, then each
/// entry's text closed by a newline.
pub open spec fn render_text(r: ReportView) -> Seq<char> {
    code_text(r.code) + "\n"@ + entries_text(r.entries)
}

/// The flattened entry fragments concatenate to exactly the entries' text.
pub proof fn lemma_entries_frags_text(es: Seq<Seq<FragView>>)
    ensures
        frags_text(entries_frags(es)) == entries_text(es),
    decreases es.len(),
{
    reveal_strlit("\n");
    if es.len() > 0 {
        lemma_entries_frags_text(es.drop_last());
        lemma_frags_text_concat(entries_frags(es.drop_last()), es.last());
        lemma_frags_text_concat(entries_frags(es.drop_last()) + es.last(), seq![util::nl_frag()]);
        lemma_frags_text_singleton(util::nl_frag());
        assert(frags_text(entries_frags(es)) =~= entries_text(es));
    }
}

/// A report's fragments concatenate to exactly its rendered text.
pub proof fn lemma_report_frags_text(r: ReportView)
    ensures
        frags_text(report_frags(r)) == render_text(r),
{
    reveal_strlit("\n");
    lemma_code_frags_text(r.code);
    lemma_entries_frags_text(r.entries);
    lemma_frags_text_concat(code_frags(r.code), seq![util::nl_frag()]);
    lemma_frags_text_concat(code_frags(r.code) + seq![util::nl_frag()], entries_frags(r.entries));
    lemma_frags_text_singleton(util::nl_frag());
    assert(frags_text(report_frags(r)) =~= render_text(r));
}

/// Appends clones of every fragment of `entry` to `r`, in order.
fn push_all(r: Vec<Fragment>, entry: &Vec<Fragment>) -> (out: Vec<Fragment>)
    ensures
        out.deep_view() == r.deep_view() + entry.deep_view(),
{
    let ghost pre = r.deep_view();
    let ghost fs = entry.deep_view();
    let mut out = r;
    proof {
        assert(out.deep_view() =~~= pre + fs.take(0));
    }
    let mut j: usize = 0;
    while j < entry.len()
        invariant
            j <= entry.len(),
            fs == entry.deep_view(),
            fs.len() == entry.len(),
            out.deep_view() =~~= pre + fs.take(j as int),
        decreases entry.len() - j,
    {
        out.push(entry[j].clone());
        proof {
            assert(out@.last()@ == fs[j as int]);
            assert(out.deep_view() =~~= (pre + fs.take(j as int)).push(out@.last()@));
            assert(fs.take(j + 1) =~= fs.take(j as int).push(fs[j as int]));
            assert(out.deep_view() =~~= pre + fs.take(j + 1));
        }
        j = j + 1;
    }
    proof {
        assert(fs.take(fs.len() as int) =~= fs);
    }
    out
}

impl Report {
    /// Creates a new command-line report with no entries.
    pub fn new(code: Code) -> (r: Self)
        ensures
            r@ == (ReportView { code: code@, entries: Seq::empty() }),
    {
        let r = Report { code, entries: Vec::new() };
        proof {
            assert(r@.entries =~= Seq::<Seq<FragView>>::empty());
            assert(r@ =~~= (ReportView { code: r.code@, entries: Seq::empty() }));
        }
        r
    }

    /// Appends the `entry` to the ordered entry list.
    pub fn add_entry(&mut self, entry: Vec<Fragment>)
        ensures
            final(self)@ == (ReportView {
                code: old(self)@.code,
                entries: old(self)@.entries.push(entry.deep_view()),
            }),
    {
        self.entries.push(entry);
        proof {
            assert(self@.entries =~~= old(self)@.entries.push(self.entries@.last().deep_view()));
        }
    }

    /// Appends the `entry`, returning the report for chaining.
    pub fn with_entry(self, entry: Vec<Fragment>) -> (r: Self)
        ensures
            r@ == (ReportView {
                code: self@.code,
                entries: self@.entries.push(entry.deep_view()),
            }),
    {
        let mut this = self;
        this.add_entry(entry);
        this
    }

    /// Constructs the full styled fragment sequence of this report.
    pub fn fragments(&self) -> (r: Vec<Fragment>)
        ensures
            r.deep_view() == report_frags(self@),
    {
        let ghost es = self@.entries;
        let mut r = self.code.fragments();
        r.push(util::newline());
        proof {
            assert(r.deep_view() =~~= code_frags(self@.code) + seq![util::nl_frag()]
                + entries_frags(es.take(0)));
        }
        let mut i: usize = 0;
        while i < self.entries.len()
            invariant
                i <= self.entries.len(),
                es == self@.entries,
                es.len() == self.entries.len(),
                r.deep_view() =~~= code_frags(self@.code) + seq![util::nl_frag()] + entries_frags(
                    es.take(i as int),
                ),
            decreases self.entries.len() - i,
        {
            proof {
                assert(self.entries@[i as int].deep_view() == es[i as int]);
            }
            r = push_all(r, &self.entries[i]);
            let ghost mid = r.deep_view();
            r.push(util::newline());
            proof {
                assert(r@.last()@ == util::nl_frag());
                assert(r.deep_view() =~~= mid.push(r@.last()@));
                assert(es.take(i + 1).drop_last() =~= es.take(i as int));
                assert(es.take(i + 1).last() == es[i as int]);
                assert(entries_frags(es.take(i + 1)) =~= entries_frags(es.take(i as int))
                    + es[i as int] + seq![util::nl_frag()]);
                assert(r.deep_view() =~~= code_frags(self@.code) + seq![util::nl_frag()]
                    + entries_frags(es.take(i + 1)));
            }
            i = i + 1;
        }
        proof {
            assert(es.take(es.len() as int) =~= es);
            assert(r.deep_view() =~~= report_frags(self@));
        }
        r
    }

    /// Renders the report to plain text: the header line, then each entry's
    /// fragment texts concatenated and newline-terminated.  Rendering reads
    /// the report's state and nothing else, so repeated calls on an
    /// unmodified report return identical text.
    #[verifier::rlimit(30)]
    pub fn render(&self) -> (r: String)
        ensures
            r@ == render_text(self@),
    {
        let frags = self.fragments();
        let ghost fvs = frags.deep_view();
        let mut out = String::new();
        let mut i: usize = 0;
        proof {
            assert(out@ =~= frags_text(fvs.take(0)));
        }
        while i < frags.len()
            invariant
                i <= frags.len(),
                fvs == frags.deep_view(),
                fvs.len() == frags.len(),
                out@ == frags_text(fvs.take(i as int)),
            decreases frags.len() - i,
        {
            out.append(frags[i].text.as_str());
            proof {
                assert(frags@[i as int]@ == fvs[i as int]);
                assert(fvs.take(i + 1).drop_last() =~= fvs.take(i as int));
                assert(fvs.take(i + 1).last() == fvs[i as int]);
                assert(out@ == frags_text(fvs.take(i + 1)));
            }
            i = i + 1;
        }
        proof {
            assert(fvs.take(fvs.len() as int) =~= fvs);
            lemma_report_frags_text(self@);
        }
        out
    }
}

/// Law: a report with no entries renders as exactly its header line closed
/// by a single newline.
pub proof fn lemma_render_empty_report(c: CodeView)
    ensures
        render_text(ReportView { code: c, entries: Seq::empty() }) == code_text(c) + "\n"@,
{
    assert(render_text(ReportView { code: c, entries: Seq::empty() }) =~= code_text(c) + "\n"@);
}

/// Law: entries render in exactly the order they were appended — appending
/// an entry appends exactly that entry's text, closed by one newline, to the
/// rendered report, and changes nothing before it.
pub proof fn lemma_render_append(r: ReportView, e: Seq<FragView>)
    ensures
        render_text(ReportView { code: r.code, entries: r.entries.push(e) }) == render_text(r)
            + frags_text(e) + "\n"@,
{
    let es = r.entries.push(e);
    assert(es.drop_last() =~= r.entries);
    assert(es.last() == e);
    assert(render_text(ReportView { code: r.code, entries: es }) =~= render_text(r) + frags_text(e)
        + "\n"@);
}

/// Law: rendering is deterministic — the rendered text is a function of the
/// report's state alone, so two renderings of the same unmodified report are
/// identical.
pub proof fn lemma_render_deterministic(r: ReportView, first: Seq<char>, second: Seq<char>)
    requires
        first == render_text(r),
        second == render_text(r),
    ensures
        first == second,
{
}

} // verus!
