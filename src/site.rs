use vstd::prelude::*;
use crate::model::{same_metadata, PageInfo};
use crate::page::{page_file_name, PendingPage};

verus! {

/// The summaries gathered during one run, in the order the pages were written.
///
/// A summary enters only once its page file has been written, and its `path`
/// is then the name of that file; the ghost `written` lists those names.
pub struct SiteBuilder {
    pages: Vec<PageInfo>,
    written: Ghost<Seq<Seq<char>>>,
}

impl SiteBuilder {
    /// The summaries gathered so far.
    pub closed spec fn spec_pages(&self) -> Seq<PageInfo> {
        self.pages@
    }

    /// The names of the page files reported written so far, in order.
    pub closed spec fn spec_written(&self) -> Seq<Seq<char>> {
        self.written@
    }

    /// Every summary has the non-empty name of the file written for it.
    pub open spec fn wf(&self) -> bool {
        &&& self.spec_pages().len() == self.spec_written().len()
        &&& forall|i: int|
            0 <= i < self.spec_pages().len() ==> {
                &&& (#[trigger] self.spec_pages()[i]).path@ == self.spec_written()[i]
                &&& self.spec_written()[i].len() > 0
            }
    }

    /// A run with no pages yet.
    pub fn new() -> (r: SiteBuilder)
        ensures
            r.wf(),
            r.spec_pages().len() == 0,
    {
        SiteBuilder { pages: Vec::new(), written: Ghost(Seq::empty()) }
    }

    /// Records that `page` has been written to its file: its summary joins the
    /// list, with `path` set to that file's name.
    pub fn page_written(&mut self, page: PendingPage)
        requires
            old(self).wf(),
            page.wf(),
        ensures
            final(self).wf(),
            final(self).spec_pages().len() == old(self).spec_pages().len() + 1,
            final(self).spec_pages().take(old(self).spec_pages().len() as int) == old(self).spec_pages(),
            final(self).spec_written() == old(self).spec_written().push(page.spec_file_name()),
            ({
                let s = final(self).spec_pages().last();
                &&& same_metadata(s, page.spec_info())
                &&& s.path@ == page.spec_file_name()
            }),
    {
        proof {
            let stem = choose|stem: Seq<char>| page.spec_file_name() == page_file_name(stem);
            assert(page.spec_file_name().len() == stem.len() + 5);
        }
        let ghost name = page.spec_file_name();
        let summary = page.into_summary();
        self.pages.push(summary);
        self.written = Ghost(self.written@.push(name));
        assert(self.spec_pages().take(old(self).spec_pages().len() as int) =~= old(self).spec_pages());
    }

    /// The summaries for the index, in the order their pages were written.
    /// Each has a non-empty `path` naming the file that was written for it.
    pub fn pages(&self) -> (r: &Vec<PageInfo>)
        requires
            self.wf(),
        ensures
            r@ == self.spec_pages(),
            forall|i: int|
                0 <= i < r@.len() ==> (#[trigger] r@[i]).path@.len() > 0 && r@[i].path@
                    == self.spec_written()[i],
    {
        &self.pages
    }

    /// Number of summaries gathered so far.
    pub fn len(&self) -> (r: usize)
        ensures
            r == self.spec_pages().len(),
    {
        self.pages.len()
    }
}

/// Every summary that reaches the index has a non-empty `path`, and that path
/// is the name of a page file reported written during the run.
pub proof fn lemma_summaries_name_written_files(b: &SiteBuilder, i: int)
    requires
        b.wf(),
        0 <= i < b.spec_pages().len(),
    ensures
        b.spec_pages()[i].path@.len() > 0,
        b.spec_written().contains(b.spec_pages()[i].path@),
{
    assert(b.spec_written()[i] == b.spec_pages()[i].path@);
}

} // verus!
