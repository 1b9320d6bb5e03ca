use vstd::prelude::*;
use crate::markdown::{markdown_html_of, parse_markdown};
use crate::model::{same_metadata, PageInfo, SiteConfig, SiteError};
use crate::template::{context_text, context_values, page_context};

verus! {

/// Name of the page file written for a content file with the given stem.
pub open spec fn page_file_name(stem: Seq<char>) -> Seq<char> {
    stem + seq!['.', 'h', 't', 'm', 'l']
}

/// Index of the last '.' among `name[1..end]`, or 0 where there is none.
pub open spec fn last_dot(name: Seq<char>, end: int) -> int
    decreases end,
{
    if end <= 1 {
        0
    } else if name[end - 1] == '.' {
        end - 1
    } else {
        last_dot(name, end - 1)
    }
}

/// A file name without its extension: everything before the last '.', unless
/// that '.' is the first character (a hidden file keeps its whole name).
pub open spec fn stem_of(name: Seq<char>) -> Seq<char> {
    let k = last_dot(name, name.len() as int);
    if k > 0 {
        name.subrange(0, k)
    } else {
        name
    }
}

proof fn lemma_last_dot_range(name: Seq<char>, end: int)
    requires
        end <= name.len(),
    ensures
        0 <= last_dot(name, end) < if end < 1 { 1 } else { end },
        last_dot(name, end) > 0 ==> name[last_dot(name, end)] == '.',
    decreases end,
{
    if end > 1 && name[end - 1] != '.' {
        lemma_last_dot_range(name, end - 1);
    }
}

/// The stem of a file name: the name without its last extension.
pub fn file_stem(name: &str) -> (r: String)
    ensures
        r@ == stem_of(name@),
{
    let n = name.unicode_len();
    let mut i: usize = n;
    while i > 1 && name.get_char(i - 1) != '.'
        invariant
            i <= n,
            n == name@.len(),
            last_dot(name@, i as int) == last_dot(name@, n as int),
        decreases i,
    {
        i = i - 1;
    }
    proof {
        lemma_last_dot_range(name@, n as int);
    }
    if i > 1 {
        String::from_str(name.substring_char(0, i - 1))
    } else {
        String::from_str(name)
    }
}

/// The output file name for a stem: the stem with `.html` appended.
pub fn output_file_name(stem: &str) -> (r: String)
    ensures
        r@ == page_file_name(stem@),
{
    let r = String::from_str(stem).concat(".html");
    proof {
        reveal_strlit(".html");
        assert(".html"@ == seq!['.', 'h', 't', 'm', 'l']);
    }
    r
}

/// Turns the decoded metadata block of a content file into its record: the
/// author's values unchanged, and an empty `path` whatever the block said.
/// A block that could not be decoded is a metadata error carrying the
/// decoder's diagnostic.
pub fn collect_metadata(decoded: Result<PageInfo, String>) -> (r: Result<PageInfo, SiteError>)
    ensures
        decoded is Ok ==> (r is Ok && same_metadata(r->Ok_0, decoded->Ok_0) && r->Ok_0.path@.len()
            == 0),
        decoded is Err ==> r == Err::<PageInfo, SiteError>(SiteError::Metadata(decoded->Err_0)),
{
    match decoded {
        Ok(data) => {
            let PageInfo { title, description, tags, similar_posts, date, favorite_numbers, path: _ } =
                data;
            Ok(PageInfo { title, description, tags, similar_posts, date, favorite_numbers, path: String::new() })
        },
        Err(e) => Err(SiteError::Metadata(e)),
    }
}

/// A rendered page that is ready to be written: its file name, its text, and
/// its record (whose `path` is still empty).
pub struct PendingPage {
    file_name: String,
    text: String,
    info: PageInfo,
}

impl PendingPage {
    pub closed spec fn spec_file_name(&self) -> Seq<char> {
        self.file_name@
    }

    pub closed spec fn spec_text(&self) -> Seq<char> {
        self.text@
    }

    pub closed spec fn spec_info(&self) -> PageInfo {
        self.info
    }

    /// A page name is never empty: it always ends in `.html`.
    pub open spec fn wf(&self) -> bool {
        exists|stem: Seq<char>| self.spec_file_name() == page_file_name(stem)
    }

    /// Name of the file the page goes to, relative to the output directory.
    pub fn file_name(&self) -> (r: &String)
        ensures
            r@ == self.spec_file_name(),
    {
        &self.file_name
    }

    /// The rendered text of the page.
    pub fn text(&self) -> (r: &String)
        ensures
            r@ == self.spec_text(),
    {
        &self.text
    }

    /// The page's record, with its `path` not yet assigned.
    pub fn info(&self) -> (r: &PageInfo)
        ensures
            *r == self.spec_info(),
    {
        &self.info
    }

    /// The page's summary once it is written: its record with `path` set to
    /// the page's file name.
    pub fn into_summary(self) -> (r: PageInfo)
        ensures
            same_metadata(r, self.spec_info()),
            r.path@ == self.spec_file_name(),
    {
        let PendingPage { file_name, text: _, info } = self;
        let PageInfo { title, description, tags, similar_posts, date, favorite_numbers, path: _ } =
            info;
        PageInfo { title, description, tags, similar_posts, date, favorite_numbers, path: file_name }
    }
}

/// Completes a page from the template engine's answer: on success, the page
/// goes to `<stem>.html` with exactly the rendered text and the given record;
/// a failure is passed on unchanged.
pub fn finish_page(record: PageInfo, source_name: &str, rendered: Result<String, SiteError>) -> (r:
    Result<PendingPage, SiteError>)
    ensures
        rendered is Ok ==> (r is Ok && r->Ok_0.wf() && r->Ok_0.spec_file_name() == page_file_name(
            stem_of(source_name@)) && r->Ok_0.spec_text() == rendered->Ok_0@ && r->Ok_0.spec_info()
            == record),
        rendered is Err ==> r == Err::<PendingPage, SiteError>(rendered->Err_0),
{
    match rendered {
        Ok(text) => {
            let stem = file_stem(source_name);
            let file_name = output_file_name(stem.as_str());
            let page = PendingPage { file_name, text, info: record };
            assert(page.spec_file_name() == page_file_name(stem@));
            Ok(page)
        },
        Err(e) => Err(e),
    }
}

/// The diagnostic of a metadata failure, preceded by the file it came from.
pub open spec fn located(source_name: Seq<char>, diagnostic: Seq<char>) -> Seq<char> {
    source_name + seq![':', ' '] + diagnostic
}

/// The metadata error reported for a content file: which file failed, and
/// the decoder's diagnostic.
pub fn metadata_error(source_name: &str, diagnostic: &str) -> (r: SiteError)
    ensures
        r matches SiteError::Metadata(m) && m@ == located(source_name@, diagnostic@),
{
    let m = String::from_str(source_name).concat(": ").concat(diagnostic);
    proof {
        reveal_strlit(": ");
        assert(": "@ == seq![':', ' ']);
    }
    SiteError::Metadata(m)
}

/// Prepares one content page from its decoded front matter (the record and
/// the Markdown body that follows the metadata block): the record with an
/// empty `path`, and the context the page template is rendered with, built
/// from the record's title and the HTML of the body. A metadata failure names
/// the file and prepares nothing.
pub fn prepare_page(
    config: &SiteConfig,
    source_name: &str,
    decoded: Result<(PageInfo, String), String>,
) -> (r: Result<(PageInfo, tera::Context), SiteError>)
    ensures
        decoded is Err <==> r is Err,
        decoded is Err ==> (r matches Err(SiteError::Metadata(m)) && m@ == located(
            source_name@,
            decoded->Err_0@,
        )),
        decoded is Ok ==> ({
            let (record, context) = r->Ok_0;
            let (data, body) = decoded->Ok_0;
            &&& same_metadata(record, data)
            &&& record.path@.len() == 0
            &&& context_text(context) == Map::<Seq<char>, Seq<char>>::empty().insert(
                "post_title"@,
                data.title@,
            ).insert("site_title"@, config.site_title@).insert(
                "content"@,
                markdown_html_of(body@),
            ).insert("base_url"@, config.base_url@)
            &&& context_values(context).dom() == Set::<Seq<char>>::empty().insert("post_title"@).insert(
                "site_title"@,
            ).insert("content"@).insert("base_url"@)
        }),
{
    let (data, body) = match decoded {
        Ok(pair) => pair,
        Err(e) => return Err(metadata_error(source_name, e.as_str())),
    };
    let record = match collect_metadata(Ok(data)) {
        Ok(record) => record,
        Err(e) => return Err(e),
    };
    let html_content = parse_markdown(body.as_str());
    let context = page_context(html_content.as_str(), &record.title, config);
    Ok((record, context))
}

} // verus!
