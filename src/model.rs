use vstd::prelude::*;

verus! {

/// Site-wide settings, loaded once and read-only for a run.
#[derive(Clone, Debug, PartialEq, Eq)]
pub struct SiteConfig {
    pub site_title: String,
    pub base_url: String,
    pub theme: String,
    pub content_location: String,
    pub output_location: String,
}

/// The metadata of one page: what its front matter declares, plus the
/// output-relative path of the written page (empty until the page is written).
///
/// `favorite_numbers` holds the IEEE-754 bit patterns of the author's
/// floating-point values, so that they are carried through unchanged.
#[derive(Clone, Debug, PartialEq, Eq)]
pub struct PageInfo {
    pub title: String,
    pub description: String,
    pub tags: Vec<String>,
    pub similar_posts: Vec<String>,
    pub date: String,
    pub favorite_numbers: Vec<u64>,
    pub path: String,
}

/// The ways a run can fail.
#[derive(Clone, Debug, PartialEq, Eq)]
pub enum SiteError {
    /// The settings source is missing or has the wrong shape.
    Config(String),
    /// The template engine could not load its templates.
    TemplateInit(String),
    /// A content file's metadata block is missing, malformed or mismatched.
    Metadata(String),
    /// The template engine failed while rendering a page or the index.
    Render(String),
    /// Reading, writing or creating a directory failed.
    Io(String),
}

/// Two records carry the same author-supplied metadata (everything but `path`).
pub open spec fn same_metadata(a: PageInfo, b: PageInfo) -> bool {
    &&& a.title@ == b.title@
    &&& a.description@ == b.description@
    &&& a.tags@ == b.tags@
    &&& a.similar_posts@ == b.similar_posts@
    &&& a.date@ == b.date@
    &&& a.favorite_numbers@ == b.favorite_numbers@
}

} // verus!
