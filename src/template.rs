use vstd::prelude::*;
use crate::model::{SiteConfig, SiteError};

verus! {

#[verifier::external_type_specification]
#[verifier::external_body]
pub struct ExContext(tera::Context);

#[verifier::external_type_specification]
#[verifier::external_body]
pub struct ExTeraError(tera::Error);

#[verifier::external_type_specification]
#[verifier::external_body]
pub struct ExValue(tera::Value);

/// Name of the template every content page is rendered with.
pub const PAGE_TEMPLATE: &'static str = "template.html";

/// Name of the template the index is rendered with, and of the index file.
pub const INDEX_TEMPLATE: &'static str = "index.html";

/// The bindings of a context whose value is a string, with that string.
pub uninterp spec fn context_text(c: tera::Context) -> Map<Seq<char>, Seq<char>>;

/// Every binding of a context, with the engine's value for it.
pub uninterp spec fn context_values(c: tera::Context) -> Map<Seq<char>, tera::Value>;

/// Relies on tera::Context::new: a context with no bindings.
pub assume_specification[ tera::Context::new ]() -> (r: tera::Context)
    ensures
        context_text(r).dom().finite(),
        context_text(r).dom().len() == 0,
        context_values(r).dom().finite(),
        context_values(r).dom().len() == 0,
;

/// Relies on tera::Context::insert: binds `key` to a string value (serialising
/// a string cannot fail, so the call does not panic).
#[verifier::external_body]
fn insert_text(context: &mut tera::Context, key: &str, value: &str)
    ensures
        context_text(*final(context)) == context_text(*old(context)).insert(key@, value@),
        context_values(*final(context)).dom() == context_values(*old(context)).dom().insert(key@),
        context_values(*final(context)).remove(key@) == context_values(*old(context)).remove(key@),
{
    context.insert(key, value);
}

/// Relies on tera::Context::insert: binds `key` to an already serialised
/// value (a `Value` serialises to itself, so the call does not panic).
#[verifier::external_body]
fn insert_value(context: &mut tera::Context, key: &str, value: &tera::Value)
    ensures
        context_values(*final(context)) == context_values(*old(context)).insert(key@, *value),
        context_text(*final(context)).remove(key@) == context_text(*old(context)).remove(key@),
{
    context.insert(key, value);
}

/// Relies on tera::Error's Display impl: the engine's description of the failure.
#[verifier::external_body]
fn error_text(e: &tera::Error) -> String {
    e.to_string()
}

/// Maps the engine's answer to the library's terms: the rendered text is kept,
/// and any failure becomes a render error.
pub fn render_outcome(outcome: Result<String, tera::Error>) -> (r: Result<String, SiteError>)
    ensures
        outcome is Ok ==> r == Ok::<String, SiteError>(outcome->Ok_0),
        outcome is Err ==> (r is Err && r->Err_0 is Render),
{
    match outcome {
        Ok(text) => Ok(text),
        Err(e) => Err(SiteError::Render(error_text(&e))),
    }
}

proof fn lemma_empty_context(c: tera::Context)
    requires
        context_text(c).dom().finite(),
        context_text(c).dom().len() == 0,
        context_values(c).dom().finite(),
        context_values(c).dom().len() == 0,
    ensures
        context_text(c) == Map::<Seq<char>, Seq<char>>::empty(),
        context_values(c) == Map::<Seq<char>, tera::Value>::empty(),
{
    context_text(c).dom().lemma_len0_is_empty();
    context_values(c).dom().lemma_len0_is_empty();
    assert(context_text(c) =~= Map::<Seq<char>, Seq<char>>::empty());
    assert(context_values(c) =~= Map::<Seq<char>, tera::Value>::empty());
}

/// The context a content page is rendered with: exactly the page title, the
/// site title, the HTML content and the base URL, each as text.
pub fn page_context(html_content: &str, title: &String, config: &SiteConfig) -> (r: tera::Context)
    ensures
        context_text(r) == Map::<Seq<char>, Seq<char>>::empty().insert("post_title"@, title@).insert(
            "site_title"@,
            config.site_title@,
        ).insert("content"@, html_content@).insert("base_url"@, config.base_url@),
        context_values(r).dom() == Set::<Seq<char>>::empty().insert("post_title"@).insert(
            "site_title"@,
        ).insert("content"@).insert("base_url"@),
{
    let mut context = tera::Context::new();
    proof {
        lemma_empty_context(context);
    }
    insert_text(&mut context, "post_title", title.as_str());
    insert_text(&mut context, "site_title", config.site_title.as_str());
    insert_text(&mut context, "content", html_content);
    insert_text(&mut context, "base_url", config.base_url.as_str());
    context
}

/// The context the index is rendered with: exactly the site title and the
/// base URL as text, and the list of page summaries (as the engine's value).
pub fn index_context(pages: &tera::Value, config: &SiteConfig) -> (r: tera::Context)
    ensures
        context_values(r).dom() == Set::<Seq<char>>::empty().insert("site_title"@).insert(
            "pages"@,
        ).insert("base_url"@),
        context_values(r)["pages"@] == *pages,
        context_text(r).remove("pages"@) == Map::<Seq<char>, Seq<char>>::empty().insert(
            "site_title"@,
            config.site_title@,
        ).insert("base_url"@, config.base_url@),
{
    proof {
        reveal_strlit("pages");
        reveal_strlit("site_title");
        reveal_strlit("base_url");
        assert("pages"@.len() != "site_title"@.len());
        assert("pages"@.len() != "base_url"@.len());
    }
    let mut context = tera::Context::new();
    proof {
        lemma_empty_context(context);
    }
    insert_value(&mut context, "pages", pages);
    let ghost t1 = context_text(context);
    let ghost v1 = context_values(context);
    insert_text(&mut context, "site_title", config.site_title.as_str());
    let ghost v2 = context_values(context);
    assert(v2.remove("site_title"@).contains_key("pages"@));
    assert(v2.remove("site_title"@)["pages"@] == v1["pages"@]);
    insert_text(&mut context, "base_url", config.base_url.as_str());
    let ghost v3 = context_values(context);
    assert(v3.remove("base_url"@).contains_key("pages"@));
    assert(v3.remove("base_url"@)["pages"@] == v2["pages"@]);
    assert(v3.dom() =~= Set::<Seq<char>>::empty().insert("site_title"@).insert("pages"@).insert(
        "base_url"@,
    ));
    assert(t1.remove("pages"@) =~= Map::<Seq<char>, Seq<char>>::empty());
    assert(forall|k: Seq<char>| k != "pages"@ ==> !t1.contains_key(k)) by {
        assert forall|k: Seq<char>| k != "pages"@ implies !t1.contains_key(k) by {
            assert(!t1.remove("pages"@).contains_key(k));
        }
    }
    assert(context_text(context).remove("pages"@) =~= Map::<Seq<char>, Seq<char>>::empty().insert(
        "site_title"@,
        config.site_title@,
    ).insert("base_url"@, config.base_url@));
    context
}

/// Some entry of `names` is `name`.
pub open spec fn names_hold(names: Seq<String>, name: Seq<char>) -> bool {
    exists|i: int| 0 <= i < names.len() && (#[trigger] names[i])@ == name
}

fn holds_name(names: &Vec<String>, name: &str) -> (r: bool)
    ensures
        r == names_hold(names@, name@),
{
    let target = String::from_str(name);
    let mut i: usize = 0;
    while i < names.len()
        invariant
            i <= names@.len(),
            target@ == name@,
            forall|j: int| 0 <= j < i ==> (#[trigger] names@[j])@ != name@,
        decreases names@.len() - i,
    {
        if names[i] == target {
            return true;
        }
        i = i + 1;
    }
    false
}

/// Checks the engine's template set before any page is built: it must hold
/// both the page template and the index template, else the run cannot start.
pub fn check_templates(names: &Vec<String>) -> (r: Result<(), SiteError>)
    ensures
        r is Ok <==> (names_hold(names@, PAGE_TEMPLATE@) && names_hold(names@, INDEX_TEMPLATE@)),
        r is Err ==> r->Err_0 is TemplateInit,
{
    if !holds_name(names, PAGE_TEMPLATE) {
        return Err(SiteError::TemplateInit(String::from_str("missing template: ").concat(PAGE_TEMPLATE)));
    }
    if !holds_name(names, INDEX_TEMPLATE) {
        return Err(SiteError::TemplateInit(String::from_str("missing template: ").concat(INDEX_TEMPLATE)));
    }
    Ok(())
}

} // verus!
