//! Static site generation: content records with front matter, Markdown
//! rendering, page binding through a template engine, and the set of page
//! summaries that the index is built from.

pub mod markdown;
pub mod model;
pub mod page;
pub mod site;
pub mod template;
