pub mod config;
pub mod crawler;
pub mod dom;

pub use self::config::{CrawlConfig, Extractor, HtmlAttribute, Meta, ObjectComplex, ObjectLeaf, Selector, Value};

use vstd::prelude::*;

verus! {

/// A page of a crawl description, under its older name.
pub type Pages = self::config::Page;

} // verus!
