use vstd::prelude::*;

verus! {

/// How a page part is located: a CSS selector.
#[derive(Debug)]
pub enum Selector {
    Css(String),
}

impl Selector {
    /// The selector's text.
    pub open spec fn css(&self) -> Seq<char> {
        match self {
            Selector::Css(s) => s@,
        }
    }
}

/// The name of an HTML attribute to extract.
#[derive(Debug)]
pub struct HtmlAttribute {
    pub name: String,
}

/// What is taken out of a matched element.
#[derive(Debug)]
pub enum Extractor {
    InnerText,
    Attr(HtmlAttribute),
}

/// A value read from one element.
#[derive(Debug)]
pub struct ObjectLeaf {
    pub selector: Selector,
    pub extract: Extractor,
}

/// A value built of named parts, each read inside the element that the selector matches.
#[derive(Debug)]
pub struct ObjectComplex {
    pub selector: Selector,
    pub fields: Vec<(String, Value)>,
}

impl ObjectComplex {
    /// No two fields of the part have the same name.
    pub open spec fn well_formed(&self) -> bool {
        forall|i: int, j: int|
            0 <= i < j < self.fields@.len() ==> (#[trigger] self.fields@[i]).0@ != (#[trigger] self.fields@[j]).0@
    }
}

/// One named part of a page description.
#[derive(Debug)]
pub enum Value {
    Nested(ObjectComplex),
    Leaf(ObjectLeaf),
}

impl Value {
    /// The selector text of either kind of part.
    pub open spec fn selector_css(&self) -> Seq<char> {
        match self {
            Value::Nested(obj) => obj.selector.css(),
            Value::Leaf(obj) => obj.selector.css(),
        }
    }
}

/// One page of a site: its path below the site's url and the parts read from it.
#[derive(Debug)]
pub struct Page {
    pub path: String,
    pub data: Vec<(String, Value)>,
}

impl Page {
    /// No two parts of the page have the same name.
    pub open spec fn well_formed(&self) -> bool {
        forall|i: int, j: int|
            0 <= i < j < self.data@.len() ==> (#[trigger] self.data@[i]).0@ != (#[trigger] self.data@[j]).0@
    }
}

/// Version and base url of a crawl description.
#[derive(Debug)]
pub struct Meta {
    pub version: u8,
    pub url: String,
}

/// A whole crawl description: its meta data and its named pages.
#[derive(Debug)]
pub struct CrawlConfig {
    pub meta: Meta,
    pub pages: Vec<(String, Page)>,
}

impl CrawlConfig {
    /// No two pages have the same name, and no page has two parts of the same name.
    pub open spec fn well_formed(&self) -> bool {
        &&& forall|i: int, j: int|
            0 <= i < j < self.pages@.len() ==> (#[trigger] self.pages@[i]).0@ != (#[trigger] self.pages@[j]).0@
        &&& forall|i: int| 0 <= i < self.pages@.len() ==> (#[trigger] self.pages@[i]).1.well_formed()
    }
}

/// The CSS selector text of a page part.
pub fn get_selector(page_part: &Value) -> (css: &str)
    ensures
        css@ == page_part.selector_css(),
{
    match page_part {
        Value::Nested(obj) => match &obj.selector {
            Selector::Css(s) => s.as_str(),
        },
        Value::Leaf(obj) => match &obj.selector {
            Selector::Css(s) => s.as_str(),
        },
    }
}

/// The CSS text of a selector.
pub fn get_selector2(selector: &Selector) -> (css: &str)
    ensures
        css@ == selector.css(),
{
    match selector {
        Selector::Css(s) => s.as_str(),
    }
}

} // verus!
