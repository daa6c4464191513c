use faxtop::config::config::{get_selector, get_selector2, Extractor, HtmlAttribute, Meta, ObjectComplex, ObjectLeaf, Page, Selector, Value};
use faxtop::config::crawler::{
    check_reached, crawl_page, page_url, parse_page, parse_section, Crawler, JsonValue, SiteObjectModel,
};
use faxtop::config::dom::Document;

fn leaf(css: &str) -> Value {
    Value::Leaf(ObjectLeaf { selector: Selector::Css(css.to_string()), extract: Extractor::InnerText })
}

fn attr_leaf(css: &str, attr: &str) -> Value {
    Value::Leaf(ObjectLeaf {
        selector: Selector::Css(css.to_string()),
        extract: Extractor::Attr(HtmlAttribute { name: attr.to_string() }),
    })
}

fn nested(css: &str, fields: Vec<(String, Value)>) -> Value {
    Value::Nested(ObjectComplex { selector: Selector::Css(css.to_string()), fields })
}

fn object_get<'a>(v: &'a JsonValue, key: &str) -> Option<&'a JsonValue> {
    match v {
        JsonValue::Object(entries) => entries.iter().find(|(k, _)| k == key).map(|(_, v)| v),
        _ => None,
    }
}

fn text_of(v: &JsonValue) -> &str {
    match v {
        JsonValue::Text(s) => s.as_str(),
        _ => panic!("not a text"),
    }
}

const HTML: &str = "<html><head><title>T</title></head><body>\
<div class=\"_heading_87huyj\"><h1>serde <b>1.0</b></h1></div>\
<ul><li><span class=\"n\">a</span><i>1</i></li><li><span class=\"n\">b</span><i>2</i></li></ul>\
<p id=\"only\"><span class=\"n\">solo</span></p>\
</body></html>";

#[test]
fn selectors_are_read_from_both_kinds_of_part() {
    let l = leaf("._heading_87huyj h1");
    assert_eq!(get_selector(&l), "._heading_87huyj h1");
    let n = nested("ul li", vec![]);
    assert_eq!(get_selector(&n), "ul li");
    assert_eq!(get_selector2(&Selector::Css("div > p".to_string())), "div > p");
}

#[test]
fn leaf_gives_inner_html_of_first_match() {
    let page = Page {
        path: "/crates/serde".to_string(),
        data: vec![
            ("title".to_string(), leaf("._heading_87huyj h1")),
            ("titleClassname".to_string(), attr_leaf("._heading_87huyj", "class")),
            ("firstName".to_string(), leaf("span.n")),
        ],
    };
    let d = crawl_page(&page, HTML).unwrap();
    assert_eq!(text_of(object_get(&d, "title").unwrap()), "serde <b>1.0</b>");
    assert_eq!(text_of(object_get(&d, "titleClassname").unwrap()), "<h1>serde <b>1.0</b></h1>");
    assert_eq!(text_of(object_get(&d, "firstName").unwrap()), "a");
}

#[test]
fn leaf_without_match_adds_nothing() {
    let page = Page { path: "/".to_string(), data: vec![("missing".to_string(), leaf("table td"))] };
    let d = crawl_page(&page, HTML).unwrap();
    match d {
        JsonValue::Object(entries) => assert!(entries.is_empty()),
        _ => panic!("not an object"),
    }
}

#[test]
fn nested_with_several_matches_gives_a_list() {
    let page = Page {
        path: "/".to_string(),
        data: vec![(
            "items".to_string(),
            nested("ul li", vec![("name".to_string(), leaf("span.n")), ("count".to_string(), leaf("i"))]),
        )],
    };
    let d = crawl_page(&page, HTML).unwrap();
    match object_get(&d, "items").unwrap() {
        JsonValue::List(items) => {
            assert_eq!(items.len(), 2);
            assert_eq!(text_of(object_get(&items[0], "name").unwrap()), "a");
            assert_eq!(text_of(object_get(&items[0], "count").unwrap()), "1");
            assert_eq!(text_of(object_get(&items[1], "name").unwrap()), "b");
            assert_eq!(text_of(object_get(&items[1], "count").unwrap()), "2");
        }
        _ => panic!("not a list"),
    }
}

#[test]
fn nested_with_one_match_gives_an_object() {
    let page = Page {
        path: "/".to_string(),
        data: vec![("only".to_string(), nested("p#only", vec![("name".to_string(), leaf("span.n"))]))],
    };
    let d = crawl_page(&page, HTML).unwrap();
    let only = object_get(&d, "only").unwrap();
    assert_eq!(text_of(object_get(only, "name").unwrap()), "solo");
}

#[test]
fn nested_without_match_adds_nothing() {
    let page = Page {
        path: "/".to_string(),
        data: vec![("none".to_string(), nested("table", vec![("name".to_string(), leaf("td"))]))],
    };
    let d = crawl_page(&page, HTML).unwrap();
    assert!(object_get(&d, "none").is_none());
}

#[test]
fn invalid_selector_gives_no_result() {
    let page = Page { path: "/".to_string(), data: vec![("bad".to_string(), leaf("p[["))] };
    assert!(crawl_page(&page, HTML).is_none());
    let reached = Page {
        path: "/".to_string(),
        data: vec![("bad".to_string(), nested("ul li", vec![("x".to_string(), leaf(">>>"))]))],
    };
    assert!(crawl_page(&reached, HTML).is_none());
}

#[test]
fn fields_below_an_unmatched_part_are_never_read() {
    let page = Page {
        path: "/".to_string(),
        data: vec![
            ("none".to_string(), nested("table", vec![("x".to_string(), leaf(">>>"))])),
            ("title".to_string(), leaf("h1")),
        ],
    };
    let d = crawl_page(&page, HTML).unwrap();
    assert!(object_get(&d, "none").is_none());
    assert_eq!(text_of(object_get(&d, "title").unwrap()), "serde <b>1.0</b>");
}

#[test]
fn each_list_item_is_read_inside_its_own_match() {
    let document = Document::parse(HTML);
    let root = document.root();
    let mut result = JsonValue::Object(vec![]);
    let items = nested("ul li", vec![("name".to_string(), leaf("span.n")), ("num".to_string(), leaf("i"))]);
    assert!(check_reached(&items, &root));
    parse_section(&mut result, "items", &items, &root);
    match object_get(&result, "items").unwrap() {
        JsonValue::List(list) => {
            assert_eq!(list.len(), 2);
            assert_eq!(text_of(object_get(&list[0], "name").unwrap()), "a");
            assert_eq!(text_of(object_get(&list[0], "num").unwrap()), "1");
            assert_eq!(text_of(object_get(&list[1], "name").unwrap()), "b");
            assert_eq!(text_of(object_get(&list[1], "num").unwrap()), "2");
        }
        _ => panic!("not a list"),
    }
}

#[test]
fn a_list_result_gets_each_value_appended() {
    let document = Document::parse(HTML);
    let root = document.root();
    let mut result = JsonValue::List(vec![]);
    parse_section(&mut result, "ignored", &leaf("span.n"), &root);
    parse_section(&mut result, "ignored", &leaf("h1"), &root);
    match result {
        JsonValue::List(list) => {
            assert_eq!(list.len(), 2);
            assert_eq!(text_of(&list[0]), "a");
            assert_eq!(text_of(&list[1]), "serde <b>1.0</b>");
        }
        _ => panic!("not a list"),
    }
}

#[test]
fn page_parts_read_back_under_their_names() {
    let document = Document::parse(HTML);
    let page = Page {
        path: "/".to_string(),
        data: vec![("first".to_string(), leaf("span.n")), ("only".to_string(), leaf("p#only span"))],
    };
    let mut result = JsonValue::Object(vec![]);
    parse_page(&mut result, &page, &document);
    assert_eq!(text_of(object_get(&result, "first").unwrap()), "a");
    assert_eq!(text_of(object_get(&result, "only").unwrap()), "solo");
}

#[test]
fn selector_validity_follows_css() {
    let document = Document::parse(HTML);
    assert!(check_reached(&leaf("ul > li span.n"), &document.root()));
    assert!(!check_reached(&leaf("p[["), &document.root()));
    assert!(!check_reached(&nested("ul li", vec![("x".to_string(), leaf(">>>"))]), &document.root()));
    assert!(check_reached(&nested("table", vec![("x".to_string(), leaf(">>>"))]), &document.root()));
}

#[test]
fn page_url_joins_site_and_path() {
    let meta = Meta { version: 1, url: "https://crates.io".to_string() };
    let page = Page { path: "/crates/serde".to_string(), data: vec![] };
    assert_eq!(page_url(&meta, &page), "https://crates.io/crates/serde");
}

#[test]
fn site_model_insert_reads_back_and_replaces() {
    let mut model = SiteObjectModel::new();
    model.insert("a".to_string(), JsonValue::Text("1".to_string()));
    model.insert("b".to_string(), JsonValue::Text("2".to_string()));
    model.insert("a".to_string(), JsonValue::Text("3".to_string()));
    assert_eq!(model.data.len(), 2);
    assert_eq!(model.data[0].0, "a");
    assert_eq!(text_of(&model.data[0].1), "3");
    assert_eq!(text_of(&model.data[1].1), "2");
}

#[test]
fn crawler_adds_each_fetched_page_under_its_name() {
    let mut model = SiteObjectModel::new();
    let page = Page { path: "/crates/serde".to_string(), data: vec![("title".to_string(), leaf("h1"))] };
    assert!(Crawler::add_page(&mut model, "serdeCrate", &page, HTML));
    assert_eq!(model.data.len(), 1);
    assert_eq!(model.data[0].0, "serdeCrate");
    assert_eq!(text_of(object_get(&model.data[0].1, "title").unwrap()), "serde <b>1.0</b>");
    let bad = Page { path: "/".to_string(), data: vec![("x".to_string(), leaf("h1[["))] };
    assert!(!Crawler::add_page(&mut model, "bad", &bad, HTML));
    assert_eq!(model.data.len(), 1);
}

#[test]
fn empty_document_still_has_a_root() {
    let page = Page { path: "/".to_string(), data: vec![("title".to_string(), leaf("h1"))] };
    match crawl_page(&page, "").unwrap() {
        JsonValue::Object(entries) => assert!(entries.is_empty()),
        _ => panic!("not an object"),
    }
}
