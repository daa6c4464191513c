use vstd::prelude::*;

use crate::config::config::{get_selector, get_selector2, Meta, ObjectComplex, Page, Value};
use crate::records::{field_position, lemma_field_position};
use crate::config::dom::{css_is_valid, css_match_count, inner_html, inner_html_at, parse_css, select_all, Document, Element};

verus! {

/// The JSON document that a crawl builds, as a mathematical value.
#[verifier::ext_equal]
pub enum Json {
    Text(Seq<char>),
    List(Seq<Json>),
    Object(Seq<(Seq<char>, Json)>),
}

/// The JSON document that a crawl builds.
#[derive(Debug)]
pub enum JsonValue {
    Text(String),
    List(Vec<JsonValue>),
    Object(Vec<(String, JsonValue)>),
}

impl View for JsonValue {
    type V = Json;

    open spec fn view(&self) -> Json
        decreases self, 0nat,
    {
        match self {
            JsonValue::Text(s) => Json::Text(s@),
            JsonValue::List(items) => Json::List(items_view(items@, items@.len())),
            JsonValue::Object(entries) => Json::Object(entries_view(entries@, entries@.len())),
        }
    }
}

/// The models of the first `n` items.
pub open spec fn items_view(items: Seq<JsonValue>, n: nat) -> Seq<Json>
    decreases items, n,
{
    if n == 0 || n > items.len() {
        Seq::empty()
    } else {
        items_view(items, (n - 1) as nat).push(items[n - 1]@)
    }
}

/// The models of the first `n` entries.
pub open spec fn entries_view(entries: Seq<(String, JsonValue)>, n: nat) -> Seq<(Seq<char>, Json)>
    decreases entries, n,
{
    if n == 0 || n > entries.len() {
        Seq::empty()
    } else {
        entries_view(entries, (n - 1) as nat).push((entries[n - 1].0@, entries[n - 1].1@))
    }
}

/// An object after setting `key` to `v`: the first entry with that key takes the new value,
/// or the pair is added at the end.
pub open spec fn with_entry(entries: Seq<(Seq<char>, Json)>, key: Seq<char>, v: Json) -> Seq<(Seq<char>, Json)> {
    let p = field_position(entries, key);
    if p >= 0 {
        entries.update(p, (key, v))
    } else {
        entries.push((key, v))
    }
}

/// The value under `key` in an object's entries.
pub open spec fn json_lookup(entries: Seq<(Seq<char>, Json)>, key: Seq<char>) -> Option<Json> {
    let p = field_position(entries, key);
    if p >= 0 {
        Some(entries[p].1)
    } else {
        None
    }
}

/// Setting a key in an object and reading it back gives the value set; every other key keeps
/// its value.
pub proof fn lemma_with_entry_reads_back(entries: Seq<(Seq<char>, Json)>, key: Seq<char>, v: Json, other: Seq<char>)
    ensures
        json_lookup(with_entry(entries, key, v), key) == Some(v),
        other != key ==> json_lookup(with_entry(entries, key, v), other) == json_lookup(entries, other),
{
    let after = with_entry(entries, key, v);
    lemma_field_position(entries, key);
    lemma_field_position(after, key);
    lemma_field_position(entries, other);
    lemma_field_position(after, other);
    let p = field_position(entries, key);
    let q = field_position(after, key);
    let at = if p >= 0 { p } else { entries.len() as int };
    assert(after[at].0 == key);
    if 0 <= q < at {
        assert(after[q] == entries[q]);
    }
    if other != key {
        let po = field_position(entries, other);
        let qo = field_position(after, other);
        if po >= 0 {
            assert(after[po] == entries[po]);
            if 0 <= qo < po {
                assert(after[qo].0 == entries[qo].0);
            }
        } else if 0 <= qo < entries.len() {
            assert(after[qo].0 == entries[qo].0);
        }
    }
}

/// A result after a part named `name` produced `v`: nothing changes where it produced nothing;
/// an object gets the entry, a list gets the value appended.
pub open spec fn place(target: Json, name: Seq<char>, v: Option<Json>) -> Json {
    match v {
        None => target,
        Some(v) => match target {
            Json::Object(entries) => Json::Object(with_entry(entries, name, v)),
            Json::List(items) => Json::List(items.push(v)),
            Json::Text(t) => Json::Text(t),
        },
    }
}

/// Each entry's model is the model of the entry.
pub proof fn lemma_entries_view(entries: Seq<(String, JsonValue)>, n: nat)
    requires
        n <= entries.len(),
    ensures
        entries_view(entries, n).len() == n,
        forall|i: int|
            0 <= i < n ==> #[trigger] entries_view(entries, n)[i] == (entries[i].0@, entries[i].1@),
    decreases n,
{
    if n > 0 {
        lemma_entries_view(entries, (n - 1) as nat);
        assert(entries_view(entries, n) == entries_view(entries, (n - 1) as nat).push((entries[n - 1].0@, entries[n - 1].1@)));
    } else {
        assert(entries_view(entries, n) == Seq::<(Seq<char>, Json)>::empty());
    }
}

/// Each item's model is the model of the item.
pub proof fn lemma_items_view(items: Seq<JsonValue>, n: nat)
    requires
        n <= items.len(),
    ensures
        items_view(items, n).len() == n,
        forall|i: int| 0 <= i < n ==> #[trigger] items_view(items, n)[i] == items[i]@,
    decreases n,
{
    if n > 0 {
        lemma_items_view(items, (n - 1) as nat);
        assert(items_view(items, n) == items_view(items, (n - 1) as nat).push(items[n - 1]@));
    } else {
        assert(items_view(items, n) == Seq::<Json>::empty());
    }
}

/// Sets `key` to `v` in an object's entries.
pub fn insert_entry(entries: &mut Vec<(String, JsonValue)>, key: String, v: JsonValue)
    ensures
        entries_view(final(entries)@, final(entries)@.len()) == with_entry(
            entries_view(old(entries)@, old(entries)@.len()),
            key@,
            v@,
        ),
{
    let ghost before = entries_view(entries@, entries@.len());
    proof {
        lemma_entries_view(entries@, entries@.len());
        lemma_field_position(before, key@);
    }
    let n = entries.len();
    let mut i: usize = 0;
    while i < n
        invariant
            n == entries.len(),
            entries@ == old(entries)@,
            i <= n,
            before == entries_view(entries@, entries@.len()),
            before.len() == n,
            forall|j: int| 0 <= j < i ==> (#[trigger] before[j]).0 != key@,
            forall|j: int| 0 <= j < n ==> #[trigger] before[j] == (entries@[j].0@, entries@[j].1@),
        decreases n - i,
    {
        if entries[i].0 == key {
            assert(before[i as int].0 == key@);
            assert(field_position(before, key@) == i as int) by {
                lemma_field_position(before, key@);
                let p = field_position(before, key@);
                if p == -1 {
                    assert(before[i as int].0 != key@);
                } else if p < i {
                    assert(before[p].0 != key@);
                } else if p > i {
                    assert(before[i as int].0 != key@);
                }
            }
            entries.set(i, (key, v));
            proof {
                lemma_entries_view(entries@, entries@.len());
                assert(entries_view(entries@, entries@.len()) =~= before.update(i as int, (key@, v@)));
            }
            return;
        }
        i = i + 1;
    }
    assert(field_position(before, key@) == -1);
    entries.push((key, v));
    proof {
        lemma_entries_view(entries@, entries@.len());
        assert(entries_view(entries@, entries@.len()) =~= before.push((key@, v@)));
    }
}

/// The model of an optional JSON value.
pub open spec fn opt_view(v: Option<JsonValue>) -> Option<Json> {
    match v {
        Some(x) => Some(x@),
        None => None,
    }
}

/// Puts what a part named `name` produced into the result.
pub fn place_json(result: &mut JsonValue, name: &str, v: Option<JsonValue>)
    requires
        v is Some ==> !(*old(result) is Text),
    ensures
        final(result)@ == place(old(result)@, name@, opt_view(v)),
{
    match v {
        None => {},
        Some(v) => match result {
            JsonValue::Object(entries) => {
                insert_entry(entries, name.to_owned(), v);
            },
            JsonValue::List(items) => {
                let ghost before = items@;
                items.push(v);
                proof {
                    lemma_items_view(before, before.len());
                    lemma_items_view(items@, items@.len());
                    assert(items_view(items@, items@.len()) =~= items_view(before, before.len()).push(
                        v@,
                    ));
                }
            },
            JsonValue::Text(_) => {},
        },
    }
}


/// What a page part contributes below the element that the steps `at` reach in the document
/// parsed from `html`: a leaf gives the inner HTML of its first match, and nothing where there
/// is none; a nested part gives nothing for no match, for one match the object of its fields
/// read inside that match, and for more a list of such objects, one per match in document order.
pub open spec fn value_at(section: Value, html: Seq<char>, at: Seq<(Seq<char>, nat)>) -> Option<Json>
    decreases section, 0nat,
{
    let css = section.selector_css();
    let n = css_match_count(html, at, css);
    match section {
        Value::Leaf(_) => if n == 0 {
            None
        } else {
            Some(Json::Text(inner_html_at(html, at.push((css, 0nat)))))
        },
        Value::Nested(obj) => if n == 0 {
            None
        } else if n == 1 {
            Some(Json::Object(record_at(obj.fields@, html, at.push((css, 0nat)), obj.fields@.len())))
        } else {
            Some(Json::List(Seq::new(n, |i: int| Json::Object(record_at(obj.fields@, html, at.push((css, i as nat)), obj.fields@.len())))))
        },
    }
}

/// The object built from the first `k` fields of a nested part, each read below the element
/// that `at` reaches; a field that gives nothing adds no entry.
pub open spec fn record_at(fields: Seq<(String, Value)>, html: Seq<char>, at: Seq<(Seq<char>, nat)>, k: nat) -> Seq<(Seq<char>, Json)>
    decreases fields, k,
{
    if k == 0 || k > fields.len() {
        Seq::empty()
    } else {
        let prev = record_at(fields, html, at, (k - 1) as nat);
        match value_at(fields[k - 1].1, html, at) {
            Some(v) => with_entry(prev, fields[k - 1].0@, v),
            None => prev,
        }
    }
}

/// Every selector that reading a page part below the element that `at` reaches parses: the
/// part's own, and for each match of a nested part those that reading its fields below that
/// match reaches. Fields below a nested part that matches nothing are never read.
pub open spec fn reached_valid(section: Value, html: Seq<char>, at: Seq<(Seq<char>, nat)>) -> bool
    decreases section, 0nat,
{
    let css = section.selector_css();
    &&& css_is_valid(css)
    &&& match section {
        Value::Leaf(_) => true,
        Value::Nested(obj) => forall|i: nat|
            i < css_match_count(html, at, css) ==> fields_reached_valid(
                obj.fields@,
                html,
                #[trigger] at.push((css, i)),
            ),
    }
}

/// Every selector that reading the fields below the element that `at` reaches parses.
pub open spec fn fields_reached_valid(fields: Seq<(String, Value)>, html: Seq<char>, at: Seq<(Seq<char>, nat)>) -> bool
    decreases fields, 1nat,
{
    forall|j: int| 0 <= j < fields.len() ==> reached_valid(#[trigger] fields[j].1, html, at)
}

/// Every selector that reading each part of a page from the document parsed from `html`
/// reaches parses.
pub open spec fn page_reached_valid(page: Page, html: Seq<char>) -> bool {
    fields_reached_valid(page.data@, html, Seq::empty())
}

/// No part of the page gives anything in the document parsed from `html`.
pub open spec fn page_yields_nothing(page: Page, html: Seq<char>) -> bool {
    forall|j: int| 0 <= j < page.data@.len() ==> (#[trigger] value_at(page.data@[j].1, html, Seq::empty())) is None
}

/// The result after the first `n` parts of a page are read, in order, from the document parsed
/// from `html`, each put under its name.
pub open spec fn place_all(target: Json, parts: Seq<(String, Value)>, html: Seq<char>, n: nat) -> Json
    decreases n,
{
    if n == 0 || n > parts.len() {
        target
    } else {
        place(
            place_all(target, parts, html, (n - 1) as nat),
            parts[n - 1].0@,
            value_at(parts[n - 1].1, html, Seq::empty()),
        )
    }
}


/// Checks that every selector that reading a page part below `scope` reaches parses.
pub fn check_reached(section: &Value, scope: &Element) -> (ok: bool)
    ensures
        ok == reached_valid(*section, scope@.0, scope@.1),
    decreases section, 0nat,
{
    let selector = match parse_css(get_selector(section)) {
        Some(s) => s,
        None => return false,
    };
    match section {
        Value::Leaf(_) => true,
        Value::Nested(obj) => {
            let ghost css = section.selector_css();
            let matches = select_all(scope, &selector);
            let mut i: usize = 0;
            while i < matches.len()
                invariant
                    *section == Value::Nested(*obj),
                    css == section.selector_css(),
                    css_is_valid(css),
                    selector@ == css,
                    matches@.len() == css_match_count(scope@.0, scope@.1, css),
                    forall|k: int| 0 <= k < matches@.len() ==> (#[trigger] matches@[k])@ == (scope@.0, scope@.1.push((css, k as nat))),
                    i <= matches@.len(),
                    forall|a: nat| a < i ==> fields_reached_valid(obj.fields@, scope@.0, #[trigger] scope@.1.push((css, a))),
                decreases matches@.len() - i,
            {
                assert(matches@[i as int]@ == (scope@.0, scope@.1.push((css, i as nat))));
                if !check_fields_reached(&obj.fields, &matches[i]) {
                    return false;
                }
                i = i + 1;
            }
            true
        },
    }
}

/// Checks that every selector that reading the fields below `scope` reaches parses.
fn check_fields_reached(fields: &Vec<(String, Value)>, scope: &Element) -> (ok: bool)
    ensures
        ok == fields_reached_valid(fields@, scope@.0, scope@.1),
    decreases fields, 1nat,
{
    let mut j: usize = 0;
    while j < fields.len()
        invariant
            j <= fields@.len(),
            forall|k: int| 0 <= k < j ==> reached_valid(#[trigger] fields@[k].1, scope@.0, scope@.1),
        decreases fields@.len() - j,
    {
        if !check_reached(&fields[j].1, scope) {
            return false;
        }
        j = j + 1;
    }
    true
}

/// Reads a page part below `scope` and puts what it yields into `result` under `section_name`:
/// a leaf yields the inner HTML of its first match; a nested part yields, for one match, an
/// object of its fields read inside that match, for several matches a list of such objects,
/// and nothing for no match.
pub fn parse_section(result: &mut JsonValue, section_name: &str, section: &Value, scope: &Element)
    requires
        reached_valid(*section, scope@.0, scope@.1),
        value_at(*section, scope@.0, scope@.1) is Some ==> !(*old(result) is Text),
    ensures
        final(result)@ == place(old(result)@, section_name@, value_at(*section, scope@.0, scope@.1)),
    decreases section, 0nat,
{
    let ghost css = section.selector_css();
    let ghost html = scope@.0;
    let ghost at = scope@.1;
    match section {
        Value::Nested(obj) => {
            let selector = parse_css(get_selector(section)).unwrap();
            let fragments = select_all(scope, &selector);
            let size = fragments.len();
            let ghost n = obj.fields@.len();
            if size > 1 {
                let mut acc: Vec<JsonValue> = Vec::new();
                let mut i: usize = 0;
                while i < size
                    invariant
                        *section == Value::Nested(*obj),
                        n == obj.fields@.len(),
                        html == scope@.0,
                        at == scope@.1,
                        reached_valid(*section, html, at),
                        css == section.selector_css(),
                        size == fragments@.len(),
                        size == css_match_count(html, at, css),
                        forall|k: int| 0 <= k < fragments@.len() ==> (#[trigger] fragments@[k])@ == (html, at.push((css, k as nat))),
                        i <= size,
                        acc@.len() == i,
                        forall|k: int| 0 <= k < i ==> (#[trigger] acc@[k])@ == Json::Object(
                            record_at(obj.fields@, html, at.push((css, k as nat)), n),
                        ),
                    decreases size - i,
                {
                    let mut acc_element = JsonValue::Object(Vec::new());
                    assert(fragments@[i as int]@ == (html, at.push((css, i as nat))));
                    assert(fields_reached_valid(obj.fields@, html, at.push((css, i as nat))));
                    parse_fields(&mut acc_element, &obj.fields, &fragments[i]);
                    acc.push(acc_element);
                    i = i + 1;
                }
                proof {
                    lemma_items_view(acc@, acc@.len());
                    assert(value_at(*section, html, at)->0->List_0 =~= items_view(acc@, acc@.len()));
                }
                let v = JsonValue::List(acc);
                assert(opt_view(Some(v)) == value_at(*section, html, at));
                place_json(result, section_name, Some(v));
            } else if size == 1 {
                let mut val = JsonValue::Object(Vec::new());
                assert(fragments@[0]@ == (html, at.push((css, 0nat))));
                assert(fields_reached_valid(obj.fields@, html, at.push((css, 0nat))));
                parse_fields(&mut val, &obj.fields, &fragments[0]);
                assert(opt_view(Some(val)) == value_at(*section, html, at));
                place_json(result, section_name, Some(val));
            }
        },
        Value::Leaf(obj) => {
            let selector = parse_css(get_selector2(&obj.selector)).unwrap();
            let fragments = select_all(scope, &selector);
            if fragments.len() > 0 {
                let r = JsonValue::Text(inner_html(&fragments[0]));
                place_json(result, section_name, Some(r));
            }
        },
    }
}

/// Reads every field of a nested part below `scope` into an empty object.
fn parse_fields(result: &mut JsonValue, fields: &Vec<(String, Value)>, scope: &Element)
    requires
        old(result)@ == Json::Object(Seq::empty()),
        fields_reached_valid(fields@, scope@.0, scope@.1),
    ensures
        final(result)@ == Json::Object(record_at(fields@, scope@.0, scope@.1, fields@.len())),
    decreases fields, 1nat,
{
    let mut k: usize = 0;
    while k < fields.len()
        invariant
            fields_reached_valid(fields@, scope@.0, scope@.1),
            k <= fields@.len(),
            result@ == Json::Object(record_at(fields@, scope@.0, scope@.1, k as nat)),
        decreases fields@.len() - k,
    {
        assert(reached_valid(fields@[k as int].1, scope@.0, scope@.1));
        parse_section(result, fields[k].0.as_str(), &fields[k].1, scope);
        k = k + 1;
    }
}

/// Reads every part of a page from a parsed document into `result`, each under its name.
pub fn parse_page(result: &mut JsonValue, page: &Page, document: &Document)
    requires
        page_reached_valid(*page, document@),
        !(*old(result) is Text) || page_yields_nothing(*page, document@),
    ensures
        final(result)@ == place_all(old(result)@, page.data@, document@, page.data@.len()),
{
    let ghost start = result@;
    let mut j: usize = 0;
    while j < page.data.len()
        invariant
            page_reached_valid(*page, document@),
            !(start is Text) || page_yields_nothing(*page, document@),
            j <= page.data@.len(),
            start is Text ==> result@ == start,
            !(start is Text) ==> !(result@ is Text),
            result@ == place_all(start, page.data@, document@, j as nat),
        decreases page.data@.len() - j,
    {
        let root = document.root();
        assert(reached_valid(page.data@[j as int].1, document@, Seq::empty()));
        assert(start is Text ==> value_at(page.data@[j as int].1, document@, Seq::empty()) is None);
        parse_section(result, page.data[j].0.as_str(), &page.data[j].1, &root);
        j = j + 1;
    }
}

/// Reads every part of a page from its HTML text into a new object. There is no result where
/// a selector that the reading reaches is not valid CSS.
pub fn crawl_page(page: &Page, html: &str) -> (r: Option<JsonValue>)
    ensures
        r is Some <==> page_reached_valid(*page, html@),
        r matches Some(v) ==> v@ == place_all(Json::Object(Seq::empty()), page.data@, html@, page.data@.len()),
{
    let document = Document::parse(html);
    let mut j: usize = 0;
    while j < page.data.len()
        invariant
            document@ == html@,
            j <= page.data@.len(),
            forall|k: int| 0 <= k < j ==> reached_valid(#[trigger] page.data@[k].1, html@, Seq::empty()),
        decreases page.data@.len() - j,
    {
        let root = document.root();
        if !check_reached(&page.data[j].1, &root) {
            return None;
        }
        j = j + 1;
    }
    let mut d = JsonValue::Object(Vec::new());
    assert(d@ == Json::Object(Seq::empty()));
    parse_page(&mut d, page, &document);
    Some(d)
}

/// What a page part yields below an element, by how many elements its selector matches there:
/// nothing for no match; for a leaf, the inner HTML of the first match; for a nested part, one
/// object for one match, and for n of two or more matches a list of exactly n objects, the i-th
/// read inside the i-th match in document order. Where the fields' names are distinct, each
/// field's value read inside that match stands under its name in the object.
pub proof fn lemma_part_yields_by_matches(section: Value, html: Seq<char>, at: Seq<(Seq<char>, nat)>)
    ensures
        css_match_count(html, at, section.selector_css()) == 0 ==> value_at(section, html, at) is None,
        section is Leaf && css_match_count(html, at, section.selector_css()) >= 1 ==> value_at(section, html, at)
            == Some(Json::Text(inner_html_at(html, at.push((section.selector_css(), 0nat))))),
        section is Nested && css_match_count(html, at, section.selector_css()) == 1 ==> (value_at(
            section,
            html,
            at,
        ) matches Some(Json::Object(es)) && (section->Nested_0.well_formed() ==> forall|j: int|
            0 <= j < section->Nested_0.fields@.len() ==> json_lookup(es, #[trigger] section->Nested_0.fields@[j].0@)
                == value_at(section->Nested_0.fields@[j].1, html, at.push((section.selector_css(), 0nat))))),
        section is Nested && css_match_count(html, at, section.selector_css()) >= 2 ==> (value_at(
            section,
            html,
            at,
        ) matches Some(Json::List(items)) && items.len() == css_match_count(html, at, section.selector_css())
            && forall|i: int|
            0 <= i < items.len() ==> (#[trigger] items[i] matches Json::Object(es) && (section->Nested_0.well_formed()
                ==> forall|j: int|
                0 <= j < section->Nested_0.fields@.len() ==> json_lookup(es, #[trigger] section->Nested_0.fields@[j].0@)
                    == value_at(section->Nested_0.fields@[j].1, html, at.push((section.selector_css(), i as nat)))))),
{
    let css = section.selector_css();
    let n = css_match_count(html, at, css);
    if let Value::Nested(obj) = section {
        if obj.well_formed() {
            if n == 1 {
                assert forall|j: int| 0 <= j < obj.fields@.len() implies json_lookup(
                    record_at(obj.fields@, html, at.push((css, 0nat)), obj.fields@.len()),
                    #[trigger] obj.fields@[j].0@,
                ) == value_at(obj.fields@[j].1, html, at.push((css, 0nat))) by {
                    lemma_record_field_reads_back(obj, html, at.push((css, 0nat)), j);
                }
            }
            if n >= 2 {
                let items = value_at(section, html, at)->0->List_0;
                assert forall|i: int| 0 <= i < items.len() implies (#[trigger] items[i] matches Json::Object(es) && forall|j: int|
                    0 <= j < obj.fields@.len() ==> json_lookup(es, #[trigger] obj.fields@[j].0@) == value_at(
                        obj.fields@[j].1,
                        html,
                        at.push((css, i as nat)),
                    )) by {
                    assert(items[i] == Json::Object(record_at(obj.fields@, html, at.push((css, i as nat)), obj.fields@.len())));
                    assert forall|j: int| 0 <= j < obj.fields@.len() implies json_lookup(
                        record_at(obj.fields@, html, at.push((css, i as nat)), obj.fields@.len()),
                        #[trigger] obj.fields@[j].0@,
                    ) == value_at(obj.fields@[j].1, html, at.push((css, i as nat))) by {
                        lemma_record_field_reads_back(obj, html, at.push((css, i as nat)), j);
                    }
                }
            }
        }
    }
}

/// In the object that a page is read into, where the page's part names are distinct, a nested
/// part whose selector matches n elements of the page stands under its name as nothing for no
/// match, as one object for one match, and as a list of exactly n objects for two or more.
pub proof fn lemma_crawled_nested_part(page: Page, html: Seq<char>, j: int)
    requires
        page.well_formed(),
        0 <= j < page.data@.len(),
        page.data@[j].1 is Nested,
    ensures
        place_all(Json::Object(Seq::empty()), page.data@, html, page.data@.len()) matches Json::Object(es) && ({
            let n = css_match_count(html, Seq::empty(), page.data@[j].1.selector_css());
            &&& n == 0 ==> json_lookup(es, page.data@[j].0@) is None
            &&& n == 1 ==> (json_lookup(es, page.data@[j].0@) matches Some(Json::Object(_)))
            &&& n >= 2 ==> (json_lookup(es, page.data@[j].0@) matches Some(Json::List(items)) && items.len() == n)
        }),
{
    lemma_page_part_reads_back(page, html, j);
    lemma_part_yields_by_matches(page.data@[j].1, html, Seq::empty());
}

/// In the object read from the fields of a nested part below an element, where the field names
/// are distinct, each field's value stands under its name, and a field that gives nothing has
/// no entry.
pub proof fn lemma_record_field_reads_back(obj: ObjectComplex, html: Seq<char>, at: Seq<(Seq<char>, nat)>, j: int)
    requires
        obj.well_formed(),
        0 <= j < obj.fields@.len(),
    ensures
        json_lookup(record_at(obj.fields@, html, at, obj.fields@.len()), obj.fields@[j].0@) == value_at(
            obj.fields@[j].1,
            html,
            at,
        ),
{
    lemma_record_at_lookup(obj, html, at, obj.fields@.len());
}

/// After the first `n` fields are read, each of them reads back under its name and every other
/// name has no entry.
proof fn lemma_record_at_lookup(obj: ObjectComplex, html: Seq<char>, at: Seq<(Seq<char>, nat)>, n: nat)
    requires
        obj.well_formed(),
        n <= obj.fields@.len(),
    ensures
        forall|j: int|
            0 <= j < n ==> json_lookup(record_at(obj.fields@, html, at, n), #[trigger] obj.fields@[j].0@)
                == value_at(obj.fields@[j].1, html, at),
        forall|key: Seq<char>|
            (forall|j: int| 0 <= j < n ==> #[trigger] obj.fields@[j].0@ != key) ==> #[trigger] json_lookup(
                record_at(obj.fields@, html, at, n),
                key,
            ) is None,
    decreases n,
{
    let fields = obj.fields@;
    if n == 0 {
        assert forall|key: Seq<char>| #[trigger] json_lookup(Seq::<(Seq<char>, Json)>::empty(), key) is None by {
            lemma_field_position(Seq::<(Seq<char>, Json)>::empty(), key);
        }
    } else {
        let m = (n - 1) as nat;
        lemma_record_at_lookup(obj, html, at, m);
        let es = record_at(fields, html, at, m);
        let name = fields[m as int].0@;
        let v = value_at(fields[m as int].1, html, at);
        assert forall|j: int| 0 <= j < m implies #[trigger] fields[j].0@ != name by {
            assert(fields[j].0@ != fields[m as int].0@);
        }
        match v {
            None => {},
            Some(x) => {
                let after = with_entry(es, name, x);
                lemma_with_entry_reads_back(es, name, x, name);
                assert forall|j: int| 0 <= j < n implies json_lookup(after, #[trigger] fields[j].0@) == value_at(fields[j].1, html, at) by {
                    if j < m {
                        lemma_with_entry_reads_back(es, name, x, fields[j].0@);
                    }
                }
                assert forall|key: Seq<char>|
                    (forall|j: int| 0 <= j < n ==> #[trigger] fields[j].0@ != key) implies #[trigger] json_lookup(after, key) is None by {
                    assert(fields[m as int].0@ != key);
                    lemma_with_entry_reads_back(es, name, x, key);
                    assert forall|j: int| 0 <= j < m implies #[trigger] fields[j].0@ != key by {
                        assert(fields[j].0@ != key);
                    }
                }
            },
        }
    }
}

/// In the object that a page is read into, where the page's part names are distinct, each part's
/// value stands under its name, and a part that gives nothing has no entry.
pub proof fn lemma_page_part_reads_back(page: Page, html: Seq<char>, j: int)
    requires
        page.well_formed(),
        0 <= j < page.data@.len(),
    ensures
        place_all(Json::Object(Seq::empty()), page.data@, html, page.data@.len()) matches Json::Object(es)
            && json_lookup(es, page.data@[j].0@) == value_at(page.data@[j].1, html, Seq::empty()),
{
    lemma_place_all_lookup(page, html, page.data@.len());
}

/// After the first `n` parts are placed, each of them reads back under its name and every other
/// name has no entry.
proof fn lemma_place_all_lookup(page: Page, html: Seq<char>, n: nat)
    requires
        page.well_formed(),
        n <= page.data@.len(),
    ensures
        place_all(Json::Object(Seq::empty()), page.data@, html, n) matches Json::Object(es) && (forall|j: int|
            0 <= j < n ==> json_lookup(es, #[trigger] page.data@[j].0@) == value_at(page.data@[j].1, html, Seq::empty()))
            && (forall|key: Seq<char>|
            (forall|j: int| 0 <= j < n ==> #[trigger] page.data@[j].0@ != key) ==> #[trigger] json_lookup(es, key) is None),
    decreases n,
{
    let parts = page.data@;
    if n == 0 {
        assert forall|key: Seq<char>| #[trigger] json_lookup(Seq::<(Seq<char>, Json)>::empty(), key) is None by {
            lemma_field_position(Seq::<(Seq<char>, Json)>::empty(), key);
        }
    } else {
        let m = (n - 1) as nat;
        lemma_place_all_lookup(page, html, m);
        let prev = place_all(Json::Object(Seq::empty()), parts, html, m);
        let es = prev->Object_0;
        let name = parts[m as int].0@;
        let v = value_at(parts[m as int].1, html, Seq::empty());
        assert(forall|j: int| 0 <= j < m ==> #[trigger] parts[j].0@ != name) by {
            assert forall|j: int| 0 <= j < m implies #[trigger] parts[j].0@ != name by {
                assert(parts[j].0@ != parts[m as int].0@);
            }
        }
        match v {
            None => {},
            Some(x) => {
                let after = with_entry(es, name, x);
                lemma_with_entry_reads_back(es, name, x, name);
                assert forall|j: int| 0 <= j < n implies json_lookup(after, #[trigger] parts[j].0@) == value_at(parts[j].1, html, Seq::empty()) by {
                    if j < m {
                        lemma_with_entry_reads_back(es, name, x, parts[j].0@);
                    }
                }
                assert forall|key: Seq<char>|
                    (forall|j: int| 0 <= j < n ==> #[trigger] parts[j].0@ != key) implies #[trigger] json_lookup(after, key) is None by {
                    assert(parts[m as int].0@ != key);
                    lemma_with_entry_reads_back(es, name, x, key);
                    assert forall|j: int| 0 <= j < m implies #[trigger] parts[j].0@ != key by {
                        assert(parts[j].0@ != key);
                    }
                }
            },
        }
    }
}

/// The address of a page: the site's url followed by the page's path.
pub fn page_url(meta: &Meta, page: &Page) -> (url: String)
    ensures
        url@ == meta.url@ + page.path@,
{
    let mut url = meta.url.clone();
    url.append(page.path.as_str());
    url
}

/// The crawler: it fetches each page of a crawl description over the network and reads it
/// into a site model.
pub struct Crawler {}

/// What a crawl yields: the object of each page, under the page's name.
#[derive(Debug)]
pub struct SiteObjectModel {
    pub data: Vec<(String, JsonValue)>,
}

impl SiteObjectModel {
    /// A model with no pages.
    pub fn new() -> (m: SiteObjectModel)
        ensures
            m.data@.len() == 0,
    {
        SiteObjectModel { data: Vec::new() }
    }

    /// Stores the object of one page under its name.
    pub fn insert(&mut self, page_name: String, page: JsonValue)
        ensures
            entries_view(final(self).data@, final(self).data@.len()) == with_entry(
                entries_view(old(self).data@, old(self).data@.len()),
                page_name@,
                page@,
            ),
    {
        insert_entry(&mut self.data, page_name, page);
    }
}


impl Crawler {
    /// Reads one fetched page of a crawl into the model, under the page's name. Nothing changes,
    /// and the answer is false, where a selector that the reading reaches is not valid CSS.
    pub fn add_page(model: &mut SiteObjectModel, page_name: &str, page: &Page, html: &str) -> (ok: bool)
        ensures
            ok == page_reached_valid(*page, html@),
            !ok ==> final(model).data@ == old(model).data@,
            ok ==> entries_view(final(model).data@, final(model).data@.len()) == with_entry(
                entries_view(old(model).data@, old(model).data@.len()),
                page_name@,
                place_all(Json::Object(Seq::empty()), page.data@, html@, page.data@.len()),
            ),
    {
        match crawl_page(page, html) {
            Some(d) => {
                model.insert(page_name.to_owned(), d);
                true
            },
            None => false,
        }
    }
}

} // verus!
