use vstd::prelude::*;

verus! {

/// A stored value as the logic reads it: text, a 64-bit integer, or anything else.
#[derive(Debug)]
pub enum FieldValue {
    Str(String),
    Int64(i64),
    Other,
}

/// A stored value as a mathematical value.
pub enum Field {
    Str(Seq<char>),
    Int64(i64),
    Other,
}

impl View for FieldValue {
    type V = Field;

    open spec fn view(&self) -> Field {
        match self {
            FieldValue::Str(s) => Field::Str(s@),
            FieldValue::Int64(n) => Field::Int64(*n),
            FieldValue::Other => Field::Other,
        }
    }
}

/// What a search for one stored document gave: a failure, no document, or the document.
#[derive(Debug)]
pub enum Lookup {
    Failed,
    Missing,
    Found(Record),
}

/// A stored document: named values in their stored order.
#[derive(Debug)]
pub struct Record {
    pub entries: Vec<(String, FieldValue)>,
}

impl Record {
    /// No two entries of the document have the same name, as in a stored document.
    pub open spec fn well_formed(&self) -> bool {
        names_unique(record_view(*self))
    }
}

/// The entries of a document as mathematical values.
pub open spec fn record_view(r: Record) -> Seq<(Seq<char>, Field)> {
    Seq::new(r.entries@.len(), |i: int| (r.entries@[i].0@, r.entries@[i].1@))
}

/// The index of the first entry named `key`, or -1 where there is none.
pub open spec fn field_position<V>(entries: Seq<(Seq<char>, V)>, key: Seq<char>) -> int
    decreases entries.len(),
{
    if entries.len() == 0 {
        -1
    } else {
        let p = field_position(entries.drop_last(), key);
        if p >= 0 {
            p
        } else if entries.last().0 == key {
            entries.len() - 1
        } else {
            -1
        }
    }
}

/// No two entries have the same name.
pub open spec fn names_unique<V>(entries: Seq<(Seq<char>, V)>) -> bool {
    forall|i: int, j: int| 0 <= i < j < entries.len() ==> (#[trigger] entries[i]).0 != (#[trigger] entries[j]).0
}

/// The value of the entry named `key`.
pub open spec fn lookup(entries: Seq<(Seq<char>, Field)>, key: Seq<char>) -> Option<Field> {
    let p = field_position(entries, key);
    if p >= 0 {
        Some(entries[p].1)
    } else {
        None
    }
}

/// The text stored under `key`, where there is text.
pub open spec fn str_field(entries: Seq<(Seq<char>, Field)>, key: Seq<char>) -> Option<Seq<char>> {
    match lookup(entries, key) {
        Some(Field::Str(s)) => Some(s),
        _ => None,
    }
}

/// The 64-bit integer stored under `key`, where there is one.
pub open spec fn i64_field(entries: Seq<(Seq<char>, Field)>, key: Seq<char>) -> Option<i64> {
    match lookup(entries, key) {
        Some(Field::Int64(n)) => Some(n),
        _ => None,
    }
}

/// `field_position` finds the first entry with the key.
pub proof fn lemma_field_position<V>(entries: Seq<(Seq<char>, V)>, key: Seq<char>)
    ensures
        field_position(entries, key) == -1 <==> forall|j: int|
            0 <= j < entries.len() ==> (#[trigger] entries[j]).0 != key,
        field_position(entries, key) >= 0 ==> {
            let p = field_position(entries, key);
            &&& p < entries.len()
            &&& entries[p].0 == key
            &&& forall|j: int| 0 <= j < p ==> (#[trigger] entries[j]).0 != key
        },
    decreases entries.len(),
{
    if entries.len() > 0 {
        let prefix = entries.drop_last();
        lemma_field_position(prefix, key);
        assert forall|j: int| 0 <= j < prefix.len() implies #[trigger] prefix[j] == entries[j] by {}
        let pp = field_position(prefix, key);
        if pp >= 0 {
            assert(prefix[pp] == entries[pp]);
            assert forall|j: int| 0 <= j < pp implies (#[trigger] entries[j]).0 != key by {
                assert(prefix[j] == entries[j]);
            }
        } else {
            assert forall|j: int| 0 <= j < prefix.len() implies (#[trigger] entries[j]).0 != key by {
                assert(prefix[j] == entries[j]);
            }
            if entries.last().0 != key {
                assert forall|j: int| 0 <= j < entries.len() implies (#[trigger] entries[j]).0 != key by {
                    if j < prefix.len() {
                        assert(prefix[j] == entries[j]);
                    }
                }
            } else {
                assert(entries[entries.len() - 1].0 == key);
            }
        }
    }
}

/// The value under `key` is that of the first entry with the key.
pub proof fn lemma_lookup_at(entries: Seq<(Seq<char>, Field)>, key: Seq<char>, p: int)
    requires
        0 <= p < entries.len(),
        entries[p].0 == key,
        forall|j: int| 0 <= j < p ==> (#[trigger] entries[j]).0 != key,
    ensures
        lookup(entries, key) == Some(entries[p].1),
{
    lemma_field_position(entries, key);
    let q = field_position(entries, key);
    if q == -1 {
        assert(entries[p].0 != key);
    } else if q < p {
        assert(entries[q].0 != key);
    } else if q > p {
        assert(entries[p].0 != key);
    }
}

/// In a document whose names are distinct, the value under a name is that of the entry with the
/// name, wherever it stands.
pub proof fn lemma_named_entry(doc: Record, key: Seq<char>, p: int)
    requires
        doc.well_formed(),
        0 <= p < record_view(doc).len(),
        record_view(doc)[p].0 == key,
    ensures
        lookup(record_view(doc), key) == Some(record_view(doc)[p].1),
{
    let entries = record_view(doc);
    assert forall|j: int| 0 <= j < p implies (#[trigger] entries[j]).0 != key by {
        assert(entries[j].0 != entries[p].0);
    }
    lemma_lookup_at(entries, key, p);
}

impl Record {
    /// The index of the first entry named `key`.
    fn position(&self, key: &str) -> (p: Option<usize>)
        ensures
            match p {
                Some(i) => i < self.entries@.len() && field_position(record_view(*self), key@) == i as int,
                None => field_position(record_view(*self), key@) == -1,
            },
    {
        let ghost view = record_view(*self);
        let wanted = key.to_owned();
        let mut i: usize = 0;
        while i < self.entries.len()
            invariant
                view == record_view(*self),
                wanted@ == key@,
                i <= self.entries@.len(),
                forall|j: int| 0 <= j < i ==> (#[trigger] view[j]).0 != key@,
            decreases self.entries@.len() - i,
        {
            if self.entries[i].0 == wanted {
                proof {
                    lemma_field_position(view, key@);
                    let p = field_position(view, key@);
                    assert(view[i as int].0 == key@);
                    if p == -1 {
                        assert(view[i as int].0 != key@);
                    } else if p < i {
                        assert(view[p].0 != key@);
                    } else if p > i {
                        assert(view[i as int].0 != key@);
                    }
                }
                return Some(i);
            }
            i = i + 1;
        }
        proof {
            lemma_field_position(view, key@);
        }
        None
    }

    /// The text stored under `key` (bson's `get` followed by `as_str`).
    pub fn get_str(&self, key: &str) -> (r: Option<String>)
        ensures
            match r {
                Some(s) => str_field(record_view(*self), key@) == Some(s@),
                None => str_field(record_view(*self), key@) is None,
            },
    {
        match self.position(key) {
            Some(i) => match &self.entries[i].1 {
                FieldValue::Str(s) => Some(s.clone()),
                _ => None,
            },
            None => None,
        }
    }

    /// The 64-bit integer stored under `key` (bson's `get` followed by `as_i64`).
    pub fn get_i64(&self, key: &str) -> (r: Option<i64>)
        ensures
            r == i64_field(record_view(*self), key@),
    {
        match self.position(key) {
            Some(i) => match &self.entries[i].1 {
                FieldValue::Int64(n) => Some(*n),
                _ => None,
            },
            None => None,
        }
    }
}

} // verus!
