//! The comic index: an ordered sequence of entries loaded once from a
//! JSON document, addressed by slug, with first/last/random selection and
//! prev/next navigation derived from the load order.
//!
//! A duplicate slug keeps every entry in the sequence, but lookups
//! resolve to the last entry holding the slug — the deterministic
//! "last wins" policy.

use vstd::prelude::*;

use crate::records::record_field_spec;
use crate::records::record_field_value;
use crate::records::string_records_of;

verus! {

/// One comic: its display title, its URL slug, and its image file.
pub struct IndexItem {
    pub title: String,
    pub slug: String,
    pub file: String,
}

/// The backing sequence of entries, in load order.
pub struct Storage {
    items: Vec<IndexItem>,
}

/// The index over a loaded storage.
pub struct Index {
    storage: Storage,
}

/// A resolved lookup: the entry's data and the slugs of its neighbours
/// in load order.
pub struct FoundIndex {
    pub title: String,
    pub file: String,
    pub prev_slug: Option<String>,
    pub next_slug: Option<String>,
}

/// The position of the last entry holding `slug`, if any.
pub open spec fn last_pos_of_slug(items: Seq<IndexItem>, slug: Seq<char>) -> Option<int>
    decreases items.len(),
{
    if items.len() == 0 {
        None
    } else if items.last().slug@ == slug {
        Some(items.len() - 1)
    } else {
        last_pos_of_slug(items.drop_last(), slug)
    }
}

/// `last_pos_of_slug` points at the last entry holding the slug, and is
/// `None` exactly when no entry holds it.
pub proof fn lemma_last_pos_of_slug(items: Seq<IndexItem>, slug: Seq<char>)
    ensures
        match last_pos_of_slug(items, slug) {
            Some(i) => 0 <= i < items.len() && items[i].slug@ == slug && forall|j: int|
                i < j < items.len() ==> items[j].slug@ != slug,
            None => forall|j: int| 0 <= j < items.len() ==> items[j].slug@ != slug,
        },
    decreases items.len(),
{
    if items.len() > 0 && items.last().slug@ != slug {
        lemma_last_pos_of_slug(items.drop_last(), slug);
        match last_pos_of_slug(items, slug) {
            Some(i) => {
                assert forall|j: int| i < j < items.len() implies items[j].slug@ != slug by {
                    if j < items.len() - 1 {
                        assert(items.drop_last()[j] == items[j]);
                    }
                }
            },
            None => {
                assert forall|j: int| 0 <= j < items.len() implies items[j].slug@ != slug by {
                    if j < items.len() - 1 {
                        assert(items.drop_last()[j] == items[j]);
                    }
                }
            },
        }
    }
}

/// What a lookup resolves to: title, file, and the neighbour slugs.
pub open spec fn find_spec(items: Seq<IndexItem>, slug: Seq<char>) -> Option<
    (Seq<char>, Seq<char>, Option<Seq<char>>, Option<Seq<char>>),
> {
    match last_pos_of_slug(items, slug) {
        Some(i) => Some(
            (
                items[i].title@,
                items[i].file@,
                if i > 0 {
                    Some(items[i - 1].slug@)
                } else {
                    None
                },
                if i + 1 < items.len() {
                    Some(items[i + 1].slug@)
                } else {
                    None
                },
            ),
        ),
        None => None,
    }
}

/// A record that holds all three fields an entry needs.
pub open spec fn record_complete(rec: Seq<(Seq<char>, Seq<char>)>) -> bool {
    &&& record_field_spec(rec, "title"@) is Some
    &&& record_field_spec(rec, "slug"@) is Some
    &&& record_field_spec(rec, "file"@) is Some
}

/// Every record complete.
pub open spec fn all_records_complete(recs: Seq<Seq<(Seq<char>, Seq<char>)>>) -> bool {
    forall|i: int| 0 <= i < recs.len() ==> record_complete(#[trigger] recs[i])
}

/// The entries model the records, in order.
pub open spec fn items_model_records(
    items: Seq<IndexItem>,
    recs: Seq<Seq<(Seq<char>, Seq<char>)>>,
) -> bool {
    &&& items.len() == recs.len()
    &&& forall|i: int|
        0 <= i < recs.len() ==> {
            &&& Some(#[trigger] items[i].title@) == record_field_spec(recs[i], "title"@)
            &&& Some(items[i].slug@) == record_field_spec(recs[i], "slug"@)
            &&& Some(items[i].file@) == record_field_spec(recs[i], "file"@)
        }
}

/// Why a load was refused.
#[derive(Clone, Copy, Debug, PartialEq, Eq, Structural)]
pub enum IndexLoadError {
    /// The document is not a JSON array of flat string-valued objects.
    NotRecords,
    /// A record lacks `title`, `slug` or `file`.
    RecordMissingField,
}

impl Storage {
    /// The entries, in load order.
    pub closed spec fn spec_items(&self) -> Seq<IndexItem> {
        self.items@
    }

    /// A storage with no entries.
    pub fn empty() -> (r: Storage)
        ensures
            r.spec_items() =~= Seq::<IndexItem>::empty(),
    {
        Storage { items: Vec::new() }
    }

    /// Append one entry.
    pub fn push(&mut self, title: String, slug: String, file: String)
        ensures
            final(self).spec_items() =~= old(self).spec_items().push(
                (IndexItem { title: title, slug: slug, file: file }),
            ),
    {
        self.items.push(IndexItem { title, slug, file });
    }
}

impl Index {
    /// The entries, in load order.
    pub closed spec fn spec_items(&self) -> Seq<IndexItem> {
        self.storage.spec_items()
    }

    /// Build the index from the contents of the index file, as read by
    /// the caller; `None` when the file could not be opened at all.
    ///
    /// A missing file yields an empty index ("no comics yet"); a
    /// document of the wrong shape, or a record without `title`, `slug`
    /// or `file`, refuses the load.
    pub fn from_file(contents: Option<&str>) -> (r: Result<Index, IndexLoadError>)
        ensures
            match r {
                Ok(idx) => match contents {
                    Some(c) => {
                        &&& string_records_of(c@) matches Some(recs)
                        &&& all_records_complete(recs)
                        &&& items_model_records(idx.spec_items(), recs)
                    },
                    None => idx.spec_items().len() == 0,
                },
                Err(e) => {
                    &&& contents matches Some(c)
                    &&& match e {
                        IndexLoadError::NotRecords => string_records_of(c@) is None,
                        IndexLoadError::RecordMissingField => string_records_of(c@)
                            matches Some(recs) && !all_records_complete(recs),
                    }
                },
            },
    {
        let s: &str = match contents {
            Some(s) => s,
            None => {
                return Ok(Index { storage: Storage::empty() });
            },
        };
        let records: Vec<Vec<(String, String)>> = match crate::records::parse_string_records(s) {
            Some(v) => v,
            None => {
                return Err(IndexLoadError::NotRecords);
            },
        };
        let ghost recs = string_records_of(s@).unwrap();
        let mut storage: Storage = Storage::empty();
        let n: usize = records.len();
        let mut k: usize = 0;
        while k < n
            invariant
                k <= n,
                n == records@.len(),
                contents == Some(s),
                string_records_of(s@) == Some(recs),
                records.deep_view() == recs,
                records.deep_view().len() == n,
                forall|j: int| 0 <= j < k ==> record_complete(#[trigger] recs[j]),
                items_model_records(storage.spec_items(), recs.take(k as int)),
                storage.spec_items().len() == k,
            decreases n - k,
        {
            proof {
                assert(records.deep_view()[k as int] == records@[k as int].deep_view());
            }
            let title: String = match record_field_value(&records[k], "title") {
                Some(v) => v,
                None => {
                    proof {
                        assert(recs[k as int] == records@[k as int].deep_view());
                        assert(record_field_spec(recs[k as int], "title"@) is None);
                        assert(!record_complete(recs[k as int]));
                        assert(!all_records_complete(recs));
                    }
                    return Err(IndexLoadError::RecordMissingField);
                },
            };
            let slug: String = match record_field_value(&records[k], "slug") {
                Some(v) => v,
                None => {
                    proof {
                        assert(recs[k as int] == records@[k as int].deep_view());
                        assert(record_field_spec(recs[k as int], "slug"@) is None);
                        assert(!record_complete(recs[k as int]));
                        assert(!all_records_complete(recs));
                    }
                    return Err(IndexLoadError::RecordMissingField);
                },
            };
            let file: String = match record_field_value(&records[k], "file") {
                Some(v) => v,
                None => {
                    proof {
                        assert(recs[k as int] == records@[k as int].deep_view());
                        assert(record_field_spec(recs[k as int], "file"@) is None);
                        assert(!record_complete(recs[k as int]));
                        assert(!all_records_complete(recs));
                    }
                    return Err(IndexLoadError::RecordMissingField);
                },
            };
            let ghost prev_items = storage.spec_items();
            storage.push(title, slug, file);
            proof {
                assert forall|i: int| 0 <= i < k + 1 implies {
                    &&& Some(#[trigger] storage.spec_items()[i].title@) == record_field_spec(
                        recs.take(k + 1)[i],
                        "title"@,
                    )
                    &&& Some(storage.spec_items()[i].slug@) == record_field_spec(
                        recs.take(k + 1)[i],
                        "slug"@,
                    )
                    &&& Some(storage.spec_items()[i].file@) == record_field_spec(
                        recs.take(k + 1)[i],
                        "file"@,
                    )
                } by {
                    if i < k {
                        assert(storage.spec_items()[i] == prev_items[i]);
                        assert(recs.take(k + 1)[i] == recs.take(k as int)[i]);
                        assert(Some(prev_items[i].title@) == record_field_spec(
                            recs.take(k as int)[i],
                            "title"@,
                        ));
                    } else {
                        assert(recs.take(k + 1)[i] == recs[k as int]);
                        assert(recs[k as int] == records@[k as int].deep_view());
                        assert(storage.spec_items()[i].title@ == title@);
                    }
                }
                assert(items_model_records(storage.spec_items(), recs.take(k + 1)));
            }
            k = k + 1;
        }
        proof {
            assert(recs.take(n as int) =~= recs);
        }
        Ok(Index { storage })
    }

    /// Resolve `slug` to its entry and neighbour slugs; the last entry
    /// wins when a slug repeats.
    pub fn find(&self, slug: &str) -> (r: Option<FoundIndex>)
        ensures
            match r {
                Some(f) => find_spec(self.spec_items(), slug@) matches Some(m) && f.title@ == m.0
                    && f.file@ == m.1 && (match (f.prev_slug, m.2) {
                    (Some(p), Some(ps)) => p@ == ps,
                    (None, None) => true,
                    _ => false,
                }) && (match (f.next_slug, m.3) {
                    (Some(nx), Some(ns)) => nx@ == ns,
                    (None, None) => true,
                    _ => false,
                }),
                None => find_spec(self.spec_items(), slug@) is None,
            },
    {
        let n: usize = self.storage.items.len();
        let mut i: usize = n;
        proof {
            lemma_last_pos_of_slug(self.spec_items(), slug@);
        }
        while i > 0
            invariant
                i <= n,
                n == self.spec_items().len(),
                forall|j: int| i <= j < n ==> self.spec_items()[j].slug@ != slug@,
            decreases i,
        {
            if crate::strutil::str_eq(self.storage.items[i - 1].slug.as_str(), slug) {
                proof {
                    lemma_last_pos_of_slug(self.spec_items(), slug@);
                    let p = last_pos_of_slug(self.spec_items(), slug@).unwrap();
                    assert(p >= i - 1);
                    assert(p < i);
                }
                let item: &IndexItem = &self.storage.items[i - 1];
                let prev: Option<String> = if i - 1 > 0 {
                    Some(self.storage.items[i - 2].slug.clone())
                } else {
                    None
                };
                let next: Option<String> = if i < n {
                    Some(self.storage.items[i].slug.clone())
                } else {
                    None
                };
                return Some(
                    FoundIndex {
                        title: item.title.clone(),
                        file: item.file.clone(),
                        prev_slug: prev,
                        next_slug: next,
                    },
                );
            }
            i = i - 1;
        }
        proof {
            lemma_last_pos_of_slug(self.spec_items(), slug@);
            if last_pos_of_slug(self.spec_items(), slug@) is Some {
                let p = last_pos_of_slug(self.spec_items(), slug@).unwrap();
                assert(self.spec_items()[p].slug@ != slug@);
            }
        }
        None
    }

    /// The slug of the first entry, if any.
    pub fn first_slug(&self) -> (r: Option<String>)
        ensures
            match r {
                Some(s) => self.spec_items().len() > 0 && s@ == self.spec_items()[0].slug@,
                None => self.spec_items().len() == 0,
            },
    {
        if self.storage.items.len() > 0 {
            Some(self.storage.items[0].slug.clone())
        } else {
            None
        }
    }

    /// The slug of the last entry, if any.
    pub fn last_slug(&self) -> (r: Option<String>)
        ensures
            match r {
                Some(s) => self.spec_items().len() > 0 && s@ == self.spec_items()[self.spec_items().len()
                    - 1].slug@,
                None => self.spec_items().len() == 0,
            },
    {
        let n: usize = self.storage.items.len();
        if n > 0 {
            Some(self.storage.items[n - 1].slug.clone())
        } else {
            None
        }
    }

    /// The slug of an entry chosen at random, if any exists.
    pub fn random_slug(&self) -> (r: Option<String>)
        ensures
            match r {
                Some(s) => exists|i: int|
                    0 <= i < self.spec_items().len() && s@ == self.spec_items()[i].slug@,
                None => self.spec_items().len() == 0,
            },
    {
        let n: usize = self.storage.items.len();
        if n > 0 {
            let i: usize = crate::rng::random_below(n);
            let s: String = self.storage.items[i].slug.clone();
            proof {
                assert(0 <= i < self.spec_items().len() && s@ == self.spec_items()[i as int].slug@);
            }
            Some(s)
        } else {
            None
        }
    }
}

/// No two entries share a slug.
pub open spec fn slugs_unique(items: Seq<IndexItem>) -> bool {
    forall|i: int, j: int| 0 <= i < j < items.len() ==> items[i].slug@ != items[j].slug@
}

/// With unique slugs, looking an entry's slug up resolves to that entry.
pub proof fn lemma_find_own_slug(items: Seq<IndexItem>, i: int)
    requires
        slugs_unique(items),
        0 <= i < items.len(),
    ensures
        last_pos_of_slug(items, items[i].slug@) == Some(i),
{
    lemma_last_pos_of_slug(items, items[i].slug@);
    match last_pos_of_slug(items, items[i].slug@) {
        Some(p) => {
            if p < i {
                assert(items[p].slug@ != items[i].slug@);
            }
            if p > i {
                assert(items[i].slug@ != items[p].slug@);
            }
        },
        None => {
            assert(items[i].slug@ != items[i].slug@);
        },
    }
}

/// The navigation chain, stated for every index with unique slugs:
/// resolving the entry at `i` links back to the entry before it (none at
/// the first) and forward to the entry after it (none at the last). So
/// the first entry has no `prev`, the last has no `next`, and following
/// `next` from the first slug visits every entry exactly once, in load
/// order.
pub proof fn lemma_nav_chain(items: Seq<IndexItem>, i: int)
    requires
        slugs_unique(items),
        0 <= i < items.len(),
    ensures
        find_spec(items, items[i].slug@) matches Some(m) && m.2 == (if i > 0 {
            Some(items[i - 1].slug@)
        } else {
            None::<Seq<char>>
        }) && m.3 == (if i + 1 < items.len() {
            Some(items[i + 1].slug@)
        } else {
            None::<Seq<char>>
        }),
{
    lemma_find_own_slug(items, i);
}

} // verus!
