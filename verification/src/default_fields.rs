//! Resolving inferred labels against one taxonomy of the service (tags,
//! correspondents or document types), one step at a time.
//!
//! A label stands for the first entry of the taxonomy whose name has the
//! same comparison key. The ids are collected in the order of the labels and
//! are not deduplicated: two labels that stand for one entry give its id
//! twice. A label that stands for no entry waits for its entry to be created
//! (mode `Create`) or is skipped (mode `NoCreate`).

use crate::model::{DefaultField, Mode, PaperlessDefaultFieldType};
use crate::patch::{build_default_field_patch, DefaultFieldPatch};
use crate::text::{
    first_match,
    lemma_first_match_absent,
    lemma_first_match_found,
    normalize_string,
    normalized,
};
use vstd::prelude::*;
use vstd::string::*;

verus! {

/// The matching-algorithm code that every created entry gets.
pub const MATCHING_ALGORITHM: u8 = 6;

/// A taxonomy as the resolution sees it: for each entry the comparison key
/// of its name and its id.
pub open spec fn taxonomy_of(fields: Seq<DefaultField>) -> Seq<(Seq<char>, Option<u32>)> {
    Seq::new(fields.len(), |i: int| (normalized(fields[i].name@), fields[i].id))
}

/// The comparison keys of a taxonomy, in its order.
pub open spec fn taxonomy_keys(taxonomy: Seq<(Seq<char>, Option<u32>)>) -> Seq<Seq<char>> {
    Seq::new(taxonomy.len(), |i: int| taxonomy[i].0)
}

/// The id of the first entry that `label` stands for, if it stands for one.
pub open spec fn matching_id(taxonomy: Seq<(Seq<char>, Option<u32>)>, label: Seq<char>) -> Option<
    Option<u32>,
> {
    match first_match(taxonomy_keys(taxonomy), normalized(label)) {
        Some(i) => Some(taxonomy[i].1),
        None => None,
    }
}

/// Resolves labels from the front for as long as none needs the service:
/// gives the ids collected and the labels left, the first of which, if
/// any, waits for its entry to be created.
pub open spec fn settled(
    taxonomy: Seq<(Seq<char>, Option<u32>)>,
    mode: Mode,
    ids: Seq<Option<u32>>,
    labels: Seq<Seq<char>>,
) -> (Seq<Option<u32>>, Seq<Seq<char>>)
    decreases labels.len(),
{
    if labels.len() == 0 {
        (ids, labels)
    } else {
        match matching_id(taxonomy, labels[0]) {
            Some(id) => settled(taxonomy, mode, ids.push(id), labels.drop_first()),
            None => if mode == Mode::Create {
                (ids, labels)
            } else {
                settled(taxonomy, mode, ids, labels.drop_first())
            },
        }
    }
}

/// In mode `NoCreate` the resolution needs the service for no label: none
/// is left.
pub proof fn lemma_no_create_settles_all(
    taxonomy: Seq<(Seq<char>, Option<u32>)>,
    ids: Seq<Option<u32>>,
    labels: Seq<Seq<char>>,
)
    ensures
        settled(taxonomy, Mode::NoCreate, ids, labels).1.len() == 0,
    decreases labels.len(),
{
    if labels.len() > 0 {
        match matching_id(taxonomy, labels[0]) {
            Some(id) => lemma_no_create_settles_all(taxonomy, ids.push(id), labels.drop_first()),
            None => lemma_no_create_settles_all(taxonomy, ids, labels.drop_first()),
        }
    }
}

/// The label that the resolution stops at stands for no known entry, and
/// the mode is `Create`: nothing is created for a label that matches.
pub proof fn lemma_settled_stops_at_unknown(
    taxonomy: Seq<(Seq<char>, Option<u32>)>,
    mode: Mode,
    ids: Seq<Option<u32>>,
    labels: Seq<Seq<char>>,
)
    requires
        settled(taxonomy, mode, ids, labels).1.len() > 0,
    ensures
        mode == Mode::Create,
        matching_id(taxonomy, settled(taxonomy, mode, ids, labels).1[0]) is None,
    decreases labels.len(),
{
    if labels.len() > 0 {
        match matching_id(taxonomy, labels[0]) {
            Some(id) => lemma_settled_stops_at_unknown(
                taxonomy,
                mode,
                ids.push(id),
                labels.drop_first(),
            ),
            None => {
                if mode != Mode::Create {
                    lemma_settled_stops_at_unknown(taxonomy, mode, ids, labels.drop_first());
                }
            },
        }
    }
}

/// The resolution only adds to the ids collected and only takes labels
/// from the front, and it collects at most one id for each label taken.
pub proof fn lemma_settled_extends(
    taxonomy: Seq<(Seq<char>, Option<u32>)>,
    mode: Mode,
    ids: Seq<Option<u32>>,
    labels: Seq<Seq<char>>,
)
    ensures
        ids.is_prefix_of(settled(taxonomy, mode, ids, labels).0),
        settled(taxonomy, mode, ids, labels).1.is_suffix_of(labels),
        settled(taxonomy, mode, ids, labels).0.len() - ids.len() <= labels.len() - settled(
            taxonomy,
            mode,
            ids,
            labels,
        ).1.len(),
    decreases labels.len(),
{
    let result = settled(taxonomy, mode, ids, labels);
    let stops = labels.len() == 0 || (matching_id(taxonomy, labels[0]) is None && mode
        == Mode::Create);
    if stops {
        assert(ids =~= result.0.subrange(0, ids.len() as int));
        assert(labels =~= labels.subrange(0, labels.len() as int));
    } else {
        let rest = labels.drop_first();
        let next = match matching_id(taxonomy, labels[0]) {
            Some(id) => ids.push(id),
            None => ids,
        };
        lemma_settled_extends(taxonomy, mode, next, rest);
        assert(ids =~= result.0.subrange(0, ids.len() as int)) by {
            assert(ids =~= next.subrange(0, ids.len() as int));
            assert(next == result.0.subrange(0, next.len() as int));
        }
        assert(result.1 =~= labels.subrange(labels.len() - result.1.len(), labels.len() as int))
            by {
            assert(result.1 == rest.subrange(rest.len() - result.1.len(), rest.len() as int));
        }
    }
}

/// The request that creates the entry for `label`: slug and name are the
/// label, the id is absent, the matching algorithm is the fixed one.
pub open spec fn is_creation_of(request: DefaultField, label: Seq<char>) -> bool {
    &&& request.id is None
    &&& request.slug@ == label
    &&& request.name@ == label
    &&& request.matching_algorithm == MATCHING_ALGORITHM
}

/// What a list of owned labels holds.
pub open spec fn label_texts(labels: Seq<String>) -> Seq<Seq<char>> {
    Seq::new(labels.len(), |i: int| labels[i]@)
}

/// An entry of a taxonomy, reduced to what the resolution compares.
struct TaxonomyKey {
    key: String,
    id: Option<u32>,
}

/// What a list of reduced entries holds.
spec fn keys_view(known: Seq<TaxonomyKey>) -> Seq<(Seq<char>, Option<u32>)> {
    Seq::new(known.len(), |i: int| (known[i].key@, known[i].id))
}

/// The state of the update of one taxonomy of a document.
pub struct DefaultFieldUpdate {
    endpoint: PaperlessDefaultFieldType,
    mode: Mode,
    known: Vec<TaxonomyKey>,
    ids: Vec<Option<u32>>,
    labels: Vec<String>,
}

impl DefaultFieldUpdate {
    /// The taxonomy that the labels are resolved against.
    pub closed spec fn taxonomy(self) -> Seq<(Seq<char>, Option<u32>)> {
        keys_view(self.known@)
    }

    /// Which taxonomy of the document is updated.
    pub closed spec fn endpoint(self) -> PaperlessDefaultFieldType {
        self.endpoint
    }

    /// Whether missing entries are created.
    pub closed spec fn mode(self) -> Mode {
        self.mode
    }

    /// The ids collected so far.
    pub closed spec fn ids(self) -> Seq<Option<u32>> {
        self.ids@
    }

    /// The labels not yet resolved, the next one first.
    pub closed spec fn labels(self) -> Seq<Seq<char>> {
        label_texts(self.labels@)
    }

    /// The id of the first known entry that `label` stands for.
    fn lookup(&self, label: &str) -> (id: Option<Option<u32>>)
        ensures
            id == matching_id(self.taxonomy(), label@),
    {
        let key = normalize_string(label);
        let ghost keys = taxonomy_keys(self.taxonomy());
        let mut i: usize = 0;
        while i < self.known.len()
            invariant
                0 <= i <= self.known@.len(),
                keys == taxonomy_keys(self.taxonomy()),
                key@ == normalized(label@),
                forall|j: int| 0 <= j < i ==> #[trigger] keys[j] != key@,
            decreases self.known@.len() - i,
        {
            if self.known[i].key == key {
                proof {
                    assert(keys[i as int] == key@);
                    lemma_first_match_found(keys, key@, i as int);
                }
                return Some(self.known[i].id);
            }
            i = i + 1;
        }
        proof {
            lemma_first_match_absent(keys, key@);
        }
        None
    }

    /// Resolves labels from the front until one needs the service.
    fn settle(&mut self)
        ensures
            final(self).taxonomy() == old(self).taxonomy(),
            final(self).endpoint() == old(self).endpoint(),
            final(self).mode() == old(self).mode(),
            (final(self).ids(), final(self).labels()) == settled(
                old(self).taxonomy(),
                old(self).mode(),
                old(self).ids(),
                old(self).labels(),
            ),
    {
        let ghost taxonomy = self.taxonomy();
        let ghost mode = self.mode;
        let ghost goal = settled(taxonomy, mode, self.ids(), self.labels());
        while self.labels.len() > 0
            invariant
                self.taxonomy() == taxonomy,
                self.mode == mode,
                self.endpoint == old(self).endpoint,
                settled(taxonomy, mode, self.ids(), self.labels()) == goal,
            ensures
                self.taxonomy() == taxonomy,
                self.mode == mode,
                self.endpoint == old(self).endpoint,
                (self.ids(), self.labels()) == goal,
            decreases self.labels@.len(),
        {
            let ghost before = self.labels();
            let found = self.lookup(self.labels[0].as_str());
            assert(before[0] == self.labels@[0]@);
            match found {
                Some(id) => {
                    self.labels.remove(0);
                    self.ids.push(id);
                    assert(self.labels() =~= before.drop_first());
                },
                None => {
                    if self.mode == Mode::Create {
                        break ;
                    }
                    self.labels.remove(0);
                    assert(self.labels() =~= before.drop_first());
                },
            }
        }
    }

    /// Begins the update of one taxonomy of a document from the inferred
    /// labels: resolves them from the front until one needs the service.
    pub fn start(
        fields: &Vec<DefaultField>,
        labels: Vec<String>,
        endpoint: PaperlessDefaultFieldType,
        mode: Mode,
    ) -> (update: DefaultFieldUpdate)
        ensures
            update.taxonomy() == taxonomy_of(fields@),
            update.endpoint() == endpoint,
            update.mode() == mode,
            (update.ids(), update.labels()) == settled(
                taxonomy_of(fields@),
                mode,
                Seq::empty(),
                label_texts(labels@),
            ),
    {
        let mut known: Vec<TaxonomyKey> = Vec::new();
        let mut i: usize = 0;
        while i < fields.len()
            invariant
                0 <= i <= fields@.len(),
                known@.len() == i,
                forall|j: int|
                    0 <= j < i ==> (#[trigger] known@[j]).key@ == normalized(fields@[j].name@)
                        && known@[j].id == fields@[j].id,
            decreases fields@.len() - i,
        {
            let key = normalize_string(fields[i].name.as_str());
            known.push(TaxonomyKey { key, id: fields[i].id });
            i = i + 1;
        }
        assert(keys_view(known@) =~= taxonomy_of(fields@));
        let mut update = DefaultFieldUpdate { endpoint, mode, known, ids: Vec::new(), labels };
        update.settle();
        update
    }

    /// The entry that the caller is to create next; `None` when every label
    /// is resolved.
    pub fn next_request(&self) -> (request: Option<DefaultField>)
        ensures
            match request {
                Some(r) => self.labels().len() > 0 && is_creation_of(r, self.labels()[0]),
                None => self.labels().len() == 0,
            },
    {
        if self.labels.len() > 0 {
            Some(
                DefaultField {
                    id: None,
                    slug: self.labels[0].clone(),
                    name: self.labels[0].clone(),
                    matching_algorithm: MATCHING_ALGORITHM,
                },
            )
        } else {
            None
        }
    }

    /// Takes note of how the creation of the entry for the next label went,
    /// then resolves the labels behind it until one needs the service. With
    /// the created entry its id is collected; without one the label is
    /// skipped. Either way the label is done, so that no entry is asked for
    /// twice.
    pub fn record(&mut self, created: Option<DefaultField>)
        ensures
            final(self).taxonomy() == old(self).taxonomy(),
            final(self).endpoint() == old(self).endpoint(),
            final(self).mode() == old(self).mode(),
            old(self).labels().len() == 0 ==> final(self).ids() == old(self).ids()
                && final(self).labels() == old(self).labels(),
            old(self).labels().len() > 0 ==> (final(self).ids(), final(self).labels()) == settled(
                old(self).taxonomy(),
                old(self).mode(),
                match created {
                    Some(field) => old(self).ids().push(field.id),
                    None => old(self).ids(),
                },
                old(self).labels().drop_first(),
            ),
    {
        if self.labels.len() == 0 {
            return ;
        }
        let ghost before = self.labels();
        self.labels.remove(0);
        assert(self.labels() =~= before.drop_first());
        match created {
            Some(field) => {
                self.ids.push(field.id);
            },
            None => {},
        }
        self.settle();
    }

    /// The update to submit: the ids collected, which replace the document's
    /// associations of this taxonomy. Labels that still wait are left out.
    pub fn finish(self) -> (patch: DefaultFieldPatch)
        ensures
            patch.endpoint == self.endpoint(),
            patch.ids@ == self.ids(),
    {
        build_default_field_patch(self.endpoint, self.ids)
    }
}

} // verus!
