//! Resolving the keys of the metadata against the custom fields that the
//! service knows, one step at a time: the library decides, its caller talks
//! to the service.
//!
//! `FieldUpdate::start` sorts the entries: those whose key names a known
//! field are resolved at once, those whose key is unknown wait for their
//! field to be created (mode `Create`) or are dropped (mode `NoCreate`).
//! The caller then asks `next_request` for the field to create, reports how
//! the creation went with `record`, and so on until nothing waits; `finish`
//! gives the update to submit.

use crate::error::ResponseError;
use crate::metadata::{distinct_keys, entries_view, value_of, Metadata, MetadataEntry};
use crate::model::{CreateField, CustomField, Field, JsonValue, Mode};
use crate::patch::{build_document_patch, title_text, DocumentPatch};
use crate::text::{first_match, lemma_first_match_absent, lemma_first_match_found};
use vstd::prelude::*;
use vstd::string::*;

verus! {

/// The names of a list of fields, in their order.
pub open spec fn field_names(fields: Seq<Field>) -> Seq<Seq<char>> {
    Seq::new(fields.len(), |i: int| fields[i].name@)
}

/// The id of the first field of the list that has the name, if one has it.
pub open spec fn known_id(fields: Seq<Field>, name: Seq<char>) -> Option<u32> {
    match first_match(field_names(fields), name) {
        Some(i) => Some(fields[i].id),
        None => None,
    }
}

/// What becomes of one key of the metadata.
pub enum Resolution {
    /// A field of that name exists: the value goes to the field with this id.
    Known(u32),
    /// No field of that name exists and one is to be created.
    Create,
    /// The key is left out of the custom-field set.
    Dropped,
}

/// What becomes of `key`: the reserved key `title` never enters the
/// custom-field set; a known key resolves to its field; an unknown key
/// waits for creation in mode `Create` and is dropped otherwise.
pub open spec fn resolution(fields: Seq<Field>, key: Seq<char>, mode: Mode) -> Resolution {
    if key == "title"@ {
        Resolution::Dropped
    } else {
        match known_id(fields, key) {
            Some(id) => Resolution::Known(id),
            None => if mode == Mode::Create {
                Resolution::Create
            } else {
                Resolution::Dropped
            },
        }
    }
}

/// The values of the first `n` entries whose keys are known, each with the
/// id of its field, in the order of the entries.
pub open spec fn known_fields(
    fields: Seq<Field>,
    entries: Seq<(Seq<char>, Option<JsonValue>)>,
    mode: Mode,
    n: int,
) -> Seq<CustomField>
    decreases n,
{
    if n <= 0 {
        Seq::empty()
    } else {
        let before = known_fields(fields, entries, mode, n - 1);
        match resolution(fields, entries[n - 1].0, mode) {
            Resolution::Known(id) => before.push(CustomField { value: entries[n - 1].1, field: id }),
            _ => before,
        }
    }
}

/// Those of the first `n` entries whose fields are to be created, in the
/// order of the entries.
pub open spec fn awaiting_creation(
    fields: Seq<Field>,
    entries: Seq<(Seq<char>, Option<JsonValue>)>,
    mode: Mode,
    n: int,
) -> Seq<(Seq<char>, Option<JsonValue>)>
    decreases n,
{
    if n <= 0 {
        Seq::empty()
    } else {
        let before = awaiting_creation(fields, entries, mode, n - 1);
        match resolution(fields, entries[n - 1].0, mode) {
            Resolution::Create => before.push(entries[n - 1]),
            _ => before,
        }
    }
}

/// The title that the metadata gives the document: the value of the key
/// `title` where it is a string.
pub open spec fn title_of(entries: Seq<(Seq<char>, Option<JsonValue>)>) -> Option<Seq<char>> {
    match value_of(entries, "title"@) {
        Some(Some(JsonValue::Text(title))) => Some(title@),
        _ => None,
    }
}

/// The entry that marks a document as processed.
pub open spec fn tagged_marker(id: u32) -> CustomField {
    CustomField { value: Some(JsonValue::Bool(true)), field: id }
}

/// The request that creates the field for `key`: a text field of that name
/// without a default value.
pub open spec fn is_request_for(request: CreateField, key: Seq<char>) -> bool {
    &&& request.name@ == key
    &&& request.data_type@ == "Text"@
    &&& request.default_value is None
}

/// In mode `NoCreate` no entry waits for a field to be created: an unknown
/// key is dropped without a request.
pub proof fn lemma_no_create_awaits_nothing(
    fields: Seq<Field>,
    entries: Seq<(Seq<char>, Option<JsonValue>)>,
    n: int,
)
    ensures
        awaiting_creation(fields, entries, Mode::NoCreate, n) == Seq::<
            (Seq<char>, Option<JsonValue>),
        >::empty(),
    decreases n,
{
    if n > 0 {
        lemma_no_create_awaits_nothing(fields, entries, n - 1);
    }
}

/// Every entry that waits for a field is one of the first `n` entries, its
/// key is not `title` and names no known field, and the mode is `Create`.
pub proof fn lemma_awaiting_are_unknown(
    fields: Seq<Field>,
    entries: Seq<(Seq<char>, Option<JsonValue>)>,
    mode: Mode,
    n: int,
    k: int,
)
    requires
        0 <= k < awaiting_creation(fields, entries, mode, n).len(),
    ensures
        mode == Mode::Create,
        awaiting_creation(fields, entries, mode, n)[k].0 != "title"@,
        known_id(fields, awaiting_creation(fields, entries, mode, n)[k].0) is None,
        exists|i: int|
            0 <= i < n && #[trigger] entries[i] == awaiting_creation(fields, entries, mode, n)[k],
    decreases n,
{
    if n > 0 {
        let before = awaiting_creation(fields, entries, mode, n - 1);
        if k < before.len() {
            lemma_awaiting_are_unknown(fields, entries, mode, n - 1, k);
            let i = choose|i: int| 0 <= i < n - 1 && #[trigger] entries[i] == before[k];
            assert(0 <= i < n && entries[i] == awaiting_creation(fields, entries, mode, n)[k]);
        } else {
            assert(entries[n - 1] == awaiting_creation(fields, entries, mode, n)[k]);
        }
    }
}

/// Every one of the first `n` entries whose field is to be created waits.
pub proof fn lemma_unknown_are_awaiting(
    fields: Seq<Field>,
    entries: Seq<(Seq<char>, Option<JsonValue>)>,
    mode: Mode,
    n: int,
    i: int,
)
    requires
        0 <= i < n,
        resolution(fields, entries[i].0, mode) is Create,
    ensures
        exists|k: int|
            0 <= k < awaiting_creation(fields, entries, mode, n).len() && #[trigger] awaiting_creation(
                fields,
                entries,
                mode,
                n,
            )[k] == entries[i],
    decreases n,
{
    let all = awaiting_creation(fields, entries, mode, n);
    let before = awaiting_creation(fields, entries, mode, n - 1);
    if i == n - 1 {
        assert(all[before.len() as int] == entries[i]);
    } else {
        lemma_unknown_are_awaiting(fields, entries, mode, n - 1, i);
        let k = choose|k: int| 0 <= k < before.len() && #[trigger] before[k] == entries[i];
        assert(all[k] == entries[i]);
    }
}

/// Where no key stands twice in the metadata, none waits twice: each
/// missing field is asked for once.
pub proof fn lemma_awaiting_distinct(
    fields: Seq<Field>,
    entries: Seq<(Seq<char>, Option<JsonValue>)>,
    mode: Mode,
    n: int,
)
    requires
        0 <= n <= entries.len(),
        distinct_keys(entries),
    ensures
        distinct_keys(awaiting_creation(fields, entries, mode, n)),
    decreases n,
{
    if n > 0 {
        lemma_awaiting_distinct(fields, entries, mode, n - 1);
        let before = awaiting_creation(fields, entries, mode, n - 1);
        let all = awaiting_creation(fields, entries, mode, n);
        assert forall|a: int, b: int| 0 <= a < b < all.len() implies (#[trigger] all[a]).0 != (
        #[trigger] all[b]).0 by {
            if b < before.len() {
                assert(before[a].0 != before[b].0);
            } else {
                lemma_awaiting_are_unknown(fields, entries, mode, n - 1, a);
                let i = choose|i: int| 0 <= i < n - 1 && #[trigger] entries[i] == before[a];
                assert(entries[i].0 != entries[n - 1].0);
            }
        }
    }
}

/// A key that names a known field is never among those that wait: however
/// often the resolution runs over the same fields and metadata, it asks for
/// no field of that name.
pub proof fn lemma_resolved_key_not_requested(
    fields: Seq<Field>,
    entries: Seq<(Seq<char>, Option<JsonValue>)>,
    mode: Mode,
    key: Seq<char>,
    k: int,
)
    requires
        known_id(fields, key) is Some,
        0 <= k < awaiting_creation(fields, entries, mode, entries.len() as int).len(),
    ensures
        awaiting_creation(fields, entries, mode, entries.len() as int)[k].0 != key,
{
    lemma_awaiting_are_unknown(fields, entries, mode, entries.len() as int, k);
}

/// Every resolved value belongs to one of the first `n` entries whose key
/// is not `title` and names a known field, and carries that field's id.
pub proof fn lemma_known_fields_origin(
    fields: Seq<Field>,
    entries: Seq<(Seq<char>, Option<JsonValue>)>,
    mode: Mode,
    n: int,
    k: int,
)
    requires
        0 <= k < known_fields(fields, entries, mode, n).len(),
    ensures
        exists|i: int|
            0 <= i < n && (#[trigger] entries[i]).0 != "title"@ && known_id(fields, entries[i].0)
                == Some(known_fields(fields, entries, mode, n)[k].field) && entries[i].1
                == known_fields(fields, entries, mode, n)[k].value,
    decreases n,
{
    if n > 0 {
        let before = known_fields(fields, entries, mode, n - 1);
        let all = known_fields(fields, entries, mode, n);
        if k < before.len() {
            lemma_known_fields_origin(fields, entries, mode, n - 1, k);
            let i = choose|i: int|
                0 <= i < n - 1 && (#[trigger] entries[i]).0 != "title"@ && known_id(
                    fields,
                    entries[i].0,
                ) == Some(before[k].field) && entries[i].1 == before[k].value;
            assert(0 <= i < n && entries[i].0 != "title"@ && known_id(fields, entries[i].0) == Some(
                all[k].field,
            ) && entries[i].1 == all[k].value);
        } else {
            assert(entries[n - 1].0 != "title"@ && known_id(fields, entries[n - 1].0) == Some(
                all[k].field,
            ) && entries[n - 1].1 == all[k].value);
        }
    }
}

/// The id of the first field named `name`.
pub fn find_field_id(fields: &Vec<Field>, name: &String) -> (id: Option<u32>)
    ensures
        id == known_id(fields@, name@),
{
    let ghost names = field_names(fields@);
    let mut i: usize = 0;
    while i < fields.len()
        invariant
            0 <= i <= fields@.len(),
            names == field_names(fields@),
            forall|j: int| 0 <= j < i ==> #[trigger] names[j] != name@,
        decreases fields@.len() - i,
    {
        if fields[i].name == *name {
            proof {
                assert(names[i as int] == name@);
                lemma_first_match_found(names, name@, i as int);
            }
            return Some(fields[i].id);
        }
        i = i + 1;
    }
    proof {
        lemma_first_match_absent(names, name@);
    }
    None
}

/// Pairs a value with the id of the field that it belongs to.
pub fn convert_field_to_custom_field(value: Option<JsonValue>, field: &Field) -> (entry:
    CustomField)
    ensures
        entry == (CustomField { value, field: field.id }),
{
    CustomField { value, field: field.id }
}

/// The state of the update of one document's custom fields.
pub struct FieldUpdate {
    tagged: u32,
    resolved: Vec<CustomField>,
    pending: Vec<MetadataEntry>,
    title: Option<String>,
}

impl FieldUpdate {
    /// The custom-field entries resolved so far, the marker first.
    pub closed spec fn resolved(self) -> Seq<CustomField> {
        seq![tagged_marker(self.tagged)] + self.resolved@
    }

    /// The entries whose fields are still to be created, the next one first.
    pub closed spec fn pending(self) -> Seq<(Seq<char>, Option<JsonValue>)> {
        entries_view(self.pending@)
    }

    /// The title that the update will set, if any.
    pub closed spec fn title(self) -> Option<Seq<char>> {
        title_text(self.title)
    }

    /// The marker stands first among the resolved entries, whatever else
    /// was resolved.
    pub proof fn lemma_marker_first(self)
        ensures
            self.resolved().len() >= 1,
            self.resolved()[0].value == Some(JsonValue::Bool(true)),
    {
    }

    /// Begins the update of a document from its metadata.
    ///
    /// Fails with `MissingTaggedField` exactly when no known field is named
    /// `tagged`. Otherwise the marker stands first, followed by the values of
    /// the known keys; the unknown keys wait for creation in mode `Create`
    /// and are dropped in mode `NoCreate`; the key `title` is kept out of
    /// both and gives the title where its value is a string.
    pub fn start(fields: &Vec<Field>, metadata: Metadata, mode: Mode) -> (result: Result<
        FieldUpdate,
        ResponseError,
    >)
        ensures
            match known_id(fields@, "tagged"@) {
                None => result == Err::<FieldUpdate, ResponseError>(
                    ResponseError::MissingTaggedField,
                ),
                Some(tagged) => {
                    &&& result is Ok
                    &&& result->Ok_0.resolved() == seq![tagged_marker(tagged)] + known_fields(
                        fields@,
                        metadata@,
                        mode,
                        metadata@.len() as int,
                    )
                    &&& result->Ok_0.pending() == awaiting_creation(
                        fields@,
                        metadata@,
                        mode,
                        metadata@.len() as int,
                    )
                    &&& result->Ok_0.title() == title_of(metadata@)
                },
            },
    {
        let tagged_name = String::from_str("tagged");
        let title_name = String::from_str("title");
        let tagged = match find_field_id(fields, &tagged_name) {
            Some(id) => id,
            None => {
                return Err(ResponseError::MissingTaggedField);
            },
        };
        let title: Option<String> = match metadata.get("title") {
            Some(Some(JsonValue::Text(text))) => Some(text.clone()),
            _ => None,
        };
        let ghost all = metadata@;
        let entries = metadata.into_entries();
        let ghost owned = entries@;
        let mut resolved: Vec<CustomField> = Vec::new();
        let mut pending: Vec<MetadataEntry> = Vec::new();
        assert(entries_view(pending@) =~= awaiting_creation(fields@, all, mode, 0));
        for entry in it: entries
            invariant
                it.seq() == owned,
                entries_view(owned) == all,
                title_name@ == "title"@,
                resolved@ == known_fields(fields@, all, mode, it.index()),
                entries_view(pending@) == awaiting_creation(fields@, all, mode, it.index()),
        {
            let ghost i = it.index();
            let ghost waiting = entries_view(pending@);
            assert(entry == owned[i]);
            assert(all[i] == (entry.key@, entry.value));
            if entry.key != title_name {
                match find_field_id(fields, &entry.key) {
                    Some(id) => {
                        resolved.push(CustomField { value: entry.value, field: id });
                    },
                    None => {
                        if mode == Mode::Create {
                            pending.push(entry);
                            assert(entries_view(pending@) =~= waiting.push(all[i]));
                        }
                    },
                }
            }
        }
        Ok(FieldUpdate { tagged, resolved, pending, title })
    }

    /// The field that the caller is to create next; `None` when no entry
    /// waits any more.
    pub fn next_request(&self) -> (request: Option<CreateField>)
        ensures
            match request {
                Some(r) => self.pending().len() > 0 && is_request_for(r, self.pending()[0].0),
                None => self.pending().len() == 0,
            },
    {
        if self.pending.len() > 0 {
            Some(
                CreateField {
                    name: self.pending[0].key.clone(),
                    default_value: None,
                    data_type: String::from_str("Text"),
                },
            )
        } else {
            None
        }
    }

    /// Takes note of how the creation of the field for the next waiting
    /// entry went. With the created field the entry's value is resolved to
    /// its id; without one the entry is dropped. Either way the entry waits
    /// no longer, so that no field is asked for twice.
    pub fn record(&mut self, created: Option<Field>)
        ensures
            old(self).pending().len() == 0 ==> *final(self) == *old(self),
            old(self).pending().len() > 0 ==> {
                &&& final(self).pending() == old(self).pending().drop_first()
                &&& final(self).title() == old(self).title()
                &&& final(self).resolved() == match created {
                    Some(field) => old(self).resolved().push(
                        CustomField { value: old(self).pending()[0].1, field: field.id },
                    ),
                    None => old(self).resolved(),
                }
            },
    {
        if self.pending.len() == 0 {
            return ;
        }
        let ghost waiting = self.pending();
        let ghost before = self.resolved();
        let entry = self.pending.remove(0);
        assert(self.pending() =~= waiting.drop_first());
        match created {
            Some(field) => {
                self.resolved.push(convert_field_to_custom_field(entry.value, &field));
                assert(self.resolved() =~= before.push(
                    CustomField { value: waiting[0].1, field: field.id },
                ));
            },
            None => {},
        }
    }

    /// The update to submit: the resolved entries and the title. Entries that
    /// still wait are left out.
    ///
    /// The marker stands first among the entries, so the update is never
    /// empty and the composition cannot fail.
    pub fn finish(self) -> (result: Result<DocumentPatch, ResponseError>)
        ensures
            result is Ok,
            result->Ok_0.custom_fields@ == self.resolved(),
            title_text(result->Ok_0.title) == self.title(),
    {
        let mut resolved = self.resolved;
        let mut custom_fields: Vec<CustomField> = Vec::new();
        custom_fields.push(CustomField { value: Some(JsonValue::Bool(true)), field: self.tagged });
        custom_fields.append(&mut resolved);
        build_document_patch(custom_fields, self.title)
    }
}

} // verus!
