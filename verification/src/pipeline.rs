//! The course of one document through the reconciliation, as a state
//! machine: the caller performs the action that a step asks for and comes
//! back with the event that followed. A failure ends the course of that
//! document only; the caller goes on with the next one.
//!
//! `DocumentState` updates the custom fields of a document from generated
//! JSON metadata, `TaxonomyState` one of its taxonomies from a generated JSON
//! array of labels.

use crate::custom_fields::{
    awaiting_creation,
    is_request_for,
    known_fields,
    known_id,
    tagged_marker,
    title_of,
    FieldUpdate,
};
use crate::decode::{decode_labels, decode_metadata, is_decode_error, parsed_labels, parsed_object};
use crate::default_fields::{
    is_creation_of,
    settled,
    taxonomy_of,
    DefaultFieldUpdate,
};
use crate::error::ResponseError;
use crate::extract::{balanced_span, extract_json_object};
use crate::metadata::collected;
use crate::model::{CreateField, DefaultField, Field, Mode, PaperlessDefaultFieldType};
use crate::patch::{title_text, DefaultFieldPatch, DocumentPatch};
use vstd::prelude::*;
use vstd::string::*;

verus! {

/// What happened to the action that the last step asked for.
pub enum Event {
    /// The generation service answered with this text.
    Generated(String),
    /// The generation service failed.
    GenerationFailed(String),
    /// The service created the custom field.
    FieldCreated(Field),
    /// The service created the taxonomy entry.
    EntryCreated(DefaultField),
    /// The service did not create what was asked for.
    CreationFailed(String),
    /// The service accepted the update.
    Submitted,
    /// The service did not accept the update.
    SubmissionFailed(String),
}

/// What the caller is to do next for the document.
pub enum Action {
    /// Create this custom field and report the outcome.
    CreateField(CreateField),
    /// Submit this update of the document and report the outcome.
    Submit(DocumentPatch),
    /// Create this taxonomy entry and report the outcome.
    CreateEntry(DefaultField),
    /// Submit this update of one taxonomy of the document and report the
    /// outcome.
    SubmitEntries(DefaultFieldPatch),
    /// Nothing: the course of the document has ended, or the event was none
    /// that the state waits for.
    Stop,
}

/// How far the update of a document's custom fields has come.
pub enum DocumentState {
    /// The document is at hand and its text was sent to the generation
    /// service.
    Fetched,
    /// The metadata is decoded and the creation of a field is under way.
    Resolving(FieldUpdate),
    /// Every key is resolved and the update was handed out for submission.
    Resolved,
    /// The service has accepted the update.
    Patched,
    /// The course of the document ended with this error.
    Failed(ResponseError),
}

/// The step that follows the resolution of all keys that need no further
/// creation: ask for the next field, or hand out the update.
pub open spec fn follows_update(update: FieldUpdate, state: DocumentState, action: Action) -> bool {
    if update.pending().len() > 0 {
        &&& state == DocumentState::Resolving(update)
        &&& action matches Action::CreateField(request)
        &&& is_request_for(request, update.pending()[0].0)
    } else {
        &&& state is Resolved
        &&& action matches Action::Submit(patch)
        &&& patch.custom_fields@ == update.resolved()
        &&& title_text(patch.title) == update.title()
    }
}

/// The step that follows the generated text: extraction, decoding and
/// the start of the resolution, each of which may end the course.
pub open spec fn follows_generation(
    text: Seq<char>,
    fields: Seq<Field>,
    mode: Mode,
    state: DocumentState,
    action: Action,
) -> bool {
    match balanced_span(text) {
        None => state == DocumentState::Failed(ResponseError::Extraction) && action is Stop,
        Some(span) => match parsed_object(span) {
            None => {
                &&& state matches DocumentState::Failed(error)
                &&& is_decode_error(span, error)
                &&& action is Stop
            },
            Some(pairs) => {
                let metadata = collected(pairs, pairs.len() as int);
                let n = metadata.len() as int;
                match known_id(fields, "tagged"@) {
                    None => state == DocumentState::Failed(ResponseError::MissingTaggedField)
                        && action is Stop,
                    Some(tagged) => {
                        let resolved = seq![tagged_marker(tagged)] + known_fields(
                            fields,
                            metadata,
                            mode,
                            n,
                        );
                        let waiting = awaiting_creation(fields, metadata, mode, n);
                        if waiting.len() > 0 {
                            &&& state matches DocumentState::Resolving(update)
                            &&& update.resolved() == resolved
                            &&& update.pending() == waiting
                            &&& update.title() == title_of(metadata)
                            &&& action matches Action::CreateField(request)
                            &&& is_request_for(request, waiting[0].0)
                        } else {
                            &&& state is Resolved
                            &&& action matches Action::Submit(patch)
                            &&& patch.custom_fields@ == resolved
                            &&& title_text(patch.title) == title_of(metadata)
                        }
                    },
                }
            },
        },
    }
}

/// What the recorded outcome of a creation makes of an update.
pub open spec fn recorded(before: FieldUpdate, created: Option<Field>, after: FieldUpdate) -> bool {
    &&& after.pending() == before.pending().drop_first()
    &&& after.title() == before.title()
    &&& after.resolved() == match created {
        Some(field) => before.resolved().push(
            crate::model::CustomField { value: before.pending()[0].1, field: field.id },
        ),
        None => before.resolved(),
    }
}

impl DocumentState {
    /// Whether the course of the document has ended.
    pub open spec fn is_terminal(self) -> bool {
        self is Patched || self is Failed
    }

    /// Asks for the next field or hands out the update.
    fn proceed(update: FieldUpdate) -> (next: (DocumentState, Action))
        ensures
            follows_update(update, next.0, next.1),
    {
        match update.next_request() {
            Some(request) => (DocumentState::Resolving(update), Action::CreateField(request)),
            None => match update.finish() {
                Ok(patch) => (DocumentState::Resolved, Action::Submit(patch)),
                Err(error) => (DocumentState::Failed(error), Action::Stop),
            },
        }
    }

    /// Takes the generated text through extraction, decoding and the start
    /// of the resolution.
    pub fn on_generated(text: &str, fields: &Vec<Field>, mode: Mode) -> (next: (
        DocumentState,
        Action,
    ))
        ensures
            follows_generation(text@, fields@, mode, next.0, next.1),
    {
        let span = match extract_json_object(text) {
            Ok(span) => span,
            Err(error) => {
                return (DocumentState::Failed(error), Action::Stop);
            },
        };
        let metadata = match decode_metadata(span.as_str()) {
            Ok(metadata) => metadata,
            Err(error) => {
                return (DocumentState::Failed(error), Action::Stop);
            },
        };
        match FieldUpdate::start(fields, metadata, mode) {
            Ok(update) => DocumentState::proceed(update),
            Err(error) => (DocumentState::Failed(error), Action::Stop),
        }
    }

    /// The state and the action that follow `event` in this state.
    ///
    /// - `Fetched` and generated text: see `follows_generation`.
    /// - `Fetched` and a failed generation: `Failed` with a transport error.
    /// - `Resolving` and the outcome of a creation: the outcome is recorded,
    ///   a failure by dropping the key, and the next field is asked for or
    ///   the update handed out.
    /// - `Resolved` and the outcome of the submission: `Patched`, or `Failed`
    ///   with a transport error.
    /// - Any other pair: the state stays and nothing is asked for.
    pub fn step(self, event: Event, fields: &Vec<Field>, mode: Mode) -> (next: (
        DocumentState,
        Action,
    ))
        ensures
            match (self, event) {
                (DocumentState::Fetched, Event::Generated(text)) => follows_generation(
                    text@,
                    fields@,
                    mode,
                    next.0,
                    next.1,
                ),
                (DocumentState::Fetched, Event::GenerationFailed(reason)) => next.0
                    == DocumentState::Failed(ResponseError::Transport(reason)) && next.1 is Stop,
                (DocumentState::Resolving(update), Event::FieldCreated(field)) => {
                    if update.pending().len() > 0 {
                        exists|after: FieldUpdate|
                            recorded(update, Some(field), after) && follows_update(
                                after,
                                next.0,
                                next.1,
                            )
                    } else {
                        follows_update(update, next.0, next.1)
                    }
                },
                (DocumentState::Resolving(update), Event::CreationFailed(_)) => {
                    if update.pending().len() > 0 {
                        exists|after: FieldUpdate|
                            recorded(update, None, after) && follows_update(after, next.0, next.1)
                    } else {
                        follows_update(update, next.0, next.1)
                    }
                },
                (DocumentState::Resolved, Event::Submitted) => next.0 is Patched && next.1 is Stop,
                (DocumentState::Resolved, Event::SubmissionFailed(reason)) => next.0
                    == DocumentState::Failed(ResponseError::Transport(reason)) && next.1 is Stop,
                _ => next.0 == self && next.1 is Stop,
            },
    {
        match (self, event) {
            (DocumentState::Fetched, Event::Generated(text)) => DocumentState::on_generated(
                text.as_str(),
                fields,
                mode,
            ),
            (DocumentState::Fetched, Event::GenerationFailed(reason)) => (
                DocumentState::Failed(ResponseError::Transport(reason)),
                Action::Stop,
            ),
            (DocumentState::Resolving(update), Event::FieldCreated(field)) => {
                let mut update = update;
                let ghost before = update;
                update.record(Some(field));
                let next = DocumentState::proceed(update);
                proof {
                    if before.pending().len() > 0 {
                        assert(recorded(before, Some(field), update));
                    }
                }
                next
            },
            (DocumentState::Resolving(update), Event::CreationFailed(_)) => {
                let mut update = update;
                let ghost before = update;
                update.record(None);
                let next = DocumentState::proceed(update);
                proof {
                    if before.pending().len() > 0 {
                        assert(recorded(before, None, update));
                    }
                }
                next
            },
            (DocumentState::Resolved, Event::Submitted) => (DocumentState::Patched, Action::Stop),
            (DocumentState::Resolved, Event::SubmissionFailed(reason)) => (
                DocumentState::Failed(ResponseError::Transport(reason)),
                Action::Stop,
            ),
            (state, _) => (state, Action::Stop),
        }
    }
}

/// How far the update of one taxonomy of a document has come.
pub enum TaxonomyState {
    /// The document is at hand and its text was sent to the generation
    /// service.
    Fetched,
    /// The labels are decoded and the creation of an entry is under way.
    Resolving(DefaultFieldUpdate),
    /// Every label is resolved and the update was handed out for submission.
    Resolved,
    /// The service has accepted the update.
    Patched,
    /// The course of the document ended with this error.
    Failed(ResponseError),
}

/// The step that follows the resolution of all labels that need no further
/// creation: ask for the next entry, or hand out the update.
pub open spec fn follows_labels(update: DefaultFieldUpdate, state: TaxonomyState, action: Action) -> bool {
    if update.labels().len() > 0 {
        &&& state == TaxonomyState::Resolving(update)
        &&& action matches Action::CreateEntry(request)
        &&& is_creation_of(request, update.labels()[0])
    } else {
        &&& state is Resolved
        &&& action matches Action::SubmitEntries(patch)
        &&& patch.endpoint == update.endpoint()
        &&& patch.ids@ == update.ids()
    }
}

/// The step that follows the generated text: extraction, decoding and the
/// resolution of the labels up to the first that needs the service.
pub open spec fn follows_label_generation(
    text: Seq<char>,
    fields: Seq<DefaultField>,
    endpoint: PaperlessDefaultFieldType,
    mode: Mode,
    state: TaxonomyState,
    action: Action,
) -> bool {
    match balanced_span(text) {
        None => state == TaxonomyState::Failed(ResponseError::Extraction) && action is Stop,
        Some(span) => match parsed_labels(span) {
            None => {
                &&& state matches TaxonomyState::Failed(error)
                &&& is_decode_error(span, error)
                &&& action is Stop
            },
            Some(labels) => {
                let (ids, waiting) = settled(taxonomy_of(fields), mode, Seq::empty(), labels);
                if waiting.len() > 0 {
                    &&& state matches TaxonomyState::Resolving(update)
                    &&& update.taxonomy() == taxonomy_of(fields)
                    &&& update.endpoint() == endpoint
                    &&& update.mode() == mode
                    &&& update.ids() == ids
                    &&& update.labels() == waiting
                    &&& action matches Action::CreateEntry(request)
                    &&& is_creation_of(request, waiting[0])
                } else {
                    &&& state is Resolved
                    &&& action matches Action::SubmitEntries(patch)
                    &&& patch.endpoint == endpoint
                    &&& patch.ids@ == ids
                }
            },
        },
    }
}

/// What the recorded outcome of a creation makes of an update of a taxonomy.
pub open spec fn recorded_entry(
    before: DefaultFieldUpdate,
    created: Option<DefaultField>,
    after: DefaultFieldUpdate,
) -> bool {
    &&& after.taxonomy() == before.taxonomy()
    &&& after.endpoint() == before.endpoint()
    &&& after.mode() == before.mode()
    &&& (after.ids(), after.labels()) == settled(
        before.taxonomy(),
        before.mode(),
        match created {
            Some(field) => before.ids().push(field.id),
            None => before.ids(),
        },
        before.labels().drop_first(),
    )
}

impl TaxonomyState {
    /// Whether the course of the document has ended.
    pub open spec fn is_terminal(self) -> bool {
        self is Patched || self is Failed
    }

    /// Asks for the next entry or hands out the update.
    fn proceed(update: DefaultFieldUpdate) -> (next: (TaxonomyState, Action))
        ensures
            follows_labels(update, next.0, next.1),
    {
        match update.next_request() {
            Some(request) => (TaxonomyState::Resolving(update), Action::CreateEntry(request)),
            None => (TaxonomyState::Resolved, Action::SubmitEntries(update.finish())),
        }
    }

    /// Takes the generated text through extraction, decoding and the
    /// resolution of the labels up to the first that needs the service.
    pub fn on_generated(
        text: &str,
        fields: &Vec<DefaultField>,
        endpoint: PaperlessDefaultFieldType,
        mode: Mode,
    ) -> (next: (TaxonomyState, Action))
        ensures
            follows_label_generation(text@, fields@, endpoint, mode, next.0, next.1),
    {
        let span = match extract_json_object(text) {
            Ok(span) => span,
            Err(error) => {
                return (TaxonomyState::Failed(error), Action::Stop);
            },
        };
        let labels = match decode_labels(span.as_str()) {
            Ok(labels) => labels,
            Err(error) => {
                return (TaxonomyState::Failed(error), Action::Stop);
            },
        };
        TaxonomyState::proceed(DefaultFieldUpdate::start(fields, labels, endpoint, mode))
    }

    /// The state and the action that follow `event` in this state.
    ///
    /// - `Fetched` and generated text: see `follows_label_generation`.
    /// - `Fetched` and a failed generation: `Failed` with a transport error.
    /// - `Resolving` and the outcome of a creation: the outcome is recorded,
    ///   a failure by skipping the label, and the next entry is asked for or
    ///   the update handed out.
    /// - `Resolved` and the outcome of the submission: `Patched`, or `Failed`
    ///   with a transport error.
    /// - Any other pair: the state stays and nothing is asked for.
    pub fn step(
        self,
        event: Event,
        fields: &Vec<DefaultField>,
        endpoint: PaperlessDefaultFieldType,
        mode: Mode,
    ) -> (next: (TaxonomyState, Action))
        ensures
            match (self, event) {
                (TaxonomyState::Fetched, Event::Generated(text)) => follows_label_generation(
                    text@,
                    fields@,
                    endpoint,
                    mode,
                    next.0,
                    next.1,
                ),
                (TaxonomyState::Fetched, Event::GenerationFailed(reason)) => next.0
                    == TaxonomyState::Failed(ResponseError::Transport(reason)) && next.1 is Stop,
                (TaxonomyState::Resolving(update), Event::EntryCreated(field)) => {
                    if update.labels().len() > 0 {
                        exists|after: DefaultFieldUpdate|
                            recorded_entry(update, Some(field), after) && follows_labels(
                                after,
                                next.0,
                                next.1,
                            )
                    } else {
                        follows_labels(update, next.0, next.1)
                    }
                },
                (TaxonomyState::Resolving(update), Event::CreationFailed(_)) => {
                    if update.labels().len() > 0 {
                        exists|after: DefaultFieldUpdate|
                            recorded_entry(update, None, after) && follows_labels(
                                after,
                                next.0,
                                next.1,
                            )
                    } else {
                        follows_labels(update, next.0, next.1)
                    }
                },
                (TaxonomyState::Resolved, Event::Submitted) => next.0 is Patched && next.1 is Stop,
                (TaxonomyState::Resolved, Event::SubmissionFailed(reason)) => next.0
                    == TaxonomyState::Failed(ResponseError::Transport(reason)) && next.1 is Stop,
                _ => next.0 == self && next.1 is Stop,
            },
    {
        match (self, event) {
            (TaxonomyState::Fetched, Event::Generated(text)) => TaxonomyState::on_generated(
                text.as_str(),
                fields,
                endpoint,
                mode,
            ),
            (TaxonomyState::Fetched, Event::GenerationFailed(reason)) => (
                TaxonomyState::Failed(ResponseError::Transport(reason)),
                Action::Stop,
            ),
            (TaxonomyState::Resolving(update), Event::EntryCreated(field)) => {
                let mut update = update;
                let ghost before = update;
                update.record(Some(field));
                let next = TaxonomyState::proceed(update);
                proof {
                    if before.labels().len() > 0 {
                        assert(recorded_entry(before, Some(field), update));
                    }
                }
                next
            },
            (TaxonomyState::Resolving(update), Event::CreationFailed(_)) => {
                let mut update = update;
                let ghost before = update;
                update.record(None);
                let next = TaxonomyState::proceed(update);
                proof {
                    if before.labels().len() > 0 {
                        assert(recorded_entry(before, None, update));
                    }
                }
                next
            },
            (TaxonomyState::Resolved, Event::Submitted) => (TaxonomyState::Patched, Action::Stop),
            (TaxonomyState::Resolved, Event::SubmissionFailed(reason)) => (
                TaxonomyState::Failed(ResponseError::Transport(reason)),
                Action::Stop,
            ),
            (state, _) => (state, Action::Stop),
        }
    }
}

} // verus!
