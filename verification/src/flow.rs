//! The work on one version, from the choice of its file to the last byte
//! written, as a machine that decides and leaves every effect to its driver.
//!
//! A flow names the action that it waits for. The driver performs the
//! action and hands the flow what came of it as an event; the flow then
//! moves on. Nothing here reads or writes anything.

use crate::disposition::{file_name, filename_from_content_disposition};
use crate::error::{CivitError, CivitErrorView, Stage};
use crate::kinds::ModelType;
use crate::model::model_version::ModelVersion;
use crate::paths::{category_of, join, join_path, owner_category};
use vstd::prelude::*;

verus! {

/// What the answer to the request for a file says before its body.
#[derive(Debug, Clone, PartialEq, Eq)]
pub struct ResponseHead {
    /// The `Content-Disposition` header, where the answer has one.
    pub content_disposition: Option<String>,
    /// The length of the body in bytes, where the answer states it.
    pub content_length: Option<u64>,
}

/// What came of the action that a flow was waiting for.
#[derive(Debug, Clone, PartialEq)]
pub enum Event {
    /// The catalog's record of the version; `None` when it could not be had.
    Category(Option<ModelVersion>),
    /// The normalized destination folder; `None` when there is none.
    Folder(Option<String>),
    /// The head of the answer to the request for the file; `None` when the
    /// request failed or was answered with a failure.
    Response(Option<ResponseHead>),
    /// The length of the file that is at the destination already; `None`
    /// when there is no file.
    Probe(Option<u64>),
    /// Whether the file at the destination was created.
    Created(bool),
    /// The length of a chunk that was read and written; `None` when reading
    /// or writing failed.
    Chunk(Option<u64>),
    /// The body has been read to its end.
    EndOfStream,
}

/// What a flow asks its driver to do next.
#[derive(Debug, Clone, PartialEq, Eq)]
pub enum Action {
    /// Fetch the catalog's record of this version.
    LookupVersion { version_id: i64 },
    /// Normalize the folder for this category under this base directory.
    Resolve { base: String, category: ModelType },
    /// Request the file at this address.
    Get { url: String },
    /// Look for a file at this path and measure it.
    Probe { path: String },
    /// Create the file at this path, empty.
    Create { path: String },
    /// Report this position under this label, which is the name of the
    /// file; then read the next chunk and write it.
    Pull { label: String, downloaded: u64, total: u64 },
    /// Nothing: the flow has ended.
    Stop,
}

/// How a flow ended.
#[derive(Debug, Clone, PartialEq, Eq)]
pub enum Outcome {
    /// The file was written.
    Completed { path: String, bytes_written: u64 },
    /// A file of the declared size was there already; nothing was written.
    AlreadyExists { path: String },
    /// The flow failed.
    Failed(CivitError),
}

#[derive(Debug, PartialEq, Eq)]
enum State {
    AwaitingCategory,
    AwaitingFolder { category: ModelType },
    AwaitingResponse { directory: String },
    AwaitingProbe { name: String, path: String, content_length: Option<u64> },
    AwaitingCreation { name: String, path: String, total: u64 },
    Streaming { name: String, path: String, downloaded: u64, total: u64 },
    Finished(Outcome),
}

/// The work on one version of one model.
#[derive(Debug, PartialEq, Eq)]
pub struct Flow {
    model_id: i64,
    version_id: i64,
    url: String,
    base: String,
    declared_size: Option<u64>,
    state: State,
}

/// An `Action` with texts as sequences of characters.
pub enum ActionView {
    LookupVersion { version_id: i64 },
    Resolve { base: Seq<char>, category: ModelType },
    Get { url: Seq<char> },
    Probe { path: Seq<char> },
    Create { path: Seq<char> },
    Pull { label: Seq<char>, downloaded: u64, total: u64 },
    Stop,
}

/// An `Outcome` with texts as sequences of characters.
pub enum OutcomeView {
    Completed { path: Seq<char>, bytes_written: u64 },
    AlreadyExists { path: Seq<char> },
    Failed(CivitErrorView),
}

/// Where a flow stands.
pub enum StateView {
    /// Waiting for the catalog's record of the version.
    AwaitingCategory,
    /// Waiting for the normalized folder.
    AwaitingFolder { category: ModelType },
    /// Waiting for the head of the answer.
    AwaitingResponse { directory: Seq<char> },
    /// Waiting to learn what is at the destination.
    AwaitingProbe { name: Seq<char>, path: Seq<char>, content_length: Option<u64> },
    /// Waiting for the file to be created.
    AwaitingCreation { name: Seq<char>, path: Seq<char>, total: u64 },
    /// Waiting for the next chunk.
    Streaming { name: Seq<char>, path: Seq<char>, downloaded: u64, total: u64 },
    /// Ended.
    Finished(OutcomeView),
}

/// A flow as a value: whose file it fetches, from where, to where, and where
/// it stands.
pub struct FlowView {
    pub model_id: i64,
    pub version_id: i64,
    /// The address of the file.
    pub url: Seq<char>,
    /// The base directory.
    pub base: Seq<char>,
    /// The size that the catalog declares for the file, in bytes.
    pub declared_size: Option<u64>,
    pub state: StateView,
}

impl View for Action {
    type V = ActionView;

    open spec fn view(&self) -> ActionView {
        match *self {
            Action::LookupVersion { version_id } => ActionView::LookupVersion { version_id },
            Action::Resolve { base, category } => ActionView::Resolve { base: base@, category },
            Action::Get { url } => ActionView::Get { url: url@ },
            Action::Probe { path } => ActionView::Probe { path: path@ },
            Action::Create { path } => ActionView::Create { path: path@ },
            Action::Pull { label, downloaded, total } => ActionView::Pull {
                label: label@,
                downloaded,
                total,
            },
            Action::Stop => ActionView::Stop,
        }
    }
}

impl View for Outcome {
    type V = OutcomeView;

    open spec fn view(&self) -> OutcomeView {
        match *self {
            Outcome::Completed { path, bytes_written } => OutcomeView::Completed {
                path: path@,
                bytes_written,
            },
            Outcome::AlreadyExists { path } => OutcomeView::AlreadyExists { path: path@ },
            Outcome::Failed(error) => OutcomeView::Failed(error@),
        }
    }
}

impl View for State {
    type V = StateView;

    closed spec fn view(&self) -> StateView {
        match *self {
            State::AwaitingCategory => StateView::AwaitingCategory,
            State::AwaitingFolder { category } => StateView::AwaitingFolder { category },
            State::AwaitingResponse { directory } => StateView::AwaitingResponse {
                directory: directory@,
            },
            State::AwaitingProbe { name, path, content_length } => StateView::AwaitingProbe {
                name: name@,
                path: path@,
                content_length,
            },
            State::AwaitingCreation { name, path, total } => StateView::AwaitingCreation {
                name: name@,
                path: path@,
                total,
            },
            State::Streaming { name, path, downloaded, total } => StateView::Streaming {
                name: name@,
                path: path@,
                downloaded,
                total,
            },
            State::Finished(outcome) => StateView::Finished(outcome@),
        }
    }
}

impl View for Flow {
    type V = FlowView;

    closed spec fn view(&self) -> FlowView {
        FlowView {
            model_id: self.model_id,
            version_id: self.version_id,
            url: self.url@,
            base: self.base@,
            declared_size: self.declared_size,
            state: self.state@,
        }
    }
}

/// A file is at the destination already, and it has the size that the
/// catalog declares. Without a declared size nothing can be compared.
pub open spec fn already_present(found: Option<u64>, declared: Option<u64>) -> bool {
    found is Some && declared is Some && found->0 == declared->0
}

/// The position after a chunk of `len` bytes: the bytes counted so far and
/// the chunk, and never more than the total.
pub open spec fn advanced(downloaded: u64, len: u64, total: u64) -> u64 {
    if downloaded + len <= total {
        (downloaded + len) as u64
    } else {
        total
    }
}

impl StateView {
    /// The bytes counted never exceed the total.
    pub open spec fn wf(self) -> bool {
        self matches StateView::Streaming { downloaded, total, .. } ==> downloaded <= total
    }

    /// The position of a flow that is streaming: the bytes counted and the
    /// total.
    pub open spec fn position(self) -> Option<(u64, u64)> {
        match self {
            StateView::Streaming { downloaded, total, .. } => Some((downloaded, total)),
            _ => None,
        }
    }
}

impl FlowView {
    /// The flow for a version whose file was chosen: it waits for the
    /// category of the owning model.
    pub open spec fn started(
        model_id: i64,
        version_id: i64,
        base: Seq<char>,
        url: Seq<char>,
        declared_size: Option<u64>,
    ) -> FlowView {
        FlowView {
            model_id,
            version_id,
            url,
            base,
            declared_size,
            state: StateView::AwaitingCategory,
        }
    }

    /// The flow for a version that lists no file: it has failed already.
    pub open spec fn without_files(model_id: i64, version_id: i64, base: Seq<char>) -> FlowView {
        FlowView {
            model_id,
            version_id,
            url: Seq::empty(),
            base,
            declared_size: None,
            state: StateView::Finished(OutcomeView::Failed(CivitErrorView::NoFilesAvailable)),
        }
    }

    /// The bytes counted never exceed the total.
    pub open spec fn wf(self) -> bool {
        self.state.wf()
    }

    /// This flow in another state.
    pub open spec fn at(self, state: StateView) -> FlowView {
        FlowView { state, ..self }
    }

    /// This flow, ended with a failure.
    pub open spec fn failed(self, error: CivitErrorView) -> FlowView {
        self.at(StateView::Finished(OutcomeView::Failed(error)))
    }

    /// What the flow asks its driver to do.
    pub open spec fn action(self) -> ActionView {
        match self.state {
            StateView::AwaitingCategory => ActionView::LookupVersion { version_id: self.version_id },
            StateView::AwaitingFolder { category } => ActionView::Resolve {
                base: self.base,
                category,
            },
            StateView::AwaitingResponse { .. } => ActionView::Get { url: self.url },
            StateView::AwaitingProbe { path, .. } => ActionView::Probe { path },
            StateView::AwaitingCreation { path, .. } => ActionView::Create { path },
            StateView::Streaming { name, downloaded, total, .. } => ActionView::Pull {
                label: name,
                downloaded,
                total,
            },
            StateView::Finished(_) => ActionView::Stop,
        }
    }

    /// The stage that the flow is at. A flow that has failed stays at the
    /// stage of its failure.
    pub open spec fn stage(self) -> Stage {
        match self.state {
            StateView::AwaitingCategory => Stage::CategoryResolution,
            StateView::AwaitingFolder { .. } => Stage::PathResolution,
            StateView::Finished(OutcomeView::Failed(error)) => error.stage(),
            _ => Stage::Transfer,
        }
    }

    /// How the flow ended, once it has.
    pub open spec fn outcome(self) -> Option<OutcomeView> {
        match self.state {
            StateView::Finished(outcome) => Some(outcome),
            _ => None,
        }
    }

    /// The flow after `event`. An event that does not answer the action that
    /// the flow waits for leaves it as it is.
    pub open spec fn step(self, event: Event) -> FlowView {
        match (self.state, event) {
            (StateView::AwaitingCategory, Event::Category(details)) => match category_of(details) {
                Some(category) => self.at(StateView::AwaitingFolder { category }),
                None => self.failed(CivitErrorView::CategoryResolutionFailed),
            },
            (StateView::AwaitingFolder { .. }, Event::Folder(folder)) => match folder {
                Some(directory) => self.at(StateView::AwaitingResponse { directory: directory@ }),
                None => self.failed(CivitErrorView::PathResolutionError),
            },
            (StateView::AwaitingResponse { directory }, Event::Response(answer)) => match answer {
                Some(head) => match head.content_disposition {
                    Some(header) => self.at(
                        StateView::AwaitingProbe {
                            name: file_name(header@),
                            path: join_path(directory, file_name(header@)),
                            content_length: head.content_length,
                        },
                    ),
                    None => self.failed(CivitErrorView::FilenameUnavailable),
                },
                None => self.failed(CivitErrorView::FetchFailed { url: self.url }),
            },
            (StateView::AwaitingProbe { name, path, content_length }, Event::Probe(found)) => {
                if already_present(found, self.declared_size) {
                    self.at(StateView::Finished(OutcomeView::AlreadyExists { path }))
                } else {
                    match content_length {
                        Some(total) => self.at(StateView::AwaitingCreation { name, path, total }),
                        None => self.failed(CivitErrorView::ContentLengthUnavailable),
                    }
                }
            },
            (StateView::AwaitingCreation { name, path, total }, Event::Created(created)) => {
                if created {
                    self.at(StateView::Streaming { name, path, downloaded: 0, total })
                } else {
                    self.failed(CivitErrorView::IoError)
                }
            },
            (StateView::Streaming { name, path, downloaded, total }, Event::Chunk(chunk)) => match chunk {
                Some(len) => self.at(
                    StateView::Streaming {
                        name,
                        path,
                        downloaded: advanced(downloaded, len, total),
                        total,
                    },
                ),
                None => self.failed(CivitErrorView::IoError),
            },
            (StateView::Streaming { path, downloaded, .. }, Event::EndOfStream) => self.at(
                StateView::Finished(OutcomeView::Completed { path, bytes_written: downloaded }),
            ),
            _ => self,
        }
    }
}

/// Every event leaves a flow well formed, and while the body is read the
/// bytes counted never go down and never exceed the total, which stays what
/// it was. A flow that completes reports the bytes that it counted.
pub proof fn lemma_position_monotone(flow: FlowView, event: Event)
    requires
        flow.wf(),
    ensures
        flow.step(event).wf(),
        flow.state.position() matches Some(before) ==> {
            &&& flow.step(event).state.position() matches Some(after) ==> before.0 <= after.0
                <= after.1 && after.1 == before.1
            &&& flow.step(event).outcome() matches Some(OutcomeView::Completed { bytes_written, .. })
                ==> bytes_written == before.0 && bytes_written <= before.1
        },
{
}

/// While the body is read, the label under which a flow reports its position
/// stays the name of the file.
pub proof fn lemma_label_kept(flow: FlowView, event: Event)
    requires
        flow.state is Streaming,
        flow.step(event).state is Streaming,
    ensures
        flow.step(event).state->Streaming_name == flow.state->Streaming_name,
        flow.step(event).state->Streaming_path == flow.state->Streaming_path,
{
}

/// The position after a chunk is the position before it and the length of
/// the chunk, cut off at the total.
pub proof fn lemma_chunk_advances(flow: FlowView, len: u64)
    requires
        flow.wf(),
        flow.state is Streaming,
    ensures
        flow.step(Event::Chunk(Some(len))).state.position() matches Some(after) && after.0
            == vstd::math::min(
            flow.state->Streaming_downloaded + len,
            flow.state->Streaming_total as int,
        ) && after.1 == flow.state->Streaming_total,
{
}

/// A flow that finds a file of the declared size at the destination ends
/// there: it reports that the file exists, and asks for nothing to be
/// created or written.
pub proof fn lemma_existing_file_is_skipped(flow: FlowView, size: u64)
    requires
        flow.state is AwaitingProbe,
        flow.declared_size == Some(size),
    ensures
        flow.step(Event::Probe(Some(size))).outcome() == Some(
            OutcomeView::AlreadyExists { path: flow.state->AwaitingProbe_path },
        ),
        flow.step(Event::Probe(Some(size))).action() == ActionView::Stop,
{
}

/// A flow that finds no file at the destination, or one of another size than
/// declared, or that has no declared size to compare with, goes on: where the
/// length of the body is known it asks for the file to be created, which
/// replaces what is there.
pub proof fn lemma_other_file_is_replaced(flow: FlowView, found: Option<u64>, total: u64)
    requires
        flow.state is AwaitingProbe,
        flow.state->AwaitingProbe_content_length == Some(total),
        !already_present(found, flow.declared_size),
    ensures
        flow.step(Event::Probe(found)).action() == (ActionView::Create {
            path: flow.state->AwaitingProbe_path,
        }),
        flow.step(Event::Probe(found)).outcome() is None,
{
}

/// A flow reports that the file exists only when it has asked what is at the
/// destination and was told of a file of the declared size; and it reports
/// that the file was written only when the body has been read to its end.
pub proof fn lemma_outcomes_have_causes(flow: FlowView, event: Event)
    requires
        !(flow.state is Finished),
    ensures
        flow.step(event).outcome() matches Some(OutcomeView::AlreadyExists { path }) ==> {
            &&& flow.state matches StateView::AwaitingProbe { path: asked, .. }
            &&& asked == path
            &&& event matches Event::Probe(found)
            &&& already_present(found, flow.declared_size)
        },
        flow.step(event).outcome() matches Some(OutcomeView::Completed { path, bytes_written }) ==> {
            &&& flow.state matches StateView::Streaming { path: written, downloaded, .. }
            &&& written == path
            &&& downloaded == bytes_written
            &&& event is EndOfStream
        },
{
}

/// A flow that fails reports the stage at which it was when the event came.
pub proof fn lemma_failure_names_its_stage(flow: FlowView, event: Event)
    requires
        !(flow.state is Finished),
        flow.step(event).outcome() matches Some(OutcomeView::Failed(_)),
    ensures
        flow.step(event).outcome() matches Some(OutcomeView::Failed(error)) && error.stage()
            == flow.stage(),
        flow.step(event).stage() == flow.stage(),
{
}

/// The stages are gone through in their order: no event takes a flow back to
/// a stage before the one that it is at.
pub proof fn lemma_stages_in_order(flow: FlowView, event: Event)
    ensures
        flow.stage().rank() <= flow.step(event).stage().rank(),
{
}

/// A flow that has ended stays as it is, whatever event comes.
pub proof fn lemma_finished_is_final(flow: FlowView, event: Event)
    requires
        flow.state is Finished,
    ensures
        flow.step(event) == flow,
{
}

/// Whether a file found at the destination makes the transfer unnecessary.
pub fn file_matches(found: Option<u64>, declared: Option<u64>) -> (same: bool)
    ensures
        same == already_present(found, declared),
{
    match (found, declared) {
        (Some(length), Some(size)) => length == size,
        _ => false,
    }
}

/// The position after a chunk of `len` bytes.
pub fn advance(downloaded: u64, len: u64, total: u64) -> (position: u64)
    ensures
        position == advanced(downloaded, len, total),
{
    if downloaded <= total && len <= total - downloaded {
        downloaded + len
    } else {
        total
    }
}

impl Flow {
    #[verifier::type_invariant]
    spec fn well_formed(self) -> bool {
        self@.wf()
    }

    /// The flow for a version whose file was chosen.
    pub fn begin(
        model_id: i64,
        version_id: i64,
        base: &str,
        url: &str,
        declared_size: Option<u64>,
    ) -> (flow: Flow)
        ensures
            flow@ == FlowView::started(model_id, version_id, base@, url@, declared_size),
    {
        Flow {
            model_id,
            version_id,
            url: url.to_owned(),
            base: base.to_owned(),
            declared_size,
            state: State::AwaitingCategory,
        }
    }

    /// The flow for a version that lists no file.
    pub fn fail_without_files(model_id: i64, version_id: i64, base: &str) -> (flow: Flow)
        ensures
            flow@ == FlowView::without_files(model_id, version_id, base@),
    {
        Flow {
            model_id,
            version_id,
            url: String::new(),
            base: base.to_owned(),
            declared_size: None,
            state: State::Finished(Outcome::Failed(CivitError::NoFilesAvailable)),
        }
    }

    /// The model that the version belongs to.
    pub fn model_id(&self) -> (id: i64)
        ensures
            id == self@.model_id,
    {
        self.model_id
    }

    /// The version that this flow works on.
    pub fn version_id(&self) -> (id: i64)
        ensures
            id == self@.version_id,
    {
        self.version_id
    }

    /// The address of the file.
    pub fn url(&self) -> (url: &str)
        ensures
            url@ == self@.url,
    {
        self.url.as_str()
    }

    /// What the driver is to do next.
    pub fn action(&self) -> (action: Action)
        ensures
            action@ == self@.action(),
    {
        match &self.state {
            State::AwaitingCategory => Action::LookupVersion { version_id: self.version_id },
            State::AwaitingFolder { category } => Action::Resolve {
                base: self.base.clone(),
                category: *category,
            },
            State::AwaitingResponse { .. } => Action::Get { url: self.url.clone() },
            State::AwaitingProbe { path, .. } => Action::Probe { path: path.clone() },
            State::AwaitingCreation { path, .. } => Action::Create { path: path.clone() },
            State::Streaming { name, downloaded, total, .. } => Action::Pull {
                label: name.clone(),
                downloaded: *downloaded,
                total: *total,
            },
            State::Finished(_) => Action::Stop,
        }
    }

    /// The stage that the flow is at.
    pub fn stage(&self) -> (stage: Stage)
        ensures
            stage == self@.stage(),
    {
        match &self.state {
            State::AwaitingCategory => Stage::CategoryResolution,
            State::AwaitingFolder { .. } => Stage::PathResolution,
            State::Finished(Outcome::Failed(error)) => error.stage(),
            _ => Stage::Transfer,
        }
    }

    /// How the flow ended, once it has.
    pub fn outcome(&self) -> (outcome: Option<&Outcome>)
        ensures
            match outcome {
                Some(o) => self@.outcome() == Some(o@),
                None => self@.outcome() is None,
            },
    {
        match &self.state {
            State::Finished(outcome) => Some(outcome),
            _ => None,
        }
    }

    /// The bytes counted and the total, while the body is being read.
    pub fn position(&self) -> (position: Option<(u64, u64)>)
        ensures
            position == self@.state.position(),
            position matches Some(p) ==> p.0 <= p.1,
    {
        proof {
            use_type_invariant(self);
        }
        match &self.state {
            State::Streaming { downloaded, total, .. } => Some((*downloaded, *total)),
            _ => None,
        }
    }

    /// The flow after `event`.
    pub fn step(self, event: Event) -> (next: Flow)
        ensures
            next@ == self@.step(event),
    {
        proof {
            use_type_invariant(&self);
        }
        let Flow { model_id, version_id, url, base, declared_size, state } = self;
        let next_state = match (state, event) {
            (State::AwaitingCategory, Event::Category(details)) => {
                match owner_category(details.as_ref()) {
                    Ok(category) => State::AwaitingFolder { category },
                    Err(error) => State::Finished(Outcome::Failed(error)),
                }
            },
            (State::AwaitingFolder { .. }, Event::Folder(folder)) => match folder {
                Some(directory) => State::AwaitingResponse { directory },
                None => State::Finished(Outcome::Failed(CivitError::PathResolutionError)),
            },
            (State::AwaitingResponse { directory }, Event::Response(answer)) => match answer {
                Some(head) => match head.content_disposition {
                    Some(header) => {
                        let name = filename_from_content_disposition(header.as_str());
                        let path = join(directory.as_str(), name.as_str());
                        State::AwaitingProbe { name, path, content_length: head.content_length }
                    },
                    None => State::Finished(Outcome::Failed(CivitError::FilenameUnavailable)),
                },
                None => State::Finished(Outcome::Failed(CivitError::FetchFailed { url: url.clone() })),
            },
            (State::AwaitingProbe { name, path, content_length }, Event::Probe(found)) => {
                if file_matches(found, declared_size) {
                    State::Finished(Outcome::AlreadyExists { path })
                } else {
                    match content_length {
                        Some(total) => State::AwaitingCreation { name, path, total },
                        None => State::Finished(
                            Outcome::Failed(CivitError::ContentLengthUnavailable),
                        ),
                    }
                }
            },
            (State::AwaitingCreation { name, path, total }, Event::Created(created)) => {
                if created {
                    State::Streaming { name, path, downloaded: 0, total }
                } else {
                    State::Finished(Outcome::Failed(CivitError::IoError))
                }
            },
            (State::Streaming { name, path, downloaded, total }, Event::Chunk(chunk)) => match chunk {
                Some(len) => State::Streaming {
                    name,
                    path,
                    downloaded: advance(downloaded, len, total),
                    total,
                },
                None => State::Finished(Outcome::Failed(CivitError::IoError)),
            },
            (State::Streaming { path, downloaded, .. }, Event::EndOfStream) => State::Finished(
                Outcome::Completed { path, bytes_written: downloaded },
            ),
            (state, _) => state,
        };
        Flow { model_id, version_id, url, base, declared_size, state: next_state }
    }
}

} // verus!
