//! The backup | merge | restore panel: the web API endpoints it offers and
//! what it shows while an operation runs and once it has finished.

use crate::helpers::joined;
use vstd::prelude::*;

verus! {

/// The default endpoint of the OpenTimeline web API for entities
pub open spec fn default_entities_url() -> Seq<char> {
    "https://www.open-timeline.org/api/v1/entities/full"@
}

/// The default endpoint of the OpenTimeline web API for timelines
pub open spec fn default_timelines_url() -> Seq<char> {
    "https://www.open-timeline.org/api/v1/timelines/edit"@
}

/// A URL and whether it can be edited
#[derive(Debug)]
pub struct ApiEndpointConfig {
    pub url: String,
    pub enable_edit: bool,
}

impl ApiEndpointConfig {
    /// Whether the URL's input accepts edits
    pub fn url_editable(&self) -> (editable: bool)
        ensures
            editable == self.enable_edit,
    {
        self.enable_edit
    }
}

/// Web API config for entities & timelines
#[derive(Debug)]
pub struct ApiEndpoints {
    pub entities: ApiEndpointConfig,
    pub timelines: ApiEndpointConfig,
}

impl ApiEndpoints {
    /// The endpoints of the OpenTimeline web API, locked against editing
    pub fn open_timeline() -> (endpoints: Self)
        ensures
            endpoints.entities.url@ == default_entities_url(),
            endpoints.timelines.url@ == default_timelines_url(),
            !endpoints.entities.enable_edit,
            !endpoints.timelines.enable_edit,
    {
        ApiEndpoints {
            entities: ApiEndpointConfig {
                url: String::from_str("https://www.open-timeline.org/api/v1/entities/full"),
                enable_edit: false,
            },
            timelines: ApiEndpointConfig {
                url: String::from_str("https://www.open-timeline.org/api/v1/timelines/edit"),
                enable_edit: false,
            },
        }
    }
}

/// The operations of the panel
#[derive(Debug, Clone, Copy, PartialEq, Eq, Structural)]
pub enum BackupMergeRestore {
    Backup,
    Merge,
    Restore,
}

/// Where an operation takes its data from or puts it
#[derive(Debug, Clone, Copy, PartialEq, Eq, Structural)]
pub enum BackupSource {
    /// JSON files in a folder
    Files,
    /// A JSON web API
    WebApi,
}

/// Whether the panel offers the operation for the source: everything for
/// files; merging and restoring for a web API, which cannot be written to
pub open spec fn operation_offered(source: BackupSource, operation: BackupMergeRestore) -> bool {
    !(source is WebApi && operation is Backup)
}

/// Whether the panel offers the operation for the source
pub fn offers_operation(source: BackupSource, operation: BackupMergeRestore) -> (offered: bool)
    ensures
        offered == operation_offered(source, operation),
{
    !(source == BackupSource::WebApi && operation == BackupMergeRestore::Backup)
}

/// What the panel shows of the last operation
#[derive(Debug)]
pub enum OperationStatus<E> {
    /// Nothing has been requested while the programme has been running
    Ready,
    /// The operation last requested has succeeded
    Success(BackupMergeRestore),
    /// The operation last requested has failed
    Failure(E),
    /// The operation last requested is in progress
    InProgress,
}

/// The name of an operation, as the status shows it
pub open spec fn operation_name(operation: BackupMergeRestore) -> Seq<char> {
    match operation {
        BackupMergeRestore::Backup => "Backup"@,
        BackupMergeRestore::Merge => "Merge"@,
        BackupMergeRestore::Restore => "Restore"@,
    }
}

/// The text shown for the status (`None` while in progress: a spinner is
/// shown)
pub open spec fn operation_status_message(status: OperationStatus<String>) -> Option<Seq<char>> {
    match status {
        OperationStatus::Ready => Some("Ready"@),
        OperationStatus::Success(op) => Some("Success: "@ + operation_name(op)),
        OperationStatus::Failure(e) => Some("Error: "@ + e@),
        OperationStatus::InProgress => None,
    }
}

impl OperationStatus<String> {
    /// The text shown for the status, the error given by its message
    pub fn message(&self) -> (text: Option<String>)
        ensures
            match text {
                Some(t) => operation_status_message(*self) == Some(t@),
                None => operation_status_message(*self) is None,
            },
    {
        proof {
            reveal_strlit("");
            assert(forall|t: Seq<char>| t + ""@ =~= t);
        }
        match self {
            OperationStatus::Ready => Some(String::from_str("Ready")),
            OperationStatus::Success(op) => {
                let name = match op {
                    BackupMergeRestore::Backup => "Backup",
                    BackupMergeRestore::Merge => "Merge",
                    BackupMergeRestore::Restore => "Restore",
                };
                Some(joined("Success: ", name, ""))
            },
            OperationStatus::Failure(e) => Some(joined("Error: ", e.as_str(), "")),
            OperationStatus::InProgress => None,
        }
    }
}

/// The model of the panel's state: the operation last requested, whether an
/// answer is awaited, and the status shown
pub struct BackupPanelView<E> {
    pub requested: Option<BackupMergeRestore>,
    pub awaiting: bool,
    pub status: OperationStatus<E>,
}

/// The state of the backup | merge | restore panel
pub struct BackupMergeRestoreState<E> {
    requested: Option<BackupMergeRestore>,
    awaiting: bool,
    status: OperationStatus<E>,
}

impl<E> View for BackupMergeRestoreState<E> {
    type V = BackupPanelView<E>;

    closed spec fn view(&self) -> BackupPanelView<E> {
        BackupPanelView { requested: self.requested, awaiting: self.awaiting, status: self.status }
    }
}

/// The panel after an operation has been set off
pub open spec fn started<E>(v: BackupPanelView<E>, operation: BackupMergeRestore) -> BackupPanelView<
    E,
> {
    BackupPanelView { requested: Some(operation), awaiting: true, status: OperationStatus::InProgress }
}

/// The panel after an answer arrived, and whether the data changed: an
/// awaited answer settles the operation requested, any other is ignored
pub open spec fn received<E>(v: BackupPanelView<E>, answer: Result<(), E>) -> (
    BackupPanelView<E>,
    bool,
) {
    match v.requested {
        Some(operation) => if v.awaiting {
            match answer {
                Ok(()) => (
                    BackupPanelView {
                        requested: v.requested,
                        awaiting: false,
                        status: OperationStatus::Success(operation),
                    },
                    true,
                ),
                Err(e) => (
                    BackupPanelView {
                        requested: v.requested,
                        awaiting: false,
                        status: OperationStatus::Failure(e),
                    },
                    false,
                ),
            }
        } else {
            (v, false)
        },
        None => (v, false),
    }
}

impl<E> BackupMergeRestoreState<E> {
    /// A panel on which nothing has been requested yet
    pub fn new() -> (state: Self)
        ensures
            state@.requested is None,
            !state@.awaiting,
            state@.status is Ready,
    {
        BackupMergeRestoreState { requested: None, awaiting: false, status: OperationStatus::Ready }
    }

    /// An operation has been set off: it is in progress and its answer is
    /// awaited
    pub fn start(&mut self, operation: BackupMergeRestore)
        ensures
            final(self)@ == started(old(self)@, operation),
    {
        self.requested = Some(operation);
        self.status = OperationStatus::InProgress;
        self.awaiting = true;
    }

    /// Take the answer to the operation in progress.  Returns whether the
    /// rest of the app is to be told that the data changed (and reload): so it
    /// is when the operation succeeded.  An answer that nothing awaits is
    /// ignored.
    pub fn receive(&mut self, answer: Result<(), E>) -> (data_changed: bool)
        ensures
            (final(self)@, data_changed) == received(old(self)@, answer),
    {
        match self.requested {
            Some(operation) => {
                if self.awaiting {
                    self.awaiting = false;
                    match answer {
                        Ok(()) => {
                            self.status = OperationStatus::Success(operation);
                            true
                        },
                        Err(error) => {
                            self.status = OperationStatus::Failure(error);
                            false
                        },
                    }
                } else {
                    false
                }
            },
            None => false,
        }
    }

    /// Whether the panel waits for an answer
    pub fn waiting_for_updates(&self) -> (waiting: bool)
        ensures
            waiting == self@.awaiting,
    {
        self.awaiting
    }

    /// The status shown
    pub fn status(&self) -> (status: &OperationStatus<E>)
        ensures
            *status == self@.status,
    {
        &self.status
    }
}

/// Setting off an operation and receiving its answer settles it: nothing
/// more is awaited, a success is shown for that very operation and reported
/// as a change of the data, and a failure is shown with its error and
/// changes nothing
pub proof fn law_answer_settles_the_operation<E>(
    v: BackupPanelView<E>,
    operation: BackupMergeRestore,
    answer: Result<(), E>,
)
    ensures
        ({
            let (after, data_changed) = received(started(v, operation), answer);
            &&& !after.awaiting
            &&& after.requested == Some(operation)
            &&& data_changed == (answer is Ok)
            &&& match answer {
                Ok(()) => after.status == OperationStatus::<E>::Success(operation),
                Err(e) => after.status == OperationStatus::Failure(e),
            }
        }),
{
}

/// A second answer to the same operation changes nothing
pub proof fn law_settled_operation_ignores_answers<E>(
    v: BackupPanelView<E>,
    first: Result<(), E>,
    second: Result<(), E>,
)
    ensures
        ({
            let settled = received(v, first).0;
            received(settled, second) == (settled, false)
        }),
{
}

/// Every operation is offered for files; a web API offers merging in and
/// restoring, but no backup, since it cannot be written to
pub proof fn law_offered_operations()
    ensures
        operation_offered(BackupSource::Files, BackupMergeRestore::Backup),
        operation_offered(BackupSource::Files, BackupMergeRestore::Merge),
        operation_offered(BackupSource::Files, BackupMergeRestore::Restore),
        !operation_offered(BackupSource::WebApi, BackupMergeRestore::Backup),
        operation_offered(BackupSource::WebApi, BackupMergeRestore::Merge),
        operation_offered(BackupSource::WebApi, BackupMergeRestore::Restore),
{
}

/// Setting off an operation shows it in progress and awaits its answer,
/// whatever the panel showed before
pub proof fn law_started_operation_is_in_progress<E>(
    v: BackupPanelView<E>,
    operation: BackupMergeRestore,
)
    ensures
        started(v, operation).awaiting,
        started(v, operation).requested == Some(operation),
        started(v, operation).status is InProgress,
{
}

/// The status line: "Ready" before anything is asked, a spinner (no text)
/// while an operation runs, "Success: " and the operation's name, or
/// "Error: " and the error's text
pub proof fn law_status_messages(e: String)
    ensures
        operation_status_message(OperationStatus::Ready) == Some("Ready"@),
        operation_status_message(OperationStatus::<String>::InProgress) is None,
        operation_status_message(OperationStatus::<String>::Success(BackupMergeRestore::Backup))
            == Some("Success: "@ + "Backup"@),
        operation_status_message(OperationStatus::<String>::Success(BackupMergeRestore::Merge))
            == Some("Success: "@ + "Merge"@),
        operation_status_message(OperationStatus::<String>::Success(BackupMergeRestore::Restore))
            == Some("Success: "@ + "Restore"@),
        operation_status_message(OperationStatus::Failure(e)) == Some("Error: "@ + e@),
{
}

} // verus!
