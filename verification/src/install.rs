use crate::assets::{
    index_objects, read_asset_index, AssetObject, AssetSync, SyncAction, SyncActionView, SyncEvent,
    SyncState,
};
use crate::catalog::{
    get_version_url, is_listed, lemma_listed_version_resolves, version_url, VersionManifest,
};
use crate::descriptor::VersionDetails;
use crate::error::InstallError;
use crate::json::document_of;
use crate::layout::{catalog_url, manifest_url};
use crate::plan::{install_plan, install_steps, FetchTask, FetchTaskView, Selection, Step, StepView};
use vstd::prelude::*;

verus! {

/// What an installation asks its caller to do next.
#[derive(Debug)]
pub enum Action {
    /// Retrieve the catalog of versions from `url` and hand it in.
    FetchCatalog { url: String },
    /// Retrieve the descriptor of the version from `url` and hand it in.
    FetchDetails { url: String },
    /// Store the descriptor, as JSON, at `path` below the instance root.
    WriteDescriptor { path: String },
    /// Retrieve a file.
    Fetch(FetchTask),
    /// Hand in the text of the asset index stored at `path`.
    ReadIndex { path: String },
    /// Report whether a file exists at `path`, below the instance root.
    Probe { path: String },
    /// Nothing is left to do: the installation is complete.
    Finish,
    /// Give up with this error.
    Abort(InstallError),
}

/// The characters of an [`Action`].
pub enum ActionView {
    FetchCatalog { url: Seq<char> },
    FetchDetails { url: Seq<char> },
    WriteDescriptor { path: Seq<char> },
    Fetch(FetchTaskView),
    ReadIndex { path: Seq<char> },
    Probe { path: Seq<char> },
    Finish,
    Abort(InstallError),
}

impl View for Action {
    type V = ActionView;

    open spec fn view(&self) -> ActionView {
        match self {
            Action::FetchCatalog { url } => ActionView::FetchCatalog { url: url@ },
            Action::FetchDetails { url } => ActionView::FetchDetails { url: url@ },
            Action::WriteDescriptor { path } => ActionView::WriteDescriptor { path: path@ },
            Action::Fetch(task) => ActionView::Fetch(task@),
            Action::ReadIndex { path } => ActionView::ReadIndex { path: path@ },
            Action::Probe { path } => ActionView::Probe { path: path@ },
            Action::Finish => ActionView::Finish,
            Action::Abort(error) => ActionView::Abort(*error),
        }
    }
}

/// What the caller reports back to an installation.
#[derive(Debug)]
pub enum Event {
    /// The catalog that was retrieved.
    Catalog(VersionManifest),
    /// The descriptor that was retrieved.
    Details(VersionDetails),
    /// The text that was read.
    Text(String),
    /// The probed file exists.
    Present,
    /// The probed file does not exist.
    Missing,
    /// The file was written or retrieved.
    Done,
    /// The action failed.
    Failed(InstallError),
}

/// What an installation is occupied with.
#[derive(Clone, Copy, Debug, PartialEq, Eq, Structural)]
pub enum Stage {
    /// The catalog is awaited.
    Catalog,
    /// The descriptor of the version is awaited.
    Details,
    /// The steps of the plan are taken, one after the other.
    Working,
    /// The objects of the asset index are synchronized.
    Syncing,
    /// Every step has been taken.
    Finished,
    /// The installation was given up.
    Failed(InstallError),
}

/// The state of an installation.
pub struct InstallState {
    pub version_id: Seq<char>,
    pub selection: Selection,
    pub stage: Stage,
    /// Where the descriptor is found, once the catalog is known.
    pub details_url: Seq<char>,
    /// The steps of the plan, once the descriptor is known.
    pub steps: Seq<StepView>,
    /// How many steps of the plan have been taken.
    pub cursor: int,
    /// The synchronization of the asset objects, once the index is known.
    pub sync: SyncState,
}

/// The action that asks for the step `step`.
pub open spec fn step_action(step: StepView) -> ActionView {
    match step {
        StepView::WriteDescriptor { path } => ActionView::WriteDescriptor { path },
        StepView::Fetch(task) => ActionView::Fetch(task),
        StepView::ReadIndex { path } => ActionView::ReadIndex { path },
    }
}

/// The action of an installation that a synchronization asks for.
pub open spec fn sync_action(action: SyncActionView) -> ActionView {
    match action {
        SyncActionView::Probe { path } => ActionView::Probe { path },
        SyncActionView::Fetch(task) => ActionView::Fetch(task),
        SyncActionView::Finish => ActionView::Finish,
        SyncActionView::Abort(error) => ActionView::Abort(error),
    }
}

/// What `event` reports to a synchronization, if anything.
pub open spec fn sync_event(event: Event) -> Option<SyncEvent> {
    match event {
        Event::Present => Some(SyncEvent::Present),
        Event::Missing => Some(SyncEvent::Missing),
        Event::Done => Some(SyncEvent::Done),
        Event::Failed(error) => Some(SyncEvent::Failed(error)),
        _ => None,
    }
}

impl InstallState {
    /// The state in which the installation of `version_id` starts.
    pub open spec fn start(version_id: Seq<char>, selection: Selection) -> InstallState {
        InstallState {
            version_id,
            selection,
            stage: Stage::Catalog,
            details_url: Seq::empty(),
            steps: Seq::empty(),
            cursor: 0,
            sync: SyncState::start(Seq::empty()),
        }
    }

    /// While steps are taken, there is a current step; and the
    /// synchronization is well-formed.
    pub open spec fn wf(self) -> bool {
        &&& self.stage == Stage::Working ==> 0 <= self.cursor < self.steps.len()
        &&& self.sync.wf()
    }

    /// What the caller is asked to do in this state.
    pub open spec fn pending(self) -> ActionView {
        match self.stage {
            Stage::Catalog => ActionView::FetchCatalog { url: manifest_url() },
            Stage::Details => ActionView::FetchDetails { url: self.details_url },
            Stage::Working => step_action(self.steps[self.cursor]),
            Stage::Syncing => sync_action(self.sync.pending()),
            Stage::Finished => ActionView::Finish,
            Stage::Failed(error) => ActionView::Abort(error),
        }
    }

    /// The state once the catalog `manifest` is known: the descriptor is
    /// asked for where the catalog lists the version, and the installation
    /// is given up where it does not.
    pub open spec fn resolve(self, manifest: VersionManifest) -> InstallState {
        match version_url(manifest.versions@, self.version_id) {
            Some(url) => InstallState { stage: Stage::Details, details_url: url, ..self },
            None => InstallState { stage: Stage::Failed(InstallError::NotFound), ..self },
        }
    }

    /// The state once the descriptor `details` is known: the first step of
    /// the plan is taken up, if there is one.
    pub open spec fn plan(self, details: VersionDetails) -> InstallState {
        let steps = install_steps(details, self.version_id, self.selection);
        InstallState {
            stage: if steps.len() == 0 {
                Stage::Finished
            } else {
                Stage::Working
            },
            steps,
            cursor: 0,
            ..self
        }
    }

    /// The state once the current step has been taken.
    pub open spec fn advance(self) -> InstallState {
        InstallState {
            stage: if self.cursor + 1 >= self.steps.len() {
                Stage::Finished
            } else {
                Stage::Working
            },
            cursor: self.cursor + 1,
            ..self
        }
    }

    /// The state once the text `text` of the asset index is known: the
    /// objects that it lists are synchronized, and the installation is
    /// given up where the text is not well-formed JSON.
    pub open spec fn synchronize(self, text: Seq<char>) -> InstallState {
        match document_of(text) {
            Some(index) => InstallState {
                stage: Stage::Syncing,
                sync: SyncState::start(index_objects(index)),
                ..self
            },
            None => InstallState { stage: Stage::Failed(InstallError::Parse), ..self },
        }
    }

    /// The state after the caller reports `event`. A failure ends the
    /// installation, whatever was awaited; an event that answers nothing
    /// that was asked changes nothing.
    pub open spec fn next(self, event: Event) -> InstallState {
        match (self.stage, event) {
            (Stage::Catalog, Event::Catalog(manifest)) => self.resolve(manifest),
            (Stage::Details, Event::Details(details)) => self.plan(details),
            (Stage::Working, Event::Done) => match self.steps[self.cursor] {
                StepView::ReadIndex { .. } => self,
                _ => self.advance(),
            },
            (Stage::Working, Event::Text(text)) => match self.steps[self.cursor] {
                StepView::ReadIndex { .. } => self.synchronize(text@),
                _ => self,
            },
            (Stage::Syncing, event) => match sync_event(event) {
                Some(event) => InstallState { sync: self.sync.next(event), ..self },
                None => self,
            },
            (Stage::Catalog, Event::Failed(error))
            | (Stage::Details, Event::Failed(error))
            | (Stage::Working, Event::Failed(error)) => InstallState {
                stage: Stage::Failed(error),
                ..self
            },
            _ => self,
        }
    }
}

/// The caller awaits the outcome of a retrieval, a write or a read: an
/// action that can fail.
pub open spec fn can_fail(action: ActionView) -> bool {
    !(action is Probe || action is Finish || action is Abort)
}

/// A version that the catalog lists is resolved: once the catalog is handed
/// in, the installation asks for the descriptor, at the detail URL that the
/// catalog gives for the version.
pub proof fn lemma_listed_version_is_resolved(
    state: InstallState,
    manifest: VersionManifest,
    index: int,
)
    requires
        state.stage == Stage::Catalog,
        0 <= index < manifest.versions@.len(),
        manifest.versions@[index].id@ == state.version_id,
    ensures
        version_url(manifest.versions@, state.version_id) is Some,
        state.next(Event::Catalog(manifest)).pending() == (ActionView::FetchDetails {
            url: version_url(manifest.versions@, state.version_id)->0,
        }),
{
    lemma_listed_version_resolves(manifest.versions@, index);
}

/// A version that the catalog does not list is not found: once the catalog
/// is handed in, the installation is given up, and no descriptor is asked
/// for, then or later.
pub proof fn lemma_unlisted_version_is_given_up(
    state: InstallState,
    manifest: VersionManifest,
    later: Event,
)
    requires
        state.stage == Stage::Catalog,
        !is_listed(manifest.versions@, state.version_id),
    ensures
        state.next(Event::Catalog(manifest)).pending() == ActionView::Abort(InstallError::NotFound),
        state.next(Event::Catalog(manifest)).next(later).pending() == ActionView::Abort(
            InstallError::NotFound,
        ),
{
}

/// A well-formed installation stays so, whatever is reported to it.
pub proof fn lemma_installation_stays_well_formed(state: InstallState, event: Event)
    requires
        state.wf(),
    ensures
        state.next(event).wf(),
{
}

/// Only asset objects are probed for: while the steps of the plan are
/// taken, the client, the libraries and the asset index are retrieved
/// whether or not their files exist already.
pub proof fn lemma_plan_is_taken_unconditionally(state: InstallState)
    requires
        state.stage != Stage::Syncing,
    ensures
        !(state.pending() is Probe),
{
}

/// The first failure ends the installation: where the action that was
/// asked for can fail and the caller reports that it did, the installation
/// is given up with the error that was reported.
pub proof fn lemma_first_failure_ends_installation(state: InstallState, error: InstallError)
    requires
        state.wf(),
        can_fail(state.pending()),
    ensures
        state.next(Event::Failed(error)).pending() == ActionView::Abort(error),
{
}

/// Nothing follows the end: an installation that is complete or was given
/// up stays as it is, whatever is reported to it.
pub proof fn lemma_end_is_final(state: InstallState, event: Event)
    requires
        state.wf(),
        state.pending() is Finish || state.pending() is Abort,
    ensures
        state.next(event).pending() == state.pending(),
{
}

/// The installation of one version. It asks for one action at a time; the
/// caller carries the action out and reports what came of it.
pub struct Installer {
    version_id: String,
    selection: Selection,
    stage: Stage,
    details_url: String,
    steps: Vec<Step>,
    cursor: usize,
    sync: AssetSync,
}

impl View for Installer {
    type V = InstallState;

    closed spec fn view(&self) -> InstallState {
        InstallState {
            version_id: self.version_id@,
            selection: self.selection,
            stage: self.stage,
            details_url: self.details_url@,
            steps: self.steps.deep_view(),
            cursor: self.cursor as int,
            sync: self.sync@,
        }
    }
}

impl Installer {
    /// An installation is well-formed at all times.
    #[verifier::type_invariant]
    pub open spec fn well_formed(self) -> bool {
        self@.wf()
    }

    /// Starts the installation of the version `version_id`.
    pub fn new(version_id: &str, selection: Selection) -> (installer: Installer)
        ensures
            installer@ == InstallState::start(version_id@, selection),
            installer@.wf(),
    {
        let objects: Vec<AssetObject> = Vec::new();
        assert(objects.deep_view() =~= Seq::empty());
        let steps: Vec<Step> = Vec::new();
        assert(steps.deep_view() =~= Seq::empty());
        Installer {
            version_id: version_id.to_owned(),
            selection,
            stage: Stage::Catalog,
            details_url: String::new(),
            steps,
            cursor: 0,
            sync: AssetSync::new(objects),
        }
    }

    /// What the caller is asked to do next.
    pub fn pending(&self) -> (action: Action)
        ensures
            self@.wf(),
            action@ == self@.pending(),
    {
        proof {
            use_type_invariant(self);
        }
        match self.stage {
            Stage::Catalog => Action::FetchCatalog { url: catalog_url() },
            Stage::Details => Action::FetchDetails { url: self.details_url.clone() },
            Stage::Working => {
                match &self.steps[self.cursor] {
                    Step::WriteDescriptor { path } => Action::WriteDescriptor { path: path.clone() },
                    Step::Fetch(task) => Action::Fetch(task.clone()),
                    Step::ReadIndex { path } => Action::ReadIndex { path: path.clone() },
                }
            },
            Stage::Syncing => match self.sync.pending() {
                SyncAction::Probe { path } => Action::Probe { path },
                SyncAction::Fetch(task) => Action::Fetch(task),
                SyncAction::Finish => Action::Finish,
                SyncAction::Abort(error) => Action::Abort(error),
            },
            Stage::Finished => Action::Finish,
            Stage::Failed(error) => Action::Abort(error),
        }
    }

    /// The installation after the caller has reported `event`, what came of
    /// the action that was asked for.
    pub fn handle(self, event: Event) -> (next: Installer)
        ensures
            next@ == self@.next(event),
            next@.wf(),
    {
        proof {
            use_type_invariant(&self);
            use_type_invariant(&self.sync);
        }
        assert(self.steps.deep_view().len() == self.steps.len());
        let Installer { version_id, selection, stage, details_url, steps, cursor, sync } = self;
        match (stage, event) {
            (Stage::Catalog, Event::Catalog(manifest)) => {
                match get_version_url(&manifest, version_id.as_str()) {
                    Ok(url) => Installer {
                        version_id,
                        selection,
                        stage: Stage::Details,
                        details_url: url,
                        steps,
                        cursor,
                        sync,
                    },
                    Err(_) => Installer {
                        version_id,
                        selection,
                        stage: Stage::Failed(InstallError::NotFound),
                        details_url,
                        steps,
                        cursor,
                        sync,
                    },
                }
            },
            (Stage::Details, Event::Details(details)) => {
                let steps = install_plan(&details, version_id.as_str(), selection);
                let stage = if steps.len() == 0 {
                    Stage::Finished
                } else {
                    Stage::Working
                };
                Installer { version_id, selection, stage, details_url, steps, cursor: 0, sync }
            },
            (Stage::Working, Event::Done) => {
                if steps[cursor].reads_index() {
                    Installer { version_id, selection, stage, details_url, steps, cursor, sync }
                } else {
                    let stage = if cursor + 1 >= steps.len() {
                        Stage::Finished
                    } else {
                        Stage::Working
                    };
                    Installer {
                        version_id,
                        selection,
                        stage,
                        details_url,
                        steps,
                        cursor: cursor + 1,
                        sync,
                    }
                }
            },
            (Stage::Working, Event::Text(text)) => {
                if steps[cursor].reads_index() {
                    match read_asset_index(text.as_str()) {
                        Ok(objects) => Installer {
                            version_id,
                            selection,
                            stage: Stage::Syncing,
                            details_url,
                            steps,
                            cursor,
                            sync: AssetSync::new(objects),
                        },
                        Err(_) => Installer {
                            version_id,
                            selection,
                            stage: Stage::Failed(InstallError::Parse),
                            details_url,
                            steps,
                            cursor,
                            sync,
                        },
                    }
                } else {
                    Installer { version_id, selection, stage, details_url, steps, cursor, sync }
                }
            },
            (Stage::Syncing, event) => {
                let sync = match event {
                    Event::Present => sync.handle(SyncEvent::Present),
                    Event::Missing => sync.handle(SyncEvent::Missing),
                    Event::Done => sync.handle(SyncEvent::Done),
                    Event::Failed(error) => sync.handle(SyncEvent::Failed(error)),
                    _ => sync,
                };
                Installer { version_id, selection, stage, details_url, steps, cursor, sync }
            },
            (Stage::Catalog, Event::Failed(error))
            | (Stage::Details, Event::Failed(error))
            | (Stage::Working, Event::Failed(error)) => Installer {
                version_id,
                selection,
                stage: Stage::Failed(error),
                details_url,
                steps,
                cursor,
                sync,
            },
            (stage, _) => Installer { version_id, selection, stage, details_url, steps, cursor, sync },
        }
    }
}

/// The installation of the version `version_id`: its client, its
/// libraries and, where `download_assets` says so, its assets.
pub fn setup_minecraft_version(version_id: &str, download_assets: bool) -> (installer: Installer)
    ensures
        installer@ == InstallState::start(
            version_id@,
            Selection { client: true, libraries: true, assets: download_assets },
        ),
        installer@.wf(),
{
    Installer::new(version_id, Selection::install(download_assets))
}

/// The installation of the client of the version `version_id` alone: its
/// descriptor is stored and its client archive retrieved.
pub fn download_minecraft_client(version_id: &str) -> (installer: Installer)
    ensures
        installer@ == InstallState::start(
            version_id@,
            Selection { client: true, libraries: false, assets: false },
        ),
        installer@.wf(),
{
    Installer::new(version_id, Selection { client: true, libraries: false, assets: false })
}

/// The installation of the libraries of the version `version_id` alone.
pub fn download_libraries(version_id: &str) -> (installer: Installer)
    ensures
        installer@ == InstallState::start(
            version_id@,
            Selection { client: false, libraries: true, assets: false },
        ),
        installer@.wf(),
{
    Installer::new(version_id, Selection { client: false, libraries: true, assets: false })
}

/// The installation of the assets of the version `version_id` alone: the
/// asset index is retrieved, and the objects that it lists are
/// synchronized.
pub fn download_assets(version_id: &str) -> (installer: Installer)
    ensures
        installer@ == InstallState::start(
            version_id@,
            Selection { client: false, libraries: false, assets: true },
        ),
        installer@.wf(),
{
    Installer::new(version_id, Selection { client: false, libraries: false, assets: true })
}

/// The resolution of the version `version_id` alone: its descriptor is
/// asked for, and nothing is installed.
pub fn fetch_version_details(version_id: &str) -> (installer: Installer)
    ensures
        installer@ == InstallState::start(
            version_id@,
            Selection { client: false, libraries: false, assets: false },
        ),
        installer@.wf(),
{
    Installer::new(version_id, Selection { client: false, libraries: false, assets: false })
}

} // verus!
