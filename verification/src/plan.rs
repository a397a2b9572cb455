use crate::descriptor::{AssetIndex, Library, VersionDetails};
use crate::layout::{
    asset_index_path, client_jar_path, descriptor_path, in_libraries, index_json_path,
    library_artifact_path, library_path, version_jar_path, version_json_path,
};
use vstd::prelude::*;

verus! {

/// One file to retrieve: where from, and where to, below the instance root.
#[derive(Debug)]
pub struct FetchTask {
    pub url: String,
    pub path: String,
}

/// The characters of a [`FetchTask`].
pub struct FetchTaskView {
    pub url: Seq<char>,
    pub path: Seq<char>,
}

impl View for FetchTask {
    type V = FetchTaskView;

    open spec fn view(&self) -> FetchTaskView {
        FetchTaskView { url: self.url@, path: self.path@ }
    }
}

impl DeepView for FetchTask {
    type V = FetchTaskView;

    open spec fn deep_view(&self) -> FetchTaskView {
        self@
    }
}

impl Clone for FetchTask {
    fn clone(&self) -> (copy: Self)
        ensures
            copy == *self,
    {
        FetchTask { url: self.url.clone(), path: self.path.clone() }
    }
}

/// The retrieval of the client archive of `details`, stored under the
/// version `id`.
pub open spec fn client_task(details: VersionDetails, id: Seq<char>) -> FetchTaskView {
    FetchTaskView { url: details.downloads.client.url@, path: client_jar_path(id) }
}

/// The retrieval of the asset index `index`.
pub open spec fn index_task(index: AssetIndex) -> FetchTaskView {
    FetchTaskView { url: index.url@, path: asset_index_path(index.id@) }
}

/// The retrieval of `library`: nothing where it offers no artifact, and
/// nothing where its name does not split into exactly three segments.
pub open spec fn library_task(library: Library) -> Option<FetchTaskView> {
    match (library.downloads.artifact, library_path(library.name@)) {
        (Some(artifact), Some(path)) => Some(
            FetchTaskView { url: artifact.url@, path: in_libraries(path) },
        ),
        _ => None,
    }
}

/// The retrievals of `libraries`, in their order.
pub open spec fn library_tasks(libraries: Seq<Library>) -> Seq<FetchTaskView> {
    libraries.filter_map(|library: Library| library_task(library))
}

/// The retrieval of the client archive of `details` into the directory of
/// version `version_id`.
pub fn client_download(details: &VersionDetails, version_id: &str) -> (task: FetchTask)
    ensures
        task@ == client_task(*details, version_id@),
{
    FetchTask { url: details.downloads.client.url.clone(), path: version_jar_path(version_id) }
}

/// The retrieval of the asset index `index` into the index directory.
pub fn index_download(index: &AssetIndex) -> (task: FetchTask)
    ensures
        task@ == index_task(*index),
{
    FetchTask { url: index.url.clone(), path: index_json_path(index.id.as_str()) }
}

/// The retrieval of `library` into the library store, where it has one.
pub fn library_download(library: &Library) -> (task: Option<FetchTask>)
    ensures
        task.deep_view() == library_task(*library),
{
    match &library.downloads.artifact {
        Some(artifact) => match library_artifact_path(library.name.as_str()) {
            Some(relative) => {
                let mut path = "minecraft/libraries/".to_owned();
                path.append(relative.as_str());
                Some(FetchTask { url: artifact.url.clone(), path })
            },
            None => None,
        },
        None => None,
    }
}

/// The retrievals that materialize `libraries`, in their order. A library
/// without an artifact is passed over, and so is one whose name does not
/// split into exactly three segments.
pub fn library_downloads(libraries: &Vec<Library>) -> (tasks: Vec<FetchTask>)
    ensures
        tasks.deep_view() == library_tasks(libraries@),
{
    let mut tasks: Vec<FetchTask> = Vec::new();
    let mut i: usize = 0;
    while i < libraries.len()
        invariant
            i <= libraries.len(),
            tasks.deep_view() == library_tasks(libraries@.take(i as int)),
        decreases libraries.len() - i,
    {
        proof {
            libraries@.lemma_filter_map_take_succ(|library: Library| library_task(library), i as int);
        }
        match library_download(&libraries[i]) {
            Some(task) => {
                tasks.push(task);
            },
            None => {},
        }
        i = i + 1;
    }
    assert(libraries@.take(libraries@.len() as int) =~= libraries@);
    tasks
}

/// What an installation comprises.
#[derive(Clone, Copy, Debug, PartialEq, Eq, Structural)]
pub struct Selection {
    /// The stored descriptor and the client archive.
    pub client: bool,
    /// The libraries.
    pub libraries: bool,
    /// The asset index and the objects that it lists.
    pub assets: bool,
}

impl Selection {
    /// The selection of a whole installation: the client and the libraries,
    /// and the assets where `include_assets` says so.
    pub fn install(include_assets: bool) -> (selection: Selection)
        ensures
            selection == (Selection { client: true, libraries: true, assets: include_assets }),
    {
        Selection { client: true, libraries: true, assets: include_assets }
    }
}

/// One step of an installation that is known as soon as the descriptor of
/// the version is.
#[derive(Debug)]
pub enum Step {
    /// Store the descriptor, as JSON, at `path` below the instance root.
    WriteDescriptor { path: String },
    /// Retrieve a file.
    Fetch(FetchTask),
    /// Hand in the text of the asset index stored at `path`.
    ReadIndex { path: String },
}

/// The characters of a [`Step`].
pub enum StepView {
    WriteDescriptor { path: Seq<char> },
    Fetch(FetchTaskView),
    ReadIndex { path: Seq<char> },
}

impl View for Step {
    type V = StepView;

    open spec fn view(&self) -> StepView {
        match self {
            Step::WriteDescriptor { path } => StepView::WriteDescriptor { path: path@ },
            Step::Fetch(task) => StepView::Fetch(task@),
            Step::ReadIndex { path } => StepView::ReadIndex { path: path@ },
        }
    }
}

impl Step {
    /// Whether this step hands in the text of the asset index.
    pub fn reads_index(&self) -> (reads: bool)
        ensures
            reads == (self@ is ReadIndex),
    {
        match self {
            Step::ReadIndex { .. } => true,
            _ => false,
        }
    }
}

impl DeepView for Step {
    type V = StepView;

    open spec fn deep_view(&self) -> StepView {
        self@
    }
}

/// The steps that put the client in place: the descriptor is stored, then
/// the client archive is retrieved.
pub open spec fn client_steps(details: VersionDetails, id: Seq<char>) -> Seq<StepView> {
    seq![
        StepView::WriteDescriptor { path: descriptor_path(id) },
        StepView::Fetch(client_task(details, id)),
    ]
}

/// The steps that materialize `libraries`: one retrieval for each library
/// that has one, in their order.
pub open spec fn library_steps(libraries: Seq<Library>) -> Seq<StepView> {
    library_tasks(libraries).map_values(|task: FetchTaskView| StepView::Fetch(task))
}

/// The steps that bring the asset index: it is retrieved, then read.
pub open spec fn index_steps(index: AssetIndex) -> Seq<StepView> {
    seq![
        StepView::Fetch(index_task(index)),
        StepView::ReadIndex { path: asset_index_path(index.id@) },
    ]
}

/// The steps of the installation of the version `id` described by
/// `details`, as far as `selection` asks for them: the client, then the
/// libraries, then the asset index.
pub open spec fn install_steps(details: VersionDetails, id: Seq<char>, selection: Selection) -> Seq<
    StepView,
> {
    (if selection.client {
        client_steps(details, id)
    } else {
        Seq::empty()
    }) + (if selection.libraries {
        library_steps(details.libraries@)
    } else {
        Seq::empty()
    }) + (if selection.assets {
        index_steps(details.asset_index)
    } else {
        Seq::empty()
    })
}

/// The steps of the installation of the version `version_id` described by
/// `details`, in the order in which they are to be taken.
pub fn install_plan(details: &VersionDetails, version_id: &str, selection: Selection) -> (steps: Vec<
    Step,
>)
    ensures
        steps.deep_view() == install_steps(*details, version_id@, selection),
{
    let mut steps: Vec<Step> = Vec::new();
    if selection.client {
        steps.push(Step::WriteDescriptor { path: version_json_path(version_id) });
        steps.push(Step::Fetch(client_download(details, version_id)));
    }
    let ghost front = steps.deep_view();
    if selection.libraries {
        let libraries = &details.libraries;
        let mut i: usize = 0;
        while i < libraries.len()
            invariant
                i <= libraries.len(),
                steps.deep_view() == front + library_steps(libraries@.take(i as int)),
            decreases libraries.len() - i,
        {
            proof {
                libraries@.lemma_filter_map_take_succ(
                    |library: Library| library_task(library),
                    i as int,
                );
            }
            let ghost before = steps.deep_view();
            match library_download(&libraries[i]) {
                Some(task) => {
                    steps.push(Step::Fetch(task));
                    assert(steps.deep_view() =~= before.push(StepView::Fetch(task@)));
                },
                None => {},
            }
            i = i + 1;
        }
        assert(libraries@.take(libraries@.len() as int) =~= libraries@);
    }
    let ghost middle = steps.deep_view();
    if selection.assets {
        steps.push(Step::Fetch(index_download(&details.asset_index)));
        steps.push(Step::ReadIndex { path: index_json_path(details.asset_index.id.as_str()) });
        assert(steps.deep_view() =~= middle + index_steps(details.asset_index));
    }
    steps
}

} // verus!
