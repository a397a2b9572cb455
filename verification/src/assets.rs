use crate::error::InstallError;
use crate::json::{document_of, parse, Json};
use crate::layout::{
    asset_object_path, asset_object_url, has_shard, in_assets, object_path, object_url,
};
use crate::plan::{FetchTask, FetchTaskView};
use vstd::prelude::*;

verus! {

/// One entry of an asset index: a logical name, the content hash under
/// which the object is stored, and its size in bytes where the index gives
/// one.
#[derive(Debug)]
pub struct AssetObject {
    pub name: String,
    pub hash: String,
    pub size: Option<u64>,
}

/// The characters and numbers of an [`AssetObject`].
pub struct AssetObjectView {
    pub name: Seq<char>,
    pub hash: Seq<char>,
    pub size: Option<u64>,
}

impl View for AssetObject {
    type V = AssetObjectView;

    open spec fn view(&self) -> AssetObjectView {
        AssetObjectView { name: self.name@, hash: self.hash@, size: self.size }
    }
}

impl DeepView for AssetObject {
    type V = AssetObjectView;

    open spec fn deep_view(&self) -> AssetObjectView {
        self@
    }
}

/// The size that the description `info` of an object gives: its member
/// `size`, where that is an unsigned integer.
pub open spec fn size_of(info: Json) -> Option<u64> {
    match info.member("size"@) {
        Some(size) => size.unsigned(),
        None => None,
    }
}

/// The object that the index lists under `name` with the description `info`:
/// nothing where `info` has no member `hash` that is a string.
pub open spec fn object_of(name: Seq<char>, info: Json) -> Option<AssetObjectView> {
    match info.member("hash"@) {
        Some(hash) => match hash.text() {
            Some(hash) => Some(AssetObjectView { name, hash, size: size_of(info) }),
            None => None,
        },
        None => None,
    }
}

/// The objects that the asset index `index` lists: those of the members of
/// its member `objects`, in their order. An index without such a member, or
/// with one that is no object, lists nothing.
pub open spec fn index_objects(index: Json) -> Seq<AssetObjectView> {
    match index.member("objects"@) {
        Some(listing) => match listing.members() {
            Some(members) => members.filter_map(
                |member: (String, Json)| object_of(member.0@, member.1),
            ),
            None => Seq::empty(),
        },
        None => Seq::empty(),
    }
}

/// The object listed under `name` with the description `info`, where the
/// description names a hash.
pub fn asset_object(name: &str, info: &Json) -> (object: Option<AssetObject>)
    ensures
        object.deep_view() == object_of(name@, *info),
{
    let hash = match info.get("hash") {
        Some(hash) => match hash.as_str() {
            Some(hash) => hash,
            None => { return None; },
        },
        None => { return None; },
    };
    let size = match info.get("size") {
        Some(size) => size.as_u64(),
        None => None,
    };
    Some(AssetObject { name: name.to_owned(), hash: hash.to_owned(), size })
}

/// The objects that the asset index `index` lists, in the order of the
/// index.
pub fn asset_objects(index: &Json) -> (objects: Vec<AssetObject>)
    ensures
        objects.deep_view() == index_objects(*index),
{
    let mut objects: Vec<AssetObject> = Vec::new();
    let members = match index.get("objects") {
        Some(listing) => match listing.as_object() {
            Some(members) => members,
            None => {
                return objects;
            },
        },
        None => {
            return objects;
        },
    };
    let ghost listed = |member: (String, Json)| object_of(member.0@, member.1);
    let mut i: usize = 0;
    while i < members.len()
        invariant
            i <= members.len(),
            listed == |member: (String, Json)| object_of(member.0@, member.1),
            objects.deep_view() == members@.take(i as int).filter_map(listed),
        decreases members.len() - i,
    {
        proof {
            members@.lemma_filter_map_take_succ(listed, i as int);
        }
        match asset_object(members[i].0.as_str(), &members[i].1) {
            Some(object) => {
                objects.push(object);
            },
            None => {},
        }
        i = i + 1;
    }
    assert(members@.take(members@.len() as int) =~= members@);
    objects
}

/// The objects that the asset index with the text `text` lists. Text that
/// is not well-formed JSON is reported as [`InstallError::Parse`]; a
/// well-formed document is read as [`asset_objects`] reads it.
pub fn read_asset_index(text: &str) -> (objects: Result<Vec<AssetObject>, InstallError>)
    ensures
        match objects {
            Ok(objects) => document_of(text@) is Some && objects.deep_view() == index_objects(
                document_of(text@)->0,
            ),
            Err(error) => error == InstallError::Parse && document_of(text@) is None,
        },
{
    match parse(text) {
        Some(index) => Ok(asset_objects(&index)),
        None => Err(InstallError::Parse),
    }
}

/// Where the object `object` is stored, below the instance root.
pub open spec fn object_place(object: AssetObjectView) -> Seq<char> {
    in_assets(object_path(object.hash))
}

/// The retrieval of the object `object`.
pub open spec fn object_task(object: AssetObjectView) -> FetchTaskView {
    FetchTaskView { url: object_url(object.hash), path: object_place(object) }
}

/// What a synchronization waits for.
#[derive(Clone, Copy, Debug, PartialEq, Eq, Structural)]
pub enum SyncPhase {
    /// Whether the current object is already in the store.
    Probing,
    /// The retrieval of the current object.
    Fetching,
    /// Nothing: every object has been dealt with.
    Finished,
    /// Nothing: the synchronization was given up.
    Failed(InstallError),
}

/// What the caller reports back to a synchronization.
#[derive(Clone, Copy, Debug, PartialEq, Eq, Structural)]
pub enum SyncEvent {
    /// The probed file exists.
    Present,
    /// The probed file does not exist.
    Missing,
    /// The retrieval succeeded.
    Done,
    /// The retrieval failed.
    Failed(InstallError),
}

/// What a synchronization asks its caller to do next.
#[derive(Debug)]
pub enum SyncAction {
    /// Report whether a file exists at `path`, below the instance root.
    Probe { path: String },
    /// Retrieve a file.
    Fetch(FetchTask),
    /// Nothing is left to do.
    Finish,
    /// Give up with this error.
    Abort(InstallError),
}

/// The characters of a [`SyncAction`].
pub enum SyncActionView {
    Probe { path: Seq<char> },
    Fetch(FetchTaskView),
    Finish,
    Abort(InstallError),
}

impl View for SyncAction {
    type V = SyncActionView;

    open spec fn view(&self) -> SyncActionView {
        match self {
            SyncAction::Probe { path } => SyncActionView::Probe { path: path@ },
            SyncAction::Fetch(task) => SyncActionView::Fetch(task@),
            SyncAction::Finish => SyncActionView::Finish,
            SyncAction::Abort(error) => SyncActionView::Abort(*error),
        }
    }
}

/// The state of a synchronization: the objects of the index, how many of
/// them have been dealt with, and what is awaited for the next.
pub struct SyncState {
    pub objects: Seq<AssetObjectView>,
    pub cursor: int,
    pub phase: SyncPhase,
}

impl SyncState {
    /// The state on reaching the object at `at`: finished behind the last
    /// object, given up at an object whose hash has no shard prefix, and
    /// probing for the object otherwise.
    pub open spec fn settle(objects: Seq<AssetObjectView>, at: int) -> SyncState {
        if at >= objects.len() {
            SyncState { objects, cursor: objects.len() as int, phase: SyncPhase::Finished }
        } else if !has_shard(objects[at].hash) {
            SyncState { objects, cursor: at, phase: SyncPhase::Failed(InstallError::Parse) }
        } else {
            SyncState { objects, cursor: at, phase: SyncPhase::Probing }
        }
    }

    /// The state in which the synchronization of `objects` starts.
    pub open spec fn start(objects: Seq<AssetObjectView>) -> SyncState {
        Self::settle(objects, 0)
    }

    /// While an answer is awaited, the current object exists and has a
    /// place in the store.
    pub open spec fn wf(self) -> bool {
        &&& 0 <= self.cursor <= self.objects.len()
        &&& (self.phase == SyncPhase::Probing || self.phase == SyncPhase::Fetching) ==> {
            &&& self.cursor < self.objects.len()
            &&& has_shard(self.objects[self.cursor].hash)
        }
    }

    /// What the caller is asked to do in this state.
    pub open spec fn pending(self) -> SyncActionView {
        match self.phase {
            SyncPhase::Probing => SyncActionView::Probe {
                path: object_place(self.objects[self.cursor]),
            },
            SyncPhase::Fetching => SyncActionView::Fetch(object_task(self.objects[self.cursor])),
            SyncPhase::Finished => SyncActionView::Finish,
            SyncPhase::Failed(error) => SyncActionView::Abort(error),
        }
    }

    /// The state after the caller reports `event`. An object that is
    /// present is passed over; one that is missing is retrieved; after a
    /// retrieval the next object is taken up; a failed retrieval ends the
    /// synchronization. An event that answers nothing that was asked
    /// changes nothing.
    pub open spec fn next(self, event: SyncEvent) -> SyncState {
        match (self.phase, event) {
            (SyncPhase::Probing, SyncEvent::Present) => Self::settle(self.objects, self.cursor + 1),
            (SyncPhase::Probing, SyncEvent::Missing) => SyncState {
                phase: SyncPhase::Fetching,
                ..self
            },
            (SyncPhase::Fetching, SyncEvent::Done) => Self::settle(self.objects, self.cursor + 1),
            (SyncPhase::Fetching, SyncEvent::Failed(error)) => SyncState {
                phase: SyncPhase::Failed(error),
                ..self
            },
            _ => self,
        }
    }
}

impl SyncState {
    /// One for a state that awaits the answer to a probe, zero otherwise.
    pub open spec fn rank(self) -> nat {
        if self.phase == SyncPhase::Probing {
            1
        } else {
            0
        }
    }

    /// The retrievals that the synchronization asks for from this state on,
    /// in their order, when the store holds the files `present`, every
    /// probe is answered by what the store holds, and every retrieval
    /// succeeds and puts its file into the store.
    pub open spec fn fetches(self, present: Set<Seq<char>>) -> Seq<FetchTaskView>
        decreases self.objects.len() - self.cursor, self.rank(),
    {
        if !self.wf() {
            Seq::empty()
        } else {
            match self.pending() {
                SyncActionView::Probe { path } => if present.contains(path) {
                    self.next(SyncEvent::Present).fetches(present)
                } else {
                    self.next(SyncEvent::Missing).fetches(present)
                },
                SyncActionView::Fetch(task) => seq![task] + self.next(SyncEvent::Done).fetches(
                    present.insert(task.path),
                ),
                _ => Seq::empty(),
            }
        }
    }
}

/// A well-formed synchronization stays so, whatever is reported to it.
pub proof fn lemma_sync_stays_well_formed(state: SyncState, event: SyncEvent)
    requires
        state.wf(),
    ensures
        state.next(event).wf(),
        SyncState::start(state.objects).wf(),
{
}

/// Every object of `objects` from `at` on is in `present`.
pub open spec fn all_present(objects: Seq<AssetObjectView>, at: int, present: Set<Seq<char>>) -> bool {
    forall|i: int| at <= i < objects.len() ==> present.contains(object_place(#[trigger] objects[i]))
}

/// Every hash of `objects` has a shard prefix.
pub open spec fn all_sharded(objects: Seq<AssetObjectView>) -> bool {
    forall|i: int| 0 <= i < objects.len() ==> has_shard((#[trigger] objects[i]).hash)
}

/// `task` is the retrieval of one of the objects of `objects` from `at` on.
pub open spec fn is_object_fetch(task: FetchTaskView, objects: Seq<AssetObjectView>, at: int) -> bool {
    exists|i: int| at <= i < objects.len() && task == object_task(#[trigger] objects[i])
}

/// One of the retrievals `fetched` puts a file at `place`.
pub open spec fn is_fetched(fetched: Seq<FetchTaskView>, place: Seq<char>) -> bool {
    exists|k: int| 0 <= k < fetched.len() && (#[trigger] fetched[k]).path == place
}

/// What holds of the retrievals `fetched` that a synchronization of the
/// objects of `objects` from `at` on asks for, over a store that holds
/// `present`: each is the retrieval of one of these objects into a place
/// that the store does not hold yet, every such object whose place the
/// store does not hold is retrieved, and no place is retrieved twice.
pub open spec fn fetches_the_missing(
    fetched: Seq<FetchTaskView>,
    objects: Seq<AssetObjectView>,
    at: int,
    present: Set<Seq<char>>,
) -> bool {
    &&& forall|k: int|
        0 <= k < fetched.len() ==> !present.contains((#[trigger] fetched[k]).path)
            && is_object_fetch(fetched[k], objects, at)
    &&& forall|i: int|
        at <= i < objects.len() && !present.contains(object_place(#[trigger] objects[i]))
            ==> is_fetched(fetched, object_place(objects[i]))
    &&& forall|j: int, k: int|
        0 <= j < k < fetched.len() ==> (#[trigger] fetched[j]).path != (#[trigger] fetched[k]).path
}

/// From the object at `at` on, a synchronization over a store that holds
/// every remaining object asks for no retrieval.
pub proof fn lemma_present_objects_are_passed_over(
    objects: Seq<AssetObjectView>,
    at: int,
    present: Set<Seq<char>>,
)
    requires
        0 <= at <= objects.len(),
        all_present(objects, at, present),
    ensures
        SyncState::settle(objects, at).fetches(present) == Seq::<FetchTaskView>::empty(),
    decreases objects.len() - at,
{
    if at < objects.len() && has_shard(objects[at].hash) {
        lemma_present_objects_are_passed_over(objects, at + 1, present);
    }
}

/// Synchronizing again is idle: over a store that already holds every
/// object of the index, a synchronization asks for no retrieval at all.
pub proof fn lemma_sync_is_idempotent(objects: Seq<AssetObjectView>, present: Set<Seq<char>>)
    requires
        all_present(objects, 0, present),
    ensures
        SyncState::start(objects).fetches(present) == Seq::<FetchTaskView>::empty(),
{
    lemma_present_objects_are_passed_over(objects, 0, present);
}

/// Putting one more retrieval in front keeps [`fetches_the_missing`]: the
/// retrieval of the object at `at`, whose place the store does not hold,
/// before retrievals that are right for the objects behind it over the
/// store with that place added.
proof fn lemma_fetch_in_front(
    rest: Seq<FetchTaskView>,
    objects: Seq<AssetObjectView>,
    at: int,
    present: Set<Seq<char>>,
)
    requires
        0 <= at < objects.len(),
        !present.contains(object_place(objects[at])),
        fetches_the_missing(rest, objects, at + 1, present.insert(object_place(objects[at]))),
    ensures
        fetches_the_missing(seq![object_task(objects[at])] + rest, objects, at, present),
{
    let first = object_task(objects[at]);
    let place = object_place(objects[at]);
    let held = present.insert(place);
    let fetched = seq![first] + rest;
    assert forall|k: int| 0 <= k < fetched.len() implies !present.contains(
        (#[trigger] fetched[k]).path,
    ) && is_object_fetch(fetched[k], objects, at) by {
        if k > 0 {
            let i = choose|i: int|
                at + 1 <= i < objects.len() && rest[k - 1] == object_task(#[trigger] objects[i]);
            assert(fetched[k] == object_task(objects[i]));
        }
    }
    assert forall|i: int|
        at <= i < objects.len() && !present.contains(
            object_place(#[trigger] objects[i]),
        ) implies is_fetched(fetched, object_place(objects[i])) by {
        if object_place(objects[i]) == place {
            assert(fetched[0].path == object_place(objects[i]));
        } else {
            let k = choose|k: int|
                0 <= k < rest.len() && (#[trigger] rest[k]).path == object_place(objects[i]);
            assert(fetched[k + 1].path == object_place(objects[i]));
        }
    }
    assert forall|j: int, k: int| 0 <= j < k < fetched.len() implies (#[trigger] fetched[j]).path
        != (#[trigger] fetched[k]).path by {
        assert(!held.contains(rest[k - 1].path));
    }
}

/// From the object at `at` on, a synchronization retrieves exactly the
/// objects that the store does not hold.
pub proof fn lemma_missing_objects_are_fetched(
    objects: Seq<AssetObjectView>,
    at: int,
    present: Set<Seq<char>>,
)
    requires
        0 <= at <= objects.len(),
        all_sharded(objects),
    ensures
        fetches_the_missing(SyncState::settle(objects, at).fetches(present), objects, at, present),
    decreases objects.len() - at,
{
    let state = SyncState::settle(objects, at);
    if at < objects.len() {
        let place = object_place(objects[at]);
        if present.contains(place) {
            lemma_missing_objects_are_fetched(objects, at + 1, present);
            let fetched = SyncState::settle(objects, at + 1).fetches(present);
            assert forall|k: int| 0 <= k < fetched.len() implies is_object_fetch(
                #[trigger] fetched[k],
                objects,
                at,
            ) by {
                let i = choose|i: int|
                    at + 1 <= i < objects.len() && fetched[k] == object_task(
                        #[trigger] objects[i],
                    );
                assert(at <= i);
            }
        } else {
            let fetching = state.next(SyncEvent::Missing);
            let held = present.insert(place);
            let rest = SyncState::settle(objects, at + 1).fetches(held);
            assert(fetching.fetches(present) == seq![object_task(objects[at])] + rest);
            lemma_missing_objects_are_fetched(objects, at + 1, held);
            lemma_fetch_in_front(rest, objects, at, present);
        }
    }
}

/// A synchronization resumes where an earlier one stopped: over a store
/// that holds some of the objects of the index, it retrieves each object
/// that the store does not hold, once, and none that the store holds.
pub proof fn lemma_sync_fetches_the_missing(objects: Seq<AssetObjectView>, present: Set<Seq<char>>)
    requires
        all_sharded(objects),
    ensures
        fetches_the_missing(SyncState::start(objects).fetches(present), objects, 0, present),
{
    lemma_missing_objects_are_fetched(objects, 0, present);
}

/// The synchronization of the objects of an asset index into the local
/// store. It asks for one action at a time; the caller carries the action
/// out and reports what came of it.
pub struct AssetSync {
    objects: Vec<AssetObject>,
    cursor: usize,
    phase: SyncPhase,
}

impl View for AssetSync {
    type V = SyncState;

    closed spec fn view(&self) -> SyncState {
        SyncState {
            objects: self.objects.deep_view(),
            cursor: self.cursor as int,
            phase: self.phase,
        }
    }
}

impl AssetSync {
    /// A synchronization is well-formed at all times.
    #[verifier::type_invariant]
    pub open spec fn well_formed(self) -> bool {
        self@.wf()
    }

    /// The phase on reaching the object at `at`.
    fn phase_at(objects: &Vec<AssetObject>, at: usize) -> (phase: SyncPhase)
        requires
            at <= objects.len(),
        ensures
            phase == SyncState::settle(objects.deep_view(), at as int).phase,
    {
        if at >= objects.len() {
            SyncPhase::Finished
        } else {
            match asset_object_path(objects[at].hash.as_str()) {
                Some(_) => SyncPhase::Probing,
                None => SyncPhase::Failed(InstallError::Parse),
            }
        }
    }

    /// Starts the synchronization of `objects`.
    pub fn new(objects: Vec<AssetObject>) -> (sync: AssetSync)
        ensures
            sync@ == SyncState::start(objects.deep_view()),
            sync@.wf(),
    {
        let phase = Self::phase_at(&objects, 0);
        AssetSync { objects, cursor: 0, phase }
    }

    /// What the caller is asked to do next.
    pub fn pending(&self) -> (action: SyncAction)
        ensures
            self@.wf(),
            action@ == self@.pending(),
    {
        proof {
            use_type_invariant(self);
        }
        match self.phase {
            SyncPhase::Probing => {
                let hash = self.objects[self.cursor].hash.as_str();
                match asset_object_path(hash) {
                    Some(relative) => {
                        let mut path = "minecraft/assets/".to_owned();
                        path.append(relative.as_str());
                        SyncAction::Probe { path }
                    },
                    None => SyncAction::Abort(InstallError::Parse),
                }
            },
            SyncPhase::Fetching => {
                let hash = self.objects[self.cursor].hash.as_str();
                match (asset_object_url(hash), asset_object_path(hash)) {
                    (Some(url), Some(relative)) => {
                        let mut path = "minecraft/assets/".to_owned();
                        path.append(relative.as_str());
                        SyncAction::Fetch(FetchTask { url, path })
                    },
                    _ => SyncAction::Abort(InstallError::Parse),
                }
            },
            SyncPhase::Finished => SyncAction::Finish,
            SyncPhase::Failed(error) => SyncAction::Abort(error),
        }
    }

    /// The synchronization after the caller has reported `event`, what came
    /// of the action that was asked for.
    pub fn handle(self, event: SyncEvent) -> (next: AssetSync)
        ensures
            next@ == self@.next(event),
            next@.wf(),
    {
        proof {
            use_type_invariant(&self);
        }
        assert(self.objects.deep_view().len() == self.objects.len());
        let AssetSync { objects, cursor, phase } = self;
        match (phase, event) {
            (SyncPhase::Probing, SyncEvent::Present) | (SyncPhase::Fetching, SyncEvent::Done) => {
                let phase = Self::phase_at(&objects, cursor + 1);
                let cursor = if cursor + 1 >= objects.len() {
                    objects.len()
                } else {
                    cursor + 1
                };
                AssetSync { objects, cursor, phase }
            },
            (SyncPhase::Probing, SyncEvent::Missing) => AssetSync {
                objects,
                cursor,
                phase: SyncPhase::Fetching,
            },
            (SyncPhase::Fetching, SyncEvent::Failed(error)) => AssetSync {
                objects,
                cursor,
                phase: SyncPhase::Failed(error),
            },
            _ => AssetSync { objects, cursor, phase },
        }
    }
}

} // verus!
