//! The decisions of the derivation cache: what to do next for a request, given
//! what the blob store, the provider and the codec answered so far.

use vstd::prelude::*;
use crate::errors::{fatal, ErrorKind};
use crate::keys::{
    archive_key, archive_key_of, content_url, content_url_of, image_key, image_key_of,
};
use crate::text::{opt_bytes, opt_text};
use crate::variant::{siblings_of, FilterVariant};

verus! {

/// What a request is waiting for.
#[derive(Clone, Copy, Debug, PartialEq, Eq, Structural)]
pub enum FetchState {
    /// For the lookup of the derived image in the blob store.
    AwaitImage,
    /// For the lookup of the raw archive in the blob store.
    AwaitArchive,
    /// For the transfer of the raw archive from the provider.
    AwaitDownload,
    /// For the encoded composite of the requested variant.
    AwaitComposite,
    /// For nothing: the request has been answered or has failed.
    Done,
}

/// What happened since the last decision.
#[derive(Debug)]
pub enum FetchEvent {
    /// The blob store answered the lookup of the derived image.
    Image(Option<Vec<u8>>),
    /// The blob store answered the lookup of the raw archive.
    Archive(Option<Vec<u8>>),
    /// The provider delivered the raw archive.
    Downloaded(Vec<u8>),
    /// The requested composite was computed and encoded.
    Composite(Vec<u8>),
    /// The step that was asked for failed.
    Failed(ErrorKind),
}

/// One variant to compute in the background, and the key to store it under.
#[derive(Debug)]
pub struct PrecacheJob {
    pub variant: FilterVariant,
    pub key: String,
}

/// What to do next.
#[derive(Debug)]
pub enum FetchAction {
    /// Look the derived image up in the blob store.
    LookupImage { key: String },
    /// Look the raw archive up in the blob store.
    LookupArchive { key: String },
    /// Fetch the raw archive from the provider.
    Download { url: String },
    /// Decode the archive, compute the requested variant and encode it. If
    /// `store_as` is a key, the archive is new to the blob store and is
    /// uploaded under that key.
    Derive { archive: Vec<u8>, store_as: Option<String> },
    /// Answer the request with these bytes.
    Respond { bytes: Vec<u8> },
    /// Store the bytes under the key, answer the request with them, and hand
    /// the other variants to the background.
    StoreAndRespond { key: String, bytes: Vec<u8>, precache: Vec<PrecacheJob> },
    /// Give the request up.
    Fail { kind: ErrorKind },
}

/// An event, with byte vectors as sequences.
pub ghost enum EventView {
    Image(Option<Seq<u8>>),
    Archive(Option<Seq<u8>>),
    Downloaded(Seq<u8>),
    Composite(Seq<u8>),
    Failed(ErrorKind),
}

/// An action, with strings and byte vectors as sequences.
pub ghost enum ActionView {
    LookupImage { key: Seq<char> },
    LookupArchive { key: Seq<char> },
    Download { url: Seq<char> },
    Derive { archive: Seq<u8>, store_as: Option<Seq<char>> },
    Respond { bytes: Seq<u8> },
    StoreAndRespond { key: Seq<char>, bytes: Seq<u8>, precache: Seq<(FilterVariant, Seq<char>)> },
    Fail { kind: ErrorKind },
}

/// The jobs as pairs of a variant and a key.
pub open spec fn jobs_of(jobs: Seq<PrecacheJob>) -> Seq<(FilterVariant, Seq<char>)> {
    Seq::new(jobs.len(), |i: int| (jobs[i].variant, jobs[i].key@))
}

impl View for FetchEvent {
    type V = EventView;

    open spec fn view(&self) -> EventView {
        match *self {
            FetchEvent::Image(b) => EventView::Image(opt_bytes(b)),
            FetchEvent::Archive(b) => EventView::Archive(opt_bytes(b)),
            FetchEvent::Downloaded(b) => EventView::Downloaded(b@),
            FetchEvent::Composite(b) => EventView::Composite(b@),
            FetchEvent::Failed(k) => EventView::Failed(k),
        }
    }
}

impl View for FetchAction {
    type V = ActionView;

    open spec fn view(&self) -> ActionView {
        match *self {
            FetchAction::LookupImage { key } => ActionView::LookupImage { key: key@ },
            FetchAction::LookupArchive { key } => ActionView::LookupArchive { key: key@ },
            FetchAction::Download { url } => ActionView::Download { url: url@ },
            FetchAction::Derive { archive, store_as } => ActionView::Derive {
                archive: archive@,
                store_as: opt_text(store_as),
            },
            FetchAction::Respond { bytes } => ActionView::Respond { bytes: bytes@ },
            FetchAction::StoreAndRespond { key, bytes, precache } => ActionView::StoreAndRespond {
                key: key@,
                bytes: bytes@,
                precache: jobs_of(precache@),
            },
            FetchAction::Fail { kind } => ActionView::Fail { kind },
        }
    }
}

/// The background jobs of a request that served `served`: one for each other
/// variant, with the key of that variant's image.
pub open spec fn precache_plan(id: Seq<char>, served: FilterVariant) -> Seq<
    (FilterVariant, Seq<char>),
> {
    Seq::new(
        siblings_of(served).len(),
        |i: int| (siblings_of(served)[i], image_key(id, siblings_of(served)[i])),
    )
}

/// The first action of a request: the lookup of the derived image.
pub open spec fn first_action(id: Seq<char>, variant: FilterVariant) -> ActionView {
    ActionView::LookupImage { key: image_key(id, variant) }
}

/// The state after an event, and the action to take.
///
/// A cached image is served as it is. On a miss the archive is looked up in
/// the blob store and fetched from the provider only if it is not there; a
/// fetched archive is uploaded under its key. The encoded composite is stored
/// under the image key and served, and the other variants are handed to the
/// background. A blob store that cannot be reached counts as a miss. Any other
/// failure, and any event that the request is not waiting for, ends the
/// request.
pub open spec fn next(id: Seq<char>, variant: FilterVariant, state: FetchState, event: EventView) -> (
    FetchState,
    ActionView,
) {
    match (state, event) {
        (FetchState::AwaitImage, EventView::Image(Some(bytes))) => (
            FetchState::Done,
            ActionView::Respond { bytes },
        ),
        (FetchState::AwaitImage, EventView::Image(None)) => (
            FetchState::AwaitArchive,
            ActionView::LookupArchive { key: archive_key(id) },
        ),
        (FetchState::AwaitImage, EventView::Failed(ErrorKind::CacheIoFailure)) => (
            FetchState::AwaitArchive,
            ActionView::LookupArchive { key: archive_key(id) },
        ),
        (FetchState::AwaitArchive, EventView::Archive(Some(archive))) => (
            FetchState::AwaitComposite,
            ActionView::Derive { archive, store_as: None },
        ),
        (FetchState::AwaitArchive, EventView::Archive(None)) => (
            FetchState::AwaitDownload,
            ActionView::Download { url: content_url(id) },
        ),
        (FetchState::AwaitArchive, EventView::Failed(ErrorKind::CacheIoFailure)) => (
            FetchState::AwaitDownload,
            ActionView::Download { url: content_url(id) },
        ),
        (FetchState::AwaitDownload, EventView::Downloaded(archive)) => (
            FetchState::AwaitComposite,
            ActionView::Derive { archive, store_as: Some(archive_key(id)) },
        ),
        (FetchState::AwaitComposite, EventView::Composite(bytes)) => (
            FetchState::Done,
            ActionView::StoreAndRespond {
                key: image_key(id, variant),
                bytes,
                precache: precache_plan(id, variant),
            },
        ),
        (FetchState::Done, _) => (FetchState::Done, ActionView::Fail { kind: ErrorKind::OutOfTurn }),
        (_, EventView::Failed(kind)) => (FetchState::Done, ActionView::Fail { kind }),
        _ => (FetchState::Done, ActionView::Fail { kind: ErrorKind::OutOfTurn }),
    }
}

/// Starts a request: the state to begin in and the first action.
pub fn start(id: &str, variant: FilterVariant) -> (r: (FetchState, FetchAction))
    ensures
        r.0 == FetchState::AwaitImage,
        r.1@ == first_action(id@, variant),
{
    (FetchState::AwaitImage, FetchAction::LookupImage { key: image_key_of(id, variant) })
}

/// The background jobs of a request that served `served`.
pub fn precache_jobs(id: &str, served: FilterVariant) -> (r: Vec<PrecacheJob>)
    ensures
        jobs_of(r@) == precache_plan(id@, served),
{
    let others = served.siblings();
    let mut r: Vec<PrecacheJob> = Vec::with_capacity(3);
    let mut i: usize = 0;
    while i < others.len()
        invariant
            others@ == siblings_of(served),
            0 <= i <= others@.len(),
            r@.len() == i,
            forall|j: int|
                0 <= j < i ==> (#[trigger] r@[j]).variant == others@[j] && r@[j].key@ == image_key(
                    id@,
                    others@[j],
                ),
        decreases others@.len() - i,
    {
        let v = others[i];
        r.push(PrecacheJob { variant: v, key: image_key_of(id, v) });
        i += 1;
    }
    r
}

/// Decides what to do after an event.
pub fn step(id: &str, variant: FilterVariant, state: FetchState, event: FetchEvent) -> (r: (
    FetchState,
    FetchAction,
))
    ensures
        r.0 == next(id@, variant, state, event@).0,
        r.1@ == next(id@, variant, state, event@).1,
{
    match state {
        FetchState::AwaitImage => match event {
            FetchEvent::Image(Some(bytes)) => (FetchState::Done, FetchAction::Respond { bytes }),
            FetchEvent::Image(None) | FetchEvent::Failed(ErrorKind::CacheIoFailure) => (
                FetchState::AwaitArchive,
                FetchAction::LookupArchive { key: archive_key_of(id) },
            ),
            FetchEvent::Failed(kind) => (FetchState::Done, FetchAction::Fail { kind }),
            _ => (FetchState::Done, FetchAction::Fail { kind: ErrorKind::OutOfTurn }),
        },
        FetchState::AwaitArchive => match event {
            FetchEvent::Archive(Some(archive)) => (
                FetchState::AwaitComposite,
                FetchAction::Derive { archive, store_as: None },
            ),
            FetchEvent::Archive(None) | FetchEvent::Failed(ErrorKind::CacheIoFailure) => (
                FetchState::AwaitDownload,
                FetchAction::Download { url: content_url_of(id) },
            ),
            FetchEvent::Failed(kind) => (FetchState::Done, FetchAction::Fail { kind }),
            _ => (FetchState::Done, FetchAction::Fail { kind: ErrorKind::OutOfTurn }),
        },
        FetchState::AwaitDownload => match event {
            FetchEvent::Downloaded(archive) => (
                FetchState::AwaitComposite,
                FetchAction::Derive { archive, store_as: Some(archive_key_of(id)) },
            ),
            FetchEvent::Failed(kind) => (FetchState::Done, FetchAction::Fail { kind }),
            _ => (FetchState::Done, FetchAction::Fail { kind: ErrorKind::OutOfTurn }),
        },
        FetchState::AwaitComposite => match event {
            FetchEvent::Composite(bytes) => (
                FetchState::Done,
                FetchAction::StoreAndRespond {
                    key: image_key_of(id, variant),
                    bytes,
                    precache: precache_jobs(id, variant),
                },
            ),
            FetchEvent::Failed(kind) => (FetchState::Done, FetchAction::Fail { kind }),
            _ => (FetchState::Done, FetchAction::Fail { kind: ErrorKind::OutOfTurn }),
        },
        FetchState::Done => (FetchState::Done, FetchAction::Fail { kind: ErrorKind::OutOfTurn }),
    }
}

/// A fatal failure ends a request that is still waiting, with the kind of the
/// failure.
pub proof fn lemma_fatal_failure_ends(
    id: Seq<char>,
    variant: FilterVariant,
    state: FetchState,
    kind: ErrorKind,
)
    requires
        fatal(kind),
        state != FetchState::Done,
    ensures
        next(id, variant, state, EventView::Failed(kind)) == (
            FetchState::Done,
            ActionView::Fail { kind },
        ),
{
}

/// A blob store that cannot be reached during a lookup is treated as one
/// that does not hold what was looked up.
pub proof fn lemma_unreachable_store_is_a_miss(id: Seq<char>, variant: FilterVariant)
    ensures
        next(id, variant, FetchState::AwaitImage, EventView::Failed(ErrorKind::CacheIoFailure))
            == next(id, variant, FetchState::AwaitImage, EventView::Image(None)),
        next(id, variant, FetchState::AwaitArchive, EventView::Failed(ErrorKind::CacheIoFailure))
            == next(id, variant, FetchState::AwaitArchive, EventView::Archive(None)),
{
}

} // verus!
