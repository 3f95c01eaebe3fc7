//! A model of the derivation cache: requests run against a blob store that
//! keeps what it is given, a provider that delivers archives, and a codec
//! that encodes composites. The model states what the decisions of `fetch`
//! amount to when nothing fails.

use vstd::prelude::*;
use crate::fetch::{first_action, next, ActionView, EventView, FetchState};
use crate::keys::{archive_key, content_url, image_key};
use crate::variant::FilterVariant;

verus! {

/// The surroundings of a request.
pub ghost struct World {
    /// What the blob store holds under each key.
    pub store: Map<Seq<char>, Seq<u8>>,
    /// The archive that the provider delivers from each address.
    pub provider: spec_fn(Seq<char>) -> Seq<u8>,
    /// The encoded composite of each archive and variant.
    pub derive: spec_fn(Seq<u8>, FilterVariant) -> Seq<u8>,
    /// How many archives were fetched from the provider.
    pub downloads: nat,
    /// The answer to the last request, if it got one.
    pub response: Option<Seq<u8>>,
}

/// What the blob store answers to a lookup.
pub open spec fn lookup(store: Map<Seq<char>, Seq<u8>>, key: Seq<char>) -> Option<Seq<u8>> {
    if store.contains_key(key) {
        Some(store[key])
    } else {
        None
    }
}

/// The world after an action was carried out, and the event that the action
/// leads to; no event where the action ends the request.
pub open spec fn perform(w: World, variant: FilterVariant, a: ActionView) -> (
    World,
    Option<EventView>,
) {
    match a {
        ActionView::LookupImage { key } => (w, Some(EventView::Image(lookup(w.store, key)))),
        ActionView::LookupArchive { key } => (w, Some(EventView::Archive(lookup(w.store, key)))),
        ActionView::Download { url } => (
            World { downloads: w.downloads + 1, ..w },
            Some(EventView::Downloaded((w.provider)(url))),
        ),
        ActionView::Derive { archive, store_as } => (
            match store_as {
                Some(key) => World { store: w.store.insert(key, archive), ..w },
                None => w,
            },
            Some(EventView::Composite((w.derive)(archive, variant))),
        ),
        ActionView::Respond { bytes } => (World { response: Some(bytes), ..w }, None),
        ActionView::StoreAndRespond { key, bytes, precache } => (
            World { store: w.store.insert(key, bytes), response: Some(bytes), ..w },
            None,
        ),
        ActionView::Fail { kind } => (World { response: None, ..w }, None),
    }
}

/// The world after a request was carried on from `state` with `action`, for
/// at most `fuel` actions.
pub open spec fn run(
    w: World,
    id: Seq<char>,
    variant: FilterVariant,
    state: FetchState,
    action: ActionView,
    fuel: nat,
) -> World
    decreases fuel,
{
    if fuel == 0 {
        w
    } else {
        let (after, event) = perform(w, variant, action);
        match event {
            None => after,
            Some(e) => {
                let (state2, action2) = next(id, variant, state, e);
                run(after, id, variant, state2, action2, (fuel - 1) as nat)
            },
        }
    }
}

/// The world after a request for the image of `id` and `variant` was served
/// from its first action to its answer.
pub open spec fn serve(w: World, id: Seq<char>, variant: FilterVariant) -> World {
    run(
        World { response: None, ..w },
        id,
        variant,
        FetchState::AwaitImage,
        first_action(id, variant),
        5,
    )
}

/// A request on a store that holds the image answers with the stored bytes,
/// fetches nothing from the provider and leaves the store as it is.
pub proof fn lemma_hit(w: World, id: Seq<char>, variant: FilterVariant)
    requires
        w.store.contains_key(image_key(id, variant)),
    ensures
        serve(w, id, variant).response == Some(w.store[image_key(id, variant)]),
        serve(w, id, variant).downloads == w.downloads,
        serve(w, id, variant).store == w.store,
{
    reveal_with_fuel(run, 3);
}

/// A request on a store that holds neither the image nor the archive fetches
/// the archive once, stores it under the archive key, stores the composite
/// derived from it under the image key, and answers with that composite.
pub proof fn lemma_cold_miss(w: World, id: Seq<char>, variant: FilterVariant)
    requires
        !w.store.contains_key(image_key(id, variant)),
        !w.store.contains_key(archive_key(id)),
    ensures
        ({
            let archive = (w.provider)(content_url(id));
            let bytes = (w.derive)(archive, variant);
            let after = serve(w, id, variant);
            &&& after.response == Some(bytes)
            &&& after.downloads == w.downloads + 1
            &&& after.store == w.store.insert(archive_key(id), archive).insert(
                image_key(id, variant),
                bytes,
            )
        }),
{
    reveal_with_fuel(run, 6);
}

/// A request on a store that holds the archive but not the image fetches
/// nothing from the provider: the composite is derived from the stored
/// archive, stored under the image key, and returned.
pub proof fn lemma_archive_hit(w: World, id: Seq<char>, variant: FilterVariant)
    requires
        !w.store.contains_key(image_key(id, variant)),
        w.store.contains_key(archive_key(id)),
    ensures
        ({
            let bytes = (w.derive)(w.store[archive_key(id)], variant);
            let after = serve(w, id, variant);
            &&& after.response == Some(bytes)
            &&& after.downloads == w.downloads
            &&& after.store == w.store.insert(image_key(id, variant), bytes)
        }),
{
    reveal_with_fuel(run, 6);
}

/// Every request is answered, and afterwards the store holds the answer
/// under the image key.
pub proof fn lemma_served_is_stored(w: World, id: Seq<char>, variant: FilterVariant)
    ensures
        serve(w, id, variant).response is Some,
        serve(w, id, variant).store.contains_key(image_key(id, variant)),
        serve(w, id, variant).response == Some(
            serve(w, id, variant).store[image_key(id, variant)],
        ),
        serve(w, id, variant).provider == w.provider,
        serve(w, id, variant).derive == w.derive,
{
    if w.store.contains_key(image_key(id, variant)) {
        lemma_hit(w, id, variant);
        reveal_with_fuel(run, 3);
    } else if w.store.contains_key(archive_key(id)) {
        lemma_archive_hit(w, id, variant);
        reveal_with_fuel(run, 6);
    } else {
        lemma_cold_miss(w, id, variant);
        reveal_with_fuel(run, 6);
    }
}

/// The same request served twice gets the same bytes, and the second time
/// nothing is fetched from the provider. This holds whatever was stored in
/// between under other keys, and also if the image was stored again with the
/// same bytes.
pub proof fn lemma_idempotent(w: World, between: World, id: Seq<char>, variant: FilterVariant)
    requires
        between.store.contains_key(image_key(id, variant)),
        between.store[image_key(id, variant)] == serve(w, id, variant).store[image_key(
            id,
            variant,
        )],
    ensures
        serve(between, id, variant).response == serve(w, id, variant).response,
        serve(between, id, variant).downloads == between.downloads,
{
    lemma_served_is_stored(w, id, variant);
    lemma_hit(between, id, variant);
}

/// Served twice in a row, a request gets the same bytes both times, and the
/// second time nothing is fetched from the provider.
pub proof fn lemma_served_twice(w: World, id: Seq<char>, variant: FilterVariant)
    ensures
        serve(serve(w, id, variant), id, variant).response == serve(w, id, variant).response,
        serve(serve(w, id, variant), id, variant).downloads == serve(w, id, variant).downloads,
        serve(serve(w, id, variant), id, variant).store == serve(w, id, variant).store,
{
    lemma_served_is_stored(w, id, variant);
    lemma_hit(serve(w, id, variant), id, variant);
}

} // verus!
