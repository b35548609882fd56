//! A mapper that keeps its mapping in a store and refreshes it from a provider.

use std::marker::PhantomData;
use vstd::prelude::*;
use crate::Error;
use crate::entities::Media;
use crate::entities::MediaView;
use crate::usecases::Getter;
use crate::usecases::Mapper;
use crate::usecases::MediaLister;
use crate::usecases::Metadata;
use crate::usecases::Tracker;
use crate::usecases::TrackerMediaLister;
use crate::usecases::Provider;
use crate::usecases::Store;

verus! {

/// The media items that the metadata `data` describe, in order.
pub open spec fn medias_of<M: Metadata>(data: Seq<M>) -> Seq<MediaView> {
    data.map_values(|m: M| MediaView { source_id: m.spec_source_id(), target_id: m.spec_target_id() })
}

/// The target IDs of the media items `medias`, in order.
pub open spec fn target_ids_of(medias: Seq<Media>) -> Seq<Seq<char>> {
    medias.map_values(|m: Media| m.target_id@)
}

/// A copy of each of the strings `items`, in order.
fn copy_all(items: &[String]) -> (copies: Vec<String>)
    ensures
        copies.deep_view() == items.deep_view(),
{
    let mut copies: Vec<String> = Vec::new();
    let mut i: usize = 0;
    while i < items.len()
        invariant
            i <= items.len(),
            copies.deep_view() == items.deep_view().take(i as int),
        decreases items.len() - i,
    {
        let ghost before = copies.deep_view();
        let copy = items[i].clone();
        assert(copy@ == items.deep_view()[i as int]);
        copies.push(copy);
        assert(copies.deep_view() =~= before.push(copy@));
        assert(items.deep_view().take(i + 1) =~= items.deep_view().take(i as int).push(copy@));
        i = i + 1;
    }
    assert(items.deep_view().take(items.len() as int) =~= items.deep_view());
    copies
}

/// A mapper that keeps its mapping in a store and refreshes it from a provider.
pub struct Persistent<M: Metadata, P: Provider<M>, S: Store> {
    provider: P,
    store: S,
    metadata: PhantomData<M>,
}

impl<M: Metadata, P: Provider<M>, S: Store> Persistent<M, P, S> {
    /// The provider that this mapper refreshes from.
    pub closed spec fn provider(&self) -> P {
        self.provider
    }

    /// The store that this mapper keeps its mapping in.
    pub closed spec fn store(&self) -> S {
        self.store
    }

    /// A mapper that refreshes from `provider` and keeps its mapping in `store`.
    pub fn new(provider: P, store: S) -> (mapper: Self)
        ensures
            mapper.provider() == provider,
            mapper.store() == store,
    {
        Persistent { provider, store, metadata: PhantomData }
    }
}

impl<M: Metadata, P: Provider<M>, S: Store> Mapper for Persistent<M, P, S> {
    /// The target IDs of the media items that the store gave for `ids`, in
    /// order; or the store's error.
    open spec fn map_answer(&self, ids: Seq<Seq<char>>, answer: Result<Vec<String>, Error>) -> bool {
        match answer {
            Ok(targets) => exists|medias: Vec<Media>|
                {
                    &&& #[trigger] self.store().get_bulk_answer(ids, Ok(medias))
                    &&& targets.deep_view() == target_ids_of(medias@)
                },
            Err(e) => self.store().get_bulk_answer(ids, Err(e)),
        }
    }

    /// Where the provider gave metadata, what the store answered when handed
    /// the media items that they describe; else the provider's error.
    open spec fn refresh_answer(&self, answer: Result<(), Error>) -> bool {
        ||| exists|data: Vec<M>|
            {
                &&& #[trigger] self.provider().fetch_answer(Ok(data))
                &&& self.store().put_bulk_answer(medias_of(data@), answer)
            }
        ||| answer matches Err(e) && self.provider().fetch_answer(Err(e))
    }

    fn map_ids(&self, ids: &[String]) -> (answer: Result<Vec<String>, Error>) {
        let found = self.store.get_media_bulk(copy_all(ids));
        let medias = match found {
            Ok(medias) => medias,
            Err(e) => return Err(e),
        };
        let mut targets: Vec<String> = Vec::new();
        let mut i: usize = 0;
        while i < medias.len()
            invariant
                i <= medias.len(),
                targets.deep_view() == target_ids_of(medias@).take(i as int),
            decreases medias.len() - i,
        {
            let ghost before = targets.deep_view();
            let target = medias[i].target_id.clone();
            assert(target@ == target_ids_of(medias@)[i as int]);
            targets.push(target);
            assert(targets.deep_view() =~= before.push(target@));
            assert(target_ids_of(medias@).take(i + 1) =~= target_ids_of(medias@).take(i as int).push(
                target@,
            ));
            i = i + 1;
        }
        assert(target_ids_of(medias@).take(medias.len() as int) =~= target_ids_of(medias@));
        assert(self.store().get_bulk_answer(ids.deep_view(), Ok(medias)));
        Ok(targets)
    }

    fn refresh<G: Getter>(&self, client: &G) -> (answer: Result<(), Error>) {
        let fetched = self.provider.fetch(client);
        let data = match fetched {
            Ok(data) => data,
            Err(e) => return Err(e),
        };
        let ghost described = medias_of(data@);
        let ghost fetched_data = data;
        assert(self.provider().fetch_answer(Ok(fetched_data)));
        let mut medias: Vec<Media> = Vec::new();
        for m in it: data.into_iter()
            invariant
                it.seq() == data@,
                medias@.map_values(|x: Media| x@) == medias_of(it.seq().take(it.index() as int)),
        {
            let ghost k = it.index();
            let ghost before = medias@;
            let media = Media::from(m);
            medias.push(media);
            assert(medias@.map_values(|x: Media| x@) =~= before.map_values(|x: Media| x@).push(
                media@,
            ));
            assert(medias_of(it.seq().take(k + 1)) =~= medias_of(it.seq().take(k)).push(media@));
        }
        assert(medias@.map_values(|x: Media| x@) =~= described);
        let kept = self.store.put_media_bulk(medias);
        assert(self.store().put_bulk_answer(medias_of(fetched_data@), kept));
        kept
    }
}

/// A lister over a persistent mapper refreshes successfully only where the
/// provider gave metadata and the store, handed the media items that they
/// describe, kept them.
pub proof fn law_refresh_stores_what_is_fetched<T: Tracker, M: Metadata, P: Provider<M>, S: Store>(
    lister: TrackerMediaLister<T, Persistent<M, P, S>>,
)
    requires
        lister.refresh_answer(Ok(())),
    ensures
        exists|data: Vec<M>|
            #[trigger] lister.mapper().provider().fetch_answer(Ok(data)) && lister.mapper().store().put_bulk_answer(
                medias_of(data@),
                Ok(()),
            ),
{
}

/// Where the provider can only fail, a lister over a persistent mapper
/// reports that very failure from its refresh.
pub proof fn law_refresh_reports_fetch_failure<T: Tracker, M: Metadata, P: Provider<M>, S: Store>(
    lister: TrackerMediaLister<T, Persistent<M, P, S>>,
    e: Error,
    answer: Result<(), Error>,
)
    requires
        forall|a: Result<Vec<M>, Error>|
            #[trigger] lister.mapper().provider().fetch_answer(a) ==> a == Err::<Vec<M>, Error>(e),
        lister.refresh_answer(answer),
    ensures
        answer == Err::<(), Error>(e),
{
    if exists|data: Vec<M>| #[trigger] lister.mapper().provider().fetch_answer(Ok(data)) {
        let data = choose|data: Vec<M>| #[trigger] lister.mapper().provider().fetch_answer(Ok(data));
        assert(Ok::<Vec<M>, Error>(data) == Err::<Vec<M>, Error>(e));
    }
}

} // verus!
