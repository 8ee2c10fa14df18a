use vstd::prelude::*;
use crate::api::{
    request_advance_model, request_begin_model, RequestActionView, RequestEventView, RequestView,
};
use crate::cache::file_cache::{is_fresh, ReadActionView};
use crate::cache::model::StoreModel;
use crate::cache::CacheConfigView;

verus! {

/// What lies outside a request: the file store, the codec of the cached values, the answer
/// that the provider gives, whether a write to the store succeeds, and how often the
/// provider was asked so far.
#[verifier::reject_recursive_types(T)]
pub struct WorldModel<T> {
    pub store: StoreModel,
    pub decode: spec_fn(Seq<char>) -> Option<T>,
    pub encode: spec_fn(T) -> Seq<char>,
    pub fetched: Result<T, Seq<char>>,
    pub write_succeeds: bool,
    pub fetches: nat,
}

/// How a request ended.
pub open spec fn outcome<T>(action: RequestActionView<T>) -> Option<Result<T, Seq<char>>> {
    match action {
        RequestActionView::Deliver { value, write_back } => Some(Ok(value)),
        RequestActionView::Fail { message } => Some(Err(message)),
        _ => None,
    }
}

impl<T> WorldModel<T> {
    /// One turn of a request on the directory `path`: the world does what the request asks
    /// for, and the request takes the answer. A request that has ended stays as it is.
    pub open spec fn turn(
        self,
        path: Seq<char>,
        request: RequestView,
        action: RequestActionView<T>,
        now: int,
    ) -> (WorldModel<T>, RequestView, RequestActionView<T>) {
        match action {
            RequestActionView::Store(asked) => {
                let (store, answer) = self.store.answer(path, asked);
                let (next, then) = request_advance_model(
                    request,
                    RequestEventView::<T>::Store(answer),
                    now,
                );
                (WorldModel { store, ..self }, next, then)
            },
            RequestActionView::Decode { contents } => {
                let (next, then) = request_advance_model(
                    request,
                    RequestEventView::Decoded((self.decode)(contents)),
                    now,
                );
                (self, next, then)
            },
            RequestActionView::Fetch { url } => {
                let (next, then) = request_advance_model(
                    request,
                    RequestEventView::Fetched(self.fetched),
                    now,
                );
                (WorldModel { fetches: self.fetches + 1, ..self }, next, then)
            },
            _ => (self, request, action),
        }
    }

    /// The write-back after a request: a fetched value is written under `written`, the
    /// configuration resolved anew for the write. Whether it succeeds is up to the world.
    pub open spec fn settle(
        self,
        written: CacheConfigView,
        action: RequestActionView<T>,
        now: int,
    ) -> WorldModel<T> {
        match action {
            RequestActionView::Deliver { value, write_back } => if write_back {
                WorldModel {
                    store: self.store.write(
                        written,
                        (self.encode)(value),
                        now,
                        self.write_succeeds,
                    ),
                    ..self
                }
            } else {
                self
            },
            _ => self,
        }
    }

    /// What a request comes to, said at once. Cached contents that are fresh and decode are
    /// delivered, and the provider is not asked. In every other case the provider is asked
    /// once: its value is delivered and written back, its failure is handed on and nothing
    /// is written.
    pub open spec fn request_outcome(
        self,
        config: CacheConfigView,
        written: CacheConfigView,
        now: int,
    ) -> (WorldModel<T>, RequestActionView<T>) {
        let (store, end) = self.store.read_outcome(config, now);
        let cached = match end {
            ReadActionView::Hit { contents } => (self.decode)(contents),
            _ => None,
        };
        match cached {
            Some(value) => (
                WorldModel { store, ..self },
                RequestActionView::Deliver { value, write_back: false },
            ),
            None => match self.fetched {
                Ok(value) => (
                    WorldModel {
                        store: store.write(
                            written,
                            (self.encode)(value),
                            now,
                            self.write_succeeds,
                        ),
                        fetches: self.fetches + 1,
                        ..self
                    },
                    RequestActionView::Deliver { value, write_back: true },
                ),
                Err(message) => (
                    WorldModel { store, fetches: self.fetches + 1, ..self },
                    RequestActionView::Fail { message },
                ),
            },
        }
    }

    /// A whole request under `config` at the time `now`: the world afterwards, the write-back
    /// included, and the last step of the request. Five turns bring every request to its end.
    pub open spec fn request(
        self,
        config: CacheConfigView,
        written: CacheConfigView,
        url: Seq<char>,
        now: int,
    ) -> (WorldModel<T>, RequestActionView<T>) {
        let path = config.path();
        let (r0, a0) = request_begin_model::<T>(config, url);
        let (w1, r1, a1) = self.turn(path, r0, a0, now);
        let (w2, r2, a2) = w1.turn(path, r1, a1, now);
        let (w3, r3, a3) = w2.turn(path, r2, a2, now);
        let (w4, r4, a4) = w3.turn(path, r3, a3, now);
        let (w5, r5, a5) = w4.turn(path, r4, a4, now);
        (w5.settle(written, a5, now), a5)
    }
}

/// The steps of a request, taken one by one against the world, come to what
/// `request_outcome` says at once.
pub proof fn request_is_outcome<T>(
    world: WorldModel<T>,
    config: CacheConfigView,
    written: CacheConfigView,
    url: Seq<char>,
    now: int,
)
    ensures
        world.request(config, written, url, now) == world.request_outcome(config, written, now),
{
}

/// Every request ends, with a value or with the failure of the fetch.
pub proof fn request_ends<T>(
    world: WorldModel<T>,
    config: CacheConfigView,
    written: CacheConfigView,
    url: Seq<char>,
    now: int,
)
    ensures
        world.request(config, written, url, now).1.is_final(),
{
}

/// A hit asks the provider nothing: where the cache read yields contents that decode, the
/// request delivers the decoded value, the provider is not asked, and nothing is written.
pub proof fn hit_needs_no_fetch<T>(
    world: WorldModel<T>,
    config: CacheConfigView,
    written: CacheConfigView,
    url: Seq<char>,
    now: int,
)
    requires
        world.store.read(config, now).1 is Hit,
        (world.decode)(world.store.read(config, now).1->contents) is Some,
    ensures
        world.request(config, written, url, now).1 == (RequestActionView::Deliver {
            value: (world.decode)(world.store.read(config, now).1->contents)->0,
            write_back: false,
        }),
        world.request(config, written, url, now).0 == world,
{
}

/// A miss asks the provider exactly once and hands on its answer: where the cache read is a
/// miss, the provider is asked once, and the request ends with the fetched value or with the
/// failure of the fetch, whether or not the write-back succeeds.
pub proof fn miss_fetches_once<T>(
    world: WorldModel<T>,
    config: CacheConfigView,
    written: CacheConfigView,
    url: Seq<char>,
    now: int,
)
    requires
        world.store.read(config, now).1 is Miss,
    ensures
        world.request(config, written, url, now).0.fetches == world.fetches + 1,
        outcome(world.request(config, written, url, now).1) == Some(world.fetched),
        world.fetched is Ok ==> world.request(config, written, url, now).1->write_back,
{
}

/// A failed fetch is not cached: the store is left as the cache read left it, so nothing
/// stands in the way of asking the provider again.
pub proof fn failed_fetch_writes_nothing<T>(
    world: WorldModel<T>,
    config: CacheConfigView,
    written: CacheConfigView,
    url: Seq<char>,
    now: int,
)
    requires
        world.fetched is Err,
    ensures
        world.request(config, written, url, now).0.store == world.store.read(config, now).0,
{
}

/// After a failed fetch the provider is asked again: where a request ended with the failure of
/// the fetch, a second request at the same time or later asks the provider once more. This
/// is stated of a directory that holds one file at most.
pub proof fn failed_fetch_is_tried_again<T>(
    world: WorldModel<T>,
    config: CacheConfigView,
    written: CacheConfigView,
    url: Seq<char>,
    now: int,
    later: int,
)
    requires
        world.fetched is Err,
        world.store.entries(config.path()).len() <= 1,
        world.request(config, written, url, now).0.fetches == world.fetches + 1,
        now <= later,
    ensures
        world.request(config, written, url, now).0.request(config, written, url, later).0.fetches
            == world.fetches + 2,
        outcome(
            world.request(config, written, url, now).0.request(config, written, url, later).1,
        ) == Some(world.fetched),
{
}

/// A fetched value is served from the cache afterwards: where a request into an empty
/// directory fetched a value and wrote it back, and the codec gives the value back from its
/// encoding, a second request within the lifetime delivers the same value and asks the
/// provider nothing.
pub proof fn fetched_value_is_cached<T>(
    world: WorldModel<T>,
    config: CacheConfigView,
    written: CacheConfigView,
    url: Seq<char>,
    now: int,
    later: int,
)
    requires
        world.store.well_formed(),
        config.enabled(),
        written.path() == config.path(),
        written.lifetime_in_hours == config.lifetime_in_hours,
        world.store.entries(config.path()).len() == 0,
        world.fetched is Ok,
        world.write_succeeds,
        (world.decode)((world.encode)(world.fetched->Ok_0)) == Some(world.fetched->Ok_0),
        is_fresh(now, config.lifetime_in_hours, later),
    ensures
        world.request(config, written, url, now).1 == (RequestActionView::Deliver {
            value: world.fetched->Ok_0,
            write_back: true,
        }),
        world.request(config, written, url, now).0.request(config, written, url, later).1 == (
        RequestActionView::Deliver { value: world.fetched->Ok_0, write_back: false }),
        world.request(config, written, url, now).0.request(config, written, url, later).0.fetches
            == world.fetches + 1,
{
    let value = world.fetched->Ok_0;
    let after = world.request(config, written, url, now).0;
    crate::cache::model::write_then_read(
        world.store,
        written,
        (world.encode)(value),
        now,
        config,
        later,
    );
    assert(after.store == world.store.write(written, (world.encode)(value), now, true));
    hit_needs_no_fetch(after, config, written, url, later);
}

} // verus!
