use vstd::prelude::*;
use crate::cache::CacheConfigView;
use crate::cache::file_cache::{
    advance_model, begin_model, entry_file, is_fresh, CacheError, CacheReaderView,
    ReadActionView, ReadEventView,
};

verus! {

/// One file of the store: its name, its creation time in milliseconds where that can be read,
/// and its contents where they can be read.
pub struct EntryModel {
    pub name: Seq<char>,
    pub created_at: Option<int>,
    pub contents: Option<Seq<char>>,
}

/// A file store at rest: for each directory its files, in the order in which it lists them.
/// A directory that is not there has no files.
pub struct StoreModel {
    pub directories: Map<Seq<char>, Seq<EntryModel>>,
}

/// The files with `entry` written into them: an existing file of that name keeps its creation
/// time and takes the new contents; otherwise a new file, created at `now`, is listed last.
pub open spec fn put_entry(
    files: Seq<EntryModel>,
    entry: Seq<char>,
    contents: Seq<char>,
    now: int,
) -> Seq<EntryModel> {
    if exists|i: int| 0 <= i < files.len() && #[trigger] files[i].name == entry {
        let i = choose|i: int| 0 <= i < files.len() && #[trigger] files[i].name == entry;
        files.update(
            i,
            EntryModel { name: entry, created_at: files[i].created_at, contents: Some(contents) },
        )
    } else {
        files.push(EntryModel { name: entry, created_at: Some(now), contents: Some(contents) })
    }
}

/// No two files of a directory have the same name.
pub open spec fn distinct_names(files: Seq<EntryModel>) -> bool {
    forall|i: int, j: int|
        0 <= i < files.len() && 0 <= j < files.len() && i != j ==> (#[trigger] files[i]).name
            != (#[trigger] files[j]).name
}

impl StoreModel {
    /// A store is well formed where the files of each directory have names of their own.
    pub open spec fn well_formed(self) -> bool {
        forall|path: Seq<char>| distinct_names(#[trigger] self.entries(path))
    }

    /// The files of a directory.
    pub open spec fn entries(self, path: Seq<char>) -> Seq<EntryModel> {
        if self.directories.contains_key(path) {
            self.directories[path]
        } else {
            Seq::empty()
        }
    }

    /// Whether `entry` is the first file that the directory lists.
    pub open spec fn lists_first(self, path: Seq<char>, entry: Seq<char>) -> bool {
        self.entries(path).len() > 0 && self.entries(path)[0].name == entry
    }

    /// How the store answers a request of a read on the directory `path`, and what it holds
    /// afterwards. Only the removal of the first file changes it.
    pub open spec fn answer(self, path: Seq<char>, action: ReadActionView) -> (
        StoreModel,
        ReadEventView,
    ) {
        match action {
            ReadActionView::List { path: listed } => (
                self,
                ReadEventView::Listed(
                    if self.entries(listed).len() > 0 {
                        Some(self.entries(listed)[0].name)
                    } else {
                        None
                    },
                ),
            ),
            ReadActionView::Stat { entry } => (
                self,
                ReadEventView::Created(
                    if self.lists_first(path, entry) {
                        self.entries(path)[0].created_at
                    } else {
                        None
                    },
                ),
            ),
            ReadActionView::Remove { entry } => (
                if self.lists_first(path, entry) {
                    StoreModel {
                        directories: self.directories.insert(
                            path,
                            self.entries(path).drop_first(),
                        ),
                    }
                } else {
                    self
                },
                ReadEventView::Removed,
            ),
            ReadActionView::Load { entry } => (
                self,
                ReadEventView::Loaded(
                    if self.lists_first(path, entry) {
                        self.entries(path)[0].contents
                    } else {
                        None
                    },
                ),
            ),
            _ => (self, ReadEventView::Removed),
        }
    }

    /// One turn of a read against the store: the pending request is answered and the answer
    /// handed to the reader. A read that has ended stays as it is.
    pub open spec fn turn(
        self,
        path: Seq<char>,
        reader: CacheReaderView,
        action: ReadActionView,
        now: int,
    ) -> (StoreModel, CacheReaderView, ReadActionView) {
        if action.is_final() {
            (self, reader, action)
        } else {
            let (store, event) = self.answer(path, action);
            let (next, asked) = advance_model(reader, event, now);
            (store, next, asked)
        }
    }

    /// A whole read under `config` at the time `now`: what the store holds afterwards, and how
    /// the read ended. Three turns bring every read to its end.
    pub open spec fn read(self, config: CacheConfigView, now: int) -> (StoreModel, ReadActionView) {
        let path = config.path();
        let (r0, a0) = begin_model(config);
        let (s1, r1, a1) = self.turn(path, r0, a0, now);
        let (s2, r2, a2) = s1.turn(path, r1, a1, now);
        let (s3, r3, a3) = s2.turn(path, r2, a2, now);
        (s3, a3)
    }

    /// What a read comes to, said at once. A disabled kind is a miss that asks the store
    /// nothing. Otherwise the first file of the directory decides: without a file, without a
    /// creation time, and without readable contents the read is a miss; a stale file is a
    /// miss too, and it is removed; the contents of a fresh file are a hit.
    pub open spec fn read_outcome(self, config: CacheConfigView, now: int) -> (
        StoreModel,
        ReadActionView,
    ) {
        let files = self.entries(config.path());
        if !config.enabled() {
            (self, ReadActionView::Miss(CacheError::Disabled))
        } else if files.len() == 0 {
            (self, ReadActionView::Miss(CacheError::NotFound))
        } else {
            match files[0].created_at {
                None => (self, ReadActionView::Miss(CacheError::MetadataUnavailable)),
                Some(created_at) => if !is_fresh(created_at, config.lifetime_in_hours, now) {
                    (
                        StoreModel {
                            directories: self.directories.insert(
                                config.path(),
                                files.drop_first(),
                            ),
                        },
                        ReadActionView::Miss(CacheError::Expired),
                    )
                } else {
                    match files[0].contents {
                        None => (self, ReadActionView::Miss(CacheError::Unreadable)),
                        Some(contents) => (self, ReadActionView::Hit { contents }),
                    }
                },
            }
        }
    }

    /// The store after the whole cache was deleted: no directory is left.
    pub open spec fn reset(self) -> StoreModel {
        StoreModel { directories: Map::empty() }
    }

    /// A write of `contents` under `config` at the time `now`. Nothing is written where
    /// caching is disabled, nor where the write fails.
    pub open spec fn write(
        self,
        config: CacheConfigView,
        contents: Seq<char>,
        now: int,
        succeeds: bool,
    ) -> StoreModel {
        if config.enabled() && succeeds {
            StoreModel {
                directories: self.directories.insert(
                    config.path(),
                    put_entry(self.entries(config.path()), entry_file(config), contents, now),
                ),
            }
        } else {
            self
        }
    }
}

/// After a reset of the whole cache every read is a miss, until something is written again.
pub proof fn reads_miss_after_reset(store: StoreModel, config: CacheConfigView, now: int)
    ensures
        store.reset().read(config, now).1 is Miss,
        store.reset().read(config, now).0 == store.reset(),
{
    assert(store.reset().entries(config.path()).len() == 0);
}

/// The steps of a read, taken one by one against the store, come to what `read_outcome`
/// says at once.
pub proof fn read_is_outcome(store: StoreModel, config: CacheConfigView, now: int)
    ensures
        store.read(config, now) == store.read_outcome(config, now),
{
}

/// Every read ends: after three turns the last request is a hit or a miss.
pub proof fn read_ends(store: StoreModel, config: CacheConfigView, now: int)
    ensures
        store.read(config, now).1.is_final(),
{
}

/// A fresh entry is a hit: where the first file of the directory can be read and is younger
/// than the lifetime, the read yields its contents and leaves the store as it was.
pub proof fn fresh_entry_is_hit(store: StoreModel, config: CacheConfigView, now: int)
    requires
        config.enabled(),
        store.entries(config.path()).len() > 0,
        store.entries(config.path())[0].created_at is Some,
        store.entries(config.path())[0].contents is Some,
        is_fresh(store.entries(config.path())[0].created_at->0, config.lifetime_in_hours, now),
    ensures
        store.read(config, now) == (
            store,
            ReadActionView::Hit { contents: store.entries(config.path())[0].contents->0 },
        ),
{
}

/// A stale entry is a miss, and it is gone afterwards: where the first file of the directory
/// has reached its lifetime, the read is a miss and the directory holds the other files only.
pub proof fn stale_entry_is_removed(store: StoreModel, config: CacheConfigView, now: int)
    requires
        config.enabled(),
        store.entries(config.path()).len() > 0,
        store.entries(config.path())[0].created_at is Some,
        !is_fresh(store.entries(config.path())[0].created_at->0, config.lifetime_in_hours, now),
    ensures
        store.read(config, now).1 == ReadActionView::Miss(CacheError::Expired),
        store.read(config, now).0.entries(config.path()) == store.entries(
            config.path(),
        ).drop_first(),
{
}

/// The boundary of the lifetime: an entry created at `created_at` is a hit one second before
/// its lifetime has passed, and one second after it is a miss that removes the entry.
pub proof fn lifetime_boundary(store: StoreModel, config: CacheConfigView, created_at: int)
    requires
        config.enabled(),
        store.entries(config.path()).len() > 0,
        store.entries(config.path())[0].created_at == Some(created_at),
        store.entries(config.path())[0].contents is Some,
    ensures
        store.read(config, created_at + config.lifetime_in_hours * 3_600_000 - 1000) == (
            store,
            ReadActionView::Hit { contents: store.entries(config.path())[0].contents->0 },
        ),
        store.read(config, created_at + config.lifetime_in_hours * 3_600_000 + 1000).1
            == ReadActionView::Miss(CacheError::Expired),
        store.read(config, created_at + config.lifetime_in_hours * 3_600_000 + 1000).0.entries(
            config.path(),
        ) == store.entries(config.path()).drop_first(),
{
    fresh_entry_is_hit(
        store,
        config,
        created_at + config.lifetime_in_hours * 3_600_000 - 1000,
    );
    stale_entry_is_removed(
        store,
        config,
        created_at + config.lifetime_in_hours * 3_600_000 + 1000,
    );
}

/// A disabled kind never hits: with a lifetime of zero hours or less every read is a miss that
/// leaves the store untouched, whatever the store holds, and a write stores nothing.
pub proof fn disabled_never_hits(
    store: StoreModel,
    config: CacheConfigView,
    contents: Seq<char>,
    written_at: int,
    now: int,
)
    requires
        config.lifetime_in_hours <= 0,
    ensures
        store.read(config, now) == (store, ReadActionView::Miss(CacheError::Disabled)),
        store.write(config, contents, written_at, true) == store,
        store.write(config, contents, written_at, true).read(config, now).1
            == ReadActionView::Miss(CacheError::Disabled),
{
}

/// Partitions of one kind with different codes have different directories.
pub proof fn partitions_have_own_paths(a: CacheConfigView, b: CacheConfigView)
    requires
        a.dir_name == b.dir_name,
        a.currency is Some,
        b.currency is Some,
        a.currency->0.code != b.currency->0.code,
    ensures
        a.path() != b.path(),
{
    let prefix = a.dir_name + "/"@;
    let x = a.currency->0.code;
    let y = b.currency->0.code;
    assert((prefix + x).subrange(prefix.len() as int, (prefix + x).len() as int) =~= x);
    assert((prefix + y).subrange(prefix.len() as int, (prefix + y).len() as int) =~= y);
}

/// A write is seen in its own directory only: a read of another directory ends as it would
/// have ended without the write.
pub proof fn write_stays_in_its_partition(
    store: StoreModel,
    written: CacheConfigView,
    contents: Seq<char>,
    written_at: int,
    succeeds: bool,
    read: CacheConfigView,
    now: int,
)
    requires
        written.path() != read.path(),
    ensures
        store.write(written, contents, written_at, succeeds).read(read, now).1 == store.read(
            read,
            now,
        ).1,
        store.write(written, contents, written_at, succeeds).entries(read.path())
            == store.entries(read.path()),
{
}

/// What was written is read back: where the written file is the first that its directory
/// lists, a read within the lifetime of that file yields the written contents. The file is
/// the first where the directory was empty, and where the write replaced the contents of
/// the first file; the lifetime then counts from the creation of the file.
pub proof fn write_then_read(
    store: StoreModel,
    written: CacheConfigView,
    contents: Seq<char>,
    written_at: int,
    read: CacheConfigView,
    now: int,
)
    requires
        store.well_formed(),
        written.enabled(),
        read.path() == written.path(),
        read.lifetime_in_hours == written.lifetime_in_hours,
        store.entries(written.path()).len() == 0 ==> is_fresh(
            written_at,
            read.lifetime_in_hours,
            now,
        ),
        store.entries(written.path()).len() > 0 ==> {
            &&& store.entries(written.path())[0].name == entry_file(written)
            &&& store.entries(written.path())[0].created_at is Some
            &&& is_fresh(
                store.entries(written.path())[0].created_at->0,
                read.lifetime_in_hours,
                now,
            )
        },
    ensures
        store.write(written, contents, written_at, true).read(read, now).1
            == (ReadActionView::Hit { contents }),
{
    let after = store.write(written, contents, written_at, true);
    let files = store.entries(written.path());
    let file = entry_file(written);
    assert(after.entries(read.path()) == put_entry(files, file, contents, written_at));
    if files.len() == 0 {
        assert(!(exists|i: int| 0 <= i < files.len() && #[trigger] files[i].name == file));
    } else {
        assert(files[0].name == file);
        let i = choose|i: int| 0 <= i < files.len() && #[trigger] files[i].name == file;
        assert(distinct_names(files));
        assert(i == 0);
    }
    assert(after.entries(read.path())[0].contents == Some(contents));
}

/// A write keeps the store well formed.
pub proof fn write_keeps_well_formed(
    store: StoreModel,
    config: CacheConfigView,
    contents: Seq<char>,
    now: int,
    succeeds: bool,
)
    requires
        store.well_formed(),
    ensures
        store.write(config, contents, now, succeeds).well_formed(),
{
    let after = store.write(config, contents, now, succeeds);
    let files = store.entries(config.path());
    let file = entry_file(config);
    assert(distinct_names(files));
    assert forall|path: Seq<char>| distinct_names(#[trigger] after.entries(path)) by {
        if path == config.path() && config.enabled() && succeeds {
            assert(after.entries(path) == put_entry(files, file, contents, now));
        } else {
            assert(after.entries(path) == store.entries(path));
        }
    }
}

/// A read keeps the store well formed.
pub proof fn read_keeps_well_formed(store: StoreModel, config: CacheConfigView, now: int)
    requires
        store.well_formed(),
    ensures
        store.read(config, now).0.well_formed(),
{
    let after = store.read(config, now).0;
    let files = store.entries(config.path());
    assert(distinct_names(files));
    assert forall|path: Seq<char>| distinct_names(#[trigger] after.entries(path)) by {
        if after.entries(path) != store.entries(path) {
            assert(path == config.path());
            assert(after.entries(path) == files.drop_first());
        }
    }
}

} // verus!
