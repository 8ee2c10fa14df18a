use vstd::prelude::*;
use vstd::string::StringExecFns;
use crate::cache::{setting_view, CacheConfig, CacheConfigView, CacheConfigs};
use crate::clock::{in_stamp_range, is_file_stamp, now_millis, stamp_of};
use crate::currency::{partition_view, Currency};
use crate::text::join3;

verus! {

/// Why the cache gave no value, or took none.
#[derive(Clone, Copy, Debug, PartialEq, Eq, Structural)]
pub enum CacheError {
    /// The lifetime of the kind is zero hours or less.
    Disabled,
    /// The directory is missing, empty or cannot be listed.
    NotFound,
    /// The creation time of the entry cannot be read.
    MetadataUnavailable,
    /// The entry is older than its lifetime allows.
    Expired,
    /// The entry is no regular file, or its contents cannot be read.
    Unreadable,
    /// The contents of the entry are not what was stored.
    Malformed,
    /// The file could not be written.
    WriteFailed,
}

impl CacheError {
    /// The text of each error.
    pub open spec fn text(self) -> Seq<char> {
        match self {
            CacheError::Disabled => "Cache is not enabled"@,
            CacheError::NotFound => "No cache file found"@,
            CacheError::MetadataUnavailable => "Cache file is expired"@,
            CacheError::Expired => "Cache file is expired"@,
            CacheError::Unreadable => "No cache file found"@,
            CacheError::Malformed => "Cache file is malformed"@,
            CacheError::WriteFailed => "Failed to write cache file"@,
        }
    }

    /// The text of the error.
    pub fn message(&self) -> (r: String)
        ensures
            r@ == self.text(),
    {
        match self {
            CacheError::Disabled => String::from_str("Cache is not enabled"),
            CacheError::NotFound => String::from_str("No cache file found"),
            CacheError::MetadataUnavailable => String::from_str("Cache file is expired"),
            CacheError::Expired => String::from_str("Cache file is expired"),
            CacheError::Unreadable => String::from_str("No cache file found"),
            CacheError::Malformed => String::from_str("Cache file is malformed"),
            CacheError::WriteFailed => String::from_str("Failed to write cache file"),
        }
    }
}

/// What the age of an entry says of it.
#[derive(Clone, Copy, Debug, PartialEq, Eq, Structural)]
pub enum Freshness {
    Fresh,
    Expired,
}

/// An entry is fresh as long as the time is before its creation time plus its lifetime. Times
/// are in milliseconds, the lifetime in hours.
pub open spec fn is_fresh(created_at: int, ttl_hours: int, now: int) -> bool {
    now < created_at + ttl_hours * 3_600_000
}

/// Whether an entry created at `created_at` is fresh at the time `now`, with a lifetime of
/// `ttl_hours`. Times are in milliseconds since the Unix epoch.
pub fn evaluate(created_at: i64, ttl_hours: i32, now: i64) -> (r: Freshness)
    ensures
        r is Fresh <==> is_fresh(created_at as int, ttl_hours as int, now as int),
{
    let lifetime: i128 = (ttl_hours as i128) * 3_600_000i128;
    let limit: i128 = (created_at as i128) + lifetime;
    if (now as i128) < limit {
        Freshness::Fresh
    } else {
        Freshness::Expired
    }
}

/// What a read asks of the file store next, or how it ended.
#[derive(Debug, Clone, PartialEq, Eq)]
pub enum ReadAction {
    /// List the directory and report its first entry.
    List { path: String },
    /// Report the creation time of the entry.
    Stat { entry: String },
    /// Delete the entry, which is stale.
    Remove { entry: String },
    /// Report the contents of the entry.
    Load { entry: String },
    /// The read ended with the contents of a fresh entry.
    Hit { contents: String },
    /// The read ended without a value.
    Miss(CacheError),
}

/// What a `ReadAction` holds, as mathematical values.
pub enum ReadActionView {
    List { path: Seq<char> },
    Stat { entry: Seq<char> },
    Remove { entry: Seq<char> },
    Load { entry: Seq<char> },
    Hit { contents: Seq<char> },
    Miss(CacheError),
}

impl View for ReadAction {
    type V = ReadActionView;

    open spec fn view(&self) -> ReadActionView {
        match *self {
            ReadAction::List { path } => ReadActionView::List { path: path@ },
            ReadAction::Stat { entry } => ReadActionView::Stat { entry: entry@ },
            ReadAction::Remove { entry } => ReadActionView::Remove { entry: entry@ },
            ReadAction::Load { entry } => ReadActionView::Load { entry: entry@ },
            ReadAction::Hit { contents } => ReadActionView::Hit { contents: contents@ },
            ReadAction::Miss(e) => ReadActionView::Miss(e),
        }
    }
}

impl ReadActionView {
    /// Whether the read has ended.
    pub open spec fn is_final(self) -> bool {
        self is Hit || self is Miss
    }
}

/// What the file store answered.
#[derive(Debug, Clone, PartialEq, Eq)]
pub enum ReadEvent {
    /// The first entry of the directory; none if it is missing, empty or cannot be listed.
    Listed(Option<String>),
    /// The creation time of the entry in milliseconds since the Unix epoch; none if it cannot
    /// be read.
    Created(Option<i64>),
    /// The removal was attempted.
    Removed,
    /// The contents of the entry; none if it is no regular file or cannot be read.
    Loaded(Option<String>),
}

/// What a `ReadEvent` holds, as mathematical values.
pub enum ReadEventView {
    Listed(Option<Seq<char>>),
    Created(Option<int>),
    Removed,
    Loaded(Option<Seq<char>>),
}

impl View for ReadEvent {
    type V = ReadEventView;

    open spec fn view(&self) -> ReadEventView {
        match *self {
            ReadEvent::Listed(Some(entry)) => ReadEventView::Listed(Some(entry@)),
            ReadEvent::Listed(None) => ReadEventView::Listed(None),
            ReadEvent::Created(Some(at)) => ReadEventView::Created(Some(at as int)),
            ReadEvent::Created(None) => ReadEventView::Created(None),
            ReadEvent::Removed => ReadEventView::Removed,
            ReadEvent::Loaded(Some(contents)) => ReadEventView::Loaded(Some(contents@)),
            ReadEvent::Loaded(None) => ReadEventView::Loaded(None),
        }
    }
}

/// How far a read has come.
#[derive(Debug, Clone, PartialEq, Eq)]
pub enum ReadStage {
    /// The directory listing is awaited.
    Listing,
    /// The creation time of the entry is awaited.
    Stating { entry: String },
    /// The removal of a stale entry is awaited.
    Removing,
    /// The contents of the entry are awaited.
    Loading,
    /// The read has ended.
    Done,
}

/// What a `ReadStage` holds, as mathematical values.
pub enum ReadStageView {
    Listing,
    Stating { entry: Seq<char> },
    Removing,
    Loading,
    Done,
}

impl View for ReadStage {
    type V = ReadStageView;

    open spec fn view(&self) -> ReadStageView {
        match *self {
            ReadStage::Listing => ReadStageView::Listing,
            ReadStage::Stating { entry } => ReadStageView::Stating { entry: entry@ },
            ReadStage::Removing => ReadStageView::Removing,
            ReadStage::Loading => ReadStageView::Loading,
            ReadStage::Done => ReadStageView::Done,
        }
    }
}

/// A read of the cache in progress: the lifetime of the kind and the stage reached.
#[derive(Debug, Clone, PartialEq, Eq)]
pub struct CacheReader {
    pub lifetime_in_hours: i32,
    pub stage: ReadStage,
}

/// What a `CacheReader` holds, as mathematical values.
pub struct CacheReaderView {
    pub lifetime_in_hours: int,
    pub stage: ReadStageView,
}

impl View for CacheReader {
    type V = CacheReaderView;

    open spec fn view(&self) -> CacheReaderView {
        CacheReaderView { lifetime_in_hours: self.lifetime_in_hours as int, stage: self.stage@ }
    }
}

/// The first step of a read. Where caching is disabled the read ends at once as a miss, and
/// the file store is never asked; otherwise the directory of the partition is listed.
pub open spec fn begin_model(config: CacheConfigView) -> (CacheReaderView, ReadActionView) {
    if config.enabled() {
        (
            CacheReaderView {
                lifetime_in_hours: config.lifetime_in_hours,
                stage: ReadStageView::Listing,
            },
            ReadActionView::List { path: config.path() },
        )
    } else {
        (
            CacheReaderView {
                lifetime_in_hours: config.lifetime_in_hours,
                stage: ReadStageView::Done,
            },
            ReadActionView::Miss(CacheError::Disabled),
        )
    }
}

/// The step that an answer of the file store leads to, at the time `now`.
///
/// A missing listing is a miss. A listed entry is asked for its creation time. Without one the
/// read is a miss. A fresh entry is loaded and a stale one removed; after the removal the
/// read is a miss. Loaded contents are a hit, and contents that cannot be had a miss. An
/// answer that the stage did not ask for ends the read as a miss.
pub open spec fn advance_model(reader: CacheReaderView, event: ReadEventView, now: int) -> (
    CacheReaderView,
    ReadActionView,
) {
    let ended = CacheReaderView {
        lifetime_in_hours: reader.lifetime_in_hours,
        stage: ReadStageView::Done,
    };
    match (reader.stage, event) {
        (ReadStageView::Listing, ReadEventView::Listed(Some(entry))) => (
            CacheReaderView {
                lifetime_in_hours: reader.lifetime_in_hours,
                stage: ReadStageView::Stating { entry },
            },
            ReadActionView::Stat { entry },
        ),
        (ReadStageView::Stating { entry }, ReadEventView::Created(Some(created_at))) => {
            if is_fresh(created_at, reader.lifetime_in_hours, now) {
                (
                    CacheReaderView {
                        lifetime_in_hours: reader.lifetime_in_hours,
                        stage: ReadStageView::Loading,
                    },
                    ReadActionView::Load { entry },
                )
            } else {
                (
                    CacheReaderView {
                        lifetime_in_hours: reader.lifetime_in_hours,
                        stage: ReadStageView::Removing,
                    },
                    ReadActionView::Remove { entry },
                )
            }
        },
        (ReadStageView::Stating { entry }, ReadEventView::Created(None)) => (
            ended,
            ReadActionView::Miss(CacheError::MetadataUnavailable),
        ),
        (ReadStageView::Removing, ReadEventView::Removed) => (
            ended,
            ReadActionView::Miss(CacheError::Expired),
        ),
        (ReadStageView::Loading, ReadEventView::Loaded(Some(contents))) => (
            ended,
            ReadActionView::Hit { contents },
        ),
        (ReadStageView::Loading, ReadEventView::Loaded(None)) => (
            ended,
            ReadActionView::Miss(CacheError::Unreadable),
        ),
        _ => (ended, ReadActionView::Miss(CacheError::NotFound)),
    }
}

impl CacheReader {
    /// Starts a read of the partition that `config` describes.
    pub fn begin(config: &CacheConfig) -> (r: (CacheReader, ReadAction))
        ensures
            (r.0@, r.1@) == begin_model(config@),
    {
        let lifetime_in_hours = config.get_lifetime_in_hours();
        if config.is_cache_enabled() {
            (
                CacheReader { lifetime_in_hours, stage: ReadStage::Listing },
                ReadAction::List { path: config.get_path() },
            )
        } else {
            (
                CacheReader { lifetime_in_hours, stage: ReadStage::Done },
                ReadAction::Miss(CacheError::Disabled),
            )
        }
    }

    /// Takes the answer of the file store and says what comes next, with `now` as the current
    /// time in milliseconds since the Unix epoch.
    pub fn advance_at(self, event: ReadEvent, now: i64) -> (r: (CacheReader, ReadAction))
        ensures
            (r.0@, r.1@) == advance_model(self@, event@, now as int),
    {
        let lifetime_in_hours = self.lifetime_in_hours;
        match (self.stage, event) {
            (ReadStage::Listing, ReadEvent::Listed(Some(entry))) => {
                let asked = entry.clone();
                (
                    CacheReader { lifetime_in_hours, stage: ReadStage::Stating { entry } },
                    ReadAction::Stat { entry: asked },
                )
            },
            (ReadStage::Stating { entry }, ReadEvent::Created(Some(created_at))) => {
                match evaluate(created_at, lifetime_in_hours, now) {
                    Freshness::Fresh => (
                        CacheReader { lifetime_in_hours, stage: ReadStage::Loading },
                        ReadAction::Load { entry },
                    ),
                    Freshness::Expired => (
                        CacheReader { lifetime_in_hours, stage: ReadStage::Removing },
                        ReadAction::Remove { entry },
                    ),
                }
            },
            (ReadStage::Stating { entry }, ReadEvent::Created(None)) => (
                CacheReader { lifetime_in_hours, stage: ReadStage::Done },
                ReadAction::Miss(CacheError::MetadataUnavailable),
            ),
            (ReadStage::Removing, ReadEvent::Removed) => (
                CacheReader { lifetime_in_hours, stage: ReadStage::Done },
                ReadAction::Miss(CacheError::Expired),
            ),
            (ReadStage::Loading, ReadEvent::Loaded(Some(contents))) => (
                CacheReader { lifetime_in_hours, stage: ReadStage::Done },
                ReadAction::Hit { contents },
            ),
            (ReadStage::Loading, ReadEvent::Loaded(None)) => (
                CacheReader { lifetime_in_hours, stage: ReadStage::Done },
                ReadAction::Miss(CacheError::Unreadable),
            ),
            _ => (
                CacheReader { lifetime_in_hours, stage: ReadStage::Done },
                ReadAction::Miss(CacheError::NotFound),
            ),
        }
    }

    /// Takes the answer of the file store and says what comes next. The age of an entry is
    /// judged by the clock.
    pub fn advance(self, event: ReadEvent) -> (r: (CacheReader, ReadAction))
        ensures
            exists|now: int| (r.0@, r.1@) == advance_model(self@, event@, now),
    {
        let now = now_millis();
        self.advance_at(event, now)
    }
}

/// Where a value is to be written: the directory to create and the file in it.
#[derive(Debug, Clone, PartialEq, Eq)]
pub struct WritePlan {
    pub directory: String,
    pub file: String,
}

/// The file of an entry: its name in the directory of the partition, ending in `.json`.
pub open spec fn entry_file(config: CacheConfigView) -> Seq<char> {
    config.path() + "/"@ + config.file_name + ".json"@
}

/// Whether `plan` is where a value is written under `config`: nothing is written where
/// caching is disabled; otherwise the directory is that of the partition and the file is the
/// entry's.
pub open spec fn write_plan_is(
    config: CacheConfigView,
    plan: Result<WritePlan, CacheError>,
) -> bool {
    if config.enabled() {
        plan is Ok && plan->Ok_0.directory@ == config.path() && plan->Ok_0.file@ == entry_file(
            config,
        )
    } else {
        plan == Err::<WritePlan, CacheError>(CacheError::Disabled)
    }
}

/// Where a value is written under `config`. Nothing is written where caching is disabled.
pub fn plan_write(config: &CacheConfig) -> (r: Result<WritePlan, CacheError>)
    ensures
        write_plan_is(config@, r),
{
    if !config.is_cache_enabled() {
        return Err(CacheError::Disabled);
    }
    let directory = config.get_path();
    let name = config.get_file_name();
    let mut file = join3(directory.as_str(), "/", name.as_str());
    file.append(".json");
    Ok(WritePlan { directory, file })
}

/// Where a value of the kind is written for the partition: the configuration is resolved
/// anew, so a timestamped kind gets a new file, named by the time of the call.
pub fn create_cache_file(
    cache_config: CacheConfigs,
    currency: Option<Currency>,
    setting: &Option<String>,
) -> (r: Result<WritePlan, CacheError>)
    ensures
        exists|now: int|
            in_stamp_range(now) && write_plan_is(
                cache_config.config_view(
                    partition_view(currency),
                    setting_view(*setting),
                    #[trigger] stamp_of(now),
                ),
                r,
            ),
        r is Ok && cache_config.is_timestamped() ==> exists|stamp: Seq<char>|
            #[trigger] is_file_stamp(stamp) && r->Ok_0.file@ == r->Ok_0.directory@ + "/"@ + stamp
                + ".json"@,
{
    let config = cache_config.get_config(currency, setting);
    let r = plan_write(&config);
    proof {
        if r is Ok && cache_config.is_timestamped() {
            assert(is_file_stamp(config@.file_name));
        }
    }
    r
}

/// Starts a read of the kind for the partition. The file name that the configuration holds
/// plays no part in a read, so the first step is the same whatever name was minted.
pub fn read_and_invalid_cache_file(
    cache_config: CacheConfigs,
    currency: Option<Currency>,
    setting: &Option<String>,
) -> (r: (CacheReader, ReadAction))
    ensures
        forall|stamp: Seq<char>|
            (r.0@, r.1@) == begin_model(
                #[trigger] cache_config.config_view(
                    partition_view(currency),
                    setting_view(*setting),
                    stamp,
                ),
            ),
{
    let config = cache_config.get_config(currency, setting);
    CacheReader::begin(&config)
}

} // verus!
