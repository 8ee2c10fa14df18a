use vstd::prelude::*;
use crate::cache::file_cache::{is_fresh, CacheError, ReadActionView};
use crate::cache::model::StoreModel;
use crate::cache::CacheConfigView;
use crate::clock::{
    clamp_to_range, in_stamp_range, is_record_stamp, nearest_in_range, now_millis, rfc2822,
    rfc2822_of,
};
use crate::text::join3;
use vstd::string::StringExecFns;

verus! {

/// One command that was run: its text, what it printed, and when.
#[derive(Debug, Clone, PartialEq, Eq)]
pub struct CommandHistory {
    command: String,
    output: String,
    timestamp: String,
}

/// What a `CommandHistory` holds, as mathematical values.
pub struct CommandHistoryView {
    pub command: Seq<char>,
    pub output: Seq<char>,
    pub timestamp: Seq<char>,
}

impl View for CommandHistory {
    type V = CommandHistoryView;

    closed spec fn view(&self) -> CommandHistoryView {
        CommandHistoryView {
            command: self.command@,
            output: self.output@,
            timestamp: self.timestamp@,
        }
    }
}

/// The records of a history, oldest first.
pub open spec fn history_view(records: Seq<CommandHistory>) -> Seq<CommandHistoryView> {
    records.map_values(|c: CommandHistory| c@)
}

/// What was read of a stored history: its records, or nothing where the read gave no value.
pub open spec fn stored_view(stored: Result<Vec<CommandHistory>, CacheError>) -> Option<
    Seq<CommandHistoryView>,
> {
    match stored {
        Ok(records) => Some(history_view(records@)),
        Err(_) => None,
    }
}

/// The history with one more record: the record comes last after those that were stored, and
/// stands alone where nothing was stored.
pub open spec fn appended(
    prior: Option<Seq<CommandHistoryView>>,
    record: CommandHistoryView,
) -> Seq<CommandHistoryView> {
    match prior {
        Some(records) => records.push(record),
        None => seq![record],
    }
}

/// What a listing shows of what was read: the stored records, and none where the read gave
/// no value.
pub open spec fn listed(prior: Option<Seq<CommandHistoryView>>) -> Seq<CommandHistoryView> {
    match prior {
        Some(records) => records,
        None => Seq::empty(),
    }
}

/// The record with these parts.
pub open spec fn record_view(
    command: Seq<char>,
    output: Seq<char>,
    timestamp: Seq<char>,
) -> CommandHistoryView {
    CommandHistoryView { command, output, timestamp }
}

impl CommandHistory {
    /// A record of a command run at the time `now`, in milliseconds since the Unix epoch: its
    /// timestamp is that time in the notation of RFC 2822. A time outside the years 1970 to
    /// 9999 counts as the nearest moment within them.
    pub fn new_at(command: String, output: String, now: i64) -> (r: CommandHistory)
        ensures
            r@ == record_view(command@, output@, rfc2822_of(nearest_in_range(now as int))),
            is_record_stamp(r@.timestamp),
    {
        let timestamp = rfc2822(clamp_to_range(now));
        CommandHistory { command, output, timestamp }
    }

    /// A record of a command run now: its timestamp is the current time.
    pub fn new(command: String, output: String) -> (r: CommandHistory)
        ensures
            exists|now: int|
                in_stamp_range(now) && r@ == record_view(
                    command@,
                    output@,
                    #[trigger] rfc2822_of(now),
                ),
            is_record_stamp(r@.timestamp),
    {
        let now = now_millis();
        let r = CommandHistory::new_at(command, output, now);
        assert(in_stamp_range(nearest_in_range(now as int)));
        r
    }

    /// A record with exactly the given parts.
    pub fn from_parts(command: String, output: String, timestamp: String) -> (r: CommandHistory)
        ensures
            r@ == (CommandHistoryView {
                command: command@,
                output: output@,
                timestamp: timestamp@,
            }),
    {
        CommandHistory { command, output, timestamp }
    }

    /// The stored history: what was read of it, and no records where the read gave no value.
    /// A miss of any kind is no error.
    pub fn get_commands(stored: Result<Vec<CommandHistory>, CacheError>) -> (r: Result<
        Vec<CommandHistory>,
        String,
    >)
        ensures
            r is Ok,
            history_view(r->Ok_0@) == listed(stored_view(stored)),
            match stored {
                Ok(records) => r == Ok::<Vec<CommandHistory>, String>(records),
                Err(_) => r->Ok_0@.len() == 0,
            },
    {
        match stored {
            Ok(records) => Ok(records),
            Err(_) => {
                let none: Vec<CommandHistory> = Vec::new();
                assert(history_view(none@) =~= Seq::empty());
                Ok(none)
            },
        }
    }

    /// The history to store after `record` was run: the record is added to what was read of
    /// the stored history. A read that gave no value starts the history anew.
    pub fn append(stored: Result<Vec<CommandHistory>, CacheError>, record: CommandHistory) -> (r:
        Vec<CommandHistory>)
        ensures
            history_view(r@) == appended(stored_view(stored), record@),
    {
        match stored {
            Ok(mut records) => {
                let ghost before = records@;
                records.push(record);
                assert(history_view(records@) =~= history_view(before).push(record@));
                records
            },
            Err(_) => {
                let mut records: Vec<CommandHistory> = Vec::new();
                records.push(record);
                assert(history_view(records@) =~= seq![record@]);
                records
            },
        }
    }

    /// The history to store after a command was run now: a record of the command and its
    /// output, with the current time as its timestamp, is added to what was read of the
    /// stored history.
    pub fn save(
        output: String,
        command: String,
        stored: Result<Vec<CommandHistory>, CacheError>,
    ) -> (r: Vec<CommandHistory>)
        ensures
            exists|now: int|
                in_stamp_range(now) && history_view(r@) == appended(
                    stored_view(stored),
                    record_view(command@, output@, #[trigger] rfc2822_of(now)),
                ),
            r@.len() > 0 && is_record_stamp(r@.last()@.timestamp),
    {
        let record = CommandHistory::new(command, output);
        let ghost added = record@;
        let r = CommandHistory::append(stored, record);
        assert(history_view(r@).last() == added);
        r
    }

    /// The line that shows the record: the command, what it printed, and when.
    pub fn line(&self) -> (r: String)
        ensures
            r@ == self@.command + ": "@ + self@.output + " // time: "@ + self@.timestamp,
    {
        let mut line = join3(self.command.as_str(), ": ", self.output.as_str());
        line.append(" // time: ");
        line.append(self.timestamp.as_str());
        line
    }

    /// The text of the command.
    pub fn get_command(&self) -> (r: &String)
        ensures
            r@ == self@.command,
    {
        &self.command
    }

    /// What the command printed.
    pub fn get_output(&self) -> (r: &String)
        ensures
            r@ == self@.output,
    {
        &self.output
    }

    /// When the command was run.
    pub fn get_timestamp(&self) -> (r: &String)
        ensures
            r@ == self@.timestamp,
    {
        &self.timestamp
    }
}

/// The history to list: the stored records, and none where the read gave no value.
pub fn get_history(stored: Result<Vec<CommandHistory>, CacheError>) -> (r: Result<
    Vec<CommandHistory>,
    String,
>)
    ensures
        r is Ok,
        history_view(r->Ok_0@) == listed(stored_view(stored)),
        match stored {
            Ok(records) => r == Ok::<Vec<CommandHistory>, String>(records),
            Err(_) => r->Ok_0@.len() == 0,
        },
{
    CommandHistory::get_commands(stored)
}

/// How histories are turned into the contents of a file and back.
pub struct HistoryCodec {
    pub encode: spec_fn(Seq<CommandHistoryView>) -> Seq<char>,
    pub decode: spec_fn(Seq<char>) -> Option<Seq<CommandHistoryView>>,
}

impl HistoryCodec {
    /// Every history is decoded from its own encoding.
    pub open spec fn faithful(self) -> bool {
        forall|records: Seq<CommandHistoryView>|
            (self.decode)(#[trigger] (self.encode)(records)) == Some(records)
    }
}

/// What a read of the history at the time `now` gives: the store afterwards, and the records
/// where the read is a hit whose contents decode.
pub open spec fn read_history(
    store: StoreModel,
    config: CacheConfigView,
    codec: HistoryCodec,
    now: int,
) -> (StoreModel, Option<Seq<CommandHistoryView>>) {
    let (after, end) = store.read(config, now);
    (
        after,
        match end {
            ReadActionView::Hit { contents } => (codec.decode)(contents),
            _ => None,
        },
    )
}

/// What the store holds after `record` was appended at the time `now`: the history is read,
/// the record added, and the whole history written back to its file.
pub open spec fn append_to_store(
    store: StoreModel,
    config: CacheConfigView,
    codec: HistoryCodec,
    record: CommandHistoryView,
    now: int,
) -> StoreModel {
    let (after, prior) = read_history(store, config, codec, now);
    after.write(config, (codec.encode)(appended(prior, record)), now, true)
}

/// A listing never fails on the cache: where the read of the history is a miss of any kind,
/// or its contents do not decode, the listing is empty.
pub proof fn listing_is_empty_without_history(
    store: StoreModel,
    config: CacheConfigView,
    codec: HistoryCodec,
    now: int,
)
    requires
        store.read(config, now).1 is Miss || (store.read(config, now).1 is Hit && (codec.decode)(
            store.read(config, now).1->contents,
        ) is None),
    ensures
        listed(read_history(store, config, codec, now).1) == Seq::<CommandHistoryView>::empty(),
{
}

/// A history grows in call order: three records appended one after the other to a new
/// history, all within the lifetime of its file, are read back as those three, oldest first.
pub proof fn history_accumulates(
    store: StoreModel,
    config: CacheConfigView,
    codec: HistoryCodec,
    first: CommandHistoryView,
    second: CommandHistoryView,
    third: CommandHistoryView,
    t1: int,
    t2: int,
    t3: int,
    now: int,
)
    requires
        codec.faithful(),
        config.enabled(),
        store.entries(config.path()).len() == 0,
        t1 <= t2 <= t3 <= now,
        is_fresh(t1, config.lifetime_in_hours, now),
    ensures
        read_history(
            append_to_store(
                append_to_store(
                    append_to_store(store, config, codec, first, t1),
                    config,
                    codec,
                    second,
                    t2,
                ),
                config,
                codec,
                third,
                t3,
            ),
            config,
            codec,
            now,
        ).1 == Some(seq![first, second, third]),
{
    let s1 = append_to_store(store, config, codec, first, t1);
    one_file_after_first_append(store, config, codec, first, t1);
    let s2 = append_to_store(s1, config, codec, second, t2);
    one_file_after_next_append(s1, config, codec, seq![first], second, t1, t2);
    let s3 = append_to_store(s2, config, codec, third, t3);
    one_file_after_next_append(s2, config, codec, seq![first].push(second), third, t1, t3);
    assert(seq![first].push(second).push(third) =~= seq![first, second, third]);
    held_history_is_read(s3, config, codec, seq![first, second, third], t1, now);
}

/// A stale history is lost: a record appended after the lifetime of the history's file has
/// passed is read back alone.
pub proof fn history_restarts_after_expiry(
    store: StoreModel,
    config: CacheConfigView,
    codec: HistoryCodec,
    first: CommandHistoryView,
    late: CommandHistoryView,
    t1: int,
    t2: int,
    now: int,
)
    requires
        codec.faithful(),
        config.enabled(),
        store.entries(config.path()).len() == 0,
        t1 <= t2 <= now,
        !is_fresh(t1, config.lifetime_in_hours, t2),
        is_fresh(t2, config.lifetime_in_hours, now),
    ensures
        read_history(
            append_to_store(
                append_to_store(store, config, codec, first, t1),
                config,
                codec,
                late,
                t2,
            ),
            config,
            codec,
            now,
        ).1 == Some(seq![late]),
{
    let s1 = append_to_store(store, config, codec, first, t1);
    one_file_after_first_append(store, config, codec, first, t1);
    let s2 = append_to_store(s1, config, codec, late, t2);
    let (after, prior) = read_history(s1, config, codec, t2);
    assert(after.entries(config.path()).len() == 0);
    assert(prior is None);
    one_file_after_first_append(s1, config, codec, late, t2);
    held_history_is_read(s2, config, codec, seq![late], t2, now);
}

/// The store holds the history in one file, created at `created_at`.
pub open spec fn holds_history(
    store: StoreModel,
    config: CacheConfigView,
    codec: HistoryCodec,
    records: Seq<CommandHistoryView>,
    created_at: int,
) -> bool {
    let files = store.entries(config.path());
    &&& files.len() == 1
    &&& files[0].name == crate::cache::file_cache::entry_file(config)
    &&& files[0].created_at == Some(created_at)
    &&& files[0].contents == Some((codec.encode)(records))
}

proof fn held_history_is_read(
    store: StoreModel,
    config: CacheConfigView,
    codec: HistoryCodec,
    records: Seq<CommandHistoryView>,
    created_at: int,
    now: int,
)
    requires
        codec.faithful(),
        config.enabled(),
        holds_history(store, config, codec, records, created_at),
        is_fresh(created_at, config.lifetime_in_hours, now),
    ensures
        read_history(store, config, codec, now) == (store, Some(records)),
{
}

proof fn one_file_after_first_append(
    store: StoreModel,
    config: CacheConfigView,
    codec: HistoryCodec,
    record: CommandHistoryView,
    now: int,
)
    requires
        codec.faithful(),
        config.enabled(),
        read_history(store, config, codec, now).0.entries(config.path()).len() == 0,
        read_history(store, config, codec, now).1 is None,
    ensures
        holds_history(
            append_to_store(store, config, codec, record, now),
            config,
            codec,
            seq![record],
            now,
        ),
{
    let (after, prior) = read_history(store, config, codec, now);
    let files = after.entries(config.path());
    let file = crate::cache::file_cache::entry_file(config);
    assert(!(exists|i: int| 0 <= i < files.len() && #[trigger] files[i].name == file));
}

proof fn one_file_after_next_append(
    store: StoreModel,
    config: CacheConfigView,
    codec: HistoryCodec,
    records: Seq<CommandHistoryView>,
    record: CommandHistoryView,
    created_at: int,
    now: int,
)
    requires
        codec.faithful(),
        config.enabled(),
        holds_history(store, config, codec, records, created_at),
        is_fresh(created_at, config.lifetime_in_hours, now),
    ensures
        holds_history(
            append_to_store(store, config, codec, record, now),
            config,
            codec,
            records.push(record),
            created_at,
        ),
        read_history(store, config, codec, now).1 == Some(records),
{
    let (after, prior) = read_history(store, config, codec, now);
    assert(after == store);
    assert(prior == Some(records));
    let files = store.entries(config.path());
    let file = crate::cache::file_cache::entry_file(config);
    assert(files[0].name == file);
    let i = choose|i: int| 0 <= i < files.len() && #[trigger] files[i].name == file;
    assert(i == 0);
}

} // verus!
