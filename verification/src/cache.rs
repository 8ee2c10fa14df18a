use vstd::prelude::*;
use vstd::string::StringExecFns;
use crate::clock::{
    clamp_to_range, file_stamp, in_stamp_range, is_file_stamp, nearest_in_range, now_millis,
    stamp_of,
};
use crate::currency::{partition_view, Currency, CurrencyView};
use crate::text::{join3, parse_i32, parsed_i32};

pub mod file_cache;
pub mod model;

verus! {

/// The directory under which every cached entry lives.
pub const CACHE_DIR: &'static str = "cache";

/// The kinds of cached resource, each with its own lifetime, directory and file naming.
#[derive(Clone, Copy, Debug, PartialEq, Eq, Structural)]
pub enum CacheConfigs {
    Currencies,
    ExchangeRates,
    CommandHistory,
}

/// The lifetime in hours that a setting asks for: the number it denotes, or the fallback where
/// the setting is absent or denotes no number.
pub open spec fn lifetime_from(setting: Option<Seq<char>>, fallback: int) -> int {
    match setting {
        Some(s) => match parsed_i32(s) {
            Some(hours) => hours as int,
            None => fallback,
        },
        None => fallback,
    }
}

/// The view of a setting that may be absent.
pub open spec fn setting_view(setting: Option<String>) -> Option<Seq<char>> {
    match setting {
        Some(s) => Some(s@),
        None => None,
    }
}

/// The lifetime in hours under a setting: the number that the setting denotes, or the fallback.
pub fn resolve_lifetime(setting: &Option<String>, fallback: i32) -> (r: i32)
    ensures
        r == lifetime_from(setting_view(*setting), fallback as int),
{
    match setting {
        Some(s) => match parse_i32(s.as_str()) {
            Some(hours) => hours,
            None => fallback,
        },
        None => fallback,
    }
}

impl CacheConfigs {
    /// The lifetime in hours of a kind that no setting overrides.
    pub open spec fn default_lifetime(self) -> int {
        match self {
            CacheConfigs::Currencies => 24,
            CacheConfigs::ExchangeRates => 1,
            CacheConfigs::CommandHistory => 1,
        }
    }

    /// The directory of a kind, below the cache directory.
    pub open spec fn directory(self) -> Seq<char> {
        match self {
            CacheConfigs::Currencies => "currencies"@,
            CacheConfigs::ExchangeRates => "exchange_rates"@,
            CacheConfigs::CommandHistory => "command_history"@,
        }
    }

    /// The name of the setting that overrides the lifetime of a kind.
    pub open spec fn lifetime_setting(self) -> Seq<char> {
        match self {
            CacheConfigs::Currencies => "CURRENCY_CACHE_TIME_IN_HOURS"@,
            CacheConfigs::ExchangeRates => "CURRENCY_RATE_CACHE_TIME_IN_HOURS"@,
            CacheConfigs::CommandHistory => "COMMAND_HISTORY_CACHE_TIME_IN_HOURS"@,
        }
    }

    /// Whether each write of a kind gets a file name of its own, made from the time of writing.
    pub open spec fn is_timestamped(self) -> bool {
        !(self is CommandHistory)
    }

    /// What `get_config` yields when the file name minted for a timestamped kind is `stamp`.
    pub open spec fn config_view(
        self,
        currency: Option<CurrencyView>,
        setting: Option<Seq<char>>,
        stamp: Seq<char>,
    ) -> CacheConfigView {
        CacheConfigView {
            lifetime_in_hours: lifetime_from(setting, self.default_lifetime()),
            dir_name: "cache"@ + "/"@ + self.directory(),
            currency,
            file_name: if self.is_timestamped() {
                stamp
            } else {
                "commands"@
            },
        }
    }

    /// The name of the setting that overrides the lifetime of the kind.
    pub fn lifetime_setting_name(&self) -> (r: String)
        ensures
            r@ == self.lifetime_setting(),
    {
        match self {
            CacheConfigs::Currencies => String::from_str("CURRENCY_CACHE_TIME_IN_HOURS"),
            CacheConfigs::ExchangeRates => String::from_str("CURRENCY_RATE_CACHE_TIME_IN_HOURS"),
            CacheConfigs::CommandHistory => String::from_str(
                "COMMAND_HISTORY_CACHE_TIME_IN_HOURS",
            ),
        }
    }

    /// The configuration of a kind for one partition, with `stamp` as the file name of a
    /// timestamped kind. `setting` is the value of the kind's lifetime setting, if it is set.
    pub fn config_with_stamp(
        &self,
        currency: Option<Currency>,
        setting: &Option<String>,
        stamp: String,
    ) -> (r: CacheConfig)
        ensures
            r@ == self.config_view(partition_view(currency), setting_view(*setting), stamp@),
    {
        match self {
            CacheConfigs::Currencies => CacheConfig::new(
                resolve_lifetime(setting, 24),
                String::from_str("currencies"),
                currency,
                stamp,
            ),
            CacheConfigs::ExchangeRates => CacheConfig::new(
                resolve_lifetime(setting, 1),
                String::from_str("exchange_rates"),
                currency,
                stamp,
            ),
            CacheConfigs::CommandHistory => CacheConfig::new(
                resolve_lifetime(setting, 1),
                String::from_str("command_history"),
                currency,
                String::from_str("commands"),
            ),
        }
    }

    /// The configuration of a kind for one partition at the time `now`, in milliseconds since
    /// the Unix epoch. A timestamped kind gets its file name from that time; a time outside
    /// the years 1970 to 9999 counts as the nearest moment within them.
    pub fn config_at(&self, currency: Option<Currency>, setting: &Option<String>, now: i64) -> (r:
        CacheConfig)
        ensures
            r@ == self.config_view(
                partition_view(currency),
                setting_view(*setting),
                stamp_of(nearest_in_range(now as int)),
            ),
            self.is_timestamped() ==> is_file_stamp(r@.file_name),
    {
        let stamp = match self {
            CacheConfigs::CommandHistory => String::new(),
            _ => file_stamp(clamp_to_range(now)),
        };
        self.config_with_stamp(currency, setting, stamp)
    }

    /// The configuration of a kind for one partition. A timestamped kind gets a file name
    /// minted from the current time, a new one at every call.
    pub fn get_config(&self, currency: Option<Currency>, setting: &Option<String>) -> (r:
        CacheConfig)
        ensures
            exists|now: int|
                in_stamp_range(now) && r@ == self.config_view(
                    partition_view(currency),
                    setting_view(*setting),
                    #[trigger] stamp_of(now),
                ),
            self.is_timestamped() ==> is_file_stamp(r@.file_name),
    {
        let now = now_millis();
        let r = self.config_at(currency, setting, now);
        assert(in_stamp_range(nearest_in_range(now as int)));
        r
    }
}

/// Where and for how long one kind of resource is cached for one partition.
pub struct CacheConfig {
    lifetime_in_hours: i32,
    dir_name: String,
    currency: Option<Currency>,
    file_name: String,
}

/// What a `CacheConfig` holds, as mathematical values.
pub struct CacheConfigView {
    pub lifetime_in_hours: int,
    pub dir_name: Seq<char>,
    pub currency: Option<CurrencyView>,
    pub file_name: Seq<char>,
}

impl CacheConfigView {
    /// The directory of the entries: the kind's directory, and below it the partition's where
    /// there is a partition.
    pub open spec fn path(self) -> Seq<char> {
        match self.currency {
            Some(c) => self.dir_name + "/"@ + c.code,
            None => self.dir_name,
        }
    }

    /// Caching is switched off by a lifetime of zero hours or less.
    pub open spec fn enabled(self) -> bool {
        self.lifetime_in_hours > 0
    }
}

impl View for CacheConfig {
    type V = CacheConfigView;

    closed spec fn view(&self) -> CacheConfigView {
        CacheConfigView {
            lifetime_in_hours: self.lifetime_in_hours as int,
            dir_name: self.dir_name@,
            currency: partition_view(self.currency),
            file_name: self.file_name@,
        }
    }
}

impl CacheConfig {
    /// A configuration with the given parts; the directory is put below the cache directory.
    pub fn new(
        lifetime_in_hours: i32,
        dir_name: String,
        currency: Option<Currency>,
        file_name: String,
    ) -> (r: CacheConfig)
        ensures
            r@ == (CacheConfigView {
                lifetime_in_hours: lifetime_in_hours as int,
                dir_name: "cache"@ + "/"@ + dir_name@,
                currency: partition_view(currency),
                file_name: file_name@,
            }),
    {
        CacheConfig {
            lifetime_in_hours,
            dir_name: join3(CACHE_DIR, "/", dir_name.as_str()),
            currency,
            file_name,
        }
    }

    /// The directory of the entries.
    pub fn get_path(&self) -> (r: String)
        ensures
            r@ == self@.path(),
    {
        match &self.currency {
            None => self.dir_name.clone(),
            Some(currency) => join3(self.dir_name.as_str(), "/", currency.get_code().as_str()),
        }
    }

    /// The name of the file to write, without its ending.
    pub fn get_file_name(&self) -> (r: String)
        ensures
            r@ == self@.file_name,
    {
        self.file_name.clone()
    }

    /// Whether anything is cached at all.
    pub fn is_cache_enabled(&self) -> (r: bool)
        ensures
            r == self@.enabled(),
    {
        self.lifetime_in_hours > 0
    }

    /// The lifetime of an entry in hours.
    pub fn get_lifetime_in_hours(&self) -> (r: i32)
        ensures
            r == self@.lifetime_in_hours,
    {
        self.lifetime_in_hours
    }
}

} // verus!
