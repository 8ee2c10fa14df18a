use vstd::prelude::*;
use vstd::string::StringExecFns;
use crate::cache::file_cache::{
    advance_model, begin_model, read_and_invalid_cache_file, CacheReader, CacheReaderView,
    ReadAction, ReadActionView, ReadEvent, ReadEventView,
};
use crate::cache::{setting_view, CacheConfigView, CacheConfigs};
use crate::clock::now_millis;
use crate::currency::{partition_view, Currency, CurrencyView};
use crate::text::{join3, same_text};

pub mod model;

verus! {

/// The two resources of the rate provider.
#[derive(Clone, Copy, Debug, PartialEq, Eq, Structural)]
pub enum ApiEndpoints {
    SupportedCurrencies,
    ExchangeRate,
}

impl ApiEndpoints {
    /// The address of an endpoint for the holder of `api_key`.
    pub open spec fn base_url(self, api_key: Seq<char>) -> Seq<char> {
        match self {
            ApiEndpoints::SupportedCurrencies => "https://v6.exchangerate-api.com/v6/"@ + api_key
                + "/codes"@,
            ApiEndpoints::ExchangeRate => "https://v6.exchangerate-api.com/v6/"@ + api_key
                + "/latest/"@,
        }
    }

    /// The address of an endpoint for one currency: the currency's code follows the address
    /// of the endpoint after a slash.
    pub open spec fn url(self, currency: Option<CurrencyView>, api_key: Seq<char>) -> Seq<char> {
        match currency {
            Some(c) => self.base_url(api_key) + "/"@ + c.code,
            None => self.base_url(api_key),
        }
    }

    /// The kind under which the answers of an endpoint are cached.
    pub open spec fn cache_kind(self) -> CacheConfigs {
        match self {
            ApiEndpoints::SupportedCurrencies => CacheConfigs::Currencies,
            ApiEndpoints::ExchangeRate => CacheConfigs::ExchangeRates,
        }
    }

    /// The address of the endpoint for the holder of `api_key`.
    pub fn prepare_url(&self, api_key: &str) -> (r: String)
        ensures
            r@ == self.base_url(api_key@),
    {
        match self {
            ApiEndpoints::SupportedCurrencies => join3(
                "https://v6.exchangerate-api.com/v6/",
                api_key,
                "/codes",
            ),
            ApiEndpoints::ExchangeRate => join3(
                "https://v6.exchangerate-api.com/v6/",
                api_key,
                "/latest/",
            ),
        }
    }

    /// The kind under which the answers of the endpoint are cached.
    pub fn get_cache_config(&self) -> (r: CacheConfigs)
        ensures
            r == self.cache_kind(),
    {
        match self {
            ApiEndpoints::SupportedCurrencies => CacheConfigs::Currencies,
            ApiEndpoints::ExchangeRate => CacheConfigs::ExchangeRates,
        }
    }

    /// The address of the endpoint for one currency, or for none.
    pub fn get_url(&self, currency: Option<Currency>, api_key: &str) -> (r: String)
        ensures
            r@ == self.url(partition_view(currency), api_key@),
    {
        let url = self.prepare_url(api_key);
        match currency {
            Some(currency) => join3(url.as_str(), "/", currency.get_code().as_str()),
            None => url,
        }
    }

    /// Starts a request for the resource of one currency: the cache is read first, and the
    /// provider is asked only where the cache has no value. `setting` is the value of the
    /// lifetime setting of the endpoint's kind, if it is set.
    pub fn request<T>(
        &self,
        currency: Option<Currency>,
        setting: &Option<String>,
        api_key: &str,
    ) -> (r: (Request, RequestAction<T>))
        ensures
            forall|stamp: Seq<char>|
                (r.0@, r.1@) == request_begin_model::<T>(
                    #[trigger] self.cache_kind().config_view(
                        partition_view(currency),
                        setting_view(*setting),
                        stamp,
                    ),
                    self.url(partition_view(currency), api_key@),
                ),
    {
        let partition = match &currency {
            Some(c) => Some(c.duplicate()),
            None => None,
        };
        let url = self.get_url(currency, api_key);
        let (reader, action) = read_and_invalid_cache_file(
            self.get_cache_config(),
            partition,
            setting,
        );
        follow_read(url, reader, action)
    }
}

/// How far a request has come.
#[derive(Debug, Clone, PartialEq, Eq)]
pub enum RequestStage {
    /// The cache is being read.
    Reading(CacheReader),
    /// The decoding of cached contents is awaited.
    Decoding,
    /// The answer of the provider is awaited.
    Fetching,
    /// The request has ended.
    Done,
}

/// What a `RequestStage` holds, as mathematical values.
pub enum RequestStageView {
    Reading(CacheReaderView),
    Decoding,
    Fetching,
    Done,
}

impl View for RequestStage {
    type V = RequestStageView;

    open spec fn view(&self) -> RequestStageView {
        match *self {
            RequestStage::Reading(reader) => RequestStageView::Reading(reader@),
            RequestStage::Decoding => RequestStageView::Decoding,
            RequestStage::Fetching => RequestStageView::Fetching,
            RequestStage::Done => RequestStageView::Done,
        }
    }
}

/// A request in progress: the address to fetch from on a miss, and the stage reached.
#[derive(Debug, Clone, PartialEq, Eq)]
pub struct Request {
    pub url: String,
    pub stage: RequestStage,
}

/// What a `Request` holds, as mathematical values.
pub struct RequestView {
    pub url: Seq<char>,
    pub stage: RequestStageView,
}

impl View for Request {
    type V = RequestView;

    open spec fn view(&self) -> RequestView {
        RequestView { url: self.url@, stage: self.stage@ }
    }
}

/// What happened outside: an answer of the file store, of the decoder or of the provider.
pub enum RequestEvent<T> {
    /// The file store answered.
    Store(ReadEvent),
    /// The cached contents were decoded; none if they are malformed.
    Decoded(Option<T>),
    /// The provider answered with a value, or the fetch failed with a message.
    Fetched(Result<T, String>),
}

/// What a `RequestEvent` holds, as mathematical values.
pub enum RequestEventView<T> {
    Store(ReadEventView),
    Decoded(Option<T>),
    Fetched(Result<T, Seq<char>>),
}

impl<T> View for RequestEvent<T> {
    type V = RequestEventView<T>;

    open spec fn view(&self) -> RequestEventView<T> {
        match *self {
            RequestEvent::Store(event) => RequestEventView::Store(event@),
            RequestEvent::Decoded(value) => RequestEventView::Decoded(value),
            RequestEvent::Fetched(Ok(value)) => RequestEventView::Fetched(Ok(value)),
            RequestEvent::Fetched(Err(message)) => RequestEventView::Fetched(Err(message@)),
        }
    }
}

/// What a request asks for next, or how it ended.
pub enum RequestAction<T> {
    /// Ask the file store.
    Store(ReadAction),
    /// Decode the contents of a fresh entry.
    Decode { contents: String },
    /// Ask the provider at this address.
    Fetch { url: String },
    /// The request ended with this value. A fetched value is also to be written to the
    /// cache, without waiting for the write or for its success.
    Deliver { value: T, write_back: bool },
    /// The request ended with the failure of the fetch.
    Fail { message: String },
}

/// What a `RequestAction` holds, as mathematical values.
pub enum RequestActionView<T> {
    Store(ReadActionView),
    Decode { contents: Seq<char> },
    Fetch { url: Seq<char> },
    Deliver { value: T, write_back: bool },
    Fail { message: Seq<char> },
}

impl<T> View for RequestAction<T> {
    type V = RequestActionView<T>;

    open spec fn view(&self) -> RequestActionView<T> {
        match *self {
            RequestAction::Store(action) => RequestActionView::Store(action@),
            RequestAction::Decode { contents } => RequestActionView::Decode {
                contents: contents@,
            },
            RequestAction::Fetch { url } => RequestActionView::Fetch { url: url@ },
            RequestAction::Deliver { value, write_back } => RequestActionView::Deliver {
                value,
                write_back,
            },
            RequestAction::Fail { message } => RequestActionView::Fail { message: message@ },
        }
    }
}

impl<T> RequestActionView<T> {
    /// Whether the request has ended.
    pub open spec fn is_final(self) -> bool {
        self is Deliver || self is Fail
    }
}

/// What a step of the cache read means for the request: a hit is decoded, a miss of any kind
/// goes to the provider, and any other step is passed on to the file store.
pub open spec fn follow_read_model<T>(
    url: Seq<char>,
    reader: CacheReaderView,
    action: ReadActionView,
) -> (RequestView, RequestActionView<T>) {
    match action {
        ReadActionView::Hit { contents } => (
            RequestView { url, stage: RequestStageView::Decoding },
            RequestActionView::Decode { contents },
        ),
        ReadActionView::Miss(_) => (
            RequestView { url, stage: RequestStageView::Fetching },
            RequestActionView::Fetch { url },
        ),
        _ => (
            RequestView { url, stage: RequestStageView::Reading(reader) },
            RequestActionView::Store(action),
        ),
    }
}

/// The first step of a request under `config`, with `url` as the address of the provider.
pub open spec fn request_begin_model<T>(config: CacheConfigView, url: Seq<char>) -> (
    RequestView,
    RequestActionView<T>,
) {
    let (reader, action) = begin_model(config);
    follow_read_model(url, reader, action)
}

/// The step that an event leads to, at the time `now`.
///
/// While the cache is read, the answers of the file store drive the read. Decoded contents
/// are delivered and nothing is fetched; malformed contents count as a miss. After a miss the
/// provider is asked once: its value is delivered and marked for write-back, its failure is
/// passed on unchanged. The cache never makes a request fail: whatever else happens before
/// the fetch leads to the fetch. After the fetch was asked for, only its answer is awaited.
pub open spec fn request_advance_model<T>(
    request: RequestView,
    event: RequestEventView<T>,
    now: int,
) -> (RequestView, RequestActionView<T>) {
    let ended = RequestView { url: request.url, stage: RequestStageView::Done };
    let fetching = RequestView { url: request.url, stage: RequestStageView::Fetching };
    match (request.stage, event) {
        (RequestStageView::Reading(reader), RequestEventView::Store(answer)) => {
            let (next, action) = advance_model(reader, answer, now);
            follow_read_model(request.url, next, action)
        },
        (RequestStageView::Reading(_), _) => (
            fetching,
            RequestActionView::Fetch { url: request.url },
        ),
        (RequestStageView::Decoding, RequestEventView::Decoded(Some(value))) => (
            ended,
            RequestActionView::Deliver { value, write_back: false },
        ),
        (RequestStageView::Decoding, _) => (
            fetching,
            RequestActionView::Fetch { url: request.url },
        ),
        (RequestStageView::Fetching, RequestEventView::Fetched(Ok(value))) => (
            ended,
            RequestActionView::Deliver { value, write_back: true },
        ),
        (RequestStageView::Fetching, RequestEventView::Fetched(Err(message))) => (
            ended,
            RequestActionView::Fail { message },
        ),
        _ => (ended, RequestActionView::Fail { message: "Unknown error"@ }),
    }
}

/// Turns a step of the cache read into the step of the request.
pub fn follow_read<T>(url: String, reader: CacheReader, action: ReadAction) -> (r: (
    Request,
    RequestAction<T>,
))
    ensures
        (r.0@, r.1@) == follow_read_model::<T>(url@, reader@, action@),
{
    match action {
        ReadAction::Hit { contents } => (
            Request { url, stage: RequestStage::Decoding },
            RequestAction::Decode { contents },
        ),
        ReadAction::Miss(_) => {
            let asked = url.clone();
            (Request { url, stage: RequestStage::Fetching }, RequestAction::Fetch { url: asked })
        },
        other => (
            Request { url, stage: RequestStage::Reading(reader) },
            RequestAction::Store(other),
        ),
    }
}

impl Request {
    /// Takes what happened outside and says what comes next, with `now` as the current time
    /// in milliseconds since the Unix epoch.
    pub fn advance_at<T>(self, event: RequestEvent<T>, now: i64) -> (r: (
        Request,
        RequestAction<T>,
    ))
        ensures
            (r.0@, r.1@) == request_advance_model(self@, event@, now as int),
    {
        let url = self.url;
        match (self.stage, event) {
            (RequestStage::Reading(reader), RequestEvent::Store(answer)) => {
                let (next, action) = reader.advance_at(answer, now);
                follow_read(url, next, action)
            },
            (RequestStage::Reading(_), _) => {
                let asked = url.clone();
                (
                    Request { url, stage: RequestStage::Fetching },
                    RequestAction::Fetch { url: asked },
                )
            },
            (RequestStage::Decoding, RequestEvent::Decoded(Some(value))) => (
                Request { url, stage: RequestStage::Done },
                RequestAction::Deliver { value, write_back: false },
            ),
            (RequestStage::Decoding, _) => {
                let asked = url.clone();
                (
                    Request { url, stage: RequestStage::Fetching },
                    RequestAction::Fetch { url: asked },
                )
            },
            (RequestStage::Fetching, RequestEvent::Fetched(Ok(value))) => (
                Request { url, stage: RequestStage::Done },
                RequestAction::Deliver { value, write_back: true },
            ),
            (RequestStage::Fetching, RequestEvent::Fetched(Err(message))) => (
                Request { url, stage: RequestStage::Done },
                RequestAction::Fail { message },
            ),
            _ => (
                Request { url, stage: RequestStage::Done },
                RequestAction::Fail { message: String::from_str("Unknown error") },
            ),
        }
    }

    /// Takes what happened outside and says what comes next. The age of an entry is judged by
    /// the clock.
    pub fn advance<T>(self, event: RequestEvent<T>) -> (r: (Request, RequestAction<T>))
        ensures
            exists|now: int| (r.0@, r.1@) == request_advance_model(self@, event@, now),
    {
        let now = now_millis();
        self.advance_at(event, now)
    }
}

/// The answer of the provider to a request that it refuses.
#[derive(Debug, Clone, PartialEq, Eq)]
pub struct ErrorResponse {
    result: String,
    error_type: String,
}

/// What each error type of the provider means, in words.
pub open spec fn error_text(error_type: Seq<char>) -> Seq<char> {
    if error_type == "invalid-key"@ {
        "Invalid API key"@
    } else if error_type == "unsupported-code"@ {
        "Unsupported currency code"@
    } else if error_type == "malformed-request"@ {
        "Malformed request"@
    } else if error_type == "inactive-account"@ {
        "Inactive account / check the api key"@
    } else if error_type == "quota-reached"@ {
        "Your account has reached the number of requests allowed by your plan"@
    } else {
        "Unknown error"@
    }
}

impl ErrorResponse {
    /// The error type that the provider named.
    pub closed spec fn error_type(&self) -> Seq<char> {
        self.error_type@
    }

    /// The result that the provider named.
    pub closed spec fn result(&self) -> Seq<char> {
        self.result@
    }

    /// An answer with the given parts.
    pub fn new(result: String, error_type: String) -> (r: ErrorResponse)
        ensures
            r.result() == result@,
            r.error_type() == error_type@,
    {
        ErrorResponse { result, error_type }
    }

    /// The error in words.
    pub fn message(&self) -> (r: String)
        ensures
            r@ == error_text(self.error_type()),
    {
        let kind = self.error_type.as_str();
        if same_text(kind, "invalid-key") {
            String::from_str("Invalid API key")
        } else if same_text(kind, "unsupported-code") {
            String::from_str("Unsupported currency code")
        } else if same_text(kind, "malformed-request") {
            String::from_str("Malformed request")
        } else if same_text(kind, "inactive-account") {
            String::from_str("Inactive account / check the api key")
        } else if same_text(kind, "quota-reached") {
            String::from_str(
                "Your account has reached the number of requests allowed by your plan",
            )
        } else {
            String::from_str("Unknown error")
        }
    }
}

} // verus!
