//! Usage telemetry: configuration, the metrics kept between events, and the
//! identifiers that events carry. Delivery is the host's business.

use crate::platform::Platform;
use crate::text::{chars_of, string_of, strings, trim, trimmed};
use vstd::prelude::*;
use vstd::string::*;

verus! {

/// The first of the candidates that is present.
pub open spec fn first_present(candidates: Seq<Option<String>>) -> Option<Seq<char>>
    decreases candidates.len(),
{
    if candidates.len() == 0 {
        None
    } else {
        match candidates[0] {
            Some(s) => Some(s@),
            None => first_present(candidates.drop_first()),
        }
    }
}

/// The variables that configure telemetry, as the host read them, and the
/// values compiled into the build.
pub struct TelemetrySources {
    /// API token candidates, in order of precedence.
    pub api_token: Vec<Option<String>>,
    /// Dataset candidates, in order of precedence.
    pub dataset: Vec<Option<String>>,
    /// Organisation identifier candidates, in order of precedence.
    pub org_id: Vec<Option<String>>,
}

/// Why telemetry could not be configured or started.
#[derive(Clone, Copy, Debug, PartialEq, Eq, Structural)]
pub enum TelemetryError {
    /// No API token is set.
    MissingToken,
    /// Telemetry was started before.
    AlreadyInitialized,
}

/// Where events go.
pub struct TelemetryConfig {
    pub api_token: String,
    pub dataset: String,
    pub org_id: Option<String>,
}

/// The dataset used where none is configured.
pub open spec fn default_dataset() -> Seq<char> {
    "v2rayx-usage"@
}

fn pick_first(candidates: &Vec<Option<String>>) -> (picked: Option<String>)
    ensures
        match picked {
            Some(s) => first_present(candidates@) == Some(s@),
            None => first_present(candidates@) is None,
        },
{
    let mut i: usize = 0;
    assert(candidates@.skip(0) =~= candidates@);
    while i < candidates.len()
        invariant
            i <= candidates.len(),
            first_present(candidates@) == first_present(candidates@.skip(i as int)),
        decreases candidates.len() - i,
    {
        assert(candidates@.skip(i as int).drop_first() =~= candidates@.skip(i + 1));
        match &candidates[i] {
            Some(s) => {
                return Some(s.clone());
            },
            None => {},
        }
        i += 1;
    }
    None
}

impl TelemetryConfig {
    /// Chooses the configuration among the candidates: for each setting the
    /// first candidate that is present. A token is required; the dataset has
    /// a default; the organisation is optional.
    pub fn from_env(sources: &TelemetrySources) -> (result: Result<Self, TelemetryError>)
        ensures
            match result {
                Ok(config) => {
                    &&& first_present(sources.api_token@) == Some(config.api_token@)
                    &&& config.dataset@ == (match first_present(sources.dataset@) {
                        Some(d) => d,
                        None => default_dataset(),
                    })
                    &&& (match config.org_id {
                        Some(o) => first_present(sources.org_id@) == Some(o@),
                        None => first_present(sources.org_id@) is None,
                    })
                },
                Err(e) => e == TelemetryError::MissingToken && first_present(sources.api_token@)
                    is None,
            },
    {
        let api_token = match pick_first(&sources.api_token) {
            Some(t) => t,
            None => {
                return Err(TelemetryError::MissingToken);
            },
        };
        let dataset = match pick_first(&sources.dataset) {
            Some(d) => d,
            None => "v2rayx-usage".to_owned(),
        };
        let org_id = pick_first(&sources.org_id);
        Ok(TelemetryConfig { api_token, dataset, org_id })
    }
}

/// What the application has used since start.
pub struct UsageMetrics {
    pub uptime_seconds: i64,
    pub proxy_mode: Option<String>,
    pub features_used: Vec<String>,
    pub connection_attempts: u32,
    pub connection_successes: u32,
    /// When the metrics last changed, in seconds since the epoch.
    pub last_updated: i64,
}

impl UsageMetrics {
    /// Metrics of a fresh start, stamped with the current time.
    pub fn new(now: i64) -> (metrics: Self)
        ensures
            metrics.uptime_seconds == 0,
            metrics.proxy_mode is None,
            metrics.features_used@.len() == 0,
            metrics.connection_attempts == 0,
            metrics.connection_successes == 0,
            metrics.last_updated == now,
    {
        UsageMetrics {
            uptime_seconds: 0,
            proxy_mode: None,
            features_used: Vec::new(),
            connection_attempts: 0,
            connection_successes: 0,
            last_updated: now,
        }
    }

    /// Whether the feature was recorded before.
    pub fn has_feature(&self, feature: &str) -> (found: bool)
        ensures
            found == strings(self.features_used@).contains(feature@),
    {
        let wanted = feature.to_owned();
        let mut i: usize = 0;
        while i < self.features_used.len()
            invariant
                i <= self.features_used.len(),
                wanted@ == feature@,
                forall|k: int| 0 <= k < i ==> strings(self.features_used@)[k] != feature@,
            decreases self.features_used.len() - i,
        {
            if self.features_used[i] == wanted {
                assert(strings(self.features_used@)[i as int] == feature@);
                return true;
            }
            i += 1;
        }
        false
    }
}

/// The telemetry state of the application: constructed once, handed to
/// whoever reports.
pub struct Telemetry {
    pub initialized: bool,
    pub dataset: Option<String>,
    pub metrics: UsageMetrics,
    pub client_ip: Option<String>,
    pub device_id: Option<String>,
    pub last_active_date: Option<String>,
}

impl Telemetry {
    /// Telemetry that was not started: nothing is recorded or sent.
    pub fn new(now: i64) -> (ctx: Self)
        ensures
            !ctx.initialized,
            ctx.dataset is None,
            ctx.client_ip is None,
            ctx.device_id is None,
            ctx.last_active_date is None,
            ctx.metrics.uptime_seconds == 0,
            ctx.metrics.proxy_mode is None,
            ctx.metrics.features_used@.len() == 0,
            ctx.metrics.connection_attempts == 0,
            ctx.metrics.connection_successes == 0,
            ctx.metrics.last_updated == now,
    {
        Telemetry {
            initialized: false,
            dataset: None,
            metrics: UsageMetrics::new(now),
            client_ip: None,
            device_id: None,
            last_active_date: None,
        }
    }
}

/// Starts telemetry with the given configuration. It can be started once.
pub fn init_axiom_client(ctx: &mut Telemetry, config: TelemetryConfig, now: i64) -> (result:
    Result<(), TelemetryError>)
    ensures
        match result {
            Ok(_) => {
                &&& !old(ctx).initialized
                &&& final(ctx).initialized
                &&& final(ctx).dataset == Some(config.dataset)
                &&& final(ctx).metrics.uptime_seconds == 0
                &&& final(ctx).metrics.proxy_mode is None
                &&& final(ctx).metrics.features_used@.len() == 0
                &&& final(ctx).metrics.connection_attempts == 0
                &&& final(ctx).metrics.connection_successes == 0
                &&& final(ctx).metrics.last_updated == now
                &&& final(ctx).client_ip is None
                &&& final(ctx).device_id is None
                &&& final(ctx).last_active_date is None
            },
            Err(e) => e == TelemetryError::AlreadyInitialized && old(ctx).initialized && *final(ctx)
                == *old(ctx),
        },
{
    if ctx.initialized {
        return Err(TelemetryError::AlreadyInitialized);
    }
    ctx.initialized = true;
    ctx.dataset = Some(config.dataset);
    ctx.metrics = UsageMetrics::new(now);
    ctx.client_ip = None;
    ctx.device_id = None;
    ctx.last_active_date = None;
    Ok(())
}

/// Whether telemetry was started.
pub fn is_initialized(ctx: &Telemetry) -> (started: bool)
    ensures
        started == ctx.initialized,
{
    ctx.initialized
}

/// The dataset that events go to, once telemetry was started.
pub fn get_dataset(ctx: &Telemetry) -> (dataset: Option<String>)
    ensures
        match dataset {
            Some(d) => ctx.dataset is Some && d@ == ctx.dataset->0@,
            None => ctx.dataset is None,
        },
{
    match &ctx.dataset {
        Some(d) => Some(d.clone()),
        None => None,
    }
}

/// The name under which events report the operating system.
pub open spec fn os_name(platform: Platform) -> Seq<char> {
    match platform {
        Platform::MacOs => "macos"@,
        Platform::Windows => "windows"@,
        Platform::Linux => "linux"@,
        Platform::Other => "unknown"@,
    }
}

pub fn get_os(platform: Platform) -> (name: String)
    ensures
        name@ == os_name(platform),
{
    match platform {
        Platform::MacOs => "macos".to_owned(),
        Platform::Windows => "windows".to_owned(),
        Platform::Linux => "linux".to_owned(),
        Platform::Other => "unknown".to_owned(),
    }
}

/// Whether two states differ in their metrics at most.
pub open spec fn same_session(before: Telemetry, after: Telemetry) -> bool {
    &&& after.initialized == before.initialized
    &&& after.dataset == before.dataset
    &&& after.client_ip == before.client_ip
    &&& after.device_id == before.device_id
    &&& after.last_active_date == before.last_active_date
}

/// Records that a feature was used; each feature is recorded once.
pub fn track_feature_usage(ctx: &mut Telemetry, feature: &str, now: i64)
    ensures
        same_session(*old(ctx), *final(ctx)),
        old(ctx).initialized && !strings(old(ctx).metrics.features_used@).contains(feature@) ==> {
            &&& strings(final(ctx).metrics.features_used@) == strings(
                old(ctx).metrics.features_used@,
            ).push(feature@)
            &&& final(ctx).metrics.last_updated == now
            &&& final(ctx).metrics.uptime_seconds == old(ctx).metrics.uptime_seconds
            &&& final(ctx).metrics.proxy_mode == old(ctx).metrics.proxy_mode
            &&& final(ctx).metrics.connection_attempts == old(ctx).metrics.connection_attempts
            &&& final(ctx).metrics.connection_successes == old(ctx).metrics.connection_successes
        },
        !old(ctx).initialized || strings(old(ctx).metrics.features_used@).contains(feature@)
            ==> *final(ctx) == *old(ctx),
{
    if ctx.initialized && !ctx.metrics.has_feature(feature) {
        let ghost before = strings(ctx.metrics.features_used@);
        ctx.metrics.features_used.push(feature.to_owned());
        ctx.metrics.last_updated = now;
        assert(strings(ctx.metrics.features_used@) =~= before.push(feature@));
    }
}

/// One more than `n`, staying at the largest value once it is reached.
pub open spec fn bumped(n: u32) -> u32 {
    if n < u32::MAX {
        (n + 1) as u32
    } else {
        n
    }
}

fn bump(n: u32) -> (m: u32)
    ensures
        m == bumped(n),
{
    if n < u32::MAX {
        n + 1
    } else {
        n
    }
}

/// Counts a connection attempt, and its success.
pub fn track_connection_attempt(ctx: &mut Telemetry, success: bool, now: i64)
    ensures
        same_session(*old(ctx), *final(ctx)),
        old(ctx).initialized ==> {
            &&& final(ctx).metrics.connection_attempts == bumped(
                old(ctx).metrics.connection_attempts,
            )
            &&& final(ctx).metrics.connection_successes == (if success {
                bumped(old(ctx).metrics.connection_successes)
            } else {
                old(ctx).metrics.connection_successes
            })
            &&& final(ctx).metrics.last_updated == now
            &&& final(ctx).metrics.features_used == old(ctx).metrics.features_used
            &&& final(ctx).metrics.uptime_seconds == old(ctx).metrics.uptime_seconds
            &&& final(ctx).metrics.proxy_mode == old(ctx).metrics.proxy_mode
        },
        !old(ctx).initialized ==> *final(ctx) == *old(ctx),
{
    if ctx.initialized {
        ctx.metrics.connection_attempts = bump(ctx.metrics.connection_attempts);
        if success {
            ctx.metrics.connection_successes = bump(ctx.metrics.connection_successes);
        }
        ctx.metrics.last_updated = now;
    }
}

/// Records the proxy mode in use.
pub fn update_proxy_mode(ctx: &mut Telemetry, mode: &str, now: i64)
    ensures
        same_session(*old(ctx), *final(ctx)),
        old(ctx).initialized ==> {
            &&& final(ctx).metrics.proxy_mode is Some
            &&& final(ctx).metrics.proxy_mode->0@ == mode@
            &&& final(ctx).metrics.last_updated == now
            &&& final(ctx).metrics.features_used == old(ctx).metrics.features_used
            &&& final(ctx).metrics.uptime_seconds == old(ctx).metrics.uptime_seconds
            &&& final(ctx).metrics.connection_attempts == old(ctx).metrics.connection_attempts
            &&& final(ctx).metrics.connection_successes == old(ctx).metrics.connection_successes
        },
        !old(ctx).initialized ==> *final(ctx) == *old(ctx),
{
    if ctx.initialized {
        ctx.metrics.proxy_mode = Some(mode.to_owned());
        ctx.metrics.last_updated = now;
    }
}

/// Records for how long the application has run.
pub fn update_uptime(ctx: &mut Telemetry, uptime_seconds: i64, now: i64)
    ensures
        same_session(*old(ctx), *final(ctx)),
        old(ctx).initialized ==> {
            &&& final(ctx).metrics.uptime_seconds == uptime_seconds
            &&& final(ctx).metrics.last_updated == now
            &&& final(ctx).metrics.features_used == old(ctx).metrics.features_used
            &&& final(ctx).metrics.proxy_mode == old(ctx).metrics.proxy_mode
            &&& final(ctx).metrics.connection_attempts == old(ctx).metrics.connection_attempts
            &&& final(ctx).metrics.connection_successes == old(ctx).metrics.connection_successes
        },
        !old(ctx).initialized ==> *final(ctx) == *old(ctx),
{
    if ctx.initialized {
        ctx.metrics.uptime_seconds = uptime_seconds;
        ctx.metrics.last_updated = now;
    }
}

/// Whether a daily-active event is due for `today`: telemetry runs and the
/// day differs from the one last reported.
pub open spec fn daily_active_due(ctx: Telemetry, today: Seq<char>) -> bool {
    ctx.initialized && !(ctx.last_active_date matches Some(d) && d@ == today)
}

/// Decides whether to report the device as active today, and remembers the
/// day if so.
pub fn track_daily_active(ctx: &mut Telemetry, today: &str) -> (due: bool)
    ensures
        due == daily_active_due(*old(ctx), today@),
        due ==> final(ctx).last_active_date is Some && final(ctx).last_active_date->0@ == today@,
        !due ==> *final(ctx) == *old(ctx),
        final(ctx).initialized == old(ctx).initialized,
        final(ctx).metrics == old(ctx).metrics,
        final(ctx).dataset == old(ctx).dataset,
        final(ctx).client_ip == old(ctx).client_ip,
        final(ctx).device_id == old(ctx).device_id,
{
    if !ctx.initialized {
        return false;
    }
    let day = today.to_owned();
    let seen = match &ctx.last_active_date {
        Some(d) => *d == day,
        None => false,
    };
    if seen {
        return false;
    }
    ctx.last_active_date = Some(day);
    true
}

/// The SHA-256 digest of the UTF-8 bytes of a text, in lower-case
/// hexadecimal digits.
pub uninterp spec fn sha256_hex(text: Seq<char>) -> Seq<char>;

/// `sha2::Sha256` over the bytes of the identifier, the digest printed with
/// `{:x}`: users are reported by this digest, never by their identifier.
#[verifier::external_body]
pub(crate) fn hash_user_id(user_id: &str) -> (digest: String)
    ensures
        digest@ == sha256_hex(user_id@),
{
    let mut hasher = <sha2::Sha256 as sha2::Digest>::new();
    sha2::Digest::update(&mut hasher, user_id.as_bytes());
    format!("{:x}", sha2::Digest::finalize(hasher))
}

/// Whether a text reads as a UUID.
pub uninterp spec fn is_uuid_text(text: Seq<char>) -> bool;

/// `uuid::Uuid::parse_str`: whether the text parses as a UUID.
#[verifier::external_body]
pub(crate) fn parses_as_uuid(text: &str) -> (valid: bool)
    ensures
        valid == is_uuid_text(text@),
{
    uuid::Uuid::parse_str(text).is_ok()
}

/// The device identifier that a stored text holds: the text without
/// surrounding white space, if that is a UUID.
pub open spec fn stored_device_id(content: Seq<char>) -> Option<Seq<char>> {
    let id = trimmed(content);
    if id.len() > 0 && is_uuid_text(id) {
        Some(id)
    } else {
        None
    }
}

/// Reads a device identifier out of the content of its file.
pub fn read_device_id(content: &str) -> (id: Option<String>)
    ensures
        match id {
            Some(s) => stored_device_id(content@) == Some(s@),
            None => stored_device_id(content@) is None,
        },
{
    let id = string_of(&trim(&chars_of(content)));
    if id.as_str().unicode_len() > 0 && parses_as_uuid(id.as_str()) {
        Some(id)
    } else {
        None
    }
}

/// Where a device identifier comes from.
#[derive(Clone, Copy, Debug, PartialEq, Eq, Structural)]
pub enum DeviceIdSource {
    /// It was known already.
    Cache,
    /// It was read from its file.
    File,
    /// It is new and has to be written to its file.
    Fresh,
}

/// The identifier to use and where it comes from: the cached one; else the
/// stored one, if valid; else the fresh one.
pub open spec fn device_id_choice(
    cached: Option<String>,
    stored: Option<Seq<char>>,
    fresh: Seq<char>,
) -> (Seq<char>, DeviceIdSource) {
    match cached {
        Some(id) => (id@, DeviceIdSource::Cache),
        None => match stored {
            Some(content) => match stored_device_id(content) {
                Some(id) => (id, DeviceIdSource::File),
                None => (fresh, DeviceIdSource::Fresh),
            },
            None => (fresh, DeviceIdSource::Fresh),
        },
    }
}

/// Settles the device identifier and remembers it. `stored` is the content
/// of the identifier file, if it could be read; `fresh` is a newly generated
/// identifier, used where no other is valid.
pub fn get_or_generate_device_id(ctx: &mut Telemetry, stored: Option<&str>, fresh: &str) -> (chosen:
    (String, DeviceIdSource))
    ensures
        (chosen.0@, chosen.1) == device_id_choice(
            old(ctx).device_id,
            match stored {
                Some(s) => Some(s@),
                None => None,
            },
            fresh@,
        ),
        final(ctx).device_id is Some,
        final(ctx).device_id->0@ == chosen.0@,
        final(ctx).initialized == old(ctx).initialized,
        final(ctx).metrics == old(ctx).metrics,
        final(ctx).dataset == old(ctx).dataset,
        final(ctx).client_ip == old(ctx).client_ip,
        final(ctx).last_active_date == old(ctx).last_active_date,
{
    match &ctx.device_id {
        Some(id) => {
            return (id.clone(), DeviceIdSource::Cache);
        },
        None => {},
    }
    let from_file = match stored {
        Some(content) => read_device_id(content),
        None => None,
    };
    match from_file {
        Some(id) => {
            ctx.device_id = Some(id.clone());
            (id, DeviceIdSource::File)
        },
        None => {
            ctx.device_id = Some(fresh.to_owned());
            (fresh.to_owned(), DeviceIdSource::Fresh)
        },
    }
}

/// The name under which the application keeps its files, where none is
/// configured.
pub open spec fn default_app_name() -> Seq<char> {
    "v2rayx.shaonhuang"@
}

/// The folders from the base folder down to the application's own folder.
pub open spec fn config_folders(platform: Platform, app_name: Seq<char>) -> Seq<Seq<char>> {
    match platform {
        Platform::MacOs => seq!["Library"@, "Application Support"@, app_name],
        Platform::Windows => seq![app_name],
        Platform::Linux => seq![".config"@, app_name],
        Platform::Other => Seq::empty(),
    }
}

/// Where the device identifier is kept when the host knows no better place:
/// the base folder (the home folder, on Windows the application data
/// folder), the folders down to the application's own, and the file name.
/// Without a base folder, and on a system that is not known, there is no
/// such place.
pub open spec fn device_id_path(
    platform: Platform,
    base: Option<Seq<char>>,
    app_name: Option<Seq<char>>,
) -> Option<Seq<Seq<char>>> {
    match base {
        Some(folder) => if platform == Platform::Other {
            None
        } else {
            Some(
                seq![folder] + config_folders(
                    platform,
                    match app_name {
                        Some(name) => name,
                        None => default_app_name(),
                    },
                ) + seq!["device_id.txt"@],
            )
        },
        None => None,
    }
}

/// Builds the place of the device identifier file, as path segments.
pub fn get_device_id_file_path(platform: Platform, base: Option<&str>, app_name: Option<&str>) -> (path:
    Option<Vec<String>>)
    ensures
        match path {
            Some(segments) => device_id_path(
                platform,
                match base {
                    Some(b) => Some(b@),
                    None => None,
                },
                match app_name {
                    Some(n) => Some(n@),
                    None => None,
                },
            ) == Some(strings(segments@)),
            None => device_id_path(
                platform,
                match base {
                    Some(b) => Some(b@),
                    None => None,
                },
                match app_name {
                    Some(n) => Some(n@),
                    None => None,
                },
            ) is None,
        },
{
    let folder = match base {
        Some(b) => b,
        None => {
            return None;
        },
    };
    let name: &str = match app_name {
        Some(n) => n,
        None => "v2rayx.shaonhuang",
    };
    let mut segments: Vec<String> = Vec::new();
    segments.push(folder.to_owned());
    match platform {
        Platform::MacOs => {
            segments.push("Library".to_owned());
            segments.push("Application Support".to_owned());
            segments.push(name.to_owned());
        },
        Platform::Windows => {
            segments.push(name.to_owned());
        },
        Platform::Linux => {
            segments.push(".config".to_owned());
            segments.push(name.to_owned());
        },
        Platform::Other => {
            return None;
        },
    }
    segments.push("device_id.txt".to_owned());
    assert(strings(segments@) =~= seq![folder@] + config_folders(platform, name@) + seq![
        "device_id.txt"@,
    ]);
    Some(segments)
}

} // verus!
