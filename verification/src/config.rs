//! The settings of the exporter: what the configuration sources give, as
//! optional text, and what the program runs with once they are validated.

use vstd::prelude::*;
use crate::decimal::{is_digit, parse_u32, parsed_u32};

verus! {

/// A span of time: whole seconds and the nanoseconds beyond them.
#[derive(Clone, Copy, Debug, PartialEq, Eq, Structural)]
pub struct Period {
    pub secs: u64,
    pub nanos: u32,
}

impl Period {
    /// A period of whole seconds.
    pub fn from_secs(secs: u64) -> (period: Period)
        ensures
            period == (Period { secs, nanos: 0 }),
    {
        Period { secs, nanos: 0 }
    }
}

/// Asks the file system whether `path` leads to a regular file, with
/// `std::path::Path::is_file`. The answer depends on what is on disk when the
/// call is made, so nothing is claimed of it.
#[verifier::external_body]
fn is_file(path: &str) -> bool {
    std::path::Path::new(path).is_file()
}

/// The path that a setting stands for, given whether it leads to a file: the
/// default where the setting is missing or empty, the setting itself where
/// it leads to a file, and the error otherwise.
pub open spec fn resolved<E>(
    default: Option<Seq<char>>,
    error: E,
    path: Option<Seq<char>>,
    leads_to_file: bool,
) -> Result<Option<Seq<char>>, E> {
    match path {
        None => Ok(default),
        Some(path) => if path.len() == 0 {
            Ok(default)
        } else if leads_to_file {
            Ok(Some(path))
        } else {
            Err(error)
        },
    }
}

/// Whether a setting is a path that has to be looked up on disk.
pub open spec fn is_probed(path: Option<Seq<char>>) -> bool {
    path matches Some(path) && path.len() > 0
}

/// What the outcome of resolving a path holds.
pub open spec fn path_view<E>(outcome: Result<Option<String>, E>) -> Result<Option<Seq<char>>, E> {
    match outcome {
        Ok(path) => Ok(path.deep_view()),
        Err(e) => Err(e),
    }
}

/// Resolves a path setting once it is known whether it leads to a file: see
/// [`resolved`].
pub fn resolve_path<E>(
    default: Option<String>,
    error: E,
    path: Option<String>,
    leads_to_file: bool,
) -> (outcome: Result<Option<String>, E>)
    ensures
        path_view(outcome) == resolved(default.deep_view(), error, path.deep_view(), leads_to_file),
{
    match path {
        None => Ok(default),
        Some(path) => {
            if path.as_str().unicode_len() == 0 {
                Ok(default)
            } else if leads_to_file {
                Ok(Some(path))
            } else {
                Err(error)
            }
        },
    }
}

/// Asks the file system about a path setting that is given and not empty.
/// A setting that is missing or empty is not looked up, and the answer is
/// `false`.
pub fn probe(path: &Option<String>) -> (leads_to_file: bool)
    ensures
        !is_probed(path.deep_view()) ==> !leads_to_file,
{
    match path {
        Some(path) => path.as_str().unicode_len() > 0 && is_file(path.as_str()),
        None => false,
    }
}

/// Resolves a path setting: the default where the setting is missing or
/// empty; otherwise the file system is asked, and the outcome is that of
/// [`resolved`] for its answer.
pub fn parse_path<E: Clone>(default: Option<String>, error: E, path: Option<String>) -> (outcome:
    Result<Option<String>, E>)
    ensures
        exists|leads_to_file: bool|
            path_view(outcome) == #[trigger] resolved(
                default.deep_view(),
                error,
                path.deep_view(),
                leads_to_file,
            ),
        !is_probed(path.deep_view()) ==> path_view(outcome) == Ok::<Option<Seq<char>>, E>(
            default.deep_view(),
        ),
{
    let leads_to_file = probe(&path);
    let outcome = resolve_path(default, error, path, leads_to_file);
    assert(path_view(outcome) == resolved(
        default.deep_view(),
        error,
        path.deep_view(),
        leads_to_file,
    ));
    outcome
}

/// The address and the TLS files that the HTTP server runs with.
#[derive(Debug)]
pub struct ServerConfig {
    pub host: String,
    pub tls_key_path: Option<String>,
    pub tls_cert_path: Option<String>,
}

/// What a [`ServerConfig`] holds.
pub struct ServerConfigView {
    pub host: Seq<char>,
    pub tls_key_path: Option<Seq<char>>,
    pub tls_cert_path: Option<Seq<char>>,
}

impl View for ServerConfig {
    type V = ServerConfigView;

    open spec fn view(&self) -> ServerConfigView {
        ServerConfigView {
            host: self.host@,
            tls_key_path: self.tls_key_path.deep_view(),
            tls_cert_path: self.tls_cert_path.deep_view(),
        }
    }
}

/// The server listens at `[::]:8080`, on every address and without TLS, unless the
/// settings say otherwise.
pub open spec fn default_server() -> ServerConfigView {
    ServerConfigView { host: "[::]:8080"@, tls_key_path: None, tls_cert_path: None }
}

impl Default for ServerConfig {
    fn default() -> (config: Self)
        ensures
            config@ == default_server(),
    {
        ServerConfig { host: "[::]:8080".to_owned(), tls_key_path: None, tls_cert_path: None }
    }
}

/// The server's settings as the configuration sources give them.
#[derive(Debug)]
pub struct ServerSettings {
    pub host: Option<String>,
    pub tls_key_path: Option<String>,
    pub tls_cert_path: Option<String>,
}

/// What [`ServerSettings`] hold.
pub struct ServerSettingsView {
    pub host: Option<Seq<char>>,
    pub tls_key_path: Option<Seq<char>>,
    pub tls_cert_path: Option<Seq<char>>,
}

impl View for ServerSettings {
    type V = ServerSettingsView;

    open spec fn view(&self) -> ServerSettingsView {
        ServerSettingsView {
            host: self.host.deep_view(),
            tls_key_path: self.tls_key_path.deep_view(),
            tls_cert_path: self.tls_cert_path.deep_view(),
        }
    }
}

/// Why the server's settings are refused.
#[derive(Clone, Copy, Debug, PartialEq, Eq, Structural)]
pub enum ServerSettingsError {
    InvalidTlsKeyPath,
    InvalidTlsCertPath,
}

/// The server's configuration for its settings, given whether each of the two
/// paths leads to a file. The key's path is looked at first.
pub open spec fn server_config(
    settings: ServerSettingsView,
    key_is_file: bool,
    cert_is_file: bool,
) -> Result<ServerConfigView, ServerSettingsError> {
    match resolved(
        default_server().tls_key_path,
        ServerSettingsError::InvalidTlsKeyPath,
        settings.tls_key_path,
        key_is_file,
    ) {
        Err(e) => Err(e),
        Ok(tls_key_path) => match resolved(
            default_server().tls_cert_path,
            ServerSettingsError::InvalidTlsCertPath,
            settings.tls_cert_path,
            cert_is_file,
        ) {
            Err(e) => Err(e),
            Ok(tls_cert_path) => Ok(
                ServerConfigView {
                    host: match settings.host {
                        Some(host) => host,
                        None => default_server().host,
                    },
                    tls_key_path,
                    tls_cert_path,
                },
            ),
        },
    }
}

/// What the outcome of validating the server's settings holds.
pub open spec fn server_view(outcome: Result<ServerConfig, ServerSettingsError>) -> Result<
    ServerConfigView,
    ServerSettingsError,
> {
    match outcome {
        Ok(config) => Ok(config@),
        Err(e) => Err(e),
    }
}

impl ServerSettings {
    /// Validates the settings once it is known whether each of the two paths
    /// leads to a file: see [`server_config`].
    pub fn validate(self, key_is_file: bool, cert_is_file: bool) -> (outcome: Result<
        ServerConfig,
        ServerSettingsError,
    >)
        ensures
            server_view(outcome) == server_config(self@, key_is_file, cert_is_file),
    {
        let default = ServerConfig::default();
        let host = match self.host {
            Some(host) => host,
            None => default.host,
        };
        let tls_key_path = match resolve_path(
            default.tls_key_path,
            ServerSettingsError::InvalidTlsKeyPath,
            self.tls_key_path,
            key_is_file,
        ) {
            Ok(path) => path,
            Err(e) => {
                return Err(e);
            },
        };
        let tls_cert_path = match resolve_path(
            default.tls_cert_path,
            ServerSettingsError::InvalidTlsCertPath,
            self.tls_cert_path,
            cert_is_file,
        ) {
            Ok(path) => path,
            Err(e) => {
                return Err(e);
            },
        };
        Ok(ServerConfig { host, tls_key_path, tls_cert_path })
    }

    /// Validates the settings: a missing host is the default one, and each
    /// path that is given and not empty has to lead to a file. The outcome is
    /// that of [`server_config`] for what the file system answers.
    pub fn try_into(self) -> (outcome: Result<ServerConfig, ServerSettingsError>)
        ensures
            exists|key_is_file: bool, cert_is_file: bool|
                server_view(outcome) == #[trigger] server_config(self@, key_is_file, cert_is_file),
            !is_probed(self@.tls_key_path) && !is_probed(self@.tls_cert_path) ==> server_view(outcome)
                == server_config(self@, false, false),
    {
        let key_is_file = probe(&self.tls_key_path);
        let cert_is_file = probe(&self.tls_cert_path);
        let outcome = self.validate(key_is_file, cert_is_file);
        assert(server_view(outcome) == server_config(self@, key_is_file, cert_is_file));
        outcome
    }
}

/// The error of `humantime::parse_duration`.
#[verifier::external_type_specification]
#[verifier::external_body]
pub struct ExDurationError(humantime::DurationError);

/// What `humantime::parse_duration` makes of a text: the seconds and the
/// nanoseconds of the duration, or nothing where it refuses the text.
pub uninterp spec fn humantime_duration(text: Seq<char>) -> Option<(u64, u32)>;

/// How many decimal digits a text holds.
pub open spec fn digit_count(text: Seq<char>) -> nat
    decreases text.len(),
{
    if text.len() == 0 {
        0
    } else {
        digit_count(text.drop_last()) + if is_digit(text.last()) {
            1nat
        } else {
            0nat
        }
    }
}

/// The most digits that the text of a period may hold.
pub const MAX_PERIOD_DIGITS: usize = 11;

/// Calls `humantime::parse_duration` and gives the duration as a [`Period`].
///
/// The call's outcome is a function of the text alone, named
/// [`humantime_duration`]. The parser adds the spans of the text up in a
/// `std::time::Duration`, whose constructor panics once the seconds pass the
/// largest `u64`. With eleven digits in all, the largest unit being a year
/// of 31 557 600 seconds, the sum stays below 3.2e18 seconds, so the text
/// has to hold no more.
#[verifier::external_body]
fn parse_duration(text: &str) -> (outcome: Result<Period, humantime::DurationError>)
    requires
        digit_count(text@) <= MAX_PERIOD_DIGITS,
    ensures
        match outcome {
            Ok(period) => humantime_duration(text@) == Some((period.secs, period.nanos)),
            Err(_) => humantime_duration(text@) is None,
        },
{
    match humantime::parse_duration(text) {
        Ok(duration) => Ok(Period { secs: duration.as_secs(), nanos: duration.subsec_nanos() }),
        Err(e) => Err(e),
    }
}

/// The period that a text stands for: what `humantime` makes of it, as long
/// as it holds no more than [`MAX_PERIOD_DIGITS`] digits.
pub open spec fn period(text: Seq<char>) -> Option<Period> {
    if digit_count(text) <= MAX_PERIOD_DIGITS {
        match humantime_duration(text) {
            Some((secs, nanos)) => Some(Period { secs, nanos }),
            None => None,
        }
    } else {
        None
    }
}

/// The period that an optional text stands for; none for no text.
pub open spec fn optional_period(text: Option<Seq<char>>) -> Option<Period> {
    match text {
        Some(text) => period(text),
        None => None,
    }
}

fn count_digits(text: &str) -> (count: usize)
    ensures
        count == digit_count(text@),
{
    let len = text.unicode_len();
    let mut count: usize = 0;
    let mut i: usize = 0;
    assert(text@.take(0) =~= Seq::<char>::empty());
    while i < len
        invariant
            i <= len,
            len == text@.len(),
            count <= i,
            count == digit_count(text@.take(i as int)),
        decreases len - i,
    {
        let c = text.get_char(i);
        assert(text@.take(i + 1).drop_last() =~= text@.take(i as int));
        assert(text@.take(i + 1).last() == c);
        if c >= '0' && c <= '9' {
            count += 1;
        }
        i += 1;
    }
    assert(text@.take(i as int) =~= text@);
    count
}

/// Reads a period such as `15s` or `1m 30s`: see [`period`].
pub fn parse_period(text: &str) -> (outcome: Option<Period>)
    ensures
        outcome == period(text@),
{
    if count_digits(text) > MAX_PERIOD_DIGITS {
        return None;
    }
    match parse_duration(text) {
        Ok(period) => Some(period),
        Err(_) => None,
    }
}

/// The pieces of `text` from `at` on, where the piece that `at` lies in began
/// at `begin`: a piece ends before each comma and at the end of the text, and
/// no piece follows a comma that ends the text.
pub open spec fn pieces_from(text: Seq<char>, begin: int, at: int) -> Seq<Seq<char>>
    decreases text.len() - at,
{
    if at >= text.len() {
        if begin >= text.len() {
            Seq::empty()
        } else {
            seq![text.subrange(begin, text.len() as int)]
        }
    } else if text[at] == ',' {
        seq![text.subrange(begin, at)] + pieces_from(text, at + 1, at + 1)
    } else {
        pieces_from(text, begin, at + 1)
    }
}

/// The pieces of a text between its commas. A comma at the end of the text
/// ends the last piece and begins no other, so the empty text has no piece.
pub open spec fn pieces(text: Seq<char>) -> Seq<Seq<char>> {
    pieces_from(text, 0, 0)
}

/// The spans that a text lists: the number of each of its pieces, as long as
/// each piece is a `u32` in decimal.
pub open spec fn listed_spans(text: Seq<char>) -> Option<Seq<u32>> {
    let pieces = pieces(text);
    if forall|i: int| 0 <= i < pieces.len() ==> parsed_u32(#[trigger] pieces[i]) is Some {
        Some(Seq::new(pieces.len(), |i: int| parsed_u32(pieces[i]).unwrap()))
    } else {
        None
    }
}

/// Reads a list of spans such as `30,180,720`: see [`listed_spans`].
pub fn parse_block_spans(text: &str) -> (outcome: Option<Vec<u32>>)
    ensures
        outcome matches Some(spans) ==> listed_spans(text@) == Some(spans@),
        outcome is None ==> listed_spans(text@) is None,
{
    let len = text.unicode_len();
    let mut spans: Vec<u32> = Vec::new();
    let ghost mut done: Seq<Seq<char>> = Seq::empty();
    let mut begin: usize = 0;
    let mut at: usize = 0;
    assert(done + pieces_from(text@, 0, 0) =~= pieces(text@));
    while at < len
        invariant
            begin <= at <= len,
            len == text@.len(),
            pieces(text@) == done + pieces_from(text@, begin as int, at as int),
            spans@.len() == done.len(),
            forall|j: int| 0 <= j < done.len() ==> parsed_u32(#[trigger] done[j]) == Some(spans@[j]),
        decreases len - at,
    {
        if text.get_char(at) == ',' {
            let piece = text.substring_char(begin, at);
            let ghost rest = pieces_from(text@, at + 1, at + 1);
            assert(pieces(text@) =~= done.push(piece@) + rest);
            match parse_u32(piece) {
                Some(span) => {
                    spans.push(span);
                },
                None => {
                    assert(pieces(text@)[done.len() as int] == piece@);
                    return None;
                },
            }
            proof {
                done = done.push(piece@);
            }
            begin = at + 1;
        }
        at += 1;
    }
    if begin < len {
        let piece = text.substring_char(begin, len);
        assert(pieces(text@) =~= done.push(piece@));
        match parse_u32(piece) {
            Some(span) => {
                spans.push(span);
            },
            None => {
                assert(pieces(text@)[done.len() as int] == piece@);
                return None;
            },
        }
        proof {
            done = done.push(piece@);
        }
    } else {
        assert(pieces(text@) =~= done);
    }
    assert(spans@ =~= listed_spans(text@).unwrap());
    Some(spans)
}

/// The daemon's address and how its RPC interface is called.
#[derive(Debug)]
pub struct MonerodConfig {
    pub base_url: String,
    pub tls_cert_path: Option<String>,
    pub skip_tls_verification: bool,
    pub timeout: Period,
}

/// What a [`MonerodConfig`] holds.
pub struct MonerodConfigView {
    pub base_url: Seq<char>,
    pub tls_cert_path: Option<Seq<char>>,
    pub skip_tls_verification: bool,
    pub timeout: Period,
}

impl View for MonerodConfig {
    type V = MonerodConfigView;

    open spec fn view(&self) -> MonerodConfigView {
        MonerodConfigView {
            base_url: self.base_url@,
            tls_cert_path: self.tls_cert_path.deep_view(),
            skip_tls_verification: self.skip_tls_verification,
            timeout: self.timeout,
        }
    }
}

/// The daemon is looked for on this machine, at `localhost:18081` over plain HTTP,
/// and given one second to answer, unless the settings say otherwise.
pub open spec fn default_monerod() -> MonerodConfigView {
    MonerodConfigView {
        base_url: "http://localhost:18081"@,
        tls_cert_path: None,
        skip_tls_verification: false,
        timeout: Period { secs: 1, nanos: 0 },
    }
}

impl Default for MonerodConfig {
    fn default() -> (config: Self)
        ensures
            config@ == default_monerod(),
    {
        MonerodConfig {
            base_url: "http://localhost:18081".to_owned(),
            tls_cert_path: None,
            skip_tls_verification: false,
            timeout: Period::from_secs(1),
        }
    }
}

/// The daemon's settings as the configuration sources give them.
#[derive(Debug)]
pub struct MonerodSettings {
    pub base_url: Option<String>,
    pub tls_cert_path: Option<String>,
    pub skip_tls_verification: Option<bool>,
    pub timeout: Option<String>,
}

/// What [`MonerodSettings`] hold.
pub struct MonerodSettingsView {
    pub base_url: Option<Seq<char>>,
    pub tls_cert_path: Option<Seq<char>>,
    pub skip_tls_verification: Option<bool>,
    pub timeout: Option<Seq<char>>,
}

impl View for MonerodSettings {
    type V = MonerodSettingsView;

    open spec fn view(&self) -> MonerodSettingsView {
        MonerodSettingsView {
            base_url: self.base_url.deep_view(),
            tls_cert_path: self.tls_cert_path.deep_view(),
            skip_tls_verification: self.skip_tls_verification,
            timeout: self.timeout.deep_view(),
        }
    }
}

/// Why the daemon's settings are refused.
#[derive(Clone, Copy, Debug, PartialEq, Eq, Structural)]
pub enum MonerodSettingsError {
    InvalidTlsCertPath,
    InvalidTimeout,
}

/// The period of a setting, given the period that its text stands for: the
/// default for a missing setting, and nothing for a text that stands for no
/// period.
pub open spec fn period_or(
    default: Period,
    setting: Option<Seq<char>>,
    parsed: Option<Period>,
) -> Option<Period> {
    match setting {
        None => Some(default),
        Some(_) => parsed,
    }
}

/// The daemon's configuration for its settings, given whether the
/// certificate's path leads to a file and the period that the timeout's text
/// stands for. The path is looked at first.
pub open spec fn monerod_config(
    settings: MonerodSettingsView,
    cert_is_file: bool,
    timeout: Option<Period>,
) -> Result<MonerodConfigView, MonerodSettingsError> {
    match resolved(
        default_monerod().tls_cert_path,
        MonerodSettingsError::InvalidTlsCertPath,
        settings.tls_cert_path,
        cert_is_file,
    ) {
        Err(e) => Err(e),
        Ok(tls_cert_path) => match period_or(default_monerod().timeout, settings.timeout, timeout) {
            None => Err(MonerodSettingsError::InvalidTimeout),
            Some(timeout) => Ok(
                MonerodConfigView {
                    base_url: match settings.base_url {
                        Some(base_url) => base_url,
                        None => default_monerod().base_url,
                    },
                    tls_cert_path,
                    skip_tls_verification: match settings.skip_tls_verification {
                        Some(skip) => skip,
                        None => default_monerod().skip_tls_verification,
                    },
                    timeout,
                },
            ),
        },
    }
}

/// What the outcome of validating the daemon's settings holds.
pub open spec fn monerod_view(outcome: Result<MonerodConfig, MonerodSettingsError>) -> Result<
    MonerodConfigView,
    MonerodSettingsError,
> {
    match outcome {
        Ok(config) => Ok(config@),
        Err(e) => Err(e),
    }
}

/// Reads the period of a setting that is given; none for a missing one.
pub fn parse_optional_period(setting: &Option<String>) -> (outcome: Option<Period>)
    ensures
        outcome == optional_period(setting.deep_view()),
{
    match setting {
        Some(text) => parse_period(text.as_str()),
        None => None,
    }
}

impl MonerodSettings {
    /// Validates the settings once it is known whether the certificate's
    /// path leads to a file and which period the timeout's text stands for:
    /// see [`monerod_config`].
    pub fn validate(self, cert_is_file: bool, timeout: Option<Period>) -> (outcome: Result<
        MonerodConfig,
        MonerodSettingsError,
    >)
        ensures
            monerod_view(outcome) == monerod_config(self@, cert_is_file, timeout),
    {
        let default = MonerodConfig::default();
        let base_url = match self.base_url {
            Some(base_url) => base_url,
            None => default.base_url,
        };
        let tls_cert_path = match resolve_path(
            default.tls_cert_path,
            MonerodSettingsError::InvalidTlsCertPath,
            self.tls_cert_path,
            cert_is_file,
        ) {
            Ok(path) => path,
            Err(e) => {
                return Err(e);
            },
        };
        let skip_tls_verification = match self.skip_tls_verification {
            Some(skip) => skip,
            None => default.skip_tls_verification,
        };
        let timeout = match self.timeout {
            None => default.timeout,
            Some(_) => match timeout {
                Some(timeout) => timeout,
                None => {
                    return Err(MonerodSettingsError::InvalidTimeout);
                },
            },
        };
        Ok(MonerodConfig { base_url, tls_cert_path, skip_tls_verification, timeout })
    }

    /// Validates the settings: what is missing is the default, a path that
    /// is given and not empty has to lead to a file, and a timeout that is
    /// given has to be a period. The outcome is that of [`monerod_config`]
    /// for what the file system answers.
    pub fn try_into(self) -> (outcome: Result<MonerodConfig, MonerodSettingsError>)
        ensures
            exists|cert_is_file: bool|
                monerod_view(outcome) == #[trigger] monerod_config(
                    self@,
                    cert_is_file,
                    optional_period(self@.timeout),
                ),
            !is_probed(self@.tls_cert_path) ==> monerod_view(outcome) == monerod_config(
                self@,
                false,
                optional_period(self@.timeout),
            ),
    {
        let cert_is_file = probe(&self.tls_cert_path);
        let timeout = parse_optional_period(&self.timeout);
        let outcome = self.validate(cert_is_file, timeout);
        assert(monerod_view(outcome) == monerod_config(
            self@,
            cert_is_file,
            optional_period(self@.timeout),
        ));
        outcome
    }
}

/// What the exporter runs with.
#[derive(Debug)]
pub struct Config {
    pub refresh_interval: Period,
    pub block_spans: Vec<u32>,
    pub server: ServerConfig,
    pub monerod: MonerodConfig,
}

/// What a [`Config`] holds.
pub struct ConfigView {
    pub refresh_interval: Period,
    pub block_spans: Seq<u32>,
    pub server: ServerConfigView,
    pub monerod: MonerodConfigView,
}

impl View for Config {
    type V = ConfigView;

    open spec fn view(&self) -> ConfigView {
        ConfigView {
            refresh_interval: self.refresh_interval,
            block_spans: self.block_spans@,
            server: self.server@,
            monerod: self.monerod@,
        }
    }
}

/// A cycle every fifteen seconds over the spans of 30, 180 and 720 blocks,
/// with the default server and the default daemon, unless the settings say
/// otherwise.
pub open spec fn default_config() -> ConfigView {
    ConfigView {
        refresh_interval: Period { secs: 15, nanos: 0 },
        block_spans: seq![30u32, 180u32, 720u32],
        server: default_server(),
        monerod: default_monerod(),
    }
}

impl Default for Config {
    fn default() -> (config: Self)
        ensures
            config@ == default_config(),
    {
        let mut block_spans: Vec<u32> = Vec::new();
        block_spans.push(30);
        block_spans.push(180);
        block_spans.push(720);
        assert(block_spans@ =~= seq![30u32, 180u32, 720u32]);
        Config {
            refresh_interval: Period::from_secs(15),
            block_spans,
            server: ServerConfig::default(),
            monerod: MonerodConfig::default(),
        }
    }
}

/// All settings as the configuration sources give them.
#[derive(Debug)]
pub struct Settings {
    pub refresh_interval: Option<String>,
    pub block_spans: Option<String>,
    pub server: Option<ServerSettings>,
    pub monerod: Option<MonerodSettings>,
}

/// What [`Settings`] hold.
pub struct SettingsView {
    pub refresh_interval: Option<Seq<char>>,
    pub block_spans: Option<Seq<char>>,
    pub server: Option<ServerSettingsView>,
    pub monerod: Option<MonerodSettingsView>,
}

impl View for Settings {
    type V = SettingsView;

    open spec fn view(&self) -> SettingsView {
        SettingsView {
            refresh_interval: self.refresh_interval.deep_view(),
            block_spans: self.block_spans.deep_view(),
            server: match self.server {
                Some(server) => Some(server@),
                None => None,
            },
            monerod: match self.monerod {
                Some(monerod) => Some(monerod@),
                None => None,
            },
        }
    }
}

/// Why settings are refused.
#[derive(Clone, Copy, Debug, PartialEq, Eq, Structural)]
pub enum SettingsError {
    InvalidRefreshInterval,
    InvalidBlockSpans,
    ServerSettings(ServerSettingsError),
    MonerodSettings(MonerodSettingsError),
}

/// What validation learns from outside the settings: whether each path leads
/// to a file, and which period each text stands for.
#[derive(Clone, Copy, Debug, PartialEq, Eq, Structural)]
pub struct Findings {
    pub refresh_interval: Option<Period>,
    pub server_key_is_file: bool,
    pub server_cert_is_file: bool,
    pub monerod_cert_is_file: bool,
    pub monerod_timeout: Option<Period>,
}

/// The spans of a setting: the default ones for a missing setting, and
/// nothing for a text that is no list of spans.
pub open spec fn spans_or(default: Seq<u32>, setting: Option<Seq<char>>) -> Option<Seq<u32>> {
    match setting {
        None => Some(default),
        Some(text) => listed_spans(text),
    }
}

/// The server's part of a configuration.
pub open spec fn server_part(settings: Option<ServerSettingsView>, findings: Findings) -> Result<
    ServerConfigView,
    ServerSettingsError,
> {
    match settings {
        None => Ok(default_server()),
        Some(server) => server_config(
            server,
            findings.server_key_is_file,
            findings.server_cert_is_file,
        ),
    }
}

/// The daemon's part of a configuration.
pub open spec fn monerod_part(settings: Option<MonerodSettingsView>, findings: Findings) -> Result<
    MonerodConfigView,
    MonerodSettingsError,
> {
    match settings {
        None => Ok(default_monerod()),
        Some(monerod) => monerod_config(
            monerod,
            findings.monerod_cert_is_file,
            findings.monerod_timeout,
        ),
    }
}

/// The configuration for the settings, given what was found outside them.
/// The refresh interval is looked at first, then the spans, the server and
/// the daemon; the first that is refused gives the error.
pub open spec fn config(settings: SettingsView, findings: Findings) -> Result<
    ConfigView,
    SettingsError,
> {
    match period_or(
        default_config().refresh_interval,
        settings.refresh_interval,
        findings.refresh_interval,
    ) {
        None => Err(SettingsError::InvalidRefreshInterval),
        Some(refresh_interval) => match spans_or(default_config().block_spans, settings.block_spans) {
            None => Err(SettingsError::InvalidBlockSpans),
            Some(block_spans) => match server_part(settings.server, findings) {
                Err(e) => Err(SettingsError::ServerSettings(e)),
                Ok(server) => match monerod_part(settings.monerod, findings) {
                    Err(e) => Err(SettingsError::MonerodSettings(e)),
                    Ok(monerod) => Ok(ConfigView { refresh_interval, block_spans, server, monerod }),
                },
            },
        },
    }
}

/// What is found for the settings when the file system gives the three
/// answers: the periods are those that the texts stand for.
pub open spec fn findings(
    settings: SettingsView,
    server_key_is_file: bool,
    server_cert_is_file: bool,
    monerod_cert_is_file: bool,
) -> Findings {
    Findings {
        refresh_interval: optional_period(settings.refresh_interval),
        server_key_is_file,
        server_cert_is_file,
        monerod_cert_is_file,
        monerod_timeout: match settings.monerod {
            Some(monerod) => optional_period(monerod.timeout),
            None => None,
        },
    }
}

/// Whether validating the settings looks any path up on disk.
pub open spec fn probes_files(settings: SettingsView) -> bool {
    ||| settings.server matches Some(server) && (is_probed(server.tls_key_path) || is_probed(
        server.tls_cert_path,
    ))
    ||| settings.monerod matches Some(monerod) && is_probed(monerod.tls_cert_path)
}

/// What the outcome of validating settings holds.
pub open spec fn config_view(outcome: Result<Config, SettingsError>) -> Result<
    ConfigView,
    SettingsError,
> {
    match outcome {
        Ok(config) => Ok(config@),
        Err(e) => Err(e),
    }
}

impl Settings {
    /// Looks up what validation needs from outside the settings: asks the
    /// file system about each path that is given and not empty, and reads
    /// the period of each text that is given.
    pub fn look_up(&self) -> (found: Findings)
        ensures
            exists|key: bool, cert: bool, monerod_cert: bool|
                found == #[trigger] findings(self@, key, cert, monerod_cert),
            !probes_files(self@) ==> found == findings(self@, false, false, false),
    {
        let refresh_interval = parse_optional_period(&self.refresh_interval);
        let (server_key_is_file, server_cert_is_file) = match &self.server {
            Some(server) => (probe(&server.tls_key_path), probe(&server.tls_cert_path)),
            None => (false, false),
        };
        let (monerod_cert_is_file, monerod_timeout) = match &self.monerod {
            Some(monerod) => (probe(&monerod.tls_cert_path), parse_optional_period(&monerod.timeout)),
            None => (false, None),
        };
        let found = Findings {
            refresh_interval,
            server_key_is_file,
            server_cert_is_file,
            monerod_cert_is_file,
            monerod_timeout,
        };
        assert(found == findings(
            self@,
            server_key_is_file,
            server_cert_is_file,
            monerod_cert_is_file,
        ));
        found
    }

    /// Validates the settings with what was found outside them: see
    /// [`config`].
    pub fn validate(self, found: Findings) -> (outcome: Result<Config, SettingsError>)
        ensures
            config_view(outcome) == config(self@, found),
    {
        let default = Config::default();
        let refresh_interval = match self.refresh_interval {
            None => default.refresh_interval,
            Some(_) => match found.refresh_interval {
                Some(interval) => interval,
                None => {
                    return Err(SettingsError::InvalidRefreshInterval);
                },
            },
        };
        let block_spans = match self.block_spans {
            None => default.block_spans,
            Some(spans) => match parse_block_spans(spans.as_str()) {
                Some(spans) => spans,
                None => {
                    return Err(SettingsError::InvalidBlockSpans);
                },
            },
        };
        let server = match self.server {
            None => ServerConfig::default(),
            Some(server) => match server.validate(
                found.server_key_is_file,
                found.server_cert_is_file,
            ) {
                Ok(server) => server,
                Err(e) => {
                    return Err(SettingsError::ServerSettings(e));
                },
            },
        };
        let monerod = match self.monerod {
            None => MonerodConfig::default(),
            Some(monerod) => match monerod.validate(
                found.monerod_cert_is_file,
                found.monerod_timeout,
            ) {
                Ok(monerod) => monerod,
                Err(e) => {
                    return Err(SettingsError::MonerodSettings(e));
                },
            },
        };
        Ok(Config { refresh_interval, block_spans, server, monerod })
    }

    /// Validates the settings: what is missing is the default; a refresh
    /// interval and a timeout have to be periods, the spans a list of
    /// numbers, and each path that is given and not empty has to lead to a
    /// file. The outcome is that of [`config`] for what the file system
    /// answers.
    pub fn try_into(self) -> (outcome: Result<Config, SettingsError>)
        ensures
            exists|key: bool, cert: bool, monerod_cert: bool|
                config_view(outcome) == config(
                    self@,
                    #[trigger] findings(self@, key, cert, monerod_cert),
                ),
            !probes_files(self@) ==> config_view(outcome) == config(
                self@,
                findings(self@, false, false, false),
            ),
    {
        let found = self.look_up();
        self.validate(found)
    }
}

/// Why no configuration could be had.
#[derive(Debug)]
pub enum ConfigLoadError {
    /// The sources could not be read or merged; the field is the reader's
    /// own description of the failure.
    Load(String),
    /// The settings were read and are refused.
    Validation(SettingsError),
}

/// What the outcome of loading a configuration holds.
pub open spec fn loaded_view(outcome: Result<Config, ConfigLoadError>) -> Result<
    ConfigView,
    ConfigLoadError,
> {
    match outcome {
        Ok(config) => Ok(config@),
        Err(e) => Err(e),
    }
}

/// The configuration for what the sources gave: a failure to read them stays
/// a failure, and settings that were read are validated.
pub open spec fn loaded(settings: Result<Settings, String>, findings: Findings) -> Result<
    ConfigView,
    ConfigLoadError,
> {
    match settings {
        Err(e) => Err(ConfigLoadError::Load(e)),
        Ok(settings) => match config(settings@, findings) {
            Ok(config) => Ok(config),
            Err(e) => Err(ConfigLoadError::Validation(e)),
        },
    }
}

impl Config {
    /// Makes the configuration of what was read from the sources: see
    /// [`loaded`], for what the file system answers about the paths.
    pub fn load(settings: Result<Settings, String>) -> (outcome: Result<Config, ConfigLoadError>)
        ensures
            settings matches Err(e) ==> outcome == Err::<Config, ConfigLoadError>(
                ConfigLoadError::Load(e),
            ),
            settings matches Ok(s) ==> exists|key: bool, cert: bool, monerod_cert: bool|
                loaded_view(outcome) == loaded(
                    settings,
                    #[trigger] findings(s@, key, cert, monerod_cert),
                ),
            settings matches Ok(s) ==> (!probes_files(s@) ==> loaded_view(outcome) == loaded(
                settings,
                findings(s@, false, false, false),
            )),
    {
        match settings {
            Err(e) => Err(ConfigLoadError::Load(e)),
            Ok(settings) => {
                match settings.try_into() {
                    Ok(config) => Ok(config),
                    Err(e) => Err(ConfigLoadError::Validation(e)),
                }
            },
        }
    }
}

impl SettingsError {
    /// The error as it is written in the source: the name of the variant,
    /// with the name of what it holds in brackets.
    pub open spec fn text(self) -> Seq<char> {
        match self {
            SettingsError::InvalidRefreshInterval => "InvalidRefreshInterval"@,
            SettingsError::InvalidBlockSpans => "InvalidBlockSpans"@,
            SettingsError::ServerSettings(ServerSettingsError::InvalidTlsKeyPath) => "ServerSettings(InvalidTlsKeyPath)"@,
            SettingsError::ServerSettings(ServerSettingsError::InvalidTlsCertPath) => "ServerSettings(InvalidTlsCertPath)"@,
            SettingsError::MonerodSettings(MonerodSettingsError::InvalidTlsCertPath) => "MonerodSettings(InvalidTlsCertPath)"@,
            SettingsError::MonerodSettings(MonerodSettingsError::InvalidTimeout) => "MonerodSettings(InvalidTimeout)"@,
        }
    }

    /// The error as it is written in the source: see [`SettingsError::text`].
    pub fn message(&self) -> (message: String)
        ensures
            message@ == self.text(),
    {
        match self {
            SettingsError::InvalidRefreshInterval => "InvalidRefreshInterval".to_owned(),
            SettingsError::InvalidBlockSpans => "InvalidBlockSpans".to_owned(),
            SettingsError::ServerSettings(ServerSettingsError::InvalidTlsKeyPath) => "ServerSettings(InvalidTlsKeyPath)".to_owned(),
            SettingsError::ServerSettings(ServerSettingsError::InvalidTlsCertPath) => "ServerSettings(InvalidTlsCertPath)".to_owned(),
            SettingsError::MonerodSettings(MonerodSettingsError::InvalidTlsCertPath) => "MonerodSettings(InvalidTlsCertPath)".to_owned(),
            SettingsError::MonerodSettings(MonerodSettingsError::InvalidTimeout) => "MonerodSettings(InvalidTimeout)".to_owned(),
        }
    }
}

impl ConfigLoadError {
    /// The description of the error.
    pub open spec fn text(self) -> Seq<char> {
        match self {
            ConfigLoadError::Load(e) => "load failed: "@ + e@,
            ConfigLoadError::Validation(e) => "invalid config: "@ + e.text(),
        }
    }

    /// The description of the error: see [`ConfigLoadError::text`].
    pub fn message(&self) -> (message: String)
        ensures
            message@ == self.text(),
    {
        match self {
            ConfigLoadError::Load(e) => "load failed: ".to_owned().concat(e.as_str()),
            ConfigLoadError::Validation(e) => "invalid config: ".to_owned().concat(
                e.message().as_str(),
            ),
        }
    }
}

} // verus!
