//! The persistent per-machine configuration record and its transitions.
//! The record is immutable: every change builds a whole new snapshot.
//! Timestamps are milliseconds since the Unix epoch; callers that need
//! the current instant pass it in, so every transition is a pure function
//! of its inputs.
use vstd::prelude::*;

use crate::NpcnixError;
use crate::remote::{Locator, LocatorV, locator_wf, parse_locator, url_parts};
use crate::text::{
    chars_vec,
    dec_digits,
    dec_digits_i64,
    json_string,
    matches_at,
    parse_i64_at,
    parse_json_string_at,
    parse_u64_at,
    spec_parse_i64,
    spec_parse_jstring,
    spec_parse_u64,
    is_digit_char,
    lemma_i64_round_trip,
    lemma_jstring_round_trip,
    lemma_u64_round_trip,
    string_from_chars,
    extend_str,
    write_i64,
    write_json_string,
    write_u64,
};

verus! {

/// Default lower bound of the poll interval, in seconds.
pub fn default_min_sleep_secs() -> (r: u64)
    ensures
        r == 5,
{
    5
}

/// Default upper bound of the poll interval, in seconds.
pub fn default_max_sleep_secs() -> (r: u64)
    ensures
        r == 120,
{
    120
}

/// Default ramp window after which polling slows to the upper bound, in
/// hours.
pub fn default_max_sleep_after_hours() -> (r: u64)
    ensures
        r == 24,
{
    24
}

/// The pause state: polling is suspended indefinitely or until a given
/// instant (milliseconds since the Unix epoch).
#[derive(Debug, Clone, Copy, PartialEq, Eq, Structural)]
pub enum ConfigPaused {
    Indefinitely,
    Until { until: i64 },
}

/// Combining two pause requests keeps the stronger one: indefinite wins,
/// and of two deadlines the later one stands.
pub open spec fn spec_combine_paused(a: ConfigPaused, b: ConfigPaused) -> ConfigPaused {
    match (a, b) {
        (ConfigPaused::Until { until: u1 }, ConfigPaused::Until { until: u2 }) => ConfigPaused::Until {
            until: if u1 >= u2 {
                u1
            } else {
                u2
            },
        },
        _ => ConfigPaused::Indefinitely,
    }
}

/// A pause is expired when its deadline has passed; an indefinite pause
/// never expires.
pub open spec fn spec_paused_expired(p: ConfigPaused, now: i64) -> bool {
    match p {
        ConfigPaused::Indefinitely => false,
        ConfigPaused::Until { until } => until <= now,
    }
}

impl ConfigPaused {
    /// Keeps the stronger of two pause requests.
    pub fn combine(self, other: Self) -> (r: ConfigPaused)
        ensures
            r == spec_combine_paused(self, other),
    {
        match (self, other) {
            (ConfigPaused::Until { until: u1 }, ConfigPaused::Until { until: u2 }) => ConfigPaused::Until {
                until: if u1 >= u2 {
                    u1
                } else {
                    u2
                },
            },
            _ => ConfigPaused::Indefinitely,
        }
    }

    fn is_expired(self, now: i64) -> (r: bool)
        ensures
            r == spec_paused_expired(self, now),
    {
        match self {
            ConfigPaused::Indefinitely => false,
            ConfigPaused::Until { until } => until <= now,
        }
    }
}

/// Mathematical image of a [`Config`].
pub struct ConfigV {
    pub remote: Option<LocatorV>,
    pub remote_region: Option<Seq<char>>,
    pub configuration: Option<Seq<char>>,
    pub last_reconfiguration: i64,
    pub last_etag: Seq<char>,
    pub last_configuration: Seq<char>,
    pub min_sleep_secs: u64,
    pub max_sleep_secs: u64,
    pub max_sleep_after_hours: u64,
    pub paused: Option<ConfigPaused>,
}

/// The persistent config record.
#[derive(Debug)]
pub struct Config {
    remote: Option<Locator>,
    remote_region: Option<String>,
    configuration: Option<String>,
    last_reconfiguration: i64,
    last_etag: String,
    last_configuration: String,
    min_sleep_secs: u64,
    max_sleep_secs: u64,
    max_sleep_after_hours: u64,
    paused: Option<ConfigPaused>,
}

impl View for Config {
    type V = ConfigV;

    closed spec fn view(&self) -> ConfigV {
        ConfigV {
            remote: match self.remote {
                Some(ref l) => Some(l@),
                None => None,
            },
            remote_region: match self.remote_region {
                Some(ref s) => Some(s@),
                None => None,
            },
            configuration: match self.configuration {
                Some(ref s) => Some(s@),
                None => None,
            },
            last_reconfiguration: self.last_reconfiguration,
            last_etag: self.last_etag@,
            last_configuration: self.last_configuration@,
            min_sleep_secs: self.min_sleep_secs,
            max_sleep_secs: self.max_sleep_secs,
            max_sleep_after_hours: self.max_sleep_after_hours,
            paused: self.paused,
        }
    }
}

/// Structural invariant of a config record: a stored remote re-parses to
/// itself, and a stored configuration name is non-empty.
pub open spec fn spec_config_wf(c: ConfigV) -> bool {
    &&& match c.remote {
        Some(l) => locator_wf(l),
        None => true,
    }
    &&& match c.configuration {
        Some(s) => s.len() > 0,
        None => true,
    }
}

/// The record a fresh data directory starts from at instant `now`.
pub open spec fn spec_default_config(now: i64) -> ConfigV {
    ConfigV {
        remote: None,
        remote_region: None,
        configuration: None,
        last_reconfiguration: now,
        last_etag: Seq::empty(),
        last_configuration: Seq::empty(),
        min_sleep_secs: 5,
        max_sleep_secs: 120,
        max_sleep_after_hours: 24,
        paused: None,
    }
}

/// Whether the record is paused at instant `now`.
pub open spec fn spec_is_paused(c: ConfigV, now: i64) -> bool {
    match c.paused {
        Some(p) => !spec_paused_expired(p, now),
        None => false,
    }
}

/// The record with an expired pause cleared; an active pause stands.
pub open spec fn spec_expire_paused(c: ConfigV, now: i64) -> ConfigV {
    if spec_is_paused(c, now) {
        c
    } else {
        ConfigV { paused: None, ..c }
    }
}

impl Config {
    /// The default record for a data directory first read at `now`.
    pub fn default_at(now: i64) -> (r: Config)
        ensures
            r@ == spec_default_config(now),
            spec_config_wf(r@),
    {
        Config {
            remote: None,
            remote_region: None,
            configuration: None,
            last_reconfiguration: now,
            last_etag: String::new(),
            last_configuration: String::new(),
            min_sleep_secs: default_min_sleep_secs(),
            max_sleep_secs: default_max_sleep_secs(),
            max_sleep_after_hours: default_max_sleep_after_hours(),
            paused: None,
        }
    }

    /// Clears the pause when it has expired; never persists an expired
    /// pause (the store step calls this, self-healing the record).
    pub fn expire_paused(self, now: i64) -> (r: Config)
        ensures
            r@ == spec_expire_paused(self@, now),
    {
        if self.is_paused_at(now) {
            self
        } else {
            Config { paused: None, ..self }
        }
    }

    /// Whether the record is paused at instant `now`.
    pub fn is_paused_at(&self, now: i64) -> (r: bool)
        ensures
            r == spec_is_paused(self@, now),
    {
        match self.paused {
            Some(p) => !p.is_expired(now),
            None => false,
        }
    }

    /// The record with `configuration` set.
    pub fn with_configuration(self, configuration: &str) -> (r: Config)
        requires
            configuration@.len() > 0,
        ensures
            r@ == (ConfigV { configuration: Some(configuration@), ..self@ }),
    {
        Config { configuration: Some(String::from_str(configuration)), ..self }
    }

    /// Like [`Self::with_configuration`], but when `init` is set an
    /// already-present value is kept and the call changes nothing.
    pub fn with_configuration_maybe_init(self, configuration: &str, init: bool) -> (r: Config)
        requires
            configuration@.len() > 0,
        ensures
            r@ == if !init || self@.configuration is None {
                ConfigV { configuration: Some(configuration@), ..self@ }
            } else {
                self@
            },
    {
        if !init || self.configuration.is_none() {
            self.with_configuration(configuration)
        } else {
            self
        }
    }

    /// The record with `remote` set.
    pub fn with_remote(self, remote: &Locator) -> (r: Config)
        ensures
            r@ == (ConfigV { remote: Some(remote@), ..self@ }),
    {
        Config { remote: Some(remote.duplicate()), ..self }
    }

    /// Like [`Self::with_remote`], but when `init` is set an
    /// already-present value is kept and the call changes nothing.
    pub fn with_remote_maybe_init(self, remote: &Locator, init: bool) -> (r: Config)
        ensures
            r@ == if !init || self@.remote is None {
                ConfigV { remote: Some(remote@), ..self@ }
            } else {
                self@
            },
    {
        if !init || self.remote.is_none() {
            self.with_remote(remote)
        } else {
            self
        }
    }

    /// The record with `remote_region` replaced.
    pub fn with_remote_region(self, remote_region: Option<&str>) -> (r: Config)
        ensures
            r@ == (ConfigV {
                remote_region: match remote_region {
                    Some(s) => Some(s@),
                    None => None,
                },
                ..self@
            }),
    {
        Config {
            remote_region: match remote_region {
                Some(s) => Some(String::from_str(s)),
                None => None,
            },
            ..self
        }
    }

    /// The record paused until `until`, combined with any pause already
    /// present: a pause can only get stronger.
    pub fn with_paused_until(self, until: i64) -> (r: Config)
        ensures
            r@ == (ConfigV {
                paused: Some(
                    match self@.paused {
                        Some(cur) => spec_combine_paused(
                            cur,
                            ConfigPaused::Until { until },
                        ),
                        None => ConfigPaused::Until { until },
                    },
                ),
                ..self@
            }),
    {
        let requested = ConfigPaused::Until { until };
        let combined = match self.paused {
            Some(cur) => cur.combine(requested),
            None => requested,
        };
        Config { paused: Some(combined), ..self }
    }

    /// The record paused indefinitely.
    pub fn with_paused_indefinitely(self) -> (r: Config)
        ensures
            r@ == (ConfigV { paused: Some(ConfigPaused::Indefinitely), ..self@ }),
    {
        Config { paused: Some(ConfigPaused::Indefinitely), ..self }
    }

    /// The record with any pause cleared.
    pub fn with_unpaused(self) -> (r: Config)
        ensures
            r@ == (ConfigV { paused: None, ..self@ }),
    {
        Config { paused: None, ..self }
    }

    /// The record after a successful activation of `configuration` with
    /// change fingerprint `etag` at instant `now`.
    pub fn with_updated_last_reconfiguration(self, configuration: &str, etag: &str, now: i64) -> (r:
        Config)
        ensures
            r@ == (ConfigV {
                last_configuration: configuration@,
                last_etag: etag@,
                last_reconfiguration: now,
                ..self@
            }),
    {
        Config {
            last_configuration: String::from_str(configuration),
            last_etag: String::from_str(etag),
            last_reconfiguration: now,
            ..self
        }
    }

    /// The stored remote; an error when none is set yet.
    pub fn remote(&self) -> (r: Result<&Locator, NpcnixError>)
        ensures
            match r {
                Ok(l) => self@.remote == Some(l@),
                Err(e) => self@.remote is None && e matches NpcnixError::RemoteNotSet,
            },
    {
        match self.remote {
            Some(ref l) => Ok(l),
            None => Err(NpcnixError::RemoteNotSet),
        }
    }

    /// The stored remote region, when set.
    pub fn region_opt(&self) -> (r: Option<&str>)
        ensures
            match r {
                Some(s) => self@.remote_region == Some(s@),
                None => self@.remote_region is None,
            },
    {
        match self.remote_region {
            Some(ref s) => Some(s.as_str()),
            None => None,
        }
    }

    /// The stored configuration name; an error when none is set yet.
    pub fn configuration(&self) -> (r: Result<&str, NpcnixError>)
        ensures
            match r {
                Ok(s) => self@.configuration == Some(s@),
                Err(e) => self@.configuration is None && e matches NpcnixError::ConfigurationNotSet,
            },
    {
        match self.configuration {
            Some(ref s) => Ok(s.as_str()),
            None => Err(NpcnixError::ConfigurationNotSet),
        }
    }

    /// The configuration name last successfully activated.
    pub fn last_configuration(&self) -> (r: &str)
        ensures
            r@ == self@.last_configuration,
    {
        self.last_configuration.as_str()
    }

    /// The change fingerprint last successfully activated.
    pub fn last_etag(&self) -> (r: &str)
        ensures
            r@ == self@.last_etag,
    {
        self.last_etag.as_str()
    }

    /// The instant of the last reconfiguration, milliseconds since epoch.
    pub fn last_reconfiguration(&self) -> (r: i64)
        ensures
            r == self@.last_reconfiguration,
    {
        self.last_reconfiguration
    }

    /// The configured poll interval bounds and ramp window.
    pub fn sleep_params(&self) -> (r: (u64, u64, u64))
        ensures
            r.0 == self@.min_sleep_secs,
            r.1 == self@.max_sleep_secs,
            r.2 == self@.max_sleep_after_hours,
    {
        (self.min_sleep_secs, self.max_sleep_secs, self.max_sleep_after_hours)
    }
}

/// The serialization text of a stored remote, when one is stored.
pub open spec fn spec_remote_text(r: Option<LocatorV>) -> Option<Seq<char>> {
    match r {
        Some(l) => Some(l.text),
        None => None,
    }
}

/// An optional string field value: a JSON string literal or `null`.
pub open spec fn spec_render_opt_string(v: Option<Seq<char>>) -> Seq<char> {
    match v {
        Some(s) => json_string(s),
        None => "null"@,
    }
}

/// The pause field value.
pub open spec fn spec_render_paused_value(p: ConfigPaused) -> Seq<char> {
    match p {
        ConfigPaused::Indefinitely => "{\"type\":\"indefinitely\"}"@,
        ConfigPaused::Until { until } => "{\"type\":\"until\",\"until\":"@ + (dec_digits_i64(
            until as int,
        ) + "}"@),
    }
}

/// The tail of the record text: the pause field when one is present, then
/// the closing brace.
pub open spec fn spec_render_tail(p: Option<ConfigPaused>) -> Seq<char> {
    match p {
        Some(p) => ",\"paused\":"@ + (spec_render_paused_value(p) + "}"@),
        None => "}"@,
    }
}

/// The leading part of the record text: the three optional string
/// fields.
pub open spec fn spec_render_strings_part(c: ConfigV) -> Seq<char> {
    "{\"remote\":"@ + (spec_render_opt_string(spec_remote_text(c.remote)) + (",\"remote_region\":"@
        + (spec_render_opt_string(c.remote_region) + (",\"configuration\":"@
        + spec_render_opt_string(c.configuration)))))
}

/// The middle part of the record text: the last-activation record.
pub open spec fn spec_render_last_part(c: ConfigV) -> Seq<char> {
    ",\"last_reconfiguration\":"@ + (dec_digits_i64(c.last_reconfiguration as int) + (
    ",\"last_etag\":"@ + (json_string(c.last_etag) + (",\"last_configuration\":"@ + json_string(
        c.last_configuration,
    )))))
}

/// The scheduling part of the record text: the three interval fields.
pub open spec fn spec_render_sleeps_part(c: ConfigV) -> Seq<char> {
    ",\"min_sleep_secs\":"@ + (dec_digits(c.min_sleep_secs as nat) + (",\"max_sleep_secs\":"@ + (
    dec_digits(c.max_sleep_secs as nat) + (",\"max_sleep_after_hours\":"@ + dec_digits(
        c.max_sleep_after_hours as nat,
    )))))
}

/// The persistent JSON text of a config record: one object with the
/// fields in a fixed order, quote and backslash escaped in strings,
/// timestamps in decimal milliseconds, the pause field present only when
/// a pause is stored.
pub open spec fn spec_render_config(c: ConfigV) -> Seq<char> {
    spec_render_strings_part(c) + (spec_render_last_part(c) + (spec_render_sleeps_part(c)
        + spec_render_tail(c.paused)))
}

/// Consuming a literal from the front.
pub open spec fn spec_expect(s: Seq<char>, lit: Seq<char>) -> Option<Seq<char>> {
    if lit.is_prefix_of(s) {
        Some(s.skip(lit.len() as int))
    } else {
        None
    }
}

/// An optional string field value: a JSON string literal or `null`.
pub open spec fn spec_parse_opt_string(s: Seq<char>) -> Option<(Option<Seq<char>>, Seq<char>)> {
    if s.len() > 0 && s[0] == '"' {
        match spec_parse_jstring(s) {
            Some((v, r)) => Some((Some(v), r)),
            None => None,
        }
    } else {
        match spec_expect(s, "null"@) {
            Some(r) => Some((None, r)),
            None => None,
        }
    }
}

/// The remote field value: `null`, or a string the url crate parses.
pub open spec fn spec_parse_remote(s: Seq<char>) -> Option<(Option<LocatorV>, Seq<char>)> {
    match spec_parse_opt_string(s) {
        Some((Some(text), r)) => match url_parts(text) {
            Some(l) => Some((Some(l), r)),
            None => None,
        },
        Some((None, r)) => Some((None, r)),
        None => None,
    }
}

/// The pause field value.
pub open spec fn spec_parse_paused_value(s: Seq<char>) -> Option<(ConfigPaused, Seq<char>)> {
    match spec_expect(s, "{\"type\":\"until\",\"until\":"@) {
        Some(r) => match spec_parse_i64(r) {
            Some((u, r2)) => match spec_expect(r2, "}"@) {
                Some(r3) => Some((ConfigPaused::Until { until: u as i64 }, r3)),
                None => None,
            },
            None => None,
        },
        None => match spec_expect(s, "{\"type\":\"indefinitely\"}"@) {
            Some(r) => Some((ConfigPaused::Indefinitely, r)),
            None => None,
        },
    }
}

/// An omissible numeric field: when its key follows, its value; when
/// absent, the default.
pub open spec fn spec_parse_opt_u64_field(s: Seq<char>, key: Seq<char>, dflt: u64) -> Option<
    (u64, Seq<char>),
> {
    match spec_expect(s, key) {
        Some(r) => match spec_parse_u64(r) {
            Some((v, r2)) => Some((v as u64, r2)),
            None => None,
        },
        None => Some((dflt, s)),
    }
}

/// The omissible pause field.
pub open spec fn spec_parse_opt_paused_field(s: Seq<char>) -> Option<
    (Option<ConfigPaused>, Seq<char>),
> {
    match spec_expect(s, ",\"paused\":"@) {
        Some(r) => match spec_parse_paused_value(r) {
            Some((p, r2)) => Some((Some(p), r2)),
            None => None,
        },
        None => Some((None, s)),
    }
}

/// The trailing fields of the record text, after the three optional
/// string fields have been read.
pub open spec fn spec_parse_config_rest(
    s: Seq<char>,
    remote: Option<LocatorV>,
    region: Option<Seq<char>>,
    configuration: Option<Seq<char>>,
) -> Option<ConfigV> {
    match spec_expect(s, ",\"last_reconfiguration\":"@) {
        None => None,
        Some(s7) => match spec_parse_i64(s7) {
            None => None,
            Some((lr, s8)) => match spec_expect(s8, ",\"last_etag\":"@) {
                None => None,
                Some(s9) => match spec_parse_jstring(s9) {
                    None => None,
                    Some((etag, s10)) => match spec_expect(s10, ",\"last_configuration\":"@) {
                        None => None,
                        Some(s11) => match spec_parse_jstring(s11) {
                            None => None,
                            Some((lc, s12)) => match spec_parse_opt_u64_field(
                                s12,
                                ",\"min_sleep_secs\":"@,
                                5,
                            ) {
                                None => None,
                                Some((mins, s13)) => match spec_parse_opt_u64_field(
                                    s13,
                                    ",\"max_sleep_secs\":"@,
                                    120,
                                ) {
                                    None => None,
                                    Some((maxs, s14)) => match spec_parse_opt_u64_field(
                                        s14,
                                        ",\"max_sleep_after_hours\":"@,
                                        24,
                                    ) {
                                        None => None,
                                        Some((after, s15)) => match spec_parse_opt_paused_field(
                                            s15,
                                        ) {
                                            None => None,
                                            Some((paused, s16)) => match spec_expect(s16, "}"@) {
                                                None => None,
                                                Some(s17) => if s17.len() == 0 {
                                                    Some(
                                                        ConfigV {
                                                            remote,
                                                            remote_region: region,
                                                            configuration,
                                                            last_reconfiguration: lr as i64,
                                                            last_etag: etag,
                                                            last_configuration: lc,
                                                            min_sleep_secs: mins,
                                                            max_sleep_secs: maxs,
                                                            max_sleep_after_hours: after,
                                                            paused,
                                                        },
                                                    )
                                                } else {
                                                    None
                                                },
                                            },
                                        },
                                    },
                                },
                            },
                        },
                    },
                },
            },
        },
    }
}

/// The leading fields of the record text: the remote, the region and the
/// configuration name, the latter rejected when empty.
pub open spec fn spec_parse_config_strings(s: Seq<char>) -> Option<
    ((Option<LocatorV>, Option<Seq<char>>, Option<Seq<char>>), Seq<char>),
> {
    match spec_expect(s, "{\"remote\":"@) {
        None => None,
        Some(s1) => match spec_parse_remote(s1) {
            None => None,
            Some((remote, s2)) => match spec_expect(s2, ",\"remote_region\":"@) {
                None => None,
                Some(s3) => match spec_parse_opt_string(s3) {
                    None => None,
                    Some((region, s4)) => match spec_expect(s4, ",\"configuration\":"@) {
                        None => None,
                        Some(s5) => match spec_parse_opt_string(s5) {
                            None => None,
                            Some((configuration, s6)) => if configuration matches Some(cs)
                                && cs.len() == 0 {
                                None
                            } else {
                                Some(((remote, region, configuration), s6))
                            },
                        },
                    },
                },
            },
        },
    }
}

/// What the config loader makes of a file's text: the record, when the
/// text is the fixed-order object [`spec_render_config`] describes, with
/// the defaultable fields allowed to be absent and an empty configuration
/// name rejected.
pub open spec fn spec_parse_config(s: Seq<char>) -> Option<ConfigV> {
    match spec_parse_config_strings(s) {
        None => None,
        Some(((remote, region, configuration), s6)) => spec_parse_config_rest(
            s6,
            remote,
            region,
            configuration,
        ),
    }
}

fn expect_lit(v: &Vec<char>, at: usize, lit: &str) -> (r: Option<usize>)
    requires
        at <= v@.len(),
    ensures
        match r {
            Some(p) => at <= p <= v@.len() && spec_expect(v@.skip(at as int), lit@) == Some(
                v@.skip(p as int),
            ),
            None => spec_expect(v@.skip(at as int), lit@) is None,
        },
{
    let n = lit.unicode_len();
    let vn = v.len();
    if matches_at(v, at, lit) {
        proof {
            assert(at + n <= vn);
            assert(v@.skip(at as int).subrange(0, n as int) =~= v@.subrange(at as int, at + n));
            assert(lit@.is_prefix_of(v@.skip(at as int)));
            assert(v@.skip(at as int).skip(n as int) =~= v@.skip(at + n));
        }
        Some(at + n)
    } else {
        proof {
            if at + n <= v@.len() {
                assert(v@.skip(at as int).subrange(0, n as int) =~= v@.subrange(at as int, at + n));
            }
            assert(!lit@.is_prefix_of(v@.skip(at as int)));
        }
        None
    }
}

fn parse_opt_string_at(v: &Vec<char>, at: usize) -> (r: Option<(Option<String>, usize)>)
    requires
        at <= v@.len(),
    ensures
        match r {
            Some((os, p)) => at <= p <= v@.len() && spec_parse_opt_string(v@.skip(at as int))
                == Some(
                (
                    match os {
                        Some(ref s) => Some(s@),
                        None => None,
                    },
                    v@.skip(p as int),
                ),
            ),
            None => spec_parse_opt_string(v@.skip(at as int)) is None,
        },
{
    let vn = v.len();
    if at < vn && v[at] == '"' {
        proof {
            assert(v@.skip(at as int)[0] == v@[at as int]);
        }
        match parse_json_string_at(v, at) {
            Some((body, p)) => Some((Some(string_from_chars(&body)), p)),
            None => None,
        }
    } else {
        proof {
            if at < vn {
                assert(v@.skip(at as int)[0] == v@[at as int]);
            }
        }
        match expect_lit(v, at, "null") {
            Some(p) => Some((None, p)),
            None => None,
        }
    }
}

fn parse_remote_at(v: &Vec<char>, at: usize) -> (r: Option<(Option<Locator>, usize)>)
    requires
        at <= v@.len(),
    ensures
        match r {
            Some((ol, p)) => at <= p <= v@.len() && spec_parse_remote(v@.skip(at as int)) == Some(
                (
                    match ol {
                        Some(ref l) => Some(l@),
                        None => None,
                    },
                    v@.skip(p as int),
                ),
            ),
            None => spec_parse_remote(v@.skip(at as int)) is None,
        },
{
    match parse_opt_string_at(v, at) {
        Some((Some(text), p)) => match parse_locator(text.as_str()) {
            Some(l) => Some((Some(l), p)),
            None => None,
        },
        Some((None, p)) => Some((None, p)),
        None => None,
    }
}

fn parse_paused_value_at(v: &Vec<char>, at: usize) -> (r: Option<(ConfigPaused, usize)>)
    requires
        at <= v@.len(),
    ensures
        match r {
            Some((p, q)) => at <= q <= v@.len() && spec_parse_paused_value(v@.skip(at as int))
                == Some((p, v@.skip(q as int))),
            None => spec_parse_paused_value(v@.skip(at as int)) is None,
        },
{
    match expect_lit(v, at, "{\"type\":\"until\",\"until\":") {
        Some(p) => match parse_i64_at(v, p) {
            Some((u, p2)) => match expect_lit(v, p2, "}") {
                Some(p3) => Some((ConfigPaused::Until { until: u }, p3)),
                None => None,
            },
            None => None,
        },
        None => match expect_lit(v, at, "{\"type\":\"indefinitely\"}") {
            Some(p) => Some((ConfigPaused::Indefinitely, p)),
            None => None,
        },
    }
}

fn parse_opt_u64_field_at(v: &Vec<char>, at: usize, key: &str, dflt: u64) -> (r: Option<
    (u64, usize),
>)
    requires
        at <= v@.len(),
    ensures
        match r {
            Some((x, p)) => at <= p <= v@.len() && spec_parse_opt_u64_field(
                v@.skip(at as int),
                key@,
                dflt,
            ) == Some((x, v@.skip(p as int))),
            None => spec_parse_opt_u64_field(v@.skip(at as int), key@, dflt) is None,
        },
{
    match expect_lit(v, at, key) {
        Some(p) => match parse_u64_at(v, p) {
            Some((x, p2)) => Some((x, p2)),
            None => None,
        },
        None => Some((dflt, at)),
    }
}

fn parse_opt_paused_field_at(v: &Vec<char>, at: usize) -> (r: Option<
    (Option<ConfigPaused>, usize),
>)
    requires
        at <= v@.len(),
    ensures
        match r {
            Some((op, p)) => at <= p <= v@.len() && spec_parse_opt_paused_field(v@.skip(at as int))
                == Some((op, v@.skip(p as int))),
            None => spec_parse_opt_paused_field(v@.skip(at as int)) is None,
        },
{
    match expect_lit(v, at, ",\"paused\":") {
        Some(p) => match parse_paused_value_at(v, p) {
            Some((pv, p2)) => Some((Some(pv), p2)),
            None => None,
        },
        None => Some((None, at)),
    }
}

impl Config {
    fn render_strings_part(&self, out: &mut Vec<char>)
        ensures
            final(out)@ == old(out)@ + spec_render_strings_part(self@),
    {
        extend_str(out, "{\"remote\":");
        match self.remote {
            Some(ref l) => write_json_string(out, l.as_str()),
            None => extend_str(out, "null"),
        };
        extend_str(out, ",\"remote_region\":");
        match self.remote_region {
            Some(ref s) => write_json_string(out, s.as_str()),
            None => extend_str(out, "null"),
        };
        extend_str(out, ",\"configuration\":");
        match self.configuration {
            Some(ref s) => write_json_string(out, s.as_str()),
            None => extend_str(out, "null"),
        };
        proof {
            assert(out@ =~= old(out)@ + spec_render_strings_part(self@));
        }
    }

    fn render_last_part(&self, out: &mut Vec<char>)
        ensures
            final(out)@ == old(out)@ + spec_render_last_part(self@),
    {
        extend_str(out, ",\"last_reconfiguration\":");
        write_i64(out, self.last_reconfiguration);
        extend_str(out, ",\"last_etag\":");
        write_json_string(out, self.last_etag.as_str());
        extend_str(out, ",\"last_configuration\":");
        write_json_string(out, self.last_configuration.as_str());
        proof {
            assert(out@ =~= old(out)@ + spec_render_last_part(self@));
        }
    }

    fn render_sleeps_part(&self, out: &mut Vec<char>)
        ensures
            final(out)@ == old(out)@ + spec_render_sleeps_part(self@),
    {
        extend_str(out, ",\"min_sleep_secs\":");
        write_u64(out, self.min_sleep_secs);
        extend_str(out, ",\"max_sleep_secs\":");
        write_u64(out, self.max_sleep_secs);
        extend_str(out, ",\"max_sleep_after_hours\":");
        write_u64(out, self.max_sleep_after_hours);
        proof {
            assert(out@ =~= old(out)@ + spec_render_sleeps_part(self@));
        }
    }

    fn render_tail(&self, out: &mut Vec<char>)
        ensures
            final(out)@ == old(out)@ + spec_render_tail(self@.paused),
    {
        match self.paused {
            Some(p) => {
                extend_str(out, ",\"paused\":");
                match p {
                    ConfigPaused::Indefinitely => extend_str(
                        out,
                        "{\"type\":\"indefinitely\"}",
                    ),
                    ConfigPaused::Until { until } => {
                        extend_str(out, "{\"type\":\"until\",\"until\":");
                        write_i64(out, until);
                        extend_str(out, "}");
                    },
                };
                extend_str(out, "}");
            },
            None => extend_str(out, "}"),
        };
        proof {
            assert(out@ =~= old(out)@ + spec_render_tail(self@.paused));
        }
    }

    /// The persistent JSON text of this record.
    pub fn to_json_string(&self) -> (r: String)
        ensures
            r@ == spec_render_config(self@),
    {
        let mut out: Vec<char> = Vec::new();
        self.render_strings_part(&mut out);
        self.render_last_part(&mut out);
        self.render_sleeps_part(&mut out);
        self.render_tail(&mut out);
        proof {
            assert(out@ =~= spec_render_config(self@));
        }
        string_from_chars(&out)
    }

    /// Reads a record back from its persistent JSON text, clearing an
    /// expired pause at instant `now` as loading always does.
    #[verifier::rlimit(100)]
    pub fn from_json_str(s: &str, now: i64) -> (r: Result<Config, NpcnixError>)
        ensures
            match r {
                Ok(c) => spec_parse_config(s@) is Some && c@ == spec_expire_paused(
                    spec_parse_config(s@).unwrap(),
                    now,
                ),
                Err(e) => spec_parse_config(s@) is None && e matches NpcnixError::MalformedConfig,
            },
    {
        let cs = chars_vec(s);
        proof {
            assert(cs@.skip(0) =~= cs@);
        }
        let p1 = match expect_lit(&cs, 0, "{\"remote\":") {
            Some(p) => p,
            None => {
                return Err(NpcnixError::MalformedConfig);
            },
        };
        let (remote, p2) = match parse_remote_at(&cs, p1) {
            Some(x) => x,
            None => {
                return Err(NpcnixError::MalformedConfig);
            },
        };
        let p3 = match expect_lit(&cs, p2, ",\"remote_region\":") {
            Some(p) => p,
            None => {
                return Err(NpcnixError::MalformedConfig);
            },
        };
        let (remote_region, p4) = match parse_opt_string_at(&cs, p3) {
            Some(x) => x,
            None => {
                return Err(NpcnixError::MalformedConfig);
            },
        };
        let p5 = match expect_lit(&cs, p4, ",\"configuration\":") {
            Some(p) => p,
            None => {
                return Err(NpcnixError::MalformedConfig);
            },
        };
        let (configuration, p6) = match parse_opt_string_at(&cs, p5) {
            Some(x) => x,
            None => {
                return Err(NpcnixError::MalformedConfig);
            },
        };
        if match configuration {
            Some(ref c) => c.as_str().is_empty(),
            None => false,
        } {
            return Err(NpcnixError::MalformedConfig);
        }
        let p7 = match expect_lit(&cs, p6, ",\"last_reconfiguration\":") {
            Some(p) => p,
            None => {
                return Err(NpcnixError::MalformedConfig);
            },
        };
        let (last_reconfiguration, p8) = match parse_i64_at(&cs, p7) {
            Some(x) => x,
            None => {
                return Err(NpcnixError::MalformedConfig);
            },
        };
        let p9 = match expect_lit(&cs, p8, ",\"last_etag\":") {
            Some(p) => p,
            None => {
                return Err(NpcnixError::MalformedConfig);
            },
        };
        let (last_etag, p10) = match parse_json_string_at(&cs, p9) {
            Some(x) => x,
            None => {
                return Err(NpcnixError::MalformedConfig);
            },
        };
        let p11 = match expect_lit(&cs, p10, ",\"last_configuration\":") {
            Some(p) => p,
            None => {
                return Err(NpcnixError::MalformedConfig);
            },
        };
        let (last_configuration, p12) = match parse_json_string_at(&cs, p11) {
            Some(x) => x,
            None => {
                return Err(NpcnixError::MalformedConfig);
            },
        };
        let (min_sleep_secs, p13) = match parse_opt_u64_field_at(
            &cs,
            p12,
            ",\"min_sleep_secs\":",
            5,
        ) {
            Some(x) => x,
            None => {
                return Err(NpcnixError::MalformedConfig);
            },
        };
        let (max_sleep_secs, p14) = match parse_opt_u64_field_at(
            &cs,
            p13,
            ",\"max_sleep_secs\":",
            120,
        ) {
            Some(x) => x,
            None => {
                return Err(NpcnixError::MalformedConfig);
            },
        };
        let (max_sleep_after_hours, p15) = match parse_opt_u64_field_at(
            &cs,
            p14,
            ",\"max_sleep_after_hours\":",
            24,
        ) {
            Some(x) => x,
            None => {
                return Err(NpcnixError::MalformedConfig);
            },
        };
        let (paused, p16) = match parse_opt_paused_field_at(&cs, p15) {
            Some(x) => x,
            None => {
                return Err(NpcnixError::MalformedConfig);
            },
        };
        let p17 = match expect_lit(&cs, p16, "}") {
            Some(p) => p,
            None => {
                return Err(NpcnixError::MalformedConfig);
            },
        };
        if p17 != cs.len() {
            return Err(NpcnixError::MalformedConfig);
        }
        let parsed = Config {
            remote,
            remote_region,
            configuration,
            last_reconfiguration,
            last_etag: string_from_chars(&last_etag),
            last_configuration: string_from_chars(&last_configuration),
            min_sleep_secs,
            max_sleep_secs,
            max_sleep_after_hours,
            paused,
        };
        proof {
            assert(spec_parse_config_strings(cs@) == Some(
                ((parsed@.remote, parsed@.remote_region, parsed@.configuration), cs@.skip(
                    p6 as int,
                )),
            ));
            assert(spec_parse_config_rest(
                cs@.skip(p6 as int),
                parsed@.remote,
                parsed@.remote_region,
                parsed@.configuration,
            ) == Some(parsed@));
            assert(spec_parse_config(s@) == Some(parsed@));
        }
        Ok(parsed.expire_paused(now))
    }
}

/// Relies on `chrono::Utc::now` and `DateTime::timestamp_millis`: the
/// current instant as milliseconds since the Unix epoch. Nothing is
/// assumed of the clock's value.
#[verifier::external_body]
pub(crate) fn now_millis() -> i64 {
    chrono::Utc::now().timestamp_millis()
}

impl Config {
    /// Whether the record is paused right now, by the system clock.
    pub fn is_paused(&self) -> (r: bool)
        ensures
            exists|now: i64| r == spec_is_paused(self@, now),
            self@.paused is None ==> !r,
            self@.paused == Some(ConfigPaused::Indefinitely) ==> r,
    {
        let now = now_millis();
        self.is_paused_at(now)
    }

    /// The jittered poll interval, in seconds, for the instant `now`:
    /// some uniform jitter draw applied to the ramped base interval.
    pub fn cur_rng_sleep_time(&self, now: i64) -> (r: u64)
        ensures
            exists|jitter: u64|
                0 <= jitter <= 1000 && r == crate::sched::spec_jittered_sleep_secs(
                    self@.min_sleep_secs,
                    self@.max_sleep_secs,
                    self@.max_sleep_after_hours,
                    crate::sched::spec_elapsed_secs(now, self@.last_reconfiguration),
                    jitter,
                ),
            r >= self@.min_sleep_secs,
    {
        let diff: i128 = now as i128 - self.last_reconfiguration as i128;
        let elapsed_s: u64 = if diff < 1000 {
            1
        } else {
            (diff / 1000) as u64
        };
        proof {
            assert(elapsed_s == crate::sched::spec_elapsed_secs(
                now,
                self@.last_reconfiguration,
            ));
        }
        let jitter = crate::sched::rng_jitter(0, 1000);
        let r = crate::sched::jittered_sleep_secs(
            self.min_sleep_secs,
            self.max_sleep_secs,
            self.max_sleep_after_hours,
            elapsed_s,
            jitter,
        );
        proof {
            assert(0 <= jitter <= 1000 && r == crate::sched::spec_jittered_sleep_secs(
                self@.min_sleep_secs,
                self@.max_sleep_secs,
                self@.max_sleep_after_hours,
                crate::sched::spec_elapsed_secs(now, self@.last_reconfiguration),
                jitter,
            ));
        }
        r
    }
}

proof fn lemma_expect_prefix(lit: Seq<char>, rest: Seq<char>)
    ensures
        spec_expect(lit + rest, lit) == Some(rest),
{
    assert((lit + rest).subrange(0, lit.len() as int) =~= lit);
    assert(lit.is_prefix_of(lit + rest));
    assert((lit + rest).skip(lit.len() as int) =~= rest);
}

proof fn lemma_opt_string_round_trip(v: Option<Seq<char>>, rest: Seq<char>)
    ensures
        spec_parse_opt_string(spec_render_opt_string(v) + rest) == Some((v, rest)),
{
    match v {
        Some(t) => {
            let s = json_string(t) + rest;
            assert(s[0] == '"');
            lemma_jstring_round_trip(t, rest);
        },
        None => {
            reveal_strlit("null");
            let s = "null"@ + rest;
            assert(s[0] == 'n');
            lemma_expect_prefix("null"@, rest);
        },
    }
}

proof fn lemma_remote_round_trip(r: Option<LocatorV>, rest: Seq<char>)
    requires
        match r {
            Some(l) => locator_wf(l),
            None => true,
        },
    ensures
        spec_parse_remote(spec_render_opt_string(spec_remote_text(r)) + rest) == Some((r, rest)),
{
    lemma_opt_string_round_trip(spec_remote_text(r), rest);
}

proof fn lemma_paused_value_round_trip(p: ConfigPaused, rest: Seq<char>)
    ensures
        spec_parse_paused_value(spec_render_paused_value(p) + rest) == Some((p, rest)),
{
    reveal_strlit("{\"type\":\"until\",\"until\":");
    reveal_strlit("{\"type\":\"indefinitely\"}");
    reveal_strlit("}");
    match p {
        ConfigPaused::Until { until } => {
            let lit = "{\"type\":\"until\",\"until\":"@;
            let digits = dec_digits_i64(until as int);
            assert(spec_render_paused_value(p) + rest =~= lit + (digits + ("}"@ + rest)));
            lemma_expect_prefix(lit, digits + ("}"@ + rest));
            assert(("}"@ + rest)[0] == '}');
            assert(!is_digit_char('}'));
            lemma_i64_round_trip(until, "}"@ + rest);
            lemma_expect_prefix("}"@, rest);
        },
        ConfigPaused::Indefinitely => {
            let lit_u = "{\"type\":\"until\",\"until\":"@;
            let lit_i = "{\"type\":\"indefinitely\"}"@;
            let s = lit_i + rest;
            assert(!lit_u.is_prefix_of(s)) by {
                if lit_u.is_prefix_of(s) {
                    assert(s.subrange(0, lit_u.len() as int)[9] == s[9]);
                    assert(false);
                }
            }
            assert(spec_render_paused_value(p) + rest =~= lit_i + rest);
            lemma_expect_prefix(lit_i, rest);
        },
    }
}

#[verifier::rlimit(100)]
proof fn lemma_config_rest_round_trip(c: ConfigV)
    ensures
        spec_parse_config_rest(
            spec_render_last_part(c) + (spec_render_sleeps_part(c) + spec_render_tail(c.paused)),
            c.remote,
            c.remote_region,
            c.configuration,
        ) == Some(c),
{
    reveal_strlit(",\"last_reconfiguration\":");
    reveal_strlit(",\"last_etag\":");
    reveal_strlit(",\"last_configuration\":");
    reveal_strlit(",\"min_sleep_secs\":");
    reveal_strlit(",\"max_sleep_secs\":");
    reveal_strlit(",\"max_sleep_after_hours\":");
    reveal_strlit(",\"paused\":");
    reveal_strlit("}");
    let l4 = ",\"last_reconfiguration\":"@;
    let v4 = dec_digits_i64(c.last_reconfiguration as int);
    let l5 = ",\"last_etag\":"@;
    let v5 = json_string(c.last_etag);
    let l6 = ",\"last_configuration\":"@;
    let v6 = json_string(c.last_configuration);
    let l7 = ",\"min_sleep_secs\":"@;
    let v7 = dec_digits(c.min_sleep_secs as nat);
    let l8 = ",\"max_sleep_secs\":"@;
    let v8 = dec_digits(c.max_sleep_secs as nat);
    let l9 = ",\"max_sleep_after_hours\":"@;
    let v9 = dec_digits(c.max_sleep_after_hours as nat);
    let tail = spec_render_tail(c.paused);
    let rest2 = spec_render_sleeps_part(c) + tail;
    let s0 = spec_render_last_part(c) + rest2;
    let r5 = (l5 + (v5 + (l6 + v6))) + rest2;
    assert(s0 =~= l4 + (v4 + r5));
    lemma_expect_prefix(l4, v4 + r5);
    assert(r5[0] == ',' && r5.len() > 0);
    assert(!is_digit_char(','));
    lemma_i64_round_trip(c.last_reconfiguration, r5);
    let r6 = (l6 + v6) + rest2;
    assert(r5 =~= l5 + (v5 + r6));
    lemma_expect_prefix(l5, v5 + r6);
    lemma_jstring_round_trip(c.last_etag, r6);
    assert(r6 =~= l6 + (v6 + rest2));
    lemma_expect_prefix(l6, v6 + rest2);
    lemma_jstring_round_trip(c.last_configuration, rest2);
    let r8 = (l8 + (v8 + (l9 + v9))) + tail;
    assert(rest2 =~= l7 + (v7 + r8));
    lemma_expect_prefix(l7, v7 + r8);
    assert(r8[0] == ',' && r8.len() > 0);
    lemma_u64_round_trip(c.min_sleep_secs, r8);
    let r9 = (l9 + v9) + tail;
    assert(r8 =~= l8 + (v8 + r9));
    lemma_expect_prefix(l8, v8 + r9);
    assert(r9[0] == ',' && r9.len() > 0);
    lemma_u64_round_trip(c.max_sleep_secs, r9);
    assert(r9 =~= l9 + (v9 + tail));
    lemma_expect_prefix(l9, v9 + tail);
    assert(tail.len() > 0 && !is_digit_char(tail[0])) by {
        match c.paused {
            Some(p) => {
                assert(tail[0] == ',');
            },
            None => {
                assert(tail[0] == '}');
            },
        }
    }
    lemma_u64_round_trip(c.max_sleep_after_hours, tail);
    match c.paused {
        Some(p) => {
            let lp = ",\"paused\":"@;
            let rp = spec_render_paused_value(p) + "}"@;
            assert(tail =~= lp + rp);
            lemma_expect_prefix(lp, rp);
            lemma_paused_value_round_trip(p, "}"@);
            assert("}"@ =~= "}"@ + Seq::<char>::empty());
            lemma_expect_prefix("}"@, Seq::empty());
        },
        None => {
            let lp = ",\"paused\":"@;
            assert(!lp.is_prefix_of(tail));
            assert(tail =~= "}"@ + Seq::<char>::empty());
            lemma_expect_prefix("}"@, Seq::empty());
        },
    }
    assert(spec_parse_config_rest(s0, c.remote, c.remote_region, c.configuration) == Some(c));
}

#[verifier::rlimit(100)]
proof fn lemma_config_strings_round_trip(c: ConfigV, rest1: Seq<char>)
    requires
        spec_config_wf(c),
    ensures
        spec_parse_config_strings(spec_render_strings_part(c) + rest1) == Some(
            ((c.remote, c.remote_region, c.configuration), rest1),
        ),
{
    let l1 = "{\"remote\":"@;
    let v1 = spec_render_opt_string(spec_remote_text(c.remote));
    let l2 = ",\"remote_region\":"@;
    let v2 = spec_render_opt_string(c.remote_region);
    let l3 = ",\"configuration\":"@;
    let v3 = spec_render_opt_string(c.configuration);
    let whole = spec_render_strings_part(c) + rest1;
    let r2 = (l2 + (v2 + (l3 + v3))) + rest1;
    assert(whole =~= l1 + (v1 + r2));
    lemma_expect_prefix(l1, v1 + r2);
    lemma_remote_round_trip(c.remote, r2);
    let r3 = (l3 + v3) + rest1;
    assert(r2 =~= l2 + (v2 + r3));
    lemma_expect_prefix(l2, v2 + r3);
    lemma_opt_string_round_trip(c.remote_region, r3);
    assert(r3 =~= l3 + (v3 + rest1));
    lemma_expect_prefix(l3, v3 + rest1);
    lemma_opt_string_round_trip(c.configuration, rest1);
}

/// Law: parsing inverts rendering. Every well-formed record read back
/// from its own persistent text is unchanged.
#[verifier::rlimit(100)]
pub proof fn lemma_config_round_trip(c: ConfigV)
    ensures
        spec_config_wf(c) ==> spec_parse_config(spec_render_config(c)) == Some(c),
{
    if spec_config_wf(c) {
        let rest1 = spec_render_last_part(c) + (spec_render_sleeps_part(c) + spec_render_tail(
            c.paused,
        ));
        assert(spec_render_config(c) == spec_render_strings_part(c) + rest1);
        lemma_config_strings_round_trip(c, rest1);
        lemma_config_rest_round_trip(c);
        assert(spec_parse_config(spec_render_config(c)) == Some(c));
    }
}

/// Law: the structural invariant is kept by every transition. A record
/// whose remote re-parses to itself and whose configuration name is
/// non-empty stays that way under setting a validated remote, setting a
/// non-empty configuration name, replacing the region, pausing,
/// unpausing, clearing an expired pause, and recording an activation.
pub proof fn lemma_transitions_preserve_wf(
    c: ConfigV,
    l: LocatorV,
    name: Seq<char>,
    etag: Seq<char>,
    region: Option<Seq<char>>,
    p: ConfigPaused,
    now: i64,
)
    ensures
        (spec_config_wf(c) && locator_wf(l) && name.len() > 0) ==> {
            &&& spec_config_wf(ConfigV { remote: Some(l), ..c })
            &&& spec_config_wf(ConfigV { configuration: Some(name), ..c })
            &&& spec_config_wf(ConfigV { remote_region: region, ..c })
            &&& spec_config_wf(ConfigV { paused: Some(p), ..c })
            &&& spec_config_wf(ConfigV { paused: None, ..c })
            &&& spec_config_wf(spec_expire_paused(c, now))
            &&& spec_config_wf(
                ConfigV {
                    last_configuration: name,
                    last_etag: etag,
                    last_reconfiguration: now,
                    ..c
                },
            )
        },
{
}

/// Law: the store/load round trip. The store step clears an expired
/// pause before rendering, so loading what was stored gives `c` back
/// exactly, except that an expired pause has been cleared; and loading
/// applies the same clearing again without further effect.
pub proof fn lemma_store_load_round_trip(c: ConfigV, now: i64)
    ensures
        spec_config_wf(c) ==> spec_parse_config(spec_render_config(spec_expire_paused(c, now)))
            == Some(spec_expire_paused(c, now)),
        spec_config_wf(c) ==> spec_expire_paused(spec_expire_paused(c, now), now)
            == spec_expire_paused(c, now),
        spec_config_wf(c) ==> spec_config_wf(spec_expire_paused(c, now)),
{
    if spec_config_wf(c) {
        lemma_config_round_trip(spec_expire_paused(c, now));
    }
}

} // verus!
