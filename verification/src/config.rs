//! Runtime configuration, resolved once at startup.
//!
//! Layering, lowest to highest: the built-in defaults, the TOML config file,
//! then the `GHOSTWRITER_*` environment variables. Reading the file and the
//! environment is the caller's part; this module decides what the values
//! read mean: which file outcome is an error, which environment value counts,
//! how the layers merge, and which merged settings are refused.
//!
//! The sampling temperature is an IEEE 754 single; it is carried here as its
//! bit pattern (`f32::to_bits`), on which finiteness and the clamp into
//! `0.0..=2.0` are decided exactly.

use vstd::prelude::*;
use vstd::string::StrSliceExecFns;
use vstd::string::StringExecFns;

use crate::text::{chars_vec, decimal, opt_view, push_decimal, starts_with};

verus! {

/// The fleet's writing-model server.
pub const DEFAULT_BASE_URL: &'static str = "http://hyper03:8002/v1";

/// The model served there.
pub const DEFAULT_MODEL: &'static str = "hemmingway-1";

/// Bit pattern of the default sampling temperature, `0.3f32`.
pub const DEFAULT_TEMPERATURE_BITS: u32 = 0x3E99_999A;

/// Overall budget for one generation attempt, in seconds (request sent to
/// last token, queueing included).
pub const DEFAULT_TIMEOUT_SECS: u64 = 900;

/// Silence that declares an already-streaming response dead, in seconds.
/// Also budgets health probes.
pub const DEFAULT_IDLE_TIMEOUT_SECS: u64 = 60;

/// Hard ceiling on `max_tokens` any single call may request.
pub const MAX_TOKENS_CAP: u32 = 32768;

/// Largest source payload read from disk, in bytes. Larger files are
/// truncated with a visible marker.
pub const MAX_SOURCE_BYTES: usize = 400_000;

/// Bit pattern of `2.0f32`, the highest temperature a call may use.
pub const TEMPERATURE_CEILING_BITS: u32 = 0x4000_0000;

/// The magnitude bits of an `f32` bit pattern (the pattern without its sign).
pub open spec fn f32_magnitude(bits: u32) -> int {
    bits as int % 0x8000_0000
}

/// Whether the `f32` with these bits is NaN (all exponent bits set and a
/// nonzero fraction).
pub open spec fn f32_is_nan(bits: u32) -> bool {
    f32_magnitude(bits) > 0x7F80_0000
}

/// Whether the `f32` with these bits is finite (`f32::is_finite`).
pub open spec fn f32_is_finite(bits: u32) -> bool {
    f32_magnitude(bits) < 0x7F80_0000
}

/// What `{}` prints for a non-finite `f32`.
pub open spec fn non_finite_text(bits: u32) -> Seq<char> {
    if f32_is_nan(bits) {
        "NaN"@
    } else if bits >= 0x8000_0000 {
        "-inf"@
    } else {
        "inf"@
    }
}

/// `f32::clamp(x, 0.0, 2.0)` on the bit pattern of `x`: NaN stays NaN,
/// `-0.0` stays `-0.0` (it is not below `0.0`), every other negative value
/// becomes `0.0`, and every value above `2.0` becomes `2.0`. Positive
/// patterns order as the values they encode.
pub open spec fn clamp_temperature_bits(bits: u32) -> u32 {
    if f32_is_nan(bits) {
        bits
    } else if bits >= 0x8000_0000 {
        if bits == 0x8000_0000 {
            bits
        } else {
            0
        }
    } else if bits > TEMPERATURE_CEILING_BITS {
        TEMPERATURE_CEILING_BITS
    } else {
        bits
    }
}

/// `f32::clamp(x, 0.0, 2.0)`, on the bit pattern of `x`.
pub fn clamp_temperature(bits: u32) -> (r: u32)
    ensures
        r == clamp_temperature_bits(bits),
{
    if bits % 0x8000_0000 > 0x7F80_0000 {
        bits
    } else if bits >= 0x8000_0000 {
        if bits == 0x8000_0000 {
            bits
        } else {
            0
        }
    } else if bits > TEMPERATURE_CEILING_BITS {
        TEMPERATURE_CEILING_BITS
    } else {
        bits
    }
}

/// A span of time as `std::time::Duration` holds it: whole seconds and the
/// nanoseconds beyond them (below one second in a well-formed span).
#[derive(Debug, Clone, Copy, PartialEq, Eq)]
pub struct Span {
    pub secs: u64,
    pub subsec_nanos: u32,
}

/// Nanoseconds in one second.
pub const NANOS_PER_SEC: u32 = 1_000_000_000;

/// Whether the nanosecond part of `s` is below one second.
pub open spec fn span_wf(s: Span) -> bool {
    s.subsec_nanos < NANOS_PER_SEC
}

/// Whether `a` is strictly shorter than `b` (for well-formed spans).
pub open spec fn span_lt(a: Span, b: Span) -> bool {
    a.secs < b.secs || (a.secs == b.secs && a.subsec_nanos < b.subsec_nanos)
}

/// The span of `secs` whole seconds (`Duration::from_secs`).
pub open spec fn whole_secs(secs: u64) -> Span {
    Span { secs, subsec_nanos: 0 }
}

/// The span of `secs` whole seconds.
pub fn from_secs(secs: u64) -> (r: Span)
    ensures
        r == whole_secs(secs),
{
    Span { secs, subsec_nanos: 0 }
}

/// The resolved configuration.
#[derive(Debug, Clone)]
pub struct Config {
    /// Base URL of the OpenAI-compatible server, without trailing `/`.
    pub base_url: String,
    /// Model id sent with every request.
    pub model: String,
    /// Default sampling temperature, as `f32` bits.
    pub temperature_bits: u32,
    /// Overall budget for one generation attempt.
    pub timeout: Span,
    /// Silence that kills a stream after its first byte.
    pub idle_timeout: Span,
}

/// The mathematical content of a `Config`.
pub struct ConfigSpec {
    pub base_url: Seq<char>,
    pub model: Seq<char>,
    pub temperature_bits: u32,
    pub timeout: Span,
    pub idle_timeout: Span,
}

impl View for Config {
    type V = ConfigSpec;

    open spec fn view(&self) -> ConfigSpec {
        ConfigSpec {
            base_url: self.base_url@,
            model: self.model@,
            temperature_bits: self.temperature_bits,
            timeout: self.timeout,
            idle_timeout: self.idle_timeout,
        }
    }
}

/// `s` without its trailing `/` characters (`trim_end_matches('/')`).
pub open spec fn trim_trailing_slashes(s: Seq<char>) -> Seq<char>
    decreases s.len(),
{
    if s.len() > 0 && s.last() == '/' {
        trim_trailing_slashes(s.drop_last())
    } else {
        s
    }
}

/// Whether `s` begins with `prefix`.
pub open spec fn seq_starts_with(s: Seq<char>, prefix: Seq<char>) -> bool {
    prefix.len() <= s.len() && s.subrange(0, prefix.len() as int) == prefix
}

/// Whether `url` names the `http` or `https` scheme.
pub open spec fn has_http_scheme(url: Seq<char>) -> bool {
    seq_starts_with(url, "http://"@) || seq_starts_with(url, "https://"@)
}

/// The value of `o`, or `d` when absent.
pub open spec fn or_seq(o: Option<Seq<char>>, d: Seq<char>) -> Seq<char> {
    match o {
        Some(s) => s,
        None => d,
    }
}

/// A duration setting: the given seconds or the default, floored at 1.
pub open spec fn resolved_secs(o: Option<u64>, d: u64) -> u64 {
    let s = match o {
        Some(s) => s,
        None => d,
    };
    if s < 1 {
        1
    } else {
        s
    }
}

/// The configuration that `build` resolves from one optional value per
/// field, or the message that refuses it.
pub open spec fn build_spec(
    base_url: Option<Seq<char>>,
    model: Option<Seq<char>>,
    temperature_bits: Option<u32>,
    timeout_secs: Option<u64>,
    idle_timeout_secs: Option<u64>,
) -> Result<ConfigSpec, Seq<char>> {
    let url = trim_trailing_slashes(or_seq(base_url, DEFAULT_BASE_URL@));
    let m = or_seq(model, DEFAULT_MODEL@);
    let t = match temperature_bits {
        Some(t) => t,
        None => DEFAULT_TEMPERATURE_BITS,
    };
    let timeout = resolved_secs(timeout_secs, DEFAULT_TIMEOUT_SECS);
    let idle = resolved_secs(idle_timeout_secs, DEFAULT_IDLE_TIMEOUT_SECS);
    if !has_http_scheme(url) {
        Err("base_url must start with http:// or https://: "@ + url)
    } else if m.len() == 0 {
        Err("model must not be empty"@)
    } else if !f32_is_finite(t) {
        Err("temperature must be a finite number: "@ + non_finite_text(t))
    } else if idle >= timeout {
        Err(
            "idle_timeout ("@ + decimal(idle as nat) + "s) must be shorter than timeout ("@
                + decimal(timeout as nat)
                + "s): the idle kill would never fire before the overall deadline"@,
        )
    } else {
        Ok(
            ConfigSpec {
                base_url: url,
                model: m,
                temperature_bits: clamp_temperature_bits(t),
                timeout: whole_secs(timeout),
                idle_timeout: whole_secs(idle),
            },
        )
    }
}

/// What every configuration that `build` accepts satisfies: an http(s) base
/// URL without trailing `/`, a nonempty model, a finite temperature inside
/// `0.0..=2.0`, and whole-second timeouts, the idle one at least a second
/// and shorter than the overall one.
pub open spec fn valid_config(c: ConfigSpec) -> bool {
    &&& has_http_scheme(c.base_url)
    &&& !(c.base_url.len() > 0 && c.base_url.last() == '/')
    &&& c.model.len() > 0
    &&& f32_is_finite(c.temperature_bits)
    &&& clamp_temperature_bits(c.temperature_bits) == c.temperature_bits
    &&& c.timeout.subsec_nanos == 0
    &&& c.idle_timeout.subsec_nanos == 0
    &&& 1 <= c.idle_timeout.secs
    &&& span_lt(c.idle_timeout, c.timeout)
}

/// The view of a `build` result.
pub open spec fn config_result_view(r: Result<Config, String>) -> Result<ConfigSpec, Seq<char>> {
    match r {
        Ok(c) => Ok(c@),
        Err(e) => Err(e@),
    }
}

/// Trimming trailing slashes leaves none behind.
proof fn lemma_trim_slashes_leaves_none(s: Seq<char>)
    ensures
        !(trim_trailing_slashes(s).len() > 0 && trim_trailing_slashes(s).last() == '/'),
        trim_trailing_slashes(s).len() <= s.len(),
        trim_trailing_slashes(s) == s.subrange(0, trim_trailing_slashes(s).len() as int),
    decreases s.len(),
{
    if s.len() > 0 && s.last() == '/' {
        lemma_trim_slashes_leaves_none(s.drop_last());
    } else {
        assert(s.subrange(0, s.len() as int) =~= s);
    }
}

/// A URL with no trailing `/` is left as it is.
proof fn lemma_trim_slashes_fixed(s: Seq<char>)
    requires
        !(s.len() > 0 && s.last() == '/'),
    ensures
        trim_trailing_slashes(s) == s,
{
}

/// The clamp is idempotent and keeps a finite temperature finite.
proof fn lemma_clamp_temperature(bits: u32)
    requires
        f32_is_finite(bits),
    ensures
        f32_is_finite(clamp_temperature_bits(bits)),
        clamp_temperature_bits(clamp_temperature_bits(bits)) == clamp_temperature_bits(bits),
{
}

/// `s` without its trailing `/` characters.
fn trim_slashes(s: &str) -> (r: String)
    ensures
        r@ == trim_trailing_slashes(s@),
{
    let v = chars_vec(s);
    let mut j = v.len();
    assert(v@.subrange(0, j as int) =~= s@);
    while j > 0 && v[j - 1] == '/'
        invariant
            j <= v@.len(),
            v@ == s@,
            trim_trailing_slashes(s@) == trim_trailing_slashes(v@.subrange(0, j as int)),
        decreases j,
    {
        assert(v@.subrange(0, j as int).drop_last() =~= v@.subrange(0, j - 1));
        j = j - 1;
    }
    String::from_str(s.substring_char(0, j))
}

/// Merge one optional value per field over the defaults and validate.
/// Errors come in field order: base URL, model, temperature, timeouts.
pub fn build(
    base_url: Option<String>,
    model: Option<String>,
    temperature_bits: Option<u32>,
    timeout_secs: Option<u64>,
    idle_timeout_secs: Option<u64>,
) -> (r: Result<Config, String>)
    ensures
        config_result_view(r) == build_spec(
            opt_view(base_url),
            opt_view(model),
            temperature_bits,
            timeout_secs,
            idle_timeout_secs,
        ),
        r matches Ok(c) ==> valid_config(c@),
{
    proof {
        reveal_strlit("http://");
        reveal_strlit("https://");
    }
    let raw_url = match base_url {
        Some(u) => u,
        None => String::from_str(DEFAULT_BASE_URL),
    };
    let url = trim_slashes(raw_url.as_str());
    if !(starts_with(url.as_str(), "http://") || starts_with(url.as_str(), "https://")) {
        let mut msg = String::from_str("base_url must start with http:// or https://: ");
        msg.append(url.as_str());
        return Err(msg);
    }
    let model = match model {
        Some(m) => m,
        None => String::from_str(DEFAULT_MODEL),
    };
    if model.as_str().unicode_len() == 0 {
        return Err(String::from_str("model must not be empty"));
    }
    let t = match temperature_bits {
        Some(t) => t,
        None => DEFAULT_TEMPERATURE_BITS,
    };
    if t % 0x8000_0000 >= 0x7F80_0000 {
        let mut msg = String::from_str("temperature must be a finite number: ");
        if t % 0x8000_0000 > 0x7F80_0000 {
            msg.append("NaN");
        } else if t >= 0x8000_0000 {
            msg.append("-inf");
        } else {
            msg.append("inf");
        }
        return Err(msg);
    }
    let timeout = match timeout_secs {
        Some(s) => s,
        None => DEFAULT_TIMEOUT_SECS,
    };
    let timeout = if timeout < 1 {
        1
    } else {
        timeout
    };
    let idle = match idle_timeout_secs {
        Some(s) => s,
        None => DEFAULT_IDLE_TIMEOUT_SECS,
    };
    let idle = if idle < 1 {
        1
    } else {
        idle
    };
    if idle >= timeout {
        let mut msg = String::from_str("idle_timeout (");
        push_decimal(&mut msg, idle);
        msg.append("s) must be shorter than timeout (");
        push_decimal(&mut msg, timeout);
        msg.append("s): the idle kill would never fire before the overall deadline");
        return Err(msg);
    }
    proof {
        lemma_trim_slashes_leaves_none(raw_url@);
        lemma_clamp_temperature(t);
    }
    Ok(
        Config {
            base_url: url,
            model,
            temperature_bits: clamp_temperature(t),
            timeout: from_secs(timeout),
            idle_timeout: from_secs(idle),
        },
    )
}

/// A resolved configuration survives a second pass through `build`
/// unchanged: feeding every field of a valid configuration back in as an
/// override yields that same configuration.
pub proof fn build_is_idempotent(c: ConfigSpec)
    requires
        valid_config(c),
    ensures
        build_spec(
            Some(c.base_url),
            Some(c.model),
            Some(c.temperature_bits),
            Some(c.timeout.secs),
            Some(c.idle_timeout.secs),
        ) == Ok::<ConfigSpec, Seq<char>>(c),
{
    lemma_trim_slashes_fixed(c.base_url);
}

/// One optional value per setting, as one layer (the config file or the
/// environment) gives them.
#[derive(Debug, Clone)]
pub struct Settings {
    pub base_url: Option<String>,
    pub model: Option<String>,
    pub temperature_bits: Option<u32>,
    pub timeout_secs: Option<u64>,
    pub idle_timeout_secs: Option<u64>,
}

/// The mathematical content of a `Settings` layer.
pub struct SettingsSpec {
    pub base_url: Option<Seq<char>>,
    pub model: Option<Seq<char>>,
    pub temperature_bits: Option<u32>,
    pub timeout_secs: Option<u64>,
    pub idle_timeout_secs: Option<u64>,
}

impl View for Settings {
    type V = SettingsSpec;

    open spec fn view(&self) -> SettingsSpec {
        SettingsSpec {
            base_url: opt_view(self.base_url),
            model: opt_view(self.model),
            temperature_bits: self.temperature_bits,
            timeout_secs: self.timeout_secs,
            idle_timeout_secs: self.idle_timeout_secs,
        }
    }
}

impl Settings {
    /// The layer that sets nothing.
    pub open spec fn empty_spec() -> SettingsSpec {
        SettingsSpec {
            base_url: None,
            model: None,
            temperature_bits: None,
            timeout_secs: None,
            idle_timeout_secs: None,
        }
    }

    /// A layer that sets nothing.
    pub fn empty() -> (r: Settings)
        ensures
            r@ == (SettingsSpec {
                base_url: None,
                model: None,
                temperature_bits: None,
                timeout_secs: None,
                idle_timeout_secs: None,
            }),
    {
        Settings {
            base_url: None,
            model: None,
            temperature_bits: None,
            timeout_secs: None,
            idle_timeout_secs: None,
        }
    }
}

/// The higher layer's value where it has one, else the lower layer's.
pub open spec fn first_some<T>(high: Option<T>, low: Option<T>) -> Option<T> {
    match high {
        Some(v) => Some(v),
        None => low,
    }
}

/// What became of the config file at the resolved path.
pub enum ConfigFile {
    /// There is no path to look at (no home directory and no `--config`).
    NoPath,
    /// The file was read and its TOML parsed into these settings.
    Parsed(Settings),
    /// The file was read but is not a valid config file; the parser's
    /// message.
    Unparseable(String),
    /// No file exists at the path.
    NotFound,
    /// The file exists but could not be read; the I/O error's message.
    Unreadable(String),
}

/// The settings that the config file contributes, or the startup error:
/// a missing default file is fine and the defaults stand; a `--config`
/// path (`explicit`) that does not exist is an error.
pub open spec fn file_settings_spec(explicit: bool, path: Seq<char>, file: ConfigFile) -> Result<
    SettingsSpec,
    Seq<char>,
> {
    let none = SettingsSpec {
        base_url: None,
        model: None,
        temperature_bits: None,
        timeout_secs: None,
        idle_timeout_secs: None,
    };
    match file {
        ConfigFile::NoPath => Ok(none),
        ConfigFile::Parsed(s) => Ok(s@),
        ConfigFile::Unparseable(e) => Err("parsing config file "@ + path + " failed: "@ + e@),
        ConfigFile::NotFound => if explicit {
            Err("config file "@ + path + " does not exist"@)
        } else {
            Ok(none)
        },
        ConfigFile::Unreadable(e) => Err("reading config file "@ + path + " failed: "@ + e@),
    }
}

/// The view of a settings result.
pub open spec fn settings_result_view(r: Result<Settings, String>) -> Result<SettingsSpec, Seq<char>> {
    match r {
        Ok(s) => Ok(s@),
        Err(e) => Err(e@),
    }
}

/// Decide what the config file contributes. `explicit` tells whether the
/// path came from `--config`; `path` is how the path is shown in messages.
pub fn file_settings(explicit: bool, path: &str, file: ConfigFile) -> (r: Result<Settings, String>)
    ensures
        settings_result_view(r) == file_settings_spec(explicit, path@, file),
        file matches ConfigFile::Parsed(s) ==> (r matches Ok(got) && got@ == s@),
{
    match file {
        ConfigFile::NoPath => Ok(Settings::empty()),
        ConfigFile::Parsed(s) => Ok(s),
        ConfigFile::Unparseable(e) => {
            let mut msg = String::from_str("parsing config file ");
            msg.append(path);
            msg.append(" failed: ");
            msg.append(e.as_str());
            Err(msg)
        },
        ConfigFile::NotFound => {
            if explicit {
                let mut msg = String::from_str("config file ");
                msg.append(path);
                msg.append(" does not exist");
                Err(msg)
            } else {
                Ok(Settings::empty())
            }
        },
        ConfigFile::Unreadable(e) => {
            let mut msg = String::from_str("reading config file ");
            msg.append(path);
            msg.append(" failed: ");
            msg.append(e.as_str());
            Err(msg)
        },
    }
}

/// An environment variable's value counts only when it is set and not
/// empty.
pub open spec fn env_value_spec(value: Option<Seq<char>>) -> Option<Seq<char>> {
    match value {
        Some(v) => if v.len() > 0 {
            Some(v)
        } else {
            None
        },
        None => None,
    }
}

/// The value of a string environment variable, if set and not empty.
pub fn env_value(value: Option<String>) -> (r: Option<String>)
    ensures
        opt_view(r) == env_value_spec(opt_view(value)),
        value matches Some(v) ==> (v@.len() > 0 ==> opt_view(r) == Some(v@)),
        value matches Some(v) ==> (v@.len() == 0 ==> r is None),
        value is None ==> r is None,
{
    match value {
        Some(v) => if v.as_str().unicode_len() > 0 {
            Some(v)
        } else {
            None
        },
        None => None,
    }
}

/// Whether `c` is one of `0`..`9`.
pub open spec fn is_ascii_digit(c: char) -> bool {
    48 <= (c as u32) <= 57
}

/// The number that the decimal digits `s` spell.
pub open spec fn digits_value(s: Seq<char>) -> nat
    decreases s.len(),
{
    if s.len() == 0 {
        0
    } else {
        digits_value(s.drop_last()) * 10 + ((s.last() as u32) - 48) as nat
    }
}

/// `s` without one leading `+`.
pub open spec fn unsigned_digits(s: Seq<char>) -> Seq<char> {
    if s.len() > 0 && s[0] == '+' {
        s.drop_first()
    } else {
        s
    }
}

/// What `u64::from_str` accepts: an optional `+`, then at least one ASCII
/// digit and nothing else, spelling a number that fits in 64 bits.
pub open spec fn parse_u64_spec(s: Seq<char>) -> Option<u64> {
    let d = unsigned_digits(s);
    if d.len() > 0 && (forall|i: int| 0 <= i < d.len() ==> is_ascii_digit(#[trigger] d[i]))
        && digits_value(d) <= u64::MAX {
        Some(digits_value(d) as u64)
    } else {
        None
    }
}

/// A digit string spells at least as much as any of its prefixes.
proof fn lemma_digits_value_prefix(s: Seq<char>, k: int)
    requires
        0 <= k <= s.len(),
        forall|i: int| 0 <= i < s.len() ==> is_ascii_digit(#[trigger] s[i]),
    ensures
        digits_value(s) >= digits_value(s.subrange(0, k)),
    decreases s.len(),
{
    if k < s.len() {
        let t = s.drop_last();
        assert(t.subrange(0, k) =~= s.subrange(0, k));
        assert forall|i: int| 0 <= i < t.len() implies is_ascii_digit(#[trigger] t[i]) by {
            assert(t[i] == s[i]);
        }
        lemma_digits_value_prefix(t, k);
    } else {
        assert(s.subrange(0, k) =~= s);
    }
}

/// `u64::from_str`: the number that `s` spells, or `None`.
pub fn parse_u64(s: &str) -> (r: Option<u64>)
    ensures
        r == parse_u64_spec(s@),
{
    let v = chars_vec(s);
    let start: usize = if v.len() > 0 && v[0] == '+' {
        1
    } else {
        0
    };
    let ghost d = unsigned_digits(s@);
    assert(d =~= v@.subrange(start as int, v@.len() as int));
    if start >= v.len() {
        return None;
    }
    let mut acc: u64 = 0;
    let mut i = start;
    assert(v@.subrange(start as int, start as int) =~= Seq::<char>::empty());
    while i < v.len()
        invariant
            start <= i <= v@.len(),
            v@ == s@,
            d == v@.subrange(start as int, v@.len() as int),
            d == unsigned_digits(s@),
            d.len() > 0,
            acc as nat == digits_value(v@.subrange(start as int, i as int)),
            forall|k: int| start <= k < i ==> is_ascii_digit(#[trigger] v@[k]),
        decreases v@.len() - i,
    {
        let c = v[i];
        let u = c as u32;
        if u < 48 || u > 57 {
            assert(!is_ascii_digit(d[i - start]));
            return None;
        }
        let digit = (u - 48) as u64;
        let ghost next = v@.subrange(start as int, i + 1);
        assert(next.drop_last() =~= v@.subrange(start as int, i as int));
        assert(digits_value(next) == acc * 10 + digit);
        let m = acc.checked_mul(10);
        let n = match m {
            Some(m) => m.checked_add(digit),
            None => None,
        };
        match n {
            Some(n) => {
                acc = n;
            },
            None => {
                assert(digits_value(next) > u64::MAX);
                proof {
                    if forall|k: int| 0 <= k < d.len() ==> is_ascii_digit(#[trigger] d[k]) {
                        assert(d.subrange(0, i + 1 - start) =~= next);
                        lemma_digits_value_prefix(d, i + 1 - start);
                    }
                }
                return None;
            },
        }
        i = i + 1;
    }
    assert forall|k: int| 0 <= k < d.len() implies is_ascii_digit(#[trigger] d[k]) by {
        assert(d[k] == v@[k + start]);
    }
    Some(acc)
}

/// A seconds setting from the environment: absent stays absent, a number
/// is taken, anything else is refused naming the variable.
pub open spec fn env_secs_spec(key: Seq<char>, value: Option<Seq<char>>) -> Result<Option<u64>, Seq<char>> {
    match value {
        None => Ok(None),
        Some(v) => match parse_u64_spec(v) {
            Some(n) => Ok(Some(n)),
            None => Err(key + " is not a number: "@ + v),
        },
    }
}

/// Parse a seconds setting read from the environment variable `key`.
pub fn env_secs(key: &str, value: Option<String>) -> (r: Result<Option<u64>, String>)
    ensures
        match r {
            Ok(n) => env_secs_spec(key@, opt_view(value)) == Ok::<Option<u64>, Seq<char>>(n),
            Err(e) => env_secs_spec(key@, opt_view(value)) == Err::<Option<u64>, Seq<char>>(e@),
        },
{
    match value {
        None => Ok(None),
        Some(v) => match parse_u64(v.as_str()) {
            Some(n) => Ok(Some(n)),
            None => {
                let mut msg = String::from_str(key);
                msg.append(" is not a number: ");
                msg.append(v.as_str());
                Err(msg)
            },
        },
    }
}

/// Merge the environment layer over the file layer, field by field, and
/// build the configuration from the result.
pub fn resolve(env: Settings, file: Settings) -> (r: Result<Config, String>)
    ensures
        config_result_view(r) == build_spec(
            first_some(env@.base_url, file@.base_url),
            first_some(env@.model, file@.model),
            first_some(env@.temperature_bits, file@.temperature_bits),
            first_some(env@.timeout_secs, file@.timeout_secs),
            first_some(env@.idle_timeout_secs, file@.idle_timeout_secs),
        ),
        r matches Ok(c) ==> valid_config(c@),
{
    let base_url = match env.base_url {
        Some(v) => Some(v),
        None => file.base_url,
    };
    let model = match env.model {
        Some(v) => Some(v),
        None => file.model,
    };
    let temperature_bits = match env.temperature_bits {
        Some(v) => Some(v),
        None => file.temperature_bits,
    };
    let timeout_secs = match env.timeout_secs {
        Some(v) => Some(v),
        None => file.timeout_secs,
    };
    let idle_timeout_secs = match env.idle_timeout_secs {
        Some(v) => Some(v),
        None => file.idle_timeout_secs,
    };
    build(base_url, model, temperature_bits, timeout_secs, idle_timeout_secs)
}


/// `build` keeps what it is given when that is valid, and refuses what is
/// not: an http(s) URL without a trailing `/`, a nonempty model, a finite
/// temperature and an idle timeout of at least a second below the overall
/// one come through as they are (the temperature clamped into
/// `0.0..=2.0`); an empty model, a URL of another scheme, or an idle
/// timeout that is not shorter than the overall one is refused.
pub proof fn build_keeps_valid_settings_and_refuses_invalid_ones(
    base_url: Seq<char>,
    model: Seq<char>,
    temperature_bits: u32,
    timeout_secs: u64,
    idle_timeout_secs: u64,
)
    ensures
        ((seq_starts_with(base_url, "http://"@) || seq_starts_with(base_url, "https://"@)) && !(
        base_url.len() > 0 && base_url.last() == '/') && model.len() > 0 && f32_is_finite(temperature_bits)
            && 1 <= idle_timeout_secs < timeout_secs) ==> build_spec(
            Some(base_url),
            Some(model),
            Some(temperature_bits),
            Some(timeout_secs),
            Some(idle_timeout_secs),
        ) == Ok::<ConfigSpec, Seq<char>>(
            ConfigSpec {
                base_url,
                model,
                temperature_bits: clamp_temperature_bits(temperature_bits),
                timeout: whole_secs(timeout_secs),
                idle_timeout: whole_secs(idle_timeout_secs),
            },
        ),
        model.len() == 0 ==> build_spec(
            Some(base_url),
            Some(model),
            Some(temperature_bits),
            Some(timeout_secs),
            Some(idle_timeout_secs),
        ) is Err,
        (1 <= timeout_secs && timeout_secs <= idle_timeout_secs) ==> build_spec(
            Some(base_url),
            Some(model),
            Some(temperature_bits),
            Some(timeout_secs),
            Some(idle_timeout_secs),
        ) is Err,
        !(seq_starts_with(trim_trailing_slashes(base_url), "http://"@) || seq_starts_with(
            trim_trailing_slashes(base_url),
            "https://"@,
        )) ==> build_spec(
            Some(base_url),
            Some(model),
            Some(temperature_bits),
            Some(timeout_secs),
            Some(idle_timeout_secs),
        ) is Err,
{
    if !(base_url.len() > 0 && base_url.last() == '/') {
        lemma_trim_slashes_fixed(base_url);
    }
}

/// The configuration resolved from an environment layer `env` over a file
/// layer `file`.
pub open spec fn layered(env: SettingsSpec, file: SettingsSpec) -> Result<ConfigSpec, Seq<char>> {
    build_spec(
        first_some(env.base_url, file.base_url),
        first_some(env.model, file.model),
        first_some(env.temperature_bits, file.temperature_bits),
        first_some(env.timeout_secs, file.timeout_secs),
        first_some(env.idle_timeout_secs, file.idle_timeout_secs),
    )
}

/// The config file is the second layer: a parsed file contributes exactly
/// its settings, whether its path was given or is the default; a missing
/// default file contributes nothing and is no error, while a missing
/// `--config` file is one. A setting the file gives and the environment
/// does not is the setting of the resolved configuration (the base URL
/// without trailing `/`, the temperature clamped into `0.0..=2.0`), and
/// one the environment gives wins over the file.
pub proof fn config_file_is_the_second_layer(explicit: bool, path: Seq<char>, file: Settings, env: SettingsSpec)
    ensures
        file_settings_spec(explicit, path, ConfigFile::Parsed(file)) == Ok::<SettingsSpec, Seq<char>>(file@),
        file_settings_spec(false, path, ConfigFile::NotFound) == Ok::<SettingsSpec, Seq<char>>(Settings::empty_spec()),
        file_settings_spec(true, path, ConfigFile::NotFound) is Err,
        file@.model matches Some(m) ==> (env.model is None ==> (layered(env, file@) matches Ok(c)
            ==> c.model == m)),
        file@.base_url matches Some(u) ==> (env.base_url is None ==> (layered(env, file@) matches Ok(c)
            ==> c.base_url == trim_trailing_slashes(u))),
        file@.temperature_bits matches Some(t) ==> (env.temperature_bits is None ==> (layered(env, file@)
            matches Ok(c) ==> c.temperature_bits == clamp_temperature_bits(t))),
        env.model matches Some(m) ==> (layered(env, file@) matches Ok(c) ==> c.model == m),
{
}

} // verus!
