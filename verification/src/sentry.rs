//! Sentry policy engine: evaluates a stress signal vector against a
//! configurable threshold policy and produces a Keep / Throttle / Kill
//! decision.
//!
//! The decision rule is the per-signal ratio model. For each dimension
//! (entropy, jitter, load) the score is divided by that dimension's
//! positive limit; a non-positive limit disables the dimension, whose
//! ratio then counts as zero. The decision follows the largest ratio:
//! at least `hard_excess_factor` kills, above one throttles, at most one
//! keeps — both boundaries inclusive on the severe side of their region.

use vstd::prelude::*;

use crate::decimal::{parse_decimal, text_outcome};
use crate::ratio::{
    lemma_mul_bound, limit_in_range, ratio_le, ratio_wf, signal_in_range, Ratio, LIMIT_BOUND,
    SIGNAL_BOUND,
};
use crate::signals::{signals_in_range, signals_wf, SentrySignals};

verus! {

/// Decision returned by the Sentry engine for a given job. This is what
/// a scheduler or controller acts on.
#[derive(Clone, Copy, Debug, PartialEq, Eq, Structural)]
pub enum SentryDecision {
    Keep,
    Throttle,
    Kill,
}

/// Error surfaced by configuration loading. Failures are reported to the
/// caller, never silently replaced by defaults inside the engine.
#[derive(Clone, Copy, Debug, PartialEq, Eq, Structural)]
pub enum ConfigParseError {
    /// The input is not a valid document at all.
    Malformed,
    /// A required threshold field is absent.
    MissingField,
    /// A threshold field is present but does not hold a plain decimal
    /// number.
    InvalidNumber,
    /// A threshold field holds a number too large or too precise for the
    /// engine's exact arithmetic.
    OutOfRange,
}

/// Configuration thresholds for the Sentry engine.
///
/// Each limit is the score at which its dimension's ratio reaches one;
/// `hard_excess_factor` is the ratio at which a single dimension's excess
/// escalates straight to a kill. A non-positive limit disables its
/// dimension rather than causing a division error.
#[derive(Clone, Copy, Debug, PartialEq, Eq, Structural)]
pub struct SentryConfig {
    /// Baseline threshold for the entropy score.
    pub entropy_limit: Ratio,
    /// Baseline threshold for the jitter score.
    pub jitter_limit: Ratio,
    /// Baseline threshold for the load score.
    pub load_limit: Ratio,
    /// Multiplier on a dimension's ratio at which the engine kills.
    pub hard_excess_factor: Ratio,
}

/// The built-in default configuration: limits `1`, `1/2`, `17/20` and a
/// hard excess factor of `2`.
pub open spec fn default_config() -> SentryConfig {
    SentryConfig {
        entropy_limit: Ratio { num: 1, den: 1 },
        jitter_limit: Ratio { num: 1, den: 2 },
        load_limit: Ratio { num: 17, den: 20 },
        hard_excess_factor: Ratio { num: 2, den: 1 },
    }
}

/// All four threshold rationals have positive denominators.
pub open spec fn config_wf(c: SentryConfig) -> bool {
    c.entropy_limit.den > 0 && c.jitter_limit.den > 0 && c.load_limit.den > 0
        && c.hard_excess_factor.den > 0
}

/// All four threshold rationals are small enough for an executable
/// threshold comparison.
pub open spec fn config_in_range(c: SentryConfig) -> bool {
    limit_in_range(c.entropy_limit) && limit_in_range(c.jitter_limit)
        && limit_in_range(c.load_limit) && limit_in_range(c.hard_excess_factor)
}

/// The ratio `score / limit` of one dimension is at least the threshold
/// `t`. A non-positive limit disables the dimension: its ratio counts as
/// zero, which is at least `t` exactly when `t` is not positive.
/// Meaningful under positive denominators.
pub open spec fn dim_ratio_at_least(score: Ratio, limit: Ratio, t: Ratio) -> bool {
    if limit.num > 0 {
        score.num * limit.den * t.den >= t.num * limit.num * score.den
    } else {
        0 >= t.num
    }
}

/// The ratio `score / limit` of one dimension exceeds one. A disabled
/// (non-positive) limit gives ratio zero, which never exceeds one.
pub open spec fn dim_ratio_exceeds_one(score: Ratio, limit: Ratio) -> bool {
    limit.num > 0 && score.num * limit.den > limit.num * score.den
}

/// The decision rule. The engine kills when the largest per-dimension
/// ratio reaches the hard excess factor (inclusive), throttles when it
/// exceeds one without reaching the factor, and keeps otherwise — so a
/// ratio of exactly one still keeps.
pub open spec fn decision_of(c: SentryConfig, s: SentrySignals) -> SentryDecision {
    if dim_ratio_at_least(s.entropy_score, c.entropy_limit, c.hard_excess_factor)
        || dim_ratio_at_least(s.jitter_score, c.jitter_limit, c.hard_excess_factor)
        || dim_ratio_at_least(s.load_score, c.load_limit, c.hard_excess_factor) {
        SentryDecision::Kill
    } else if dim_ratio_exceeds_one(s.entropy_score, c.entropy_limit)
        || dim_ratio_exceeds_one(s.jitter_score, c.jitter_limit)
        || dim_ratio_exceeds_one(s.load_score, c.load_limit) {
        SentryDecision::Throttle
    } else {
        SentryDecision::Keep
    }
}

/// Severity order of decisions: keeping is least severe, killing most.
pub open spec fn severity(d: SentryDecision) -> int {
    match d {
        SentryDecision::Keep => 0,
        SentryDecision::Throttle => 1,
        SentryDecision::Kill => 2,
    }
}

/// The view of an optional field text.
pub open spec fn opt_text(o: Option<Vec<u8>>) -> Option<Seq<u8>> {
    match o {
        Option::Some(v) => Option::Some(v@),
        Option::None => Option::None,
    }
}

/// What assembling a configuration from the four optional threshold
/// texts yields: a missing field is reported first, then the fields are
/// parsed in the order entropy, jitter, load, excess factor, and the
/// first failure wins.
pub open spec fn fields_outcome(
    e: Option<Seq<u8>>,
    j: Option<Seq<u8>>,
    l: Option<Seq<u8>>,
    h: Option<Seq<u8>>,
) -> Result<SentryConfig, ConfigParseError> {
    match (e, j, l, h) {
        (Option::Some(et), Option::Some(jt), Option::Some(lt), Option::Some(ht)) => match (
            text_outcome(et),
            text_outcome(jt),
            text_outcome(lt),
            text_outcome(ht),
        ) {
            (Result::Err(x), _, _, _) => Result::Err(x),
            (Result::Ok(_), Result::Err(x), _, _) => Result::Err(x),
            (Result::Ok(_), Result::Ok(_), Result::Err(x), _) => Result::Err(x),
            (Result::Ok(_), Result::Ok(_), Result::Ok(_), Result::Err(x)) => Result::Err(x),
            (Result::Ok(eq), Result::Ok(jq), Result::Ok(lq), Result::Ok(hq)) => Result::Ok(
                SentryConfig {
                    entropy_limit: eq,
                    jitter_limit: jq,
                    load_limit: lq,
                    hard_excess_factor: hq,
                },
            ),
        },
        _ => Result::Err(ConfigParseError::MissingField),
    }
}

/// Assemble a configuration from the four threshold texts, exactly as
/// [`fields_outcome`] says. A configuration that comes out `Ok` is
/// well-formed and within the exact-arithmetic range, so it is ready for
/// the policy engine.
pub fn config_from_texts(
    e: Option<Vec<u8>>,
    j: Option<Vec<u8>>,
    l: Option<Vec<u8>>,
    h: Option<Vec<u8>>,
) -> (r: Result<SentryConfig, ConfigParseError>)
    ensures
        r == fields_outcome(opt_text(e), opt_text(j), opt_text(l), opt_text(h)),
        r matches Result::Ok(c) ==> config_wf(c) && config_in_range(c),
{
    let et = match e {
        Option::Some(v) => v,
        Option::None => {
            return Result::Err(ConfigParseError::MissingField);
        },
    };
    let jt = match j {
        Option::Some(v) => v,
        Option::None => {
            return Result::Err(ConfigParseError::MissingField);
        },
    };
    let lt = match l {
        Option::Some(v) => v,
        Option::None => {
            return Result::Err(ConfigParseError::MissingField);
        },
    };
    let ht = match h {
        Option::Some(v) => v,
        Option::None => {
            return Result::Err(ConfigParseError::MissingField);
        },
    };
    let eq = match parse_decimal(&et) {
        Result::Ok(q) => q,
        Result::Err(x) => {
            return Result::Err(x);
        },
    };
    let jq = match parse_decimal(&jt) {
        Result::Ok(q) => q,
        Result::Err(x) => {
            return Result::Err(x);
        },
    };
    let lq = match parse_decimal(&lt) {
        Result::Ok(q) => q,
        Result::Err(x) => {
            return Result::Err(x);
        },
    };
    let hq = match parse_decimal(&ht) {
        Result::Ok(q) => q,
        Result::Err(x) => {
            return Result::Err(x);
        },
    };
    Result::Ok(
        SentryConfig {
            entropy_limit: eq,
            jitter_limit: jq,
            load_limit: lq,
            hard_excess_factor: hq,
        },
    )
}

#[verifier::external_type_specification]
#[verifier::external_body]
pub struct ExValue(serde_json::Value);

#[verifier::external_type_specification]
#[verifier::external_body]
pub struct ExNumber(serde_json::Number);

/// Whether the text `s` is a well-formed JSON document — the texts on
/// which serde_json's parser succeeds.
pub uninterp spec fn json_wf(s: Seq<char>) -> bool;

/// What the JSON document written in `s` holds under `key`: `None` when
/// the document is no object or has no such member, `Some(None)` for a
/// member that is no number, and `Some(Some(text))` for a number member
/// with the text serde_json prints for it.
pub uninterp spec fn json_member_text(s: Seq<char>, key: Seq<char>) -> Option<Option<Seq<u8>>>;

/// What a JSON document value holds under `key`, in the same shape as
/// [`json_member_text`].
pub uninterp spec fn value_member_text(v: serde_json::Value, key: Seq<char>) -> Option<
    Option<Seq<u8>>,
>;

/// The printed text of a JSON value that is a number, `None` for every
/// other kind of value.
pub uninterp spec fn value_number_text(v: serde_json::Value) -> Option<Seq<u8>>;

/// The text serde_json prints for a JSON number.
pub uninterp spec fn number_text(n: serde_json::Number) -> Seq<u8>;

/// Relies on serde_json::from_str: it succeeds exactly on well-formed
/// JSON text, and the document it yields — hence every member lookup on
/// it — is a function of the text alone.
#[verifier::external_body]
fn parse_json(s: &str) -> (r: Option<serde_json::Value>)
    ensures
        r.is_some() == json_wf(s@),
        r matches Option::Some(v) ==> forall|key: Seq<char>|
            #[trigger] value_member_text(v, key) == json_member_text(s@, key),
{
    match serde_json::from_str::<serde_json::Value>(s) {
        Ok(v) => Some(v),
        Err(_) => None,
    }
}

/// Relies on serde_json::Value::get: looks a key up in a JSON object; a
/// member comes back exactly when the document is an object holding one
/// under that key.
#[verifier::external_body]
fn get_member<'a>(v: &'a serde_json::Value, key: &str) -> (r: Option<&'a serde_json::Value>)
    ensures
        r is None ==> value_member_text(*v, key@) is None,
        r matches Option::Some(m) ==> value_member_text(*v, key@) == Option::Some(
            value_number_text(*m),
        ),
{
    v.get(key)
}

/// Relies on serde_json::Value::as_number: tells a JSON number from every
/// other kind of value.
#[verifier::external_body]
fn number_ref<'a>(v: &'a serde_json::Value) -> (r: Option<&'a serde_json::Number>)
    ensures
        r is None ==> value_number_text(*v) is None,
        r matches Option::Some(n) ==> value_number_text(*v) == Option::Some(number_text(*n)),
{
    v.as_number()
}

/// Relies on the Display impl of serde_json::Number: yields the text
/// serde_json prints for the number — a plain decimal for most values,
/// exponent notation for extreme decimal exponents.
#[verifier::external_body]
fn number_bytes(n: &serde_json::Number) -> (r: Vec<u8>)
    ensures
        r@ == number_text(*n),
{
    format!("{}", n).into_bytes()
}

/// The outcome of looking one threshold member up: the canonical name
/// decides when it is present, the alias only when it is absent, and a
/// member present under the chosen name that is no number is an
/// invalid-number error.
pub open spec fn member_outcome(
    canonical: Option<Option<Seq<u8>>>,
    alias: Option<Option<Seq<u8>>>,
) -> Result<Option<Seq<u8>>, ConfigParseError> {
    match canonical {
        Option::Some(Option::Some(txt)) => Result::Ok(Option::Some(txt)),
        Option::Some(Option::None) => Result::Err(ConfigParseError::InvalidNumber),
        Option::None => match alias {
            Option::Some(Option::Some(txt)) => Result::Ok(Option::Some(txt)),
            Option::Some(Option::None) => Result::Err(ConfigParseError::InvalidNumber),
            Option::None => Result::Ok(Option::None),
        },
    }
}

/// The threshold member text that the document written in `s` holds
/// under a canonical name or its alias.
pub open spec fn member_text_of(s: Seq<char>, name: Seq<char>, alias: Seq<char>) -> Result<
    Option<Seq<u8>>,
    ConfigParseError,
> {
    member_outcome(json_member_text(s, name), json_member_text(s, alias))
}

/// What loading a configuration from the text `s` yields: the malformed
/// error for text that is no JSON document; otherwise the four threshold
/// members are looked up in order (entropy, jitter, load, excess
/// factor), the first lookup failure wins, and their texts are assembled
/// exactly as [`fields_outcome`] says.
pub open spec fn json_outcome(s: Seq<char>) -> Result<SentryConfig, ConfigParseError> {
    if !json_wf(s) {
        Result::Err(ConfigParseError::Malformed)
    } else {
        match member_text_of(s, "entropy_limit"@, "max_entropy_score"@) {
            Result::Err(x) => Result::Err(x),
            Result::Ok(e) => match member_text_of(s, "jitter_limit"@, "max_jitter_score"@) {
                Result::Err(x) => Result::Err(x),
                Result::Ok(j) => match member_text_of(s, "load_limit"@, "max_load_score"@) {
                    Result::Err(x) => Result::Err(x),
                    Result::Ok(l) => match member_text_of(
                        s,
                        "hard_excess_factor"@,
                        "hard_excess_factor"@,
                    ) {
                        Result::Err(x) => Result::Err(x),
                        Result::Ok(h) => fields_outcome(e, j, l, h),
                    },
                },
            },
        }
    }
}

/// Look a threshold member up under its canonical name or its alias and
/// hand its printed number text back; a member that is present but no
/// number is an invalid-number error.
fn number_field(doc: &serde_json::Value, name: &str, alias: &str) -> (r: Result<
    Option<Vec<u8>>,
    ConfigParseError,
>)
    ensures
        ({
            let mo = member_outcome(
                value_member_text(*doc, name@),
                value_member_text(*doc, alias@),
            );
            match r {
                Result::Ok(o) => mo == Result::<Option<Seq<u8>>, ConfigParseError>::Ok(
                    opt_text(o),
                ),
                Result::Err(x) => mo == Result::<Option<Seq<u8>>, ConfigParseError>::Err(x),
            }
        }),
{
    let member = match get_member(doc, name) {
        Option::Some(v) => Option::Some(v),
        Option::None => get_member(doc, alias),
    };
    match member {
        Option::None => Result::Ok(Option::None),
        Option::Some(val) => match number_ref(val) {
            Option::None => Result::Err(ConfigParseError::InvalidNumber),
            Option::Some(n) => Result::Ok(Option::Some(number_bytes(n))),
        },
    }
}

impl SentryConfig {
    /// Load a configuration from a JSON document. Each threshold is
    /// accepted under its canonical name or its alias
    /// (`entropy_limit` / `max_entropy_score` and so on), and is read as
    /// an exact decimal from the text serde_json prints for the member.
    /// Malformed documents, missing members, members that are no plain
    /// numbers, and numbers outside the exact range are each reported as
    /// their own error, never replaced by defaults; a number whose
    /// shortest printing uses exponent notation (a very small or very
    /// large decimal exponent) falls outside the plain-decimal grammar
    /// and is reported as an invalid number. A configuration that comes
    /// out `Ok` is well-formed and ready for the policy engine.
    pub fn from_json_str(s: &str) -> (r: Result<SentryConfig, ConfigParseError>)
        ensures
            r == json_outcome(s@),
            r matches Result::Ok(c) ==> config_wf(c) && config_in_range(c),
    {
        let doc = match parse_json(s) {
            Option::Some(d) => d,
            Option::None => {
                return Result::Err(ConfigParseError::Malformed);
            },
        };
        let e = match number_field(&doc, "entropy_limit", "max_entropy_score") {
            Result::Ok(o) => o,
            Result::Err(x) => {
                return Result::Err(x);
            },
        };
        let j = match number_field(&doc, "jitter_limit", "max_jitter_score") {
            Result::Ok(o) => o,
            Result::Err(x) => {
                return Result::Err(x);
            },
        };
        let l = match number_field(&doc, "load_limit", "max_load_score") {
            Result::Ok(o) => o,
            Result::Err(x) => {
                return Result::Err(x);
            },
        };
        let h = match number_field(&doc, "hard_excess_factor", "hard_excess_factor") {
            Result::Ok(o) => o,
            Result::Err(x) => {
                return Result::Err(x);
            },
        };
        config_from_texts(e, j, l, h)
    }
}

impl Default for SentryConfig {
    /// The built-in default configuration.
    fn default() -> (c: SentryConfig)
        ensures
            c == default_config(),
    {
        SentryConfig {
            entropy_limit: Ratio { num: 1, den: 1 },
            jitter_limit: Ratio { num: 1, den: 2 },
            load_limit: Ratio { num: 17, den: 20 },
            hard_excess_factor: Ratio { num: 2, den: 1 },
        }
    }
}

/// Policy engine that turns signal vectors into decisions. It holds an
/// immutable configuration and no other state, so concurrent evaluations
/// are safe by construction.
#[derive(Clone, Copy, Debug)]
pub struct SentryEngine {
    config: SentryConfig,
}

impl Default for SentryEngine {
    /// An engine over the built-in default configuration.
    fn default() -> (e: SentryEngine)
        ensures
            e.spec_config() == default_config(),
    {
        SentryEngine::new(SentryConfig::default())
    }
}

impl SentryEngine {
    /// The configuration the engine was built with.
    pub closed spec fn spec_config(&self) -> SentryConfig {
        self.config
    }

    /// Create a new engine with the given configuration.
    pub fn new(config: SentryConfig) -> (e: SentryEngine)
        ensures
            e.spec_config() == config,
    {
        SentryEngine { config }
    }

    /// Convenience constructor using the default configuration.
    pub fn with_default_config() -> (e: SentryEngine)
        ensures
            e.spec_config() == default_config(),
    {
        SentryEngine::new(SentryConfig::default())
    }

    /// Decide whether to keep, throttle, or kill a job based on its
    /// signals. The job identifier is accepted for future correlation and
    /// logging only: the decision is a pure function of the configuration
    /// and the signals.
    pub fn decide(&self, _job_id: &str, signals: &SentrySignals) -> (d: SentryDecision)
        requires
            config_wf(self.spec_config()),
            config_in_range(self.spec_config()),
            signals_wf(*signals),
            signals_in_range(*signals),
        ensures
            d == decision_of(self.spec_config(), *signals),
    {
        let hard = &self.config.hard_excess_factor;
        let kill = ratio_at_least(&signals.entropy_score, &self.config.entropy_limit, hard)
            || ratio_at_least(&signals.jitter_score, &self.config.jitter_limit, hard)
            || ratio_at_least(&signals.load_score, &self.config.load_limit, hard);
        if kill {
            SentryDecision::Kill
        } else {
            let throttle = ratio_exceeds_one(&signals.entropy_score, &self.config.entropy_limit)
                || ratio_exceeds_one(&signals.jitter_score, &self.config.jitter_limit)
                || ratio_exceeds_one(&signals.load_score, &self.config.load_limit);
            if throttle {
                SentryDecision::Throttle
            } else {
                SentryDecision::Keep
            }
        }
    }
}

/// Executable form of [`dim_ratio_at_least`], with overflow ruled out by
/// the magnitude bounds.
fn ratio_at_least(score: &Ratio, limit: &Ratio, t: &Ratio) -> (b: bool)
    requires
        ratio_wf(*score),
        ratio_wf(*limit),
        ratio_wf(*t),
        signal_in_range(*score),
        limit_in_range(*limit),
        limit_in_range(*t),
    ensures
        b == dim_ratio_at_least(*score, *limit, *t),
{
    if limit.num > 0 {
        proof {
            lemma_mul_bound(score.num as int, limit.den as int, SIGNAL_BOUND as int,
                LIMIT_BOUND as int);
            lemma_mul_bound(score.num * limit.den, t.den as int,
                SIGNAL_BOUND as int * LIMIT_BOUND as int, LIMIT_BOUND as int);
            lemma_mul_bound(t.num as int, limit.num as int, LIMIT_BOUND as int,
                LIMIT_BOUND as int);
            lemma_mul_bound(t.num * limit.num, score.den as int,
                LIMIT_BOUND as int * LIMIT_BOUND as int, SIGNAL_BOUND as int);
        }
        let lhs: i128 = score.num * limit.den * t.den;
        let rhs: i128 = t.num * limit.num * score.den;
        lhs >= rhs
    } else {
        0 >= t.num
    }
}

/// Executable form of [`dim_ratio_exceeds_one`], with overflow ruled out
/// by the magnitude bounds.
fn ratio_exceeds_one(score: &Ratio, limit: &Ratio) -> (b: bool)
    requires
        ratio_wf(*score),
        ratio_wf(*limit),
        signal_in_range(*score),
        limit_in_range(*limit),
    ensures
        b == dim_ratio_exceeds_one(*score, *limit),
{
    if limit.num > 0 {
        proof {
            lemma_mul_bound(score.num as int, limit.den as int, SIGNAL_BOUND as int,
                LIMIT_BOUND as int);
            lemma_mul_bound(limit.num as int, score.den as int, LIMIT_BOUND as int,
                SIGNAL_BOUND as int);
        }
        score.num * limit.den > limit.num * score.den
    } else {
        false
    }
}

/// The short display name of a decision.
pub fn decision_str(d: SentryDecision) -> (s: &'static str)
    ensures
        d == SentryDecision::Keep ==> s@ == "Keep"@,
        d == SentryDecision::Throttle ==> s@ == "Throttle"@,
        d == SentryDecision::Kill ==> s@ == "Kill"@,
{
    match d {
        SentryDecision::Keep => "Keep",
        SentryDecision::Throttle => "Throttle",
        SentryDecision::Kill => "Kill",
    }
}

/// When every limit is disabled (non-positive) and the excess factor is
/// positive, every dimension contributes zero stress, so the engine keeps
/// the job whatever the signals say.
pub proof fn lemma_all_limits_disabled_keeps(c: SentryConfig, s: SentrySignals)
    requires
        config_wf(c),
        signals_wf(s),
        c.entropy_limit.num <= 0,
        c.jitter_limit.num <= 0,
        c.load_limit.num <= 0,
        c.hard_excess_factor.num > 0,
    ensures
        decision_of(c, s) == SentryDecision::Keep,
{
}

/// Raising any of the three scores — componentwise, as rational values —
/// while the configuration stays fixed never lowers the severity of the
/// decision.
pub proof fn lemma_decide_monotone(c: SentryConfig, s1: SentrySignals, s2: SentrySignals)
    requires
        config_wf(c),
        signals_wf(s1),
        signals_wf(s2),
        ratio_le(s1.entropy_score, s2.entropy_score),
        ratio_le(s1.jitter_score, s2.jitter_score),
        ratio_le(s1.load_score, s2.load_score),
    ensures
        severity(decision_of(c, s1)) <= severity(decision_of(c, s2)),
{
    lemma_dim_at_least_mono(s1.entropy_score, s2.entropy_score, c.entropy_limit,
        c.hard_excess_factor);
    lemma_dim_at_least_mono(s1.jitter_score, s2.jitter_score, c.jitter_limit,
        c.hard_excess_factor);
    lemma_dim_at_least_mono(s1.load_score, s2.load_score, c.load_limit, c.hard_excess_factor);
    lemma_dim_exceeds_mono(s1.entropy_score, s2.entropy_score, c.entropy_limit);
    lemma_dim_exceeds_mono(s1.jitter_score, s2.jitter_score, c.jitter_limit);
    lemma_dim_exceeds_mono(s1.load_score, s2.load_score, c.load_limit);
}

/// Two evaluations over equal configurations and equal signals yield
/// equal decisions: the rule is a pure function of that pair and of
/// nothing else.
pub proof fn lemma_decide_idempotent(
    c1: SentryConfig,
    c2: SentryConfig,
    s1: SentrySignals,
    s2: SentrySignals,
)
    requires
        c1 == c2,
        s1 == s2,
    ensures
        decision_of(c1, s1) == decision_of(c2, s2),
{
}

/// A dimension whose ratio reaches a threshold keeps reaching it when the
/// score grows.
proof fn lemma_dim_at_least_mono(a: Ratio, b: Ratio, l: Ratio, t: Ratio)
    requires
        a.den > 0,
        b.den > 0,
        l.den > 0,
        t.den > 0,
        ratio_le(a, b),
    ensures
        dim_ratio_at_least(a, l, t) ==> dim_ratio_at_least(b, l, t),
{
    if l.num > 0 && dim_ratio_at_least(a, l, t) {
        assert(b.num * l.den * t.den >= t.num * l.num * b.den) by (nonlinear_arith)
            requires
                a.num * l.den * t.den >= t.num * l.num * a.den,
                a.num * b.den <= b.num * a.den,
                a.den > 0,
                b.den > 0,
                l.den > 0,
                t.den > 0;
    }
}

/// A dimension whose ratio exceeds one keeps exceeding it when the score
/// grows.
proof fn lemma_dim_exceeds_mono(a: Ratio, b: Ratio, l: Ratio)
    requires
        a.den > 0,
        b.den > 0,
        l.den > 0,
        ratio_le(a, b),
    ensures
        dim_ratio_exceeds_one(a, l) ==> dim_ratio_exceeds_one(b, l),
{
    if dim_ratio_exceeds_one(a, l) {
        assert(b.num * l.den > l.num * b.den) by (nonlinear_arith)
            requires
                a.num * l.den > l.num * a.den,
                a.num * b.den <= b.num * a.den,
                a.den > 0,
                b.den > 0,
                l.den > 0,
                l.num > 0;
    }
}

} // verus!
