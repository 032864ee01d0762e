//! The health check: for each model role, whether its API key is present
//! and its client could be set up, with the key shown only by its last four
//! bytes.  Setting up the clients is the caller's part; their outcome is
//! handed over.

use vstd::prelude::*;
use vstd::utf8::{encode_utf8, is_char_boundary};
use crate::core_config::{AgentConfig, RoleConfig};
use std::time::{Duration, SystemTime, SystemTimeError};
use crate::text::{is_blank, owned, str_is_blank};

verus! {

#[verifier::external_type_specification]
#[verifier::external_body]
pub struct ExSystemTime(SystemTime);

#[verifier::external_type_specification]
#[verifier::external_body]
pub struct ExSystemTimeError(SystemTimeError);

/// `SystemTime::now()`: a reading of the system clock.  Nothing is stated
/// of it.
#[verifier::external_body]
fn system_now() -> SystemTime {
    SystemTime::now()
}

/// `SystemTime::duration_since(UNIX_EPOCH)`: the time elapsed since the
/// Unix epoch, or an error when `t` lies before it.  Which of the two comes
/// back depends on the clock's reading, so nothing is stated of it.
#[verifier::external_body]
fn since_unix_epoch(t: &SystemTime) -> Result<Duration, SystemTimeError> {
    t.duration_since(std::time::UNIX_EPOCH)
}

/// `Duration::as_millis`: the whole milliseconds of `d`.  A `Duration` is
/// opaque here, so nothing is stated of the number.
#[verifier::external_body]
fn duration_millis(d: &Duration) -> u128 {
    d.as_millis()
}

/// The current time in milliseconds since the Unix epoch, by the system
/// clock; 0 when the clock reads a time before the epoch.
pub fn now_ts_ms() -> i64 {
    let now = system_now();
    match since_unix_epoch(&now) {
        Ok(d) => duration_millis(&d) as i64,
        Err(_) => 0,
    }
}

/// A secret shown by its last four bytes: empty stays empty, four bytes or
/// fewer become `****`, anything longer `****` followed by its last four
/// bytes.  (The cut must fall on a character boundary.)
pub fn redact_secret(value: &str) -> (r: String)
    requires
        encode_utf8(value@).len() <= usize::MAX,
        encode_utf8(value@).len() > 4 ==> is_char_boundary(
            encode_utf8(value@),
            encode_utf8(value@).len() - 4,
        ),
    ensures
        value@.len() == 0 ==> r@ == ""@,
        value@.len() > 0 && encode_utf8(value@).len() <= 4 ==> r@ == "****"@,
        encode_utf8(value@).len() > 4 ==> {
            &&& r@.take(4) == "****"@
            &&& encode_utf8(r@.skip(4)) == encode_utf8(value@).subrange(
                encode_utf8(value@).len() - 4,
                encode_utf8(value@).len() as int,
            )
        },
{
    if value.is_empty() {
        return owned("");
    }
    let n = value.len();
    if n <= 4 {
        return owned("****");
    }
    let (_, suffix) = value.split_at(n - 4);
    let mut r = owned("****");
    r.append(suffix);
    proof {
        reveal_strlit("****");
        assert(r@.take(4) =~= "****"@);
        assert(r@.skip(4) =~= suffix@);
    }
    r
}

/// The result of checking one role.
#[derive(Debug, Clone)]
pub struct RoleCheck {
    pub role: String,
    pub provider: String,
    pub model: String,
    pub api_key_present: bool,
    pub api_key_hint: String,
    pub ok: bool,
    pub error: Option<String>,
}

/// `c` is the check of role `role` configured by `cfg`, whose client set-up
/// gave `init`.
pub open spec fn is_role_check(c: RoleCheck, role: Seq<char>, cfg: RoleConfig, init: Result<(), String>) -> bool {
    &&& c.role@ == role
    &&& c.provider@ == cfg.provider@
    &&& c.model@ == cfg.model@
    &&& c.api_key_present == !is_blank(cfg.api_key@)
    &&& match init {
        Ok(_) => {
            &&& c.ok == c.api_key_present
            &&& if c.api_key_present {
                c.error is None
            } else {
                c.error matches Some(e) && e@ == "api_key is empty"@
            }
        },
        Err(m) => !c.ok && c.error == Some(m),
    }
}

/// Checks one role.
pub fn role_check(role: &str, cfg: &RoleConfig, init: Result<(), String>) -> (c: RoleCheck)
    requires
        encode_utf8(cfg.api_key@).len() <= usize::MAX,
        cfg.api_key@.len() > 0 && encode_utf8(cfg.api_key@).len() > 4 ==> is_char_boundary(
            encode_utf8(cfg.api_key@),
            encode_utf8(cfg.api_key@).len() - 4,
        ),
    ensures
        is_role_check(c, role@, *cfg, init),
{
    let present = !str_is_blank(cfg.api_key.as_str());
    let (ok, error) = match init {
        Ok(_) => if present {
            (true, None)
        } else {
            (false, Some(owned("api_key is empty")))
        },
        Err(m) => (false, Some(m)),
    };
    RoleCheck {
        role: owned(role),
        provider: cfg.provider.clone(),
        model: cfg.model.clone(),
        api_key_present: present,
        api_key_hint: redact_secret(cfg.api_key.as_str()),
        ok,
        error,
    }
}

/// The health-check report.
#[derive(Debug, Clone)]
pub struct SelfTestReport {
    pub ok: bool,
    pub status: String,
    pub checks: Vec<RoleCheck>,
}

/// The report over the planner, executor and reflector checks: it passes
/// when every role is ok.
pub fn self_test_report(checks: Vec<RoleCheck>) -> (r: SelfTestReport)
    ensures
        r.checks == checks,
        r.ok == (forall|i: int| 0 <= i < checks@.len() ==> (#[trigger] checks@[i]).ok),
        r.ok ==> r.status@ == "PASS"@,
        !r.ok ==> r.status@ == "FAIL"@,
{
    let mut all_ok = true;
    let mut i: usize = 0;
    while i < checks.len()
        invariant
            i <= checks@.len(),
            all_ok == (forall|k: int| 0 <= k < i ==> (#[trigger] checks@[k]).ok),
        decreases checks@.len() - i,
    {
        all_ok = all_ok && checks[i].ok;
        i = i + 1;
    }
    let status = if all_ok {
        owned("PASS")
    } else {
        owned("FAIL")
    };
    SelfTestReport { ok: all_ok, status, checks }
}

/// The names of the checked roles, in order, with their configurations.
pub fn roles_of(config: &AgentConfig) -> (r: Vec<(&'static str, &RoleConfig)>)
    ensures
        r@.len() == 3,
        r@[0].0@ == "planner"@ && *r@[0].1 == config.planner,
        r@[1].0@ == "executor"@ && *r@[1].1 == config.executor,
        r@[2].0@ == "reflector"@ && *r@[2].1 == config.reflector,
{
    vec![("planner", &config.planner), ("executor", &config.executor), ("reflector", &config.reflector)]
}

} // verus!
