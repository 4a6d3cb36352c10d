//! The configuration model: startup arguments, application settings and
//! the webhook registrations a registry is built from, together with the
//! verified validation pass over a loaded configuration. Reading the
//! configuration file and the command line happens outside the library;
//! the library receives plain values.

use vstd::prelude::*;
use vstd::string::*;

use crate::template::{template_compile_of, CompiledTemplate};
use crate::text::{
    dec_digits, starts_with_slash, str_eq, to_upper, u64_to_dec, upper_text,
};

verus! {

/// Startup arguments, with the same fields and defaults the process
/// exposes as flags and environment fallbacks.
pub struct Args {
    pub config: String,
    pub bind_address: String,
    pub port: u16,
    pub log_level: String,
    pub log_format: String,
    pub request_timeout: u64,
    pub max_concurrent_requests: usize,
    pub health_check_enabled: bool,
}

/// Process-wide settings from the configuration file's `settings` section.
#[derive(Clone, Copy, PartialEq, Eq, Structural)]
pub struct AppSettings {
    pub retry_attempts: u32,
    pub retry_delay_ms: u64,
    pub enable_metrics: bool,
}

pub fn default_retry_attempts() -> (r: u32)
    ensures
        r == 3u32,
{
    3
}

pub fn default_retry_delay_ms() -> (r: u64)
    ensures
        r == 1000u64,
{
    1000
}

pub fn default_enable_metrics() -> (r: bool)
    ensures
        r == false,
{
    false
}

impl Default for AppSettings {
    fn default() -> (r: AppSettings)
        ensures
            r.retry_attempts == 3u32,
            r.retry_delay_ms == 1000u64,
            r.enable_metrics == false,
    {
        AppSettings {
            retry_attempts: default_retry_attempts(),
            retry_delay_ms: default_retry_delay_ms(),
            enable_metrics: default_enable_metrics(),
        }
    }
}

/// The upstream destination of a rule. Headers and the per-target timeout
/// are accepted from configuration but not applied by the dispatch path.
pub struct Target {
    pub url: String,
    pub method: String,
    pub headers: Vec<(String, String)>,
    pub timeout_seconds: Option<u64>,
}

pub struct TargetView {
    pub url: Seq<char>,
    pub method: Seq<char>,
    pub headers: Seq<(Seq<char>, Seq<char>)>,
    pub timeout_seconds: Option<u64>,
}

impl View for Target {
    type V = TargetView;

    open spec fn view(&self) -> TargetView {
        TargetView {
            url: self.url@,
            method: self.method@,
            headers: self.headers@.map_values(|p: (String, String)| (p.0@, p.1@)),
            timeout_seconds: self.timeout_seconds,
        }
    }
}

/// One configured registration: an inbound endpoint path bound to a
/// target and a template source.
pub struct WebhookRegister {
    pub endpoint: String,
    pub method: String,
    pub target: Target,
    pub template: String,
}

pub struct RegisterView {
    pub endpoint: Seq<char>,
    pub method: Seq<char>,
    pub target: TargetView,
    pub template: Seq<char>,
}

impl View for WebhookRegister {
    type V = RegisterView;

    open spec fn view(&self) -> RegisterView {
        RegisterView {
            endpoint: self.endpoint@,
            method: self.method@,
            target: self.target@,
            template: self.template@,
        }
    }
}

/// A loaded configuration: the registrations in file order, plus settings.
pub struct Config {
    pub registers: Vec<WebhookRegister>,
    pub settings: AppSettings,
}

pub struct ConfigView {
    pub registers: Seq<RegisterView>,
    pub settings: AppSettings,
}

impl View for Config {
    type V = ConfigView;

    open spec fn view(&self) -> ConfigView {
        ConfigView {
            registers: self.registers@.map_values(|r: WebhookRegister| r@),
            settings: self.settings,
        }
    }
}

/// The five outbound verbs the forwarding client supports, matched
/// case-insensitively (ASCII).
pub open spec fn supported_verb(m: Seq<char>) -> bool {
    ||| upper_text(m) == "GET"@
    ||| upper_text(m) == "POST"@
    ||| upper_text(m) == "PUT"@
    ||| upper_text(m) == "DELETE"@
    ||| upper_text(m) == "PATCH"@
}

pub fn is_supported_method(m: &str) -> (r: bool)
    ensures
        r == supported_verb(m@),
{
    let u = to_upper(m);
    str_eq(u.as_str(), "GET") || str_eq(u.as_str(), "POST") || str_eq(u.as_str(), "PUT")
        || str_eq(u.as_str(), "DELETE") || str_eq(u.as_str(), "PATCH")
}

/// The first problem a registration has, if any, as the message text the
/// validator reports for it (without the register's index).
pub open spec fn register_issue(r: RegisterView) -> Option<Seq<char>> {
    if !(r.endpoint.len() > 0 && r.endpoint[0] == '/') {
        Some("endpoint must start with '/'"@)
    } else if !supported_verb(r.method) {
        Some("invalid HTTP method '"@ + r.method + "'"@)
    } else if r.target.url.len() == 0 {
        Some("target URL cannot be empty"@)
    } else {
        match template_compile_of(r.template) {
            Some(e) => Some("template error: "@ + e),
            None => None,
        }
    }
}

/// The validator's verdict from register `i` on: the first registration
/// at or after `i` with an issue decides, earlier ones were clean.
pub open spec fn validate_from(regs: Seq<RegisterView>, i: int) -> Result<(), Seq<char>>
    decreases regs.len() - i,
{
    if i < 0 || i >= regs.len() {
        Ok(())
    } else {
        match register_issue(regs[i]) {
            Some(m) => Err("Register "@ + dec_digits(i as nat) + ": "@ + m),
            None => validate_from(regs, i + 1),
        }
    }
}

pub open spec fn validate_spec(regs: Seq<RegisterView>) -> Result<(), Seq<char>> {
    validate_from(regs, 0)
}

fn register_error(i: usize, issue: String) -> (r: String)
    ensures
        r@ == "Register "@ + dec_digits(i as nat) + ": "@ + issue@,
{
    let mut s = String::from_str("Register ");
    let d = u64_to_dec(i as u64);
    s.append(d.as_str());
    s.append(": ");
    s.append(issue.as_str());
    s
}

/// Checks every registration in order: the endpoint must start with `/`,
/// the declared inbound method must be a supported verb, the target URL
/// must be non-empty and the template source must compile. The first
/// failing registration decides the error message.
pub fn validate_config(cfg: &Config) -> (r: Result<(), String>)
    ensures
        r is Ok <==> validate_spec(cfg@.registers) is Ok,
        (r matches Err(m) ==> validate_spec(cfg@.registers) == Err::<(), Seq<char>>(m@)),
{
    let n = cfg.registers.len();
    let mut i: usize = 0;
    while i < n
        invariant
            i <= n,
            n == cfg.registers.len(),
            validate_from(cfg@.registers, 0) == validate_from(cfg@.registers, i as int),
        decreases n - i,
    {
        let reg = &cfg.registers[i];
        proof {
            assert(cfg@.registers[i as int] == cfg.registers[i as int]@);
        }
        if !starts_with_slash(reg.endpoint.as_str()) {
            return Err(register_error(i, String::from_str("endpoint must start with '/'")));
        }
        if !is_supported_method(reg.method.as_str()) {
            let mut issue = String::from_str("invalid HTTP method '");
            issue.append(reg.method.as_str());
            issue.append("'");
            return Err(register_error(i, issue));
        }
        if reg.target.url.as_str().unicode_len() == 0 {
            return Err(register_error(i, String::from_str("target URL cannot be empty")));
        }
        match CompiledTemplate::compile(reg.template.as_str()) {
            Ok(_) => {},
            Err(e) => {
                let mut issue = String::from_str("template error: ");
                issue.append(e.as_str());
                return Err(register_error(i, issue));
            },
        }
        i = i + 1;
    }
    Ok(())
}

} // verus!
