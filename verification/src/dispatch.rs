//! The dispatch pipeline, one stateless pass per request: look the path
//! up, parse the body, render the template, validate the rendered text,
//! and either answer at once or hand the caller an outbound forward to
//! perform. The caller performs the transport and brings the outcome back
//! to `conclude`, which builds the relayed response. Every response body
//! is pinned down to its exact text.

use vstd::pervasive::unreached;
use vstd::prelude::*;
use vstd::string::*;

use crate::json::{
    classify_json, json_canon_of, json_class_of, json_to_template_data, json_well_formed,
    reserialize_json, template_data_text, wrapped_data_text,
};
use crate::registry::{lookup_spec, Registry, RuleView};
use crate::template::render_outcome_of;
use crate::text::{escape_json, escape_text, str_eq, to_upper, upper_text};

verus! {

/// The outbound verbs the forwarding client supports.
#[derive(Clone, Copy, PartialEq, Eq, Structural, Debug)]
pub enum HttpMethod {
    Get,
    Post,
    Put,
    Delete,
    Patch,
}

/// The verb a configured method name maps to, matched ASCII
/// case-insensitively; any other name is a configuration fault.
pub open spec fn verb_of(m: Seq<char>) -> Option<HttpMethod> {
    if upper_text(m) == "GET"@ {
        Some(HttpMethod::Get)
    } else if upper_text(m) == "POST"@ {
        Some(HttpMethod::Post)
    } else if upper_text(m) == "PUT"@ {
        Some(HttpMethod::Put)
    } else if upper_text(m) == "DELETE"@ {
        Some(HttpMethod::Delete)
    } else if upper_text(m) == "PATCH"@ {
        Some(HttpMethod::Patch)
    } else {
        None
    }
}

pub fn map_method(m: &str) -> (r: Option<HttpMethod>)
    ensures
        r == verb_of(m@),
{
    let u = to_upper(m);
    if str_eq(u.as_str(), "GET") {
        Some(HttpMethod::Get)
    } else if str_eq(u.as_str(), "POST") {
        Some(HttpMethod::Post)
    } else if str_eq(u.as_str(), "PUT") {
        Some(HttpMethod::Put)
    } else if str_eq(u.as_str(), "DELETE") {
        Some(HttpMethod::Delete)
    } else if str_eq(u.as_str(), "PATCH") {
        Some(HttpMethod::Patch)
    } else {
        None
    }
}

/// The exact text of a structured error response: one `error` field
/// holding the message, escaped as serde_json serializes strings.
pub open spec fn error_body_text(m: Seq<char>) -> Seq<char> {
    "{\"error\":\""@ + escape_text(m) + "\"}"@
}

pub fn error_body(msg: &str) -> (r: String)
    ensures
        r@ == error_body_text(msg@),
{
    let mut s = String::from_str("{\"error\":\"");
    let e = escape_json(msg);
    s.append(e.as_str());
    s.append("\"}");
    s
}

/// A response to the original caller.
pub struct Reply {
    pub status: u16,
    pub body: String,
}

pub struct ReplyView {
    pub status: u16,
    pub body: Seq<char>,
}

impl View for Reply {
    type V = ReplyView;

    open spec fn view(&self) -> ReplyView {
        ReplyView { status: self.status, body: self.body@ }
    }
}

/// An outbound request the caller is asked to perform.
pub struct ForwardRequest {
    pub method: HttpMethod,
    pub url: String,
    pub payload: String,
}

pub struct ForwardView {
    pub method: HttpMethod,
    pub url: Seq<char>,
    pub payload: Seq<char>,
}

impl View for ForwardRequest {
    type V = ForwardView;

    open spec fn view(&self) -> ForwardView {
        ForwardView { method: self.method, url: self.url@, payload: self.payload@ }
    }
}

/// What the pipeline decides before any transport happens: either a
/// terminal response, or the forward to perform.
pub enum Prepared {
    Reply(Reply),
    Forward(ForwardRequest),
}

pub enum PreparedView {
    Reply(ReplyView),
    Forward(ForwardView),
}

impl View for Prepared {
    type V = PreparedView;

    open spec fn view(&self) -> PreparedView {
        match self {
            Prepared::Reply(r) => PreparedView::Reply(r@),
            Prepared::Forward(f) => PreparedView::Forward(f@),
        }
    }
}

/// The pipeline from the render stage on, for a rule and the data text
/// the template is rendered against: render, validate the rendered text,
/// map the configured method, and forward the canonical payload.
pub open spec fn render_stage(rule: RuleView, data: Seq<char>) -> PreparedView {
    match render_outcome_of(rule.template, data) {
        Err(m) => PreparedView::Reply(
            ReplyView { status: 500, body: error_body_text("Template rendering failed: "@ + m) },
        ),
        Ok(rendered) => match json_class_of(rendered) {
            Err(m) => PreparedView::Reply(
                ReplyView {
                    status: 500,
                    body: error_body_text("Rendered template is not valid JSON: "@ + m),
                },
            ),
            Ok(_) => match verb_of(rule.target.method) {
                None => PreparedView::Reply(
                    ReplyView {
                        status: 500,
                        body: error_body_text(
                            "Unsupported HTTP method: "@ + upper_text(rule.target.method),
                        ),
                    },
                ),
                Some(v) => PreparedView::Forward(
                    ForwardView { method: v, url: rule.target.url, payload: json_canon_of(rendered) },
                ),
            },
        },
    }
}

/// The pipeline once a rule is found: parse the body, wrap a non-object
/// payload, then the render stage.
pub open spec fn rule_stage(rule: RuleView, body: Seq<char>) -> PreparedView {
    match json_class_of(body) {
        Err(m) => PreparedView::Reply(
            ReplyView { status: 400, body: error_body_text("Invalid JSON: "@ + m) },
        ),
        Ok(_) => render_stage(rule, template_data_text(body)),
    }
}

/// The whole dispatch decision for one inbound request.
pub open spec fn prepare_spec(rules: Seq<RuleView>, path: Seq<char>, body: Seq<char>) -> PreparedView {
    match lookup_spec(rules, path) {
        None => PreparedView::Reply(
            ReplyView { status: 404, body: error_body_text("Endpoint not found"@) },
        ),
        Some(rule) => rule_stage(rule, body),
    }
}

/// Runs the dispatch decision for an inbound request: the registry lookup,
/// body parsing and wrapping, template rendering, validation of the
/// rendered text, and the method mapping. Returns either the terminal
/// response or the outbound forward the caller must perform.
pub fn prepare(reg: &Registry, path: &str, body: &str) -> (r: Prepared)
    ensures
        r@ == prepare_spec(reg@, path@, body@),
{
    let rule = match reg.lookup(path) {
        None => {
            return Prepared::Reply(
                Reply { status: 404, body: error_body("Endpoint not found") },
            );
        },
        Some(rule) => rule,
    };
    let data = match json_to_template_data(body) {
        Err(m) => {
            let mut msg = String::from_str("Invalid JSON: ");
            msg.append(m.as_str());
            return Prepared::Reply(Reply { status: 400, body: error_body(msg.as_str()) });
        },
        Ok(d) => d,
    };
    let rendered = match rule.template.render(data.as_str()) {
        Err(m) => {
            let mut msg = String::from_str("Template rendering failed: ");
            msg.append(m.as_str());
            return Prepared::Reply(Reply { status: 500, body: error_body(msg.as_str()) });
        },
        Ok(t) => t,
    };
    match classify_json(rendered.as_str()) {
        Err(m) => {
            let mut msg = String::from_str("Rendered template is not valid JSON: ");
            msg.append(m.as_str());
            return Prepared::Reply(Reply { status: 500, body: error_body(msg.as_str()) });
        },
        Ok(_) => {},
    }
    let verb = match map_method(rule.target.method.as_str()) {
        None => {
            let u = to_upper(rule.target.method.as_str());
            let mut msg = String::from_str("Unsupported HTTP method: ");
            msg.append(u.as_str());
            return Prepared::Reply(Reply { status: 500, body: error_body(msg.as_str()) });
        },
        Some(v) => v,
    };
    let payload = match reserialize_json(rendered.as_str()) {
        Some(c) => c,
        None => unreached(),
    };
    Prepared::Forward(ForwardRequest { method: verb, url: rule.target.url.clone(), payload })
}

/// What the transport attempt came back with: the upstream body read in
/// full, or the failure to send, or the failure to read the response.
pub enum ForwardEvent {
    Response { body: String },
    SendFailed { message: String },
    ReadFailed { message: String },
}

pub enum ForwardEventView {
    Response { body: Seq<char> },
    SendFailed { message: Seq<char> },
    ReadFailed { message: Seq<char> },
}

impl View for ForwardEvent {
    type V = ForwardEventView;

    open spec fn view(&self) -> ForwardEventView {
        match self {
            ForwardEvent::Response { body } => ForwardEventView::Response { body: body@ },
            ForwardEvent::SendFailed { message } => ForwardEventView::SendFailed {
                message: message@,
            },
            ForwardEvent::ReadFailed { message } => ForwardEventView::ReadFailed {
                message: message@,
            },
        }
    }
}

/// The success envelope: the upstream body re-serialized when it is JSON,
/// or wrapped as a JSON string when it is not — the caller always receives
/// a JSON-typed `target_response`.
pub open spec fn success_envelope_text(upstream: Seq<char>) -> Seq<char> {
    "{\"status\":\"success\",\"target_response\":"@ + (if json_well_formed(upstream) {
        json_canon_of(upstream)
    } else {
        "\""@ + escape_text(upstream) + "\""@
    }) + "}"@
}

pub open spec fn conclude_spec(e: ForwardEventView) -> ReplyView {
    match e {
        ForwardEventView::Response { body } => ReplyView {
            status: 200,
            body: success_envelope_text(body),
        },
        ForwardEventView::SendFailed { message } => ReplyView {
            status: 500,
            body: error_body_text("Failed to send request to target: "@ + message),
        },
        ForwardEventView::ReadFailed { message } => ReplyView {
            status: 500,
            body: error_body_text("Failed to read response: "@ + message),
        },
    }
}

/// Turns the outcome of the forward into the response relayed to the
/// original caller: any received upstream body — whatever its status —
/// is relayed as success; only transport failures are errors.
pub fn conclude(e: &ForwardEvent) -> (r: Reply)
    ensures
        r@ == conclude_spec(e@),
{
    match e {
        ForwardEvent::Response { body } => {
            let mut out = String::from_str("{\"status\":\"success\",\"target_response\":");
            match reserialize_json(body.as_str()) {
                Some(c) => {
                    out.append(c.as_str());
                },
                None => {
                    out.append("\"");
                    let esc = escape_json(body.as_str());
                    out.append(esc.as_str());
                    out.append("\"");
                },
            }
            out.append("}");
            proof {
                assert(out@ =~= success_envelope_text(body@));
            }
            Reply { status: 200, body: out }
        },
        ForwardEvent::SendFailed { message } => {
            let mut msg = String::from_str("Failed to send request to target: ");
            msg.append(message.as_str());
            Reply { status: 500, body: error_body(msg.as_str()) }
        },
        ForwardEvent::ReadFailed { message } => {
            let mut msg = String::from_str("Failed to read response: ");
            msg.append(message.as_str());
            Reply { status: 500, body: error_body(msg.as_str()) }
        },
    }
}

/// The fixed debug acknowledgement: any body posted to the debug endpoint
/// is answered 200 with this envelope, whether or not it is JSON; the
/// caller logs the payload itself.
pub fn debug_reply() -> (r: Reply)
    ensures
        r@.status == 200,
        r@.body == "{\"message\":\"Payload logged\",\"status\":\"success\"}"@,
{
    Reply {
        status: 200,
        body: String::from_str("{\"message\":\"Payload logged\",\"status\":\"success\"}"),
    }
}

/// The configuration validator accepts exactly the method names the
/// forwarding client can map to an outbound verb: a validated rule can
/// never fail dispatch with an unsupported-method error.
pub proof fn lemma_supported_methods_map(m: Seq<char>)
    ensures
        crate::config::supported_verb(m) <==> verb_of(m) is Some,
{
}

/// A request to an unregistered path is answered 404 with the fixed
/// structured error body, whatever the payload holds.
pub proof fn lemma_unregistered_always_not_found(
    rules: Seq<RuleView>,
    path: Seq<char>,
    body: Seq<char>,
)
    requires
        lookup_spec(rules, path) is None,
    ensures
        prepare_spec(rules, path, body) == PreparedView::Reply(
            ReplyView { status: 404, body: error_body_text("Endpoint not found"@) },
        ),
{
}

/// A body that does not parse as JSON is answered 400 at once: the
/// outcome of a registered endpoint is decided before — and independently
/// of — any template rendering.
pub proof fn lemma_invalid_json_always_bad_request(
    rules: Seq<RuleView>,
    path: Seq<char>,
    body: Seq<char>,
    m: Seq<char>,
)
    requires
        lookup_spec(rules, path) is Some,
        json_class_of(body) == Err::<bool, Seq<char>>(m),
    ensures
        prepare_spec(rules, path, body) == PreparedView::Reply(
            ReplyView { status: 400, body: error_body_text("Invalid JSON: "@ + m) },
        ),
{
}

/// A well-formed body whose top level is not an object is wrapped under a
/// `data` key before templating: the pipeline behaves on it exactly as it
/// behaves on the wrapped `{"data": ...}` text.
pub proof fn lemma_non_object_body_wrapped(rules: Seq<RuleView>, path: Seq<char>, body: Seq<char>)
    requires
        lookup_spec(rules, path) is Some,
        json_class_of(body) == Ok::<bool, Seq<char>>(false),
    ensures
        prepare_spec(rules, path, body) == render_stage(
            lookup_spec(rules, path)->Some_0,
            wrapped_data_text(body),
        ),
{
}

/// Repeated identical requests prepare structurally identical outbound
/// forwards — same method, same URL, same JSON payload: the decision is a
/// pure function of the registry, the path and the body, with no hidden
/// per-call state.
pub proof fn lemma_prepare_deterministic(
    rules: Seq<RuleView>,
    path: Seq<char>,
    body: Seq<char>,
    first: PreparedView,
    second: PreparedView,
)
    requires
        first == prepare_spec(rules, path, body),
        second == prepare_spec(rules, path, body),
    ensures
        first == second,
        (first matches PreparedView::Forward(f1) ==> second matches PreparedView::Forward(
            f2,
        ) && f1.method == f2.method && f1.url == f2.url && f1.payload == f2.payload),
{
}

} // verus!
