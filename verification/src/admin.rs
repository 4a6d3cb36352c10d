//! The administrative surface: the command model, a template dry-run
//! against a supplied payload, and the endpoint listing. Reading the
//! configuration file and printing stay with the caller; the decisions
//! and the exact texts are verified here.

use vstd::prelude::*;
use vstd::string::*;

use crate::config::{Config, RegisterView};
use crate::json::{
    classify_json, json_class_of, json_to_template_data, template_data_text,
};
use crate::template::{render_outcome_of, template_compile_of, CompiledTemplate};
use crate::text::{pad_text, pad_right, repeat_char, char_line, str_eq};

verus! {

/// The administrative command line: one of the three commands below.
pub struct AdminCli {
    pub command: AdminCommands,
}

/// The administrative commands, each naming the configuration file it
/// reads; the dry-run also names the endpoint to probe and the payload.
pub enum AdminCommands {
    ValidateConfig { config: String },
    TestTemplate { config: String, endpoint: String, payload: String },
    ListEndpoints { config: String },
}

/// The first registration at or after `i` whose endpoint is `endpoint` —
/// the dry-run probes the first match, not the one dispatch would use.
pub open spec fn first_register(
    regs: Seq<RegisterView>,
    endpoint: Seq<char>,
    i: int,
) -> Option<RegisterView>
    decreases regs.len() - i,
{
    if i < 0 || i >= regs.len() {
        None
    } else if regs[i].endpoint == endpoint {
        Some(regs[i])
    } else {
        first_register(regs, endpoint, i + 1)
    }
}

/// The outcome of a template dry-run: the rendered text, and the parse
/// error of the rendered text when it is not valid JSON.
#[derive(Debug)]
pub struct TemplateProbe {
    pub rendered: String,
    pub output_error: Option<String>,
}

pub struct ProbeView {
    pub rendered: Seq<char>,
    pub output_error: Option<Seq<char>>,
}

impl View for TemplateProbe {
    type V = ProbeView;

    open spec fn view(&self) -> ProbeView {
        ProbeView {
            rendered: self.rendered@,
            output_error: match self.output_error {
                Some(ref m) => Some(m@),
                None => None,
            },
        }
    }
}

/// What the dry-run reports: the first failing step's message, or the
/// rendered text together with the validity of that text as JSON.
pub open spec fn probe_spec(
    regs: Seq<RegisterView>,
    endpoint: Seq<char>,
    payload: Seq<char>,
) -> Result<ProbeView, Seq<char>> {
    match first_register(regs, endpoint, 0) {
        None => Err("Endpoint '"@ + endpoint + "' not found"@),
        Some(reg) => match json_class_of(payload) {
            Err(m) => Err(m),
            Ok(_) => match template_compile_of(reg.template) {
                Some(e) => Err(e),
                None => match render_outcome_of(reg.template, template_data_text(payload)) {
                    Err(m) => Err(m),
                    Ok(rendered) => Ok(
                        ProbeView {
                            rendered,
                            output_error: match json_class_of(rendered) {
                                Err(m) => Some(m),
                                Ok(_) => None,
                            },
                        },
                    ),
                },
            },
        },
    }
}

/// Renders the template of the first registration with the given endpoint
/// against the supplied payload: the payload is parsed and wrapped as at
/// dispatch time, the template compiled and rendered, and the rendered
/// text checked as JSON.
pub fn test_template(cfg: &Config, endpoint: &str, payload: &str) -> (r: Result<
    TemplateProbe,
    String,
>)
    ensures
        r is Ok <==> probe_spec(cfg@.registers, endpoint@, payload@) is Ok,
        (r matches Ok(p) ==> probe_spec(cfg@.registers, endpoint@, payload@) == Ok::<
            ProbeView,
            Seq<char>,
        >(p@)),
        (r matches Err(m) ==> probe_spec(cfg@.registers, endpoint@, payload@) == Err::<
            ProbeView,
            Seq<char>,
        >(m@)),
{
    let n = cfg.registers.len();
    let mut i: usize = 0;
    let mut hit: Option<usize> = None;
    while i < n
        invariant_except_break
            hit is None,
        invariant
            i <= n,
            n == cfg.registers.len(),
            first_register(cfg@.registers, endpoint@, 0) == first_register(
                cfg@.registers,
                endpoint@,
                i as int,
            ),
            (hit matches Some(j) ==> j < n && first_register(cfg@.registers, endpoint@, 0)
                == Some(cfg@.registers[j as int])),
        ensures
            match hit {
                Some(j) => j < n && first_register(cfg@.registers, endpoint@, 0) == Some(
                    cfg@.registers[j as int],
                ),
                None => first_register(cfg@.registers, endpoint@, 0) is None,
            },
        decreases n - i,
    {
        proof {
            assert(cfg@.registers[i as int] == cfg.registers[i as int]@);
        }
        if str_eq(cfg.registers[i].endpoint.as_str(), endpoint) {
            hit = Some(i);
            break ;
        }
        i = i + 1;
    }
    let reg = match hit {
        None => {
            let mut msg = String::from_str("Endpoint '");
            msg.append(endpoint);
            msg.append("' not found");
            proof {
                assert(msg@ =~= "Endpoint '"@ + endpoint@ + "' not found"@);
            }
            return Err(msg);
        },
        Some(j) => &cfg.registers[j],
    };
    proof {
        assert(first_register(cfg@.registers, endpoint@, 0) == Some(reg@));
    }
    let data = match json_to_template_data(payload) {
        Err(m) => {
            return Err(m);
        },
        Ok(d) => d,
    };
    let tpl = match CompiledTemplate::compile(reg.template.as_str()) {
        Err(e) => {
            return Err(e);
        },
        Ok(t) => t,
    };
    let rendered = match tpl.render(data.as_str()) {
        Err(m) => {
            return Err(m);
        },
        Ok(t) => t,
    };
    let output_error = match classify_json(rendered.as_str()) {
        Err(m) => Some(m),
        Ok(_) => None,
    };
    Ok(TemplateProbe { rendered, output_error })
}

/// One listing row: the columns the listing aligns, then the URL.
pub open spec fn row_text(r: RegisterView) -> Seq<char> {
    pad_text(r.method, 8) + " "@ + pad_text(r.endpoint, 30) + " "@ + pad_text(r.target.method, 8)
        + " "@ + r.target.url + "\n"@
}

/// The rows of the first `i` registrations, in order.
pub open spec fn rows_prefix(regs: Seq<RegisterView>, i: int) -> Seq<char>
    decreases i,
{
    if i <= 0 {
        Seq::empty()
    } else {
        rows_prefix(regs, i - 1) + row_text(regs[i - 1])
    }
}

/// The endpoint listing: a column header, a rule line, one row per
/// registration.
pub open spec fn listing_text(regs: Seq<RegisterView>) -> Seq<char> {
    pad_text("METHOD"@, 8) + " "@ + pad_text("ENDPOINT"@, 30) + " "@ + pad_text("TARGET"@, 8)
        + " URL\n"@ + repeat_char('-', 80) + "\n"@ + rows_prefix(regs, regs.len() as int)
}

/// Builds the endpoint listing of a configuration as one text, rows in
/// registration order.
pub fn list_endpoints(cfg: &Config) -> (r: String)
    ensures
        r@ == listing_text(cfg@.registers),
{
    let mut out = pad_right("METHOD", 8);
    out.append(" ");
    let pe = pad_right("ENDPOINT", 30);
    out.append(pe.as_str());
    out.append(" ");
    let pt = pad_right("TARGET", 8);
    out.append(pt.as_str());
    out.append(" URL\n");
    let dashes = char_line('-', 80);
    out.append(dashes.as_str());
    out.append("\n");
    let ghost head = pad_text("METHOD"@, 8) + " "@ + pad_text("ENDPOINT"@, 30) + " "@ + pad_text(
        "TARGET"@,
        8,
    ) + " URL\n"@ + repeat_char('-', 80) + "\n"@;
    proof {
        assert(out@ =~= head);
    }
    let n = cfg.registers.len();
    let mut i: usize = 0;
    while i < n
        invariant
            i <= n,
            n == cfg.registers.len(),
            out@ == head + rows_prefix(cfg@.registers, i as int),
        decreases n - i,
    {
        let reg = &cfg.registers[i];
        proof {
            assert(cfg@.registers[i as int] == cfg.registers[i as int]@);
        }
        let pm = pad_right(reg.method.as_str(), 8);
        out.append(pm.as_str());
        out.append(" ");
        let pe2 = pad_right(reg.endpoint.as_str(), 30);
        out.append(pe2.as_str());
        out.append(" ");
        let pt2 = pad_right(reg.target.method.as_str(), 8);
        out.append(pt2.as_str());
        out.append(" ");
        out.append(reg.target.url.as_str());
        out.append("\n");
        proof {
            assert(out@ =~= head + rows_prefix(cfg@.registers, i + 1 as int));
        }
        i = i + 1;
    }
    proof {
        assert(out@ =~= listing_text(cfg@.registers));
    }
    out
}

} // verus!
