//! The endpoint registry: built once from the loaded configuration, then
//! immutable and only read at request time. Lookup is an exact string
//! match on the inbound path; when two registrations share an endpoint the
//! later one wins, silently shadowing the earlier.

use vstd::prelude::*;
use vstd::string::*;

use crate::config::{Config, RegisterView, Target, TargetView};
use crate::template::{template_compile_of, CompiledTemplate};
use crate::text::str_eq;

verus! {

/// One compiled rule: a registration whose template source has been
/// compiled into a render-ready template.
pub struct WebhookRule {
    pub endpoint: String,
    pub method: String,
    pub target: Target,
    pub template: CompiledTemplate,
}

pub struct RuleView {
    pub endpoint: Seq<char>,
    pub method: Seq<char>,
    pub target: TargetView,
    pub template: Seq<char>,
}

impl View for WebhookRule {
    type V = RuleView;

    open spec fn view(&self) -> RuleView {
        RuleView {
            endpoint: self.endpoint@,
            method: self.method@,
            target: self.target@,
            template: self.template@,
        }
    }
}

/// The rule a registration compiles to, when its template compiles.
pub open spec fn rule_of(r: RegisterView) -> RuleView {
    RuleView { endpoint: r.endpoint, method: r.method, target: r.target, template: r.template }
}

/// The rules of a whole configuration, in registration order.
pub open spec fn rules_of(regs: Seq<RegisterView>) -> Seq<RuleView> {
    regs.map_values(|r: RegisterView| rule_of(r))
}

/// The message of the first registration at or after `i` whose template
/// does not compile, if any.
pub open spec fn first_compile_error(regs: Seq<RegisterView>, i: int) -> Option<Seq<char>>
    decreases regs.len() - i,
{
    if i < 0 || i >= regs.len() {
        None
    } else {
        match template_compile_of(regs[i].template) {
            Some(e) => Some(e),
            None => first_compile_error(regs, i + 1),
        }
    }
}

/// The immutable mapping from endpoint path to compiled rule.
pub struct Registry {
    rules: Vec<WebhookRule>,
}

impl View for Registry {
    type V = Seq<RuleView>;

    closed spec fn view(&self) -> Seq<RuleView> {
        self.rules@.map_values(|r: WebhookRule| r@)
    }
}

/// The rule of the last registration whose endpoint is exactly `path`.
pub open spec fn lookup_spec(rules: Seq<RuleView>, path: Seq<char>) -> Option<RuleView>
    decreases rules.len(),
{
    if rules.len() == 0 {
        None
    } else if rules.last().endpoint == path {
        Some(rules.last())
    } else {
        lookup_spec(rules.drop_last(), path)
    }
}

fn clone_headers(h: &Vec<(String, String)>) -> (r: Vec<(String, String)>)
    ensures
        r@ == h@,
{
    let n = h.len();
    let mut out: Vec<(String, String)> = Vec::new();
    let mut i: usize = 0;
    while i < n
        invariant
            i <= n,
            n == h.len(),
            out@ == h@.subrange(0, i as int),
        decreases n - i,
    {
        let p = &h[i];
        out.push((p.0.clone(), p.1.clone()));
        proof {
            assert(h@.subrange(0, i as int).push(h@[i as int]) =~= h@.subrange(0, i + 1 as int));
        }
        i = i + 1;
    }
    proof {
        assert(h@.subrange(0, n as int) =~= h@);
    }
    out
}

fn clone_target(t: &Target) -> (r: Target)
    ensures
        r@ == t@,
{
    Target {
        url: t.url.clone(),
        method: t.method.clone(),
        headers: clone_headers(&t.headers),
        timeout_seconds: if let Some(s) = t.timeout_seconds {
            Some(s)
        } else {
            None
        },
    }
}

impl Registry {
    /// Builds the registry from a loaded configuration: every template is
    /// compiled once, and every registration becomes a rule, in order. A
    /// template that does not compile is fatal: the first such error is
    /// returned and no registry is built.
    pub fn build(cfg: &Config) -> (r: Result<Registry, String>)
        ensures
            r is Ok <==> first_compile_error(cfg@.registers, 0) is None,
            (r matches Ok(reg) ==> reg@ == rules_of(cfg@.registers)),
            (r matches Err(m) ==> first_compile_error(cfg@.registers, 0) == Some(m@)),
    {
        let n = cfg.registers.len();
        let mut rules: Vec<WebhookRule> = Vec::new();
        let mut i: usize = 0;
        while i < n
            invariant
                i <= n,
                n == cfg.registers.len(),
                rules@.len() == i,
                forall|j: int| 0 <= j < i ==> rules@[j]@ == rule_of(cfg@.registers[j]),
                first_compile_error(cfg@.registers, 0) == first_compile_error(
                    cfg@.registers,
                    i as int,
                ),
            decreases n - i,
        {
            let reg = &cfg.registers[i];
            proof {
                assert(cfg@.registers[i as int] == cfg.registers[i as int]@);
            }
            match CompiledTemplate::compile(reg.template.as_str()) {
                Ok(tpl) => {
                    rules.push(
                        WebhookRule {
                            endpoint: reg.endpoint.clone(),
                            method: reg.method.clone(),
                            target: clone_target(&reg.target),
                            template: tpl,
                        },
                    );
                },
                Err(e) => {
                    return Err(e);
                },
            }
            i = i + 1;
        }
        let result = Registry { rules };
        proof {
            assert(result@ =~= rules_of(cfg@.registers));
        }
        Ok(result)
    }

    /// The number of rules, counting shadowed registrations too.
    pub fn len(&self) -> (r: usize)
        ensures
            r == self@.len(),
    {
        self.rules.len()
    }

    /// The rule at registration position `i`.
    pub fn rule_at(&self, i: usize) -> (r: &WebhookRule)
        requires
            i < self@.len(),
        ensures
            r@ == self@[i as int],
    {
        &self.rules[i]
    }

    /// Exact-match lookup of the inbound path: the rule of the last
    /// registration with that endpoint, or nothing.
    pub fn lookup<'a>(&'a self, path: &str) -> (r: Option<&'a WebhookRule>)
        ensures
            r is Some <==> lookup_spec(self@, path@) is Some,
            (r matches Some(rule) ==> lookup_spec(self@, path@) == Some(rule@)),
    {
        let n = self.rules.len();
        proof {
            assert(self@.subrange(0, n as int) =~= self@);
        }
        let mut i: usize = n;
        while i > 0
            invariant
                i <= n,
                n == self.rules.len(),
                lookup_spec(self@, path@) == lookup_spec(self@.subrange(0, i as int), path@),
            decreases i,
        {
            let j = i - 1;
            let ghost pre = self@.subrange(0, i as int);
            proof {
                assert(pre.len() == i);
                assert(pre.last() == self@[j as int]);
                assert(self@[j as int] == self.rules[j as int]@);
            }
            if str_eq(self.rules[j].endpoint.as_str(), path) {
                let rule = &self.rules[j];
                proof {
                    assert(lookup_spec(pre, path@) == Some(self@[j as int]));
                }
                return Some(rule);
            }
            proof {
                assert(pre.drop_last() =~= self@.subrange(0, j as int));
                assert(lookup_spec(pre, path@) == lookup_spec(
                    self@.subrange(0, j as int),
                    path@,
                ));
            }
            i = j;
        }
        proof {
            assert(self@.subrange(0, 0) =~= Seq::<RuleView>::empty());
            assert(lookup_spec(self@.subrange(0, 0), path@) is None);
        }
        None
    }
}

/// Registry construction is deterministic: building from the same
/// registrations twice yields the same rules — identical endpoint
/// sequences and identical template sources.
pub proof fn lemma_build_deterministic(
    regs: Seq<RegisterView>,
    built1: Seq<RuleView>,
    built2: Seq<RuleView>,
)
    requires
        built1 == rules_of(regs),
        built2 == rules_of(regs),
    ensures
        built1 == built2,
        built1.map_values(|r: RuleView| r.endpoint) == built2.map_values(
            |r: RuleView| r.endpoint,
        ),
        built1.map_values(|r: RuleView| r.template) == built2.map_values(
            |r: RuleView| r.template,
        ),
{
}

/// Last registration wins: when `i` is the last position whose endpoint
/// is `path`, lookup returns exactly that rule — registrations before it
/// with the same endpoint are shadowed.
pub proof fn lemma_lookup_last_match(rules: Seq<RuleView>, path: Seq<char>, i: int)
    requires
        0 <= i < rules.len(),
        rules[i].endpoint == path,
        forall|j: int| i < j < rules.len() ==> rules[j].endpoint != path,
    ensures
        lookup_spec(rules, path) == Some(rules[i]),
    decreases rules.len(),
{
    if i == rules.len() - 1 {
        assert(rules.last() == rules[i]);
    } else {
        assert(rules.last().endpoint != path);
        lemma_lookup_last_match(rules.drop_last(), path, i);
    }
}

/// A path that no registration's endpoint equals is not found.
pub proof fn lemma_lookup_miss(rules: Seq<RuleView>, path: Seq<char>)
    requires
        forall|j: int| 0 <= j < rules.len() ==> rules[j].endpoint != path,
    ensures
        lookup_spec(rules, path) is None,
    decreases rules.len(),
{
    if rules.len() > 0 {
        lemma_lookup_miss(rules.drop_last(), path);
    }
}

} // verus!
