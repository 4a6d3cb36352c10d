//! The template renderer: a thin, trusted boundary around handlebars.
//! A template is compiled once; what compilation and rendering return is
//! captured by two uninterpreted functions of the template source and the
//! data text, so that the dispatch pipeline's contracts are exact. The
//! engine registers no custom helpers, which keeps rendering logic-less
//! and deterministic.

use vstd::prelude::*;

verus! {

#[verifier::external_type_specification]
#[verifier::external_body]
pub struct ExHandlebars<'reg>(handlebars::Handlebars<'reg>);

/// What handlebars makes of a template source: `None` when the source
/// compiles, `Some(m)` with the compile error's message when it does not.
pub uninterp spec fn template_compile_of(src: Seq<char>) -> Option<Seq<char>>;

/// What rendering a compiled template against a data text returns: the
/// rendered text, or the render error's message.
pub uninterp spec fn render_outcome_of(src: Seq<char>, data: Seq<char>) -> Result<
    Seq<char>,
    Seq<char>,
>;

pub open spec fn template_compiles(src: Seq<char>) -> bool {
    template_compile_of(src) is None
}

/// A template compiled once at startup; its view is the source text it was
/// compiled from, and the engine holds exactly that source under one fixed
/// template name.
pub struct CompiledTemplate {
    source: String,
    engine: handlebars::Handlebars<'static>,
}

impl View for CompiledTemplate {
    type V = Seq<char>;

    closed spec fn view(&self) -> Seq<char> {
        self.source@
    }
}

impl CompiledTemplate {
    /// Relies on `handlebars::Handlebars::register_template_string` on a
    /// fresh `handlebars::Handlebars::new` registry, always under the same
    /// template name: it returns `Err` exactly on sources with invalid
    /// template syntax, and the error's message is then a function of the
    /// source alone.
    #[verifier::external_body]
    pub fn compile(src: &str) -> (r: Result<CompiledTemplate, String>)
        ensures
            r is Ok <==> template_compiles(src@),
            (r matches Ok(t) ==> t@ == src@),
            (r matches Err(m) ==> template_compile_of(src@) == Some(m@)),
    {
        let mut engine = handlebars::Handlebars::new();
        match engine.register_template_string("t", src) {
            Ok(()) => Ok(CompiledTemplate { source: src.to_string(), engine }),
            Err(e) => Err(e.to_string()),
        }
    }

    /// Relies on `handlebars::Handlebars::render`, with
    /// `serde_json::from_str::<Value>` building the data the template is
    /// rendered against: with no custom helpers registered, the outcome is
    /// a function of the template source and the data text alone. A data
    /// text that does not parse as JSON reports its parse error through
    /// the same `Err` branch.
    #[verifier::external_body]
    pub fn render(&self, data: &str) -> (r: Result<String, String>)
        ensures
            r is Ok <==> render_outcome_of(self@, data@) is Ok,
            (r matches Ok(t) ==> render_outcome_of(self@, data@) == Ok::<Seq<char>, Seq<char>>(
                t@,
            )),
            (r matches Err(m) ==> render_outcome_of(self@, data@) == Err::<Seq<char>, Seq<char>>(
                m@,
            )),
    {
        let v: serde_json::Value = match serde_json::from_str(data) {
            Ok(v) => v,
            Err(e) => return Err(e.to_string()),
        };
        match self.engine.render("t", &v) {
            Ok(s) => Ok(s),
            Err(e) => Err(e.to_string()),
        }
    }

    /// The source text the template was compiled from.
    pub fn source(&self) -> (r: &String)
        ensures
            r@ == self@,
    {
        &self.source
    }
}

} // verus!
