//! A render context is the set of named bindings supplied to a template at
//! rendering time. The builder accumulates the three bindings this generator
//! recognizes — `template_path`, `element_t` and `dim` — in a fluent,
//! consuming style, and presets layer fixed combinations on top of it.

use vstd::prelude::*;

verus! {

/// The finished set of bindings for one generated output file.
///
/// Each field is one recognized binding: `None` means the binding was never
/// set. A context meant for rendering should have `template_path` set; the
/// presets guarantee that, but the type itself does not demand it, since a
/// context missing it is a legal value that only the rendering collaborator
/// rejects.
#[derive(Debug)]
pub struct RenderContext {
    pub template_path: Option<String>,
    pub element_t: Option<String>,
    pub dim: Option<u32>,
}

/// The mathematical model of a context: the same three bindings, with the
/// string values as character sequences.
#[verifier::ext_equal]
pub struct ContextModel {
    pub template_path: Option<Seq<char>>,
    pub element_t: Option<Seq<char>>,
    pub dim: Option<u32>,
}

impl View for RenderContext {
    type V = ContextModel;

    open spec fn view(&self) -> ContextModel {
        ContextModel {
            template_path: match self.template_path {
                Option::Some(s) => Option::Some(s@),
                Option::None => Option::None,
            },
            element_t: match self.element_t {
                Option::Some(s) => Option::Some(s@),
                Option::None => Option::None,
            },
            dim: self.dim,
        }
    }
}

/// The model of a freshly created builder: no binding set.
pub open spec fn empty_context() -> ContextModel {
    ContextModel { template_path: Option::None, element_t: Option::None, dim: Option::None }
}

/// One call of a generic setter, as a value: which binding it writes, and
/// what it writes there.
pub enum SetterCall {
    Template(Seq<char>),
    ElementType(Seq<char>),
    Dimension(u32),
}

/// What one setter call does to a context model: it writes its own binding
/// and leaves the other two untouched.
pub open spec fn apply_setter(m: ContextModel, c: SetterCall) -> ContextModel {
    match c {
        SetterCall::Template(t) => ContextModel {
            template_path: Option::Some(t),
            element_t: m.element_t,
            dim: m.dim,
        },
        SetterCall::ElementType(e) => ContextModel {
            template_path: m.template_path,
            element_t: Option::Some(e),
            dim: m.dim,
        },
        SetterCall::Dimension(d) => ContextModel {
            template_path: m.template_path,
            element_t: m.element_t,
            dim: Option::Some(d),
        },
    }
}

/// A whole chain of setter calls, applied left to right.
pub open spec fn apply_setters(m: ContextModel, calls: Seq<SetterCall>) -> ContextModel
    decreases calls.len(),
{
    if calls.len() == 0 {
        m
    } else {
        apply_setter(apply_setters(m, calls.drop_last()), calls.last())
    }
}

/// The value of the last `Template` call in a chain, if there is one.
pub open spec fn last_template(calls: Seq<SetterCall>) -> Option<Seq<char>>
    decreases calls.len(),
{
    if calls.len() == 0 {
        Option::None
    } else {
        match calls.last() {
            SetterCall::Template(t) => Option::Some(t),
            _ => last_template(calls.drop_last()),
        }
    }
}

/// The value of the last `ElementType` call in a chain, if there is one.
pub open spec fn last_element_type(calls: Seq<SetterCall>) -> Option<Seq<char>>
    decreases calls.len(),
{
    if calls.len() == 0 {
        Option::None
    } else {
        match calls.last() {
            SetterCall::ElementType(e) => Option::Some(e),
            _ => last_element_type(calls.drop_last()),
        }
    }
}

/// The value of the last `Dimension` call in a chain, if there is one.
pub open spec fn last_dimension(calls: Seq<SetterCall>) -> Option<u32>
    decreases calls.len(),
{
    if calls.len() == 0 {
        Option::None
    } else {
        match calls.last() {
            SetterCall::Dimension(d) => Option::Some(d),
            _ => last_dimension(calls.drop_last()),
        }
    }
}

/// Overwrite law: under any sequence of setter calls, each binding ends at
/// its last-written value, and a binding never written keeps its starting
/// value. In particular repeating a setter is idempotent and the last of two
/// conflicting writes wins.
pub proof fn lemma_setters_last_write(m: ContextModel, calls: Seq<SetterCall>)
    ensures
        apply_setters(m, calls).template_path == (match last_template(calls) {
            Option::Some(t) => Option::Some(t),
            Option::None => m.template_path,
        }),
        apply_setters(m, calls).element_t == (match last_element_type(calls) {
            Option::Some(e) => Option::Some(e),
            Option::None => m.element_t,
        }),
        apply_setters(m, calls).dim == (match last_dimension(calls) {
            Option::Some(d) => Option::Some(d),
            Option::None => m.dim,
        }),
    decreases calls.len(),
{
    if calls.len() > 0 {
        lemma_setters_last_write(m, calls.drop_last());
    }
}

/// Starting from an empty builder, the finished context contains exactly the
/// bindings that the chain set, each with its last-written value.
pub proof fn lemma_setters_from_empty(calls: Seq<SetterCall>)
    ensures
        apply_setters(empty_context(), calls).template_path == last_template(calls),
        apply_setters(empty_context(), calls).element_t == last_element_type(calls),
        apply_setters(empty_context(), calls).dim == last_dimension(calls),
{
    lemma_setters_last_write(empty_context(), calls);
}

/// A fluent accumulator for the three recognized bindings. Every setter
/// consumes the builder and returns the next one, so a builder is used
/// linearly and never aliased.
pub struct ContextBuilder {
    pub ctx: RenderContext,
}

impl View for ContextBuilder {
    type V = ContextModel;

    open spec fn view(&self) -> ContextModel {
        self.ctx@
    }
}

impl ContextBuilder {
    /// A builder with no binding set.
    pub fn new() -> (r: Self)
        ensures
            r@ == empty_context(),
    {
        ContextBuilder {
            ctx: RenderContext { template_path: None, element_t: None, dim: None },
        }
    }

    /// Sets `template_path`, overwriting any earlier value.
    pub fn with_template(self, template: &str) -> (r: Self)
        ensures
            r@ == apply_setter(self@, SetterCall::Template(template@)),
    {
        ContextBuilder {
            ctx: RenderContext {
                template_path: Some(String::from_str(template)),
                element_t: self.ctx.element_t,
                dim: self.ctx.dim,
            },
        }
    }

    /// Sets `element_t`, overwriting any earlier value.
    pub fn with_element_type(self, name: &str) -> (r: Self)
        ensures
            r@ == apply_setter(self@, SetterCall::ElementType(name@)),
    {
        ContextBuilder {
            ctx: RenderContext {
                template_path: self.ctx.template_path,
                element_t: Some(String::from_str(name)),
                dim: self.ctx.dim,
            },
        }
    }

    /// Sets `dim`, overwriting any earlier value. Any `u32` is accepted and
    /// stored verbatim; no minimum or maximum is enforced here.
    pub fn with_dimension(self, dim: u32) -> (r: Self)
        ensures
            r@ == apply_setter(self@, SetterCall::Dimension(dim)),
    {
        ContextBuilder {
            ctx: RenderContext {
                template_path: self.ctx.template_path,
                element_t: self.ctx.element_t,
                dim: Some(dim),
            },
        }
    }

    /// Consumes the builder and yields the accumulated context, unchanged
    /// and unvalidated.
    pub fn build(self) -> (r: RenderContext)
        ensures
            r@ == self@,
    {
        self.ctx
    }

    /// Preset for a boolean vector of the given dimension: element type
    /// `bool`, the fixed vector template, and `dim` as given.
    pub fn new_bvec(dim: u32) -> (r: Self)
        ensures
            r@ == (ContextModel {
                template_path: Option::Some("vec.cs.tera"@),
                element_t: Option::Some("bool"@),
                dim: Option::Some(dim),
            }),
    {
        ContextBuilder::new()
            .with_dimension(dim)
            .with_element_type("bool")
            .with_template("vec.cs.tera")
    }
}

} // verus!
