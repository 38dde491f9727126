//! Rendering one template string against a JSON context.
//!
//! The grammar is that of `minijinja`, in an environment with its default
//! filters, tests and functions. The library knows of a rendering only that
//! it is a function of the template's text and the context's content.

use vstd::prelude::*;
use crate::json::{JsonObject, Members};

verus! {

#[verifier::external_type_specification]
#[verifier::external_body]
pub struct ExRenderError(minijinja::Error);

/// The text that `source` renders to against `context`, and nothing where it
/// does not render.
pub uninterp spec fn rendered(source: Seq<char>, context: Members) -> Option<Seq<char>>;

/// `minijinja::Environment::render_str` on a new environment: the rendered
/// text, or the engine's error where the template does not parse or does not
/// evaluate.
#[verifier::external_body]
pub(crate) fn render_str(source: &str, context: &JsonObject) -> (out: Result<
    String,
    minijinja::Error,
>)
    ensures
        match out {
            Ok(text) => rendered(source@, crate::json::object_model(*context)) == Some(text@),
            Err(_) => rendered(source@, crate::json::object_model(*context)) is None,
        },
{
    minijinja::Environment::new().render_str(source, context)
}

} // verus!
