//! Trusted boundary to the templating engine. The engine parses templates,
//! and for each placeholder invocation calls the function registered under
//! that name; every closure handed over here only runs a generator of this
//! library and converts its result.

use vstd::prelude::*;
use std::collections::HashMap;
use crate::args::{Args, ArgValue};
use crate::fakes::Category;

verus! {

/// The templating engine itself, opaque: it stands in the renderer's state
/// and is only reached through the wrappers below.
#[verifier::external_type_specification]
#[verifier::external_body]
pub struct ExTera(tera::Tera);

/// The engine's error value, opaque: only its message text is read.
#[verifier::external_type_specification]
#[verifier::external_body]
pub struct ExTeraError(tera::Error);

/// The engine's loosely-typed value (tera re-exports serde_json's), opaque:
/// the conversion below turns it into the library's own argument values.
#[verifier::external_type_specification]
#[verifier::external_body]
pub struct ExValue(serde_json::Value);

/// Relies on tera::Tera::default: a fresh engine with nothing registered.
#[verifier::external_body]
pub(crate) fn tera_new() -> tera::Tera {
    tera::Tera::default()
}

/// Relies on tera::Tera::render_str: parses the one-off template against an
/// empty variable context, substituting each placeholder call with what the
/// function registered under that name returns, and reports a template
/// error or a failed generator call as an error.
#[verifier::external_body]
pub(crate) fn render_template(t: &mut tera::Tera, template: &str) -> Result<String, tera::Error> {
    let context = tera::Context::default();
    t.render_str(template, &context)
}

/// Relies on the error formatting of tera::Error: its message text.
#[verifier::external_body]
pub(crate) fn error_text(e: &tera::Error) -> String {
    e.to_string()
}

/// Converts the engine's argument mapping to the library's [`Args`]: each
/// name keeps its binding; an integral number becomes `Int`, a string
/// `Str`, and a value of any other shape `Other`.
#[verifier::external_body]
pub(crate) fn args_of_map(m: &HashMap<String, tera::Value>) -> Args {
    let mut a = Args::new();
    for (k, v) in m {
        let av = match v {
            tera::Value::String(s) => ArgValue::Str(s.clone()),
            tera::Value::Number(n) => match n.as_i64() {
                Some(i) => ArgValue::Int(i),
                None => ArgValue::Other,
            },
            _ => ArgValue::Other,
        };
        a.insert(k.clone(), av);
    }
    a
}

/// Relies on tera::Tera::register_function: template calls of `date` run
/// the closure, which only runs this library's `date` generator.
#[verifier::external_body]
pub(crate) fn register_date(t: &mut tera::Tera) {
    t.register_function("date", |args: &HashMap<String, tera::Value>| {
        match crate::generators::gen_date(&args_of_map(args)) {
            Ok(s) => Ok(tera::Value::String(s)),
            Err(e) => Err(tera::Error::msg(e.message())),
        }
    });
}

/// Relies on tera::Tera::register_function: template calls of `now` run
/// the closure, which only runs this library's `now` generator.
#[verifier::external_body]
pub(crate) fn register_now(t: &mut tera::Tera) {
    t.register_function("now", |args: &HashMap<String, tera::Value>| {
        match crate::generators::gen_now(&args_of_map(args)) {
            Ok(s) => Ok(tera::Value::String(s)),
            Err(e) => Err(tera::Error::msg(e.message())),
        }
    });
}

/// Relies on tera::Tera::register_function: template calls of `hash` run
/// the closure, which only runs this library's `hash` generator.
#[verifier::external_body]
pub(crate) fn register_hash(t: &mut tera::Tera) {
    t.register_function("hash", |args: &HashMap<String, tera::Value>| {
        match crate::generators::gen_hash(&args_of_map(args)) {
            Ok(s) => Ok(tera::Value::String(s)),
            Err(e) => Err(tera::Error::msg(e.message())),
        }
    });
}

/// Relies on tera::Tera::register_function: template calls of
/// `random_value` run the closure, which only runs this library's
/// `random_value` generator.
#[verifier::external_body]
pub(crate) fn register_random_value(t: &mut tera::Tera) {
    t.register_function("random_value", |args: &HashMap<String, tera::Value>| {
        match crate::generators::gen_random_value(&args_of_map(args)) {
            Ok(s) => Ok(tera::Value::String(s)),
            Err(e) => Err(tera::Error::msg(e.message())),
        }
    });
}

/// Relies on tera::Tera::register_function: template calls of `chance` run
/// the closure, which only runs this library's `chance` generator.
#[verifier::external_body]
pub(crate) fn register_chance(t: &mut tera::Tera) {
    t.register_function("chance", |args: &HashMap<String, tera::Value>| {
        match crate::generators::gen_chance(&args_of_map(args)) {
            Ok(s) => Ok(tera::Value::String(s)),
            Err(e) => Err(tera::Error::msg(e.message())),
        }
    });
}

/// Relies on tera::Tera::register_function: template calls of `randomint`
/// run the closure, which only runs this library's `randomint` generator.
#[verifier::external_body]
pub(crate) fn register_randomint(t: &mut tera::Tera) {
    t.register_function("randomint", |args: &HashMap<String, tera::Value>| {
        match crate::generators::gen_randomint(&args_of_map(args)) {
            Ok(s) => Ok(tera::Value::String(s)),
            Err(e) => Err(tera::Error::msg(e.message())),
        }
    });
}

/// Relies on tera::Tera::register_function: template calls of `name` run
/// the closure, which only runs this library's fake-value dispatcher for
/// the fixed category `cat`.
#[verifier::external_body]
pub(crate) fn register_fake(t: &mut tera::Tera, name: &str, cat: Category) {
    t.register_function(name, move |_args: &HashMap<String, tera::Value>| {
        Ok(tera::Value::String(crate::fakes::generate(cat)))
    });
}

} // verus!
