use vstd::prelude::*;
use crate::form::{cleaned, name_context, Name};
use crate::page::{respond, Page, TemplateError, STATUS_INTERNAL_ERROR, STATUS_OK};

verus! {

/// Directory that the templates are loaded from.
pub const TEMPLATE_PATH: &'static str = "app/templates";

/// Template of the home page.
pub const HOME_TEMPLATE: &'static str = "index.html";

/// Template of the name fragment.
pub const NAME_TEMPLATE: &'static str = "name.html";

#[verifier::external_type_specification]
#[verifier::external_body]
pub struct ExEnvironment<'source>(minijinja::Environment<'source>);

#[verifier::external_type_specification]
#[verifier::external_body]
pub struct ExTemplate<'env: 'source, 'source>(minijinja::Template<'env, 'source>);

#[verifier::external_type_specification]
#[verifier::external_body]
pub struct ExError(minijinja::Error);

/// Relies on `minijinja::Environment::get_template`: looks the template up by
/// name, loading and parsing it through the environment's loader if needed.
#[verifier::external_body]
fn get_template<'env>(env: &'env minijinja::Environment<'static>, name: &str) -> (r: Result<
    minijinja::Template<'env, 'env>,
    minijinja::Error,
>) {
    env.get_template(name)
}

/// Relies on `minijinja::Template::render`: evaluates the template with the
/// given variables as its context.
#[verifier::external_body]
fn render(template: &minijinja::Template, vars: &Vec<(String, String)>) -> (r: Result<
    String,
    minijinja::Error,
>) {
    template.render(vars.iter().cloned().collect::<std::collections::BTreeMap<String, String>>())
}

/// `minijinja::ErrorKind` is a plain enum without fields: its variants are
/// visible to the proofs, so failures can be sorted by kind in verified code.
#[verifier::external_type_specification]
pub struct ExErrorKind(minijinja::ErrorKind);

/// Relies on `minijinja::Error::kind`, which reports the kind of a failure.
pub assume_specification[ minijinja::Error::kind ](e: &minijinja::Error) -> minijinja::ErrorKind;

/// The class of a failure of the given kind: a missing template, a template
/// that does not parse, or else a failure while rendering.
pub open spec fn class_of(kind: minijinja::ErrorKind) -> TemplateError {
    match kind {
        minijinja::ErrorKind::TemplateNotFound => TemplateError::TemplateNotFound,
        minijinja::ErrorKind::SyntaxError => TemplateError::TemplateParseError,
        _ => TemplateError::RenderError,
    }
}

/// Sorts a failure of the given kind into the library's classes.
pub fn classify(kind: minijinja::ErrorKind) -> (r: TemplateError)
    ensures
        r == class_of(kind),
        r != TemplateError::EnvironmentAcquisitionFailure,
{
    match kind {
        minijinja::ErrorKind::TemplateNotFound => TemplateError::TemplateNotFound,
        minijinja::ErrorKind::SyntaxError => TemplateError::TemplateParseError,
        _ => TemplateError::RenderError,
    }
}

/// Looks up `template` in `env` and renders it with `vars`. Without an
/// environment the result is an acquisition failure; a failed lookup is never
/// followed by a rendering.
pub fn render_named(
    env: Option<&minijinja::Environment<'static>>,
    template: &str,
    vars: &Vec<(String, String)>,
) -> (r: Result<String, TemplateError>)
    ensures
        env.is_none() ==> r == Err::<String, TemplateError>(
            TemplateError::EnvironmentAcquisitionFailure,
        ),
        env.is_some() ==> r != Err::<String, TemplateError>(
            TemplateError::EnvironmentAcquisitionFailure,
        ),
        env.is_some() && r is Err ==> exists|k: minijinja::ErrorKind| r->Err_0 == class_of(k),
{
    match env {
        None => Err(TemplateError::EnvironmentAcquisitionFailure),
        Some(env) => match get_template(env, template) {
            Err(e) => Err(classify(e.kind())),
            Ok(t) => match render(&t, vars) {
                Ok(html) => Ok(html),
                Err(e) => Err(classify(e.kind())),
            },
        },
    }
}

/// Whether `page` is one that a request may be answered with: a rendered
/// page, or the empty error page; never the rendered one without an
/// environment.
pub open spec fn served(env_present: bool, page: Page) -> bool {
    &&& page.status == STATUS_OK || page.status == STATUS_INTERNAL_ERROR
    &&& page.status == STATUS_INTERNAL_ERROR ==> page.body@ == Seq::<char>::empty()
    &&& !env_present ==> page.status == STATUS_INTERNAL_ERROR
}

/// What the home page is rendered from: the home template and an empty
/// context.
pub fn home_request() -> (r: (&'static str, Vec<(String, String)>))
    ensures
        r.0@ == "index.html"@,
        r.1@.len() == 0,
{
    proof {
        reveal_strlit("index.html");
    }
    (HOME_TEMPLATE, Vec::new())
}

/// What the name fragment is rendered from: the fragment template and one
/// variable, `name`, bound to the sanitised text of the form.
pub fn name_request(form: Name) -> (r: (&'static str, Vec<(String, String)>))
    ensures
        r.0@ == "name.html"@,
        r.1@.len() == 1,
        r.1@[0].0@ == "name"@,
        r.1@[0].1@ == cleaned(form.name@),
        form.name@.len() == 0 ==> r.1@[0].1@.len() == 0,
{
    proof {
        reveal_strlit("name.html");
    }
    (NAME_TEMPLATE, name_context(form))
}

/// The home page: the template and context of `home_request` rendered and
/// turned into a response.
pub fn home(env: Option<&minijinja::Environment<'static>>) -> (r: Page)
    ensures
        served(env.is_some(), r),
{
    let (template, vars) = home_request();
    respond(render_named(env, template, &vars))
}

/// The name fragment: the template and context of `name_request`, in which
/// the submitted name is sanitised, rendered and turned into a response.
pub fn name(env: Option<&minijinja::Environment<'static>>, form: Name) -> (r: Page)
    ensures
        served(env.is_some(), r),
{
    let (template, vars) = name_request(form);
    respond(render_named(env, template, &vars))
}

} // verus!
