//! Request handling for a small HTML site: a home page and a fragment that
//! greets a visitor by a sanitised name. Both are rendered from templates,
//! and every failure between lookup and rendering becomes a 500 page.

mod form;
mod page;
mod templates;

pub use form::{cleaned, name_context, Name};
pub use page::{
    failures_answer_500, outcome_view, page_of, respond, Page, TemplateError,
    STATUS_INTERNAL_ERROR, STATUS_OK,
};
pub use templates::{
    class_of, classify, home, home_request, name, name_request, render_named, served,
    HOME_TEMPLATE, NAME_TEMPLATE, TEMPLATE_PATH,
};
