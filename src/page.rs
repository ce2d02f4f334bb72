use vstd::prelude::*;

verus! {

/// Status of a page that was rendered.
pub const STATUS_OK: u16 = 200;

/// Status of a page whose rendering failed at any step.
pub const STATUS_INTERNAL_ERROR: u16 = 500;

/// Why a page could not be produced.
#[derive(Clone, Copy, Debug, PartialEq, Eq, Structural)]
pub enum TemplateError {
    /// No template of the requested name exists.
    TemplateNotFound,
    /// The template exists but its source does not parse.
    TemplateParseError,
    /// The template parsed but evaluating it against the context failed.
    RenderError,
    /// No environment of templates could be had.
    EnvironmentAcquisitionFailure,
}

/// An HTML response: its status and its body.
#[derive(Clone, Debug)]
pub struct Page {
    pub status: u16,
    pub body: String,
}

/// The page that answers a request whose rendering came out as `outcome`.
pub open spec fn page_of(outcome: Result<Seq<char>, TemplateError>) -> (u16, Seq<char>) {
    match outcome {
        Ok(html) => (STATUS_OK, html),
        Err(_) => (STATUS_INTERNAL_ERROR, Seq::empty()),
    }
}

/// The outcome of a rendering, with the HTML as a sequence of characters.
pub open spec fn outcome_view(outcome: Result<String, TemplateError>) -> Result<Seq<char>, TemplateError> {
    match outcome {
        Ok(html) => Ok(html@),
        Err(e) => Err(e),
    }
}

impl Page {
    pub open spec fn view(&self) -> (u16, Seq<char>) {
        (self.status, self.body@)
    }
}

/// Turns the outcome of a rendering into a response: the rendered HTML with
/// status 200, or an empty body with status 500 whatever the failure was.
pub fn respond(outcome: Result<String, TemplateError>) -> (r: Page)
    ensures
        r.view() == page_of(outcome_view(outcome)),
{
    match outcome {
        Ok(html) => Page { status: STATUS_OK, body: html },
        Err(_) => Page { status: STATUS_INTERNAL_ERROR, body: String::new() },
    }
}

/// A rendering that succeeds is answered with status 200 and exactly the
/// rendered HTML; one that fails, whatever the failure, with status 500 and
/// an empty body.
pub proof fn failures_answer_500(html: Seq<char>, e: TemplateError)
    ensures
        page_of(Ok(html)) == (STATUS_OK, html),
        page_of(Err(e)) == (STATUS_INTERNAL_ERROR, Seq::<char>::empty()),
        page_of(Ok(html)) != page_of(Err(e)),
{
}

} // verus!
