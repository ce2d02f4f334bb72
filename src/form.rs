use vstd::prelude::*;

verus! {

/// What `ammonia::clean` makes of a string: the input with every tag,
/// attribute and URL scheme outside ammonia's default allow-list removed.
pub uninterp spec fn cleaned(s: Seq<char>) -> Seq<char>;

/// Relies on `ammonia::clean`, which sanitises an HTML fragment with the
/// crate's default policy; its result depends on the input text alone.
#[verifier::external_body]
fn clean(s: &str) -> (r: String)
    ensures
        r@ == cleaned(s@),
        s@.len() == 0 ==> r@.len() == 0,
{
    ammonia::clean(s)
}

/// The form a visitor submits: one free-text field.
#[derive(Clone, Debug)]
pub struct Name {
    pub name: String,
}

impl Name {
    /// Replaces the submitted text by its sanitised form.
    pub fn sanitize(&mut self)
        ensures
            final(self).name@ == cleaned(old(self).name@),
            old(self).name@.len() == 0 ==> final(self).name@.len() == 0,
    {
        self.name = clean(self.name.as_str());
    }
}

/// The context that the name fragment is rendered with: one variable,
/// `name`, bound to the sanitised text of the form.
pub fn name_context(form: Name) -> (r: Vec<(String, String)>)
    ensures
        r@.len() == 1,
        r@[0].0@ == "name"@,
        r@[0].1@ == cleaned(form.name@),
        form.name@.len() == 0 ==> r@[0].1@.len() == 0,
{
    let mut form = form;
    form.sanitize();
    let mut r: Vec<(String, String)> = Vec::new();
    r.push((String::from_str("name"), form.name));
    r
}

} // verus!
