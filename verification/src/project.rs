use vstd::prelude::*;

verus! {

/// Whether the uuid crate accepts `s` as the text of a UUID. The exact
/// grammar belongs to that crate and is left uninterpreted here.
pub uninterp spec fn uuid_accepts(s: Seq<char>) -> bool;

/// Relies on uuid::Uuid::parse_str: whether it succeeds is a function of the
/// characters of the input alone.
#[verifier::external_body]
fn uuid_parses(s: &str) -> (r: bool)
    ensures
        r == uuid_accepts(s@),
{
    uuid::Uuid::parse_str(s).is_ok()
}

/// The identifier of the project whose secrets are to be fetched: a string
/// that the uuid crate has accepted as a UUID.
pub struct ProjectId {
    text: String,
}

impl View for ProjectId {
    type V = Seq<char>;

    closed spec fn view(&self) -> Seq<char> {
        self.text@
    }
}

impl ProjectId {
    /// A project identifier is only ever built from accepted text.
    pub closed spec fn wf(self) -> bool {
        uuid_accepts(self.text@)
    }

    /// Validate `text` as a project identifier; on rejection the text is
    /// handed back unchanged.
    pub fn parse(text: String) -> (r: Result<ProjectId, String>)
        ensures
            uuid_accepts(text@) ==> (r matches Ok(p) && p@ == text@ && p.wf()),
            !uuid_accepts(text@) ==> (r matches Err(t) && t@ == text@),
    {
        if uuid_parses(text.as_str()) {
            Ok(ProjectId { text })
        } else {
            Err(text)
        }
    }

    /// The identifier's text.
    pub fn as_text(&self) -> (r: &String)
        ensures
            r@ == self@,
    {
        &self.text
    }
}

} // verus!
