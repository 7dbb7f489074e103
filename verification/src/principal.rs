use vstd::prelude::*;

verus! {

/// Whether a text is a well-formed canonical principal identifier,
/// as candid's parser accepts it.
pub uninterp spec fn principal_text_ok(s: Seq<char>) -> bool;

/// Relies on candid::Principal::from_text: whether the text parses as a
/// principal identifier depends on the text alone.
#[verifier::external_body]
fn principal_text_valid(s: &str) -> (r: bool)
    ensures
        r == principal_text_ok(s@),
{
    candid::Principal::from_text(s).is_ok()
}

/// A principal identifier, held in its canonical textual form.
pub struct Principal {
    text: String,
}

impl View for Principal {
    type V = Seq<char>;

    closed spec fn view(&self) -> Seq<char> {
        self.text@
    }
}

impl Principal {
    /// A principal is well formed when its text parses as a principal
    /// identifier.
    pub open spec fn wf(&self) -> bool {
        principal_text_ok(self@)
    }

    /// Accepts exactly the texts that parse as principal identifiers.
    pub fn from_text(s: &str) -> (r: Option<Principal>)
        ensures
            (r is Some) == principal_text_ok(s@),
            r matches Some(p) ==> p@ == s@ && p.wf(),
    {
        if principal_text_valid(s) {
            Some(Principal { text: s.to_owned() })
        } else {
            None
        }
    }

    /// The canonical textual form.
    pub fn as_text(&self) -> (r: &str)
        ensures
            r@ == self@,
    {
        self.text.as_str()
    }
}

impl Clone for Principal {
    fn clone(&self) -> (r: Self)
        ensures
            r == *self,
    {
        Principal { text: self.text.clone() }
    }
}

} // verus!
