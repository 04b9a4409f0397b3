//! What tokens claim.
use vstd::prelude::*;

verus! {

/// The claims of a decoded token, by what their subject names.
#[derive(Debug)]
pub enum Claims {
    /// The subject is the UUID of a user.
    Authentication(String),
    /// The subject is the verification token of an email address.
    Verification(String),
    /// The subject names no user.
    Other,
}

/// What [`Claims`] hold.
pub enum ClaimsView {
    Authentication(Seq<char>),
    Verification(Seq<char>),
    Other,
}

impl View for Claims {
    type V = ClaimsView;

    open spec fn view(&self) -> ClaimsView {
        match self {
            Claims::Authentication(subject) => ClaimsView::Authentication(subject@),
            Claims::Verification(subject) => ClaimsView::Verification(subject@),
            Claims::Other => ClaimsView::Other,
        }
    }
}

/// What claims hold is what their view shows.
pub proof fn law_claims_view(subject: String)
    ensures
        Claims::Authentication(subject)@ == ClaimsView::Authentication(subject@),
        Claims::Verification(subject)@ == ClaimsView::Verification(subject@),
        Claims::Other@ == ClaimsView::Other,
{
}

} // verus!
