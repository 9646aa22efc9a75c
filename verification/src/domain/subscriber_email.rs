//! The subscriber e-mail address type.

use validator::validate_email;
use vstd::prelude::*;
use vstd::string::StringExecFns;

verus! {

/// Whether the HTML5 e-mail validation of the `validator` crate accepts a text.
pub uninterp spec fn html5_email_valid(s: Seq<char>) -> bool;

/// Calls `validator::validate_email`. The contract names its answer as a
/// function of the text alone, and states the one rule that its source
/// applies before any pattern: a text without `@` (the empty text among
/// them) is refused. The patterns for the local part and the domain are not
/// stated.
#[verifier::external_body]
fn email_is_valid(s: &str) -> (b: bool)
    ensures
        b == html5_email_valid(s@),
        !s@.contains('@') ==> !b,
{
    validate_email(s)
}

/// A subscriber's e-mail address, known to have passed validation.
#[derive(Debug)]
pub struct SubscriberEmail(String);

impl View for SubscriberEmail {
    type V = Seq<char>;

    closed spec fn view(&self) -> Seq<char> {
        self.0@
    }
}

/// The error text for a refused address: `{s} is not a valid email`.
pub open spec fn invalid_email_text(s: Seq<char>) -> Seq<char> {
    s + " is not a valid email"@
}

/// Builds the error text for a refused address.
pub fn invalid_email_message(s: &str) -> (m: String)
    ensures
        m@ == invalid_email_text(s@),
{
    let mut m = String::from_str(s);
    m.append(" is not a valid email");
    m
}

impl SubscriberEmail {
    #[verifier::type_invariant]
    spec fn holds_validated_address(self) -> bool {
        &&& html5_email_valid(self.0@)
        &&& self.0@.contains('@')
    }

    /// Accepts the address when the validator does, else explains why not.
    pub fn parse(s: String) -> (r: Result<SubscriberEmail, String>)
        ensures
            r is Ok <==> html5_email_valid(s@),
            !s@.contains('@') ==> r is Err,
            r matches Ok(e) ==> e@ == s@,
            r matches Err(m) ==> m@ == invalid_email_text(s@),
    {
        if email_is_valid(s.as_str()) {
            Ok(SubscriberEmail(s))
        } else {
            Err(invalid_email_message(s.as_str()))
        }
    }

    /// The address; it always passed validation and holds an `@`.
    pub fn as_ref(&self) -> (r: &str)
        ensures
            r@ == self@,
            html5_email_valid(r@),
            r@.contains('@'),
    {
        proof {
            use_type_invariant(self);
        }
        self.0.as_str()
    }
}

} // verus!
