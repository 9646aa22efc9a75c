//! Domain types of the subscription flow.

pub mod subscriber_email;

use vstd::prelude::*;

use crate::text::{
    is_white_space,
    extended_grapheme_count, grapheme_count, has_char_in, has_char_in_str, is_blank,
    is_blank_str,
};

pub use subscriber_email::SubscriberEmail;

verus! {

/// The characters that a subscriber name may not contain.
pub open spec fn subscriber_name_forbidden() -> Seq<char> {
    seq!['/', '\\', '?', '<']
}

/// A subscriber name is accepted when it is not blank, has at most 255
/// grapheme clusters and holds none of `/ \ ? <`.
pub open spec fn is_acceptable_subscriber_name(s: Seq<char>) -> bool {
    !(extended_grapheme_count(s) > 255 || is_blank(s) || has_char_in(s, subscriber_name_forbidden()))
}

/// Whether a subscriber name is acceptable, given its number of grapheme
/// clusters.
pub fn is_acceptable_with_graphemes(s: &str, graphemes: usize) -> (ok: bool)
    ensures
        ok == !(graphemes > 255 || is_blank(s@) || has_char_in(s@, subscriber_name_forbidden())),
{
    let is_too_long = graphemes > 255;
    let is_empty_or_whitespace = is_blank_str(s);
    let forbidden_chars: Vec<char> = vec!['/', '\\', '?', '<'];
    assert(forbidden_chars@ == subscriber_name_forbidden());
    let contains_forbidden = has_char_in_str(s, &forbidden_chars);
    !(is_too_long || is_empty_or_whitespace || contains_forbidden)
}

/// A subscriber's name, known to be acceptable.
pub struct SubscriberName(String);

impl View for SubscriberName {
    type V = Seq<char>;

    closed spec fn view(&self) -> Seq<char> {
        self.0@
    }
}

/// A subscription request whose name has been checked.
pub struct NewSubscriber {
    pub email: String,
    pub name: SubscriberName,
}

impl SubscriberName {
    #[verifier::type_invariant]
    spec fn holds_acceptable_name(self) -> bool {
        is_acceptable_subscriber_name(self.0@)
    }

    /// Wraps an acceptable name; any other name is refused by the caller's
    /// obligation (`try_parse` checks it first).
    pub fn parse(s: String) -> (name: SubscriberName)
        requires
            is_acceptable_subscriber_name(s@),
        ensures
            name@ == s@,
    {
        SubscriberName(s)
    }

    /// Checks the name and wraps it when it is acceptable.
    pub fn try_parse(s: String) -> (name: Option<SubscriberName>)
        ensures
            name is Some <==> is_acceptable_subscriber_name(s@),
            name matches Some(n) ==> n@ == s@,
    {
        let graphemes = grapheme_count(s.as_str());
        if is_acceptable_with_graphemes(s.as_str(), graphemes) {
            Some(SubscriberName::parse(s))
        } else {
            None
        }
    }

    /// The name's text; it is always acceptable.
    pub fn as_ref(&self) -> (r: &str)
        ensures
            r@ == self@,
            is_acceptable_subscriber_name(r@),
    {
        proof {
            use_type_invariant(self);
        }
        self.0.as_str()
    }
}

/// A subscriber name is acceptable exactly when it has at most 255
/// grapheme clusters, some character that is not white space, and none of
/// the characters `/ \ ? <` anywhere.
pub proof fn lemma_acceptable_subscriber_name(s: Seq<char>)
    ensures
        is_acceptable_subscriber_name(s) <==> {
            &&& extended_grapheme_count(s) <= 255
            &&& exists|i: int| 0 <= i < s.len() && !is_white_space(#[trigger] s[i])
            &&& forall|i: int|
                0 <= i < s.len() ==> (#[trigger] s[i] != '/' && s[i] != '\\' && s[i] != '?' && s[i]
                    != '<')
        },
{
    let f = subscriber_name_forbidden();
    assert forall|c: char| f.contains(c) <==> (c == '/' || c == '\\' || c == '?' || c == '<') by {
        if c == '/' { assert(f[0] == c); }
        if c == '\\' { assert(f[1] == c); }
        if c == '?' { assert(f[2] == c); }
        if c == '<' { assert(f[3] == c); }
    }
}

} // verus!
