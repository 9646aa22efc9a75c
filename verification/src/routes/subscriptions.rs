//! The subscription endpoint: which requests are stored, and what is answered.

use vstd::prelude::*;

use crate::domain::{is_acceptable_subscriber_name, subscriber_name_forbidden};
use crate::text::{
    is_white_space,
    extended_grapheme_count, grapheme_count, has_char_in, has_char_in_str, is_blank,
    is_blank_str,
};

verus! {

/// The fields of a subscription form.
pub struct FormData {
    pub email: String,
    pub name: String,
}

/// The characters that a name in a subscription form may not contain.
pub open spec fn form_name_forbidden() -> Seq<char> {
    seq!['/', '\\', '?', '<', '>', '<']
}

/// A form name is valid when it is not blank, has at most 255 grapheme
/// clusters and holds none of `/ \ ? < >`.
pub open spec fn is_valid_form_name(s: Seq<char>) -> bool {
    !(is_blank(s) || extended_grapheme_count(s) > 255 || has_char_in(s, form_name_forbidden()))
}

/// Whether a name given in a subscription form is valid.
pub fn is_valid_name(s: &str) -> (valid: bool)
    ensures
        valid == is_valid_form_name(s@),
{
    is_valid_name_with_graphemes(s, grapheme_count(s))
}

/// Whether a form name is valid, given its number of grapheme clusters.
pub fn is_valid_name_with_graphemes(s: &str, graphemes: usize) -> (valid: bool)
    ensures
        valid == !(is_blank(s@) || graphemes > 255 || has_char_in(s@, form_name_forbidden())),
{
    let is_empty_or_whitespace = is_blank_str(s);
    let is_too_long = graphemes > 255;
    let forbidden_chars: Vec<char> = vec!['/', '\\', '?', '<', '>', '<'];
    assert(forbidden_chars@ == form_name_forbidden());
    let has_forbidden_chars = has_char_in_str(s, &forbidden_chars);
    !(is_empty_or_whitespace || is_too_long || has_forbidden_chars)
}

/// What the subscription endpoint does with a decoded form.
#[derive(Debug, PartialEq, Eq, Structural)]
pub enum SubscribeStep {
    /// Answer at once with this status code; nothing is stored.
    Respond(u16),
    /// Store the subscriber, then answer with `subscribe_response`.
    Insert,
}

/// The first decision on a subscription: a form with an invalid name is
/// answered `400 Bad Request` and never reaches the database.
pub fn subscribe_admission(form: &FormData) -> (step: SubscribeStep)
    ensures
        step == (if is_valid_form_name(form.name@) {
            SubscribeStep::Insert
        } else {
            SubscribeStep::Respond(400)
        }),
{
    if !is_valid_name(form.name.as_str()) {
        return SubscribeStep::Respond(400);
    }
    SubscribeStep::Insert
}

/// The answer once the subscriber was stored (`200 OK`) or storing it
/// failed (`500 Internal Server Error`).
pub fn subscribe_response(inserted: bool) -> (status: u16)
    ensures
        status == (if inserted { 200u16 } else { 500u16 }),
{
    if inserted {
        200
    } else {
        500
    }
}

/// Every name that the subscription form accepts is also an acceptable
/// `SubscriberName`: the form forbids every character that the name type
/// forbids, and more.
pub proof fn lemma_valid_form_name_is_acceptable(s: Seq<char>)
    requires
        is_valid_form_name(s),
    ensures
        is_acceptable_subscriber_name(s),
{
    if has_char_in(s, subscriber_name_forbidden()) {
        let i = choose|i: int| 0 <= i < s.len() && subscriber_name_forbidden().contains(#[trigger] s[i]);
        let j = choose|j: int| 0 <= j < subscriber_name_forbidden().len() && subscriber_name_forbidden()[j] == s[i];
        assert(form_name_forbidden()[j] == subscriber_name_forbidden()[j]);
        assert(form_name_forbidden().contains(s[i]));
        assert(has_char_in(s, form_name_forbidden()));
    }
}

/// A form name is valid exactly when it has some character that is not
/// white space, at most 255 grapheme clusters, and none of the characters
/// `/ \ ? < >` anywhere; every other character is allowed.
pub proof fn lemma_valid_form_name(s: Seq<char>)
    ensures
        is_valid_form_name(s) <==> {
            &&& extended_grapheme_count(s) <= 255
            &&& exists|i: int| 0 <= i < s.len() && !is_white_space(#[trigger] s[i])
            &&& forall|i: int|
                0 <= i < s.len() ==> (#[trigger] s[i] != '/' && s[i] != '\\' && s[i] != '?' && s[i]
                    != '<' && s[i] != '>')
        },
{
    let f = form_name_forbidden();
    assert forall|c: char| f.contains(c) <==> (c == '/' || c == '\\' || c == '?' || c == '<' || c == '>') by {
        if c == '/' { assert(f[0] == c); }
        if c == '\\' { assert(f[1] == c); }
        if c == '?' { assert(f[2] == c); }
        if c == '<' { assert(f[3] == c); }
        if c == '>' { assert(f[4] == c); }
    }
}

} // verus!
