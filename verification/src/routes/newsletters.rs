//! The newsletter publication endpoint: HTTP Basic credentials, the
//! answers to failures, and the order in which the newsletter goes out.

use vstd::prelude::*;
use vstd::string::{StrSliceExecFns, StringExecFns};
use vstd::utf8::{decode_utf8, encode_utf8, encode_utf8_decode_utf8, encode_utf8_valid_utf8, valid_utf8};

use crate::domain::subscriber_email::{html5_email_valid, invalid_email_text};
use crate::domain::SubscriberEmail;
use crate::text::chars_of;

verus! {

/// The body of a publication request.
pub struct BodyData {
    pub title: String,
    pub content: Content,
}

/// The two renderings of a newsletter.
pub struct Content {
    pub html: String,
    pub text: String,
}

/// A user name and password taken from an `Authorization` header.
#[derive(Debug)]
pub struct Credentials {
    pub username: String,
    pub password: String,
}

/// Why an `Authorization` header yields no Basic credentials.
#[derive(Debug, PartialEq, Eq, Structural, Clone, Copy)]
pub enum AuthFailure {
    /// There is no `Authorization` header.
    MissingHeader,
    /// The header holds a byte that is not visible ASCII (nor a tab).
    HeaderNotText,
    /// The header does not start with `Basic `.
    NotBasicScheme,
    /// What follows `Basic ` is not standard Base64.
    NotBase64,
    /// The decoded credentials are not UTF-8.
    CredentialsNotUtf8,
    /// The decoded credentials hold no `:` before a password.
    MissingPassword,
}

/// The text that explains an authentication failure.
pub open spec fn auth_failure_text(f: AuthFailure) -> Seq<char> {
    match f {
        AuthFailure::MissingHeader => "The 'Authorization' header was missing"@,
        AuthFailure::HeaderNotText => "The 'Authorization' header was not a valid UTF-8 string"@,
        AuthFailure::NotBasicScheme => "The auth scheme was not basic"@,
        AuthFailure::NotBase64 => "Failed to base64-decoded 'Basic' creds"@,
        AuthFailure::CredentialsNotUtf8 => "Invalid UTF-8 in decoded creds"@,
        AuthFailure::MissingPassword => "A password must be provided in 'Basic' auth."@,
    }
}

impl AuthFailure {
    /// The explanation of this failure.
    pub fn message(&self) -> (m: String)
        ensures
            m@ == auth_failure_text(*self),
    {
        match self {
            AuthFailure::MissingHeader => String::from_str("The 'Authorization' header was missing"),
            AuthFailure::HeaderNotText => String::from_str(
                "The 'Authorization' header was not a valid UTF-8 string",
            ),
            AuthFailure::NotBasicScheme => String::from_str("The auth scheme was not basic"),
            AuthFailure::NotBase64 => String::from_str("Failed to base64-decoded 'Basic' creds"),
            AuthFailure::CredentialsNotUtf8 => String::from_str("Invalid UTF-8 in decoded creds"),
            AuthFailure::MissingPassword => String::from_str(
                "A password must be provided in 'Basic' auth.",
            ),
        }
    }
}

/// A header byte that reads as text: visible ASCII or a horizontal tab.
pub open spec fn is_visible_ascii(b: u8) -> bool {
    (32 <= b && b < 127) || b == 9
}

/// The bytes of `Basic `.
pub open spec fn basic_scheme_prefix() -> Seq<u8> {
    seq![66u8, 97u8, 115u8, 105u8, 99u8, 32u8]
}

/// What standard Base64 (with padding) decodes a text into, if it is
/// Base64 at all.
pub uninterp spec fn base64_standard_decoding(input: Seq<u8>) -> Option<Seq<u8>>;

/// Declares `base64::DecodeError`, the error of a failed decoding, so that
/// it can be carried; nothing inside it is read.
#[verifier::external_type_specification]
#[verifier::external_body]
pub struct ExDecodeError(base64::DecodeError);

/// Calls `base64::decode_config(input, base64::STANDARD)`. The contract names
/// the outcome as a function of the input alone: the decoded bytes, or no
/// decoding. Its requirement keeps out inputs so long that the crate's
/// length computations overflow and panic.
#[verifier::external_body]
fn decode_base64_standard(input: &[u8]) -> (r: Result<Vec<u8>, base64::DecodeError>)
    requires
        input@.len() <= isize::MAX,
    ensures
        match r {
            Ok(v) => base64_standard_decoding(input@) == Some(v@),
            Err(_) => base64_standard_decoding(input@) is None,
        },
{
    base64::decode_config(input, base64::STANDARD)
}

/// Declares `std::string::FromUtf8Error`, the error of `String::from_utf8`,
/// so that it can be carried; nothing inside it is read.
#[verifier::external_type_specification]
#[verifier::external_body]
pub struct ExFromUtf8Error(std::string::FromUtf8Error);

/// `String::from_utf8` accepts exactly the valid UTF-8 byte sequences and
/// decodes them.
pub assume_specification[ String::from_utf8 ](vec: Vec<u8>) -> (r: Result<
    String,
    std::string::FromUtf8Error,
>)
    ensures
        match r {
            Ok(s) => valid_utf8(vec@) && s@ == decode_utf8(vec@),
            Err(_) => !valid_utf8(vec@),
        },
;

/// Why the header `header` yields no credentials, or `None` when it does.
pub open spec fn auth_failure(header: Option<Seq<u8>>) -> Option<AuthFailure> {
    match header {
        None => Some(AuthFailure::MissingHeader),
        Some(h) => if !(forall|i: int| 0 <= i < h.len() ==> is_visible_ascii(#[trigger] h[i])) {
            Some(AuthFailure::HeaderNotText)
        } else if !(h.len() >= 6 && h.take(6) == basic_scheme_prefix()) {
            Some(AuthFailure::NotBasicScheme)
        } else {
            match base64_standard_decoding(h.skip(6)) {
                None => Some(AuthFailure::NotBase64),
                Some(d) => if !valid_utf8(d) {
                    Some(AuthFailure::CredentialsNotUtf8)
                } else if !decode_utf8(d).contains(':') {
                    Some(AuthFailure::MissingPassword)
                } else {
                    None
                },
            }
        },
    }
}

/// The decoded `user:password` text of a Basic header.
pub open spec fn credential_text(h: Seq<u8>) -> Seq<char> {
    decode_utf8(base64_standard_decoding(h.skip(6)).unwrap())
}

/// `text` is `username`, a colon, then `password`, where the user name
/// holds no colon: the split at the first colon.
pub open spec fn splits_at_first_colon(
    text: Seq<char>,
    username: Seq<char>,
    password: Seq<char>,
) -> bool {
    &&& text == username + seq![':'] + password
    &&& !username.contains(':')
}

/// The view of an optional header value.
pub open spec fn header_view(header: Option<&[u8]>) -> Option<Seq<u8>> {
    match header {
        Some(h) => Some(h@),
        None => None,
    }
}

/// Whether every byte of `h` is visible ASCII or a tab (what
/// `HeaderValue::to_str` checks before it hands out the text).
pub fn is_visible_ascii_text(h: &[u8]) -> (b: bool)
    ensures
        b == (forall|i: int| 0 <= i < h@.len() ==> is_visible_ascii(#[trigger] h@[i])),
{
    let mut i: usize = 0;
    while i < h.len()
        invariant
            i <= h@.len(),
            forall|j: int| 0 <= j < i ==> is_visible_ascii(#[trigger] h@[j]),
        decreases h@.len() - i,
    {
        let b = h[i];
        if !((32 <= b && b < 127) || b == 9) {
            return false;
        }
        i = i + 1;
    }
    true
}

/// The index of the first `:` in `cs`, if there is one.
fn first_colon(cs: &Vec<char>) -> (r: Option<usize>)
    ensures
        match r {
            Some(i) => i < cs@.len() && cs@[i as int] == ':' && !cs@.take(i as int).contains(':'),
            None => !cs@.contains(':'),
        },
{
    let mut i: usize = 0;
    while i < cs.len()
        invariant
            i <= cs@.len(),
            !cs@.take(i as int).contains(':'),
        decreases cs@.len() - i,
    {
        if cs[i] == ':' {
            return Some(i);
        }
        assert(cs@.take(i + 1) =~= cs@.take(i as int).push(cs@[i as int]));
        i = i + 1;
    }
    assert(cs@.take(i as int) =~= cs@);
    None
}

/// Reads HTTP Basic credentials from the value of the `Authorization`
/// header: visible ASCII text, `Basic `, then standard Base64 of UTF-8
/// `user:password`, split at the first colon.
pub fn basic_authenticate(authorization: Option<&[u8]>) -> (r: Result<Credentials, AuthFailure>)
    requires
        authorization matches Some(h) ==> h@.len() <= isize::MAX,
    ensures
        match r {
            Ok(c) => {
                &&& auth_failure(header_view(authorization)) is None
                &&& splits_at_first_colon(
                    credential_text(authorization.unwrap()@),
                    c.username@,
                    c.password@,
                )
            },
            Err(f) => auth_failure(header_view(authorization)) == Some(f),
        },
{
    let h = match authorization {
        None => return Err(AuthFailure::MissingHeader),
        Some(h) => h,
    };
    if !is_visible_ascii_text(h) {
        return Err(AuthFailure::HeaderNotText);
    }
    if h.len() < 6 || !(h[0] == 66u8 && h[1] == 97u8 && h[2] == 115u8 && h[3] == 105u8 && h[4]
        == 99u8 && h[5] == 32u8) {
        proof {
            if h@.len() >= 6 && h@.take(6) == basic_scheme_prefix() {
                assert(h@.take(6)[0] == h@[0]);
                assert(h@.take(6)[1] == h@[1]);
                assert(h@.take(6)[2] == h@[2]);
                assert(h@.take(6)[3] == h@[3]);
                assert(h@.take(6)[4] == h@[4]);
                assert(h@.take(6)[5] == h@[5]);
            }
        }
        return Err(AuthFailure::NotBasicScheme);
    }
    assert(h@.take(6) =~= basic_scheme_prefix());
    let (_, payload) = h.split_at(6);
    assert(payload@ =~= h@.skip(6));
    let decoded = match decode_base64_standard(payload) {
        Ok(d) => d,
        Err(_) => return Err(AuthFailure::NotBase64),
    };
    credentials_from_decoded(decoded)
}

/// Why decoded Basic credentials yield no user name and password, or
/// `None` when they do.
pub open spec fn decoded_credentials_failure(d: Seq<u8>) -> Option<AuthFailure> {
    if !valid_utf8(d) {
        Some(AuthFailure::CredentialsNotUtf8)
    } else if !decode_utf8(d).contains(':') {
        Some(AuthFailure::MissingPassword)
    } else {
        None
    }
}

/// Reads `user:password` from the bytes that the Base64 of a Basic header
/// decodes into: UTF-8 text, split at the first colon.
pub fn credentials_from_decoded(decoded: Vec<u8>) -> (r: Result<Credentials, AuthFailure>)
    ensures
        match r {
            Ok(c) => {
                &&& decoded_credentials_failure(decoded@) is None
                &&& splits_at_first_colon(decode_utf8(decoded@), c.username@, c.password@)
            },
            Err(f) => decoded_credentials_failure(decoded@) == Some(f),
        },
{
    let text = match String::from_utf8(decoded) {
        Ok(t) => t,
        Err(_) => return Err(AuthFailure::CredentialsNotUtf8),
    };
    let cs = chars_of(text.as_str());
    let i = match first_colon(&cs) {
        None => return Err(AuthFailure::MissingPassword),
        Some(i) => i,
    };
    assert(i < cs.len());
    let username = String::from_str(text.as_str().substring_char(0, i));
    let password = String::from_str(text.as_str().substring_char(i + 1, cs.len()));
    assert(text@ =~= username@ + seq![':'] + password@);
    Ok(Credentials { username, password })
}

/// Why a publication request failed.
#[derive(Debug)]
pub enum PublishError {
    /// The caller could not be authenticated; holds the cause.
    AuthError(String),
    /// Something else went wrong; holds the explanation.
    UnexpectedError(String),
}

/// A failure as the contracts see it.
pub enum PublishErrorView {
    AuthError(Seq<char>),
    UnexpectedError(Seq<char>),
}

impl View for PublishError {
    type V = PublishErrorView;

    open spec fn view(&self) -> PublishErrorView {
        match self {
            PublishError::AuthError(cause) => PublishErrorView::AuthError(cause@),
            PublishError::UnexpectedError(text) => PublishErrorView::UnexpectedError(text@),
        }
    }
}

/// The status code of a failed publication: 401 when authentication failed,
/// 500 otherwise.
pub open spec fn publish_error_status(e: PublishErrorView) -> u16 {
    match e {
        PublishErrorView::AuthError(_) => 401,
        PublishErrorView::UnexpectedError(_) => 500,
    }
}

/// The text shown for a failed publication.
pub open spec fn publish_error_text(e: PublishErrorView) -> Seq<char> {
    match e {
        PublishErrorView::AuthError(_) => "Authentication failed."@,
        PublishErrorView::UnexpectedError(text) => text,
    }
}

/// The challenge sent with a 401 answer.
pub open spec fn basic_realm_challenge() -> Seq<char> {
    "Basic realm=\"publish\""@
}

impl PublishError {
    /// The HTTP status of the answer.
    pub fn status_code(&self) -> (status: u16)
        ensures
            status == publish_error_status(self@),
    {
        match self {
            PublishError::AuthError(_) => 401,
            PublishError::UnexpectedError(_) => 500,
        }
    }

    /// The `WWW-Authenticate` header of the answer, sent only when
    /// authentication failed.
    pub fn www_authenticate(&self) -> (challenge: Option<String>)
        ensures
            match self@ {
                PublishErrorView::AuthError(_) => challenge matches Some(c) && c@
                    == basic_realm_challenge(),
                PublishErrorView::UnexpectedError(_) => challenge is None,
            },
    {
        match self {
            PublishError::AuthError(_) => Some(String::from_str("Basic realm=\"publish\"")),
            PublishError::UnexpectedError(_) => None,
        }
    }

    /// The text of the failure.
    pub fn message(&self) -> (text: String)
        ensures
            text@ == publish_error_text(self@),
    {
        match self {
            PublishError::AuthError(_) => String::from_str("Authentication failed."),
            PublishError::UnexpectedError(text) => text.clone(),
        }
    }
}

/// The cause given when no user has the credentials.
pub open spec fn unknown_user_text() -> Seq<char> {
    "Invalid username and password"@
}

/// The explanation given when the user lookup itself failed.
pub open spec fn lookup_failure_text() -> Seq<char> {
    "FFailed to pefrom a query with creds"@
}

/// The outcome of looking the credentials up: the query failed, found no
/// user, or found the user with this id.
pub open spec fn credentials_outcome(lookup: Result<Option<u128>, Seq<char>>) -> Result<
    u128,
    PublishErrorView,
> {
    match lookup {
        Err(_) => Err(PublishErrorView::UnexpectedError(lookup_failure_text())),
        Ok(None) => Err(PublishErrorView::AuthError(unknown_user_text())),
        Ok(Some(id)) => Ok(id),
    }
}

/// The view of a lookup result.
pub open spec fn lookup_view(lookup: Result<Option<u128>, String>) -> Result<
    Option<u128>,
    Seq<char>,
> {
    match lookup {
        Ok(found) => Ok(found),
        Err(e) => Err(e@),
    }
}

/// Decides on the result of looking up the user that holds the credentials.
pub fn validate_credentials(lookup: Result<Option<u128>, String>) -> (r: Result<u128, PublishError>)
    ensures
        match r {
            Ok(id) => credentials_outcome(lookup_view(lookup)) == Ok::<u128, PublishErrorView>(id),
            Err(e) => credentials_outcome(lookup_view(lookup)) == Err::<u128, PublishErrorView>(e@),
        },
{
    match lookup {
        Err(_) => Err(PublishError::UnexpectedError(String::from_str("FFailed to pefrom a query with creds"))),
        Ok(None) => Err(PublishError::AuthError(String::from_str("Invalid username and password"))),
        Ok(Some(id)) => Ok(id),
    }
}

/// A subscriber who confirmed the subscription.
pub struct ConfirmedSubscriber {
    pub email: SubscriberEmail,
}

/// Turns the stored addresses of confirmed subscribers into subscribers,
/// each stored address that does not validate into its error text.
pub fn confirmed_subscribers(rows: &Vec<String>) -> (subscribers: Vec<Result<ConfirmedSubscriber, String>>)
    ensures
        subscribers@.len() == rows@.len(),
        forall|i: int|
            0 <= i < rows@.len() ==> match #[trigger] subscribers@[i] {
                Ok(s) => html5_email_valid(rows@[i]@) && s.email@ == rows@[i]@,
                Err(m) => !html5_email_valid(rows@[i]@) && m@ == invalid_email_text(rows@[i]@),
            },
{
    let mut subscribers: Vec<Result<ConfirmedSubscriber, String>> = Vec::new();
    let mut i: usize = 0;
    while i < rows.len()
        invariant
            i <= rows@.len(),
            subscribers@.len() == i,
            forall|j: int|
                0 <= j < i ==> match #[trigger] subscribers@[j] {
                    Ok(s) => html5_email_valid(rows@[j]@) && s.email@ == rows@[j]@,
                    Err(m) => !html5_email_valid(rows@[j]@) && m@ == invalid_email_text(rows@[j]@),
                },
        decreases rows@.len() - i,
    {
        let row = rows[i].clone();
        let entry = match SubscriberEmail::parse(row) {
            Ok(email) => Ok(ConfirmedSubscriber { email }),
            Err(error) => Err(error),
        };
        subscribers.push(entry);
        i = i + 1;
    }
    subscribers
}

/// How `{:?}` renders a string: quoted, with escapes.
pub uninterp spec fn debug_quoted(s: Seq<char>) -> Seq<char>;

/// Calls `format!("{:?}", s)` on a `str`. The contract names the rendering
/// as a function of the text alone; the escaping rules are not stated.
#[verifier::external_body]
fn debug_str(s: &str) -> (r: String)
    ensures
        r@ == debug_quoted(s@),
{
    format!("{:?}", s)
}

/// The explanation when the newsletter could not be sent to `address`.
pub open spec fn send_failure_text(address: Seq<char>) -> Seq<char> {
    "Failed to send newsletter to SubscriberEmail("@ + debug_quoted(address) + ")"@
}

/// The failure reported when the newsletter could not be sent to `address`.
pub fn send_failure(address: &str) -> (e: PublishError)
    ensures
        e@ == PublishErrorView::UnexpectedError(send_failure_text(address@)),
{
    let quoted = debug_str(address);
    send_failure_with_rendering(quoted.as_str())
}

/// The failure reported when sending failed, given the `{:?}` rendering of
/// the recipient's address.
pub fn send_failure_with_rendering(quoted: &str) -> (e: PublishError)
    ensures
        e@ == PublishErrorView::UnexpectedError(
            "Failed to send newsletter to SubscriberEmail("@ + quoted@ + ")"@,
        ),
{
    let mut text = String::from_str("Failed to send newsletter to SubscriberEmail(");
    text.append(quoted);
    text.append(")");
    PublishError::UnexpectedError(text)
}

/// The user name and password of a credential text: the split at its first
/// colon (unique by `lemma_first_colon_split_unique`).
pub open spec fn credentials_of(text: Seq<char>) -> (Seq<char>, Seq<char>) {
    choose|u: Seq<char>, p: Seq<char>| splits_at_first_colon(text, u, p)
}

/// A text has at most one split at its first colon: the user name and the
/// password that Basic authentication reads are determined by the text.
pub proof fn lemma_first_colon_split_unique(
    text: Seq<char>,
    u1: Seq<char>,
    p1: Seq<char>,
    u2: Seq<char>,
    p2: Seq<char>,
)
    requires
        splits_at_first_colon(text, u1, p1),
        splits_at_first_colon(text, u2, p2),
    ensures
        u1 == u2,
        p1 == p2,
{
    assert(text[u1.len() as int] == ':');
    assert(text[u2.len() as int] == ':');
    if u1.len() < u2.len() {
        assert(u2[u1.len() as int] == text[u1.len() as int]);
        assert(u2.contains(':'));
    }
    if u2.len() < u1.len() {
        assert(u1[u2.len() as int] == text[u2.len() as int]);
        assert(u1.contains(':'));
    }
    assert(u1 =~= text.take(u1.len() as int));
    assert(u2 =~= text.take(u2.len() as int));
    assert(p1 =~= text.skip(u1.len() as int + 1));
    assert(p2 =~= text.skip(u2.len() as int + 1));
}

/// The stages of a publication request.
#[derive(Debug, PartialEq, Eq, Structural, Clone, Copy)]
pub enum PublishStage {
    /// Nothing happened yet.
    AwaitingRequest,
    /// The credentials are being looked up.
    AwaitingUser,
    /// The confirmed subscribers are being loaded.
    AwaitingSubscribers,
    /// The newsletter is going out, one subscriber at a time.
    Delivering,
    /// The answer was given.
    Finished,
}

/// What the outside world reports to a publication.
pub enum PublishEvent {
    /// A request arrived, with this `Authorization` header value, if any.
    Requested(Option<Vec<u8>>),
    /// The user lookup for the credentials ended: failed, or found a user id
    /// or none.
    UserLookedUp(Result<Option<u128>, String>),
    /// The stored addresses of the confirmed subscribers were loaded, or
    /// loading them failed.
    SubscribersLoaded(Result<Vec<String>, String>),
    /// The newsletter was sent to the last recipient, or sending failed.
    Delivered(Result<(), String>),
}

/// An event as the contracts see it.
pub enum PublishEventView {
    Requested(Option<Seq<u8>>),
    UserLookedUp(Result<Option<u128>, Seq<char>>),
    SubscribersLoaded(Result<Seq<Seq<char>>, Seq<char>>),
    Delivered(Result<(), Seq<char>>),
}

impl View for PublishEvent {
    type V = PublishEventView;

    open spec fn view(&self) -> PublishEventView {
        match self {
            PublishEvent::Requested(h) => PublishEventView::Requested(
                match h {
                    Some(v) => Some(v@),
                    None => None,
                },
            ),
            PublishEvent::UserLookedUp(l) => PublishEventView::UserLookedUp(lookup_view(*l)),
            PublishEvent::SubscribersLoaded(r) => PublishEventView::SubscribersLoaded(
                match r {
                    Ok(rows) => Ok(rows@.map_values(|row: String| row@)),
                    Err(e) => Err(e@),
                },
            ),
            PublishEvent::Delivered(r) => PublishEventView::Delivered(
                match r {
                    Ok(_) => Ok(()),
                    Err(e) => Err(e@),
                },
            ),
        }
    }
}

/// What a publication asks the outside world to do next.
pub enum PublishAction {
    /// Look up the user that holds these credentials.
    LookUpUser(Credentials),
    /// Load the stored addresses of the confirmed subscribers.
    LoadConfirmedSubscribers,
    /// Send the newsletter to this subscriber.
    Send(SubscriberEmail),
    /// Answer the request: `200 OK`, or the failure.
    Finish(Result<(), PublishError>),
}

/// An action as the contracts see it.
pub enum PublishActionView {
    LookUpUser(Seq<char>, Seq<char>),
    LoadConfirmedSubscribers,
    Send(Seq<char>),
    Finish(Result<(), PublishErrorView>),
}

impl View for PublishAction {
    type V = PublishActionView;

    open spec fn view(&self) -> PublishActionView {
        match self {
            PublishAction::LookUpUser(c) => PublishActionView::LookUpUser(c.username@, c.password@),
            PublishAction::LoadConfirmedSubscribers => PublishActionView::LoadConfirmedSubscribers,
            PublishAction::Send(e) => PublishActionView::Send(e@),
            PublishAction::Finish(r) => PublishActionView::Finish(
                match r {
                    Ok(_) => Ok(()),
                    Err(e) => Err(e@),
                },
            ),
        }
    }
}

/// The state of a publication: its stage, the addresses still to be served
/// in order, and the address being served.
pub struct PublishFlowView {
    pub stage: PublishStage,
    pub queue: Seq<Seq<char>>,
    pub current: Seq<char>,
}

/// One publication request, from its arrival to its answer.
pub struct PublishFlow {
    stage: PublishStage,
    /// The recipients still to be served, the next one last.
    pending: Vec<SubscriberEmail>,
    current: String,
}

/// The addresses of a stack of recipients, the top first.
spec fn stack_order(p: Seq<SubscriberEmail>) -> Seq<Seq<char>> {
    Seq::new(p.len(), |i: int| p[p.len() - 1 - i]@)
}

impl View for PublishFlow {
    type V = PublishFlowView;

    closed spec fn view(&self) -> PublishFlowView {
        PublishFlowView { stage: self.stage, queue: stack_order(self.pending@), current: self.current@ }
    }
}

/// The stored addresses that validate, in their order: the recipients.
pub open spec fn deliverable(rows: Seq<Seq<char>>) -> Seq<Seq<char>>
    decreases rows.len(),
{
    if rows.len() == 0 {
        seq![]
    } else if html5_email_valid(rows[0]) {
        seq![rows[0]] + deliverable(rows.drop_first())
    } else {
        deliverable(rows.drop_first())
    }
}

/// A publication before anything happened.
pub open spec fn publish_start() -> PublishFlowView {
    PublishFlowView { stage: PublishStage::AwaitingRequest, queue: seq![], current: seq![] }
}

/// A publication that gave its answer.
pub open spec fn publish_finished() -> PublishFlowView {
    PublishFlowView { stage: PublishStage::Finished, queue: seq![], current: seq![] }
}

/// Serve the next recipient of `queue`, or answer `200 OK` when none is left.
pub open spec fn deliver_next(queue: Seq<Seq<char>>) -> (PublishFlowView, PublishActionView) {
    if queue.len() == 0 {
        (publish_finished(), PublishActionView::Finish(Ok(())))
    } else {
        (
            PublishFlowView {
                stage: PublishStage::Delivering,
                queue: queue.drop_first(),
                current: queue[0],
            },
            PublishActionView::Send(queue[0]),
        )
    }
}

/// The events that a publication can take in its state.
pub open spec fn publish_accepts(s: PublishFlowView, e: PublishEventView) -> bool {
    match e {
        PublishEventView::Requested(h) => s.stage == PublishStage::AwaitingRequest && (h matches Some(
            b,
        ) ==> b.len() <= isize::MAX),
        PublishEventView::UserLookedUp(_) => s.stage == PublishStage::AwaitingUser,
        PublishEventView::SubscribersLoaded(_) => s.stage == PublishStage::AwaitingSubscribers,
        PublishEventView::Delivered(_) => s.stage == PublishStage::Delivering,
    }
}

/// The next state and action of a publication on an event: authenticate,
/// look the user up, load the confirmed subscribers, send to each one whose
/// address validates, in order, and answer; any failure ends it.
pub open spec fn publish_step(s: PublishFlowView, e: PublishEventView) -> (
    PublishFlowView,
    PublishActionView,
) {
    match e {
        PublishEventView::Requested(h) => match auth_failure(h) {
            Some(f) => (
                publish_finished(),
                PublishActionView::Finish(Err(PublishErrorView::AuthError(auth_failure_text(f)))),
            ),
            None => {
                let (u, p) = credentials_of(credential_text(h.unwrap()));
                (
                    PublishFlowView { stage: PublishStage::AwaitingUser, queue: s.queue, current: s.current },
                    PublishActionView::LookUpUser(u, p),
                )
            },
        },
        PublishEventView::UserLookedUp(l) => match credentials_outcome(l) {
            Ok(_) => (
                PublishFlowView {
                    stage: PublishStage::AwaitingSubscribers,
                    queue: s.queue,
                    current: s.current,
                },
                PublishActionView::LoadConfirmedSubscribers,
            ),
            Err(err) => (publish_finished(), PublishActionView::Finish(Err(err))),
        },
        PublishEventView::SubscribersLoaded(r) => match r {
            Err(m) => (
                publish_finished(),
                PublishActionView::Finish(Err(PublishErrorView::UnexpectedError(m))),
            ),
            Ok(rows) => deliver_next(deliverable(rows)),
        },
        PublishEventView::Delivered(r) => match r {
            Err(_) => (
                publish_finished(),
                PublishActionView::Finish(
                    Err(PublishErrorView::UnexpectedError(send_failure_text(s.current))),
                ),
            ),
            Ok(_) => deliver_next(s.queue),
        },
    }
}

impl PublishFlow {
    /// A publication waiting for its request.
    pub fn new() -> (flow: PublishFlow)
        ensures
            flow@ == publish_start(),
    {
        let flow = PublishFlow {
            stage: PublishStage::AwaitingRequest,
            pending: Vec::new(),
            current: String::new(),
        };
        assert(flow@.queue =~= Seq::<Seq<char>>::empty());
        flow
    }

    /// The stage the publication is in.
    pub fn stage(&self) -> (stage: PublishStage)
        ensures
            stage == self@.stage,
    {
        self.stage
    }

    /// Whether the publication can take `event` now.
    pub fn expects(&self, event: &PublishEvent) -> (ok: bool)
        ensures
            ok == publish_accepts(self@, event@),
    {
        match event {
            PublishEvent::Requested(h) => {
                self.stage == PublishStage::AwaitingRequest && match h {
                    Some(b) => b.len() <= isize::MAX as usize,
                    None => true,
                }
            },
            PublishEvent::UserLookedUp(_) => self.stage == PublishStage::AwaitingUser,
            PublishEvent::SubscribersLoaded(_) => self.stage == PublishStage::AwaitingSubscribers,
            PublishEvent::Delivered(_) => self.stage == PublishStage::Delivering,
        }
    }

    fn finish(&mut self)
        ensures
            final(self)@ == publish_finished(),
    {
        self.stage = PublishStage::Finished;
        self.pending = Vec::new();
        self.current = String::new();
        assert(self@.queue =~= Seq::<Seq<char>>::empty());
    }

    fn deliver_next(&mut self) -> (action: PublishAction)
        ensures
            (final(self)@, action@) == deliver_next(old(self)@.queue),
    {
        let ghost old_queue = self@.queue;
        match self.pending.pop() {
            Some(email) => {
                self.current = String::from_str(email.as_ref());
                self.stage = PublishStage::Delivering;
                assert(self@.queue =~= old_queue.drop_first());
                PublishAction::Send(email)
            },
            None => {
                self.finish();
                PublishAction::Finish(Ok(()))
            },
        }
    }

    /// Takes the next event and says what to do next.
    pub fn step(&mut self, event: PublishEvent) -> (action: PublishAction)
        requires
            publish_accepts(old(self)@, event@),
        ensures
            (final(self)@, action@) == publish_step(old(self)@, event@),
    {
        let ghost ev = event@;
        match event {
            PublishEvent::Requested(header) => {
                let r = match &header {
                    Some(h) => basic_authenticate(Some(h.as_slice())),
                    None => basic_authenticate(None),
                };
                match r {
                    Err(f) => {
                        self.finish();
                        PublishAction::Finish(Err(PublishError::AuthError(f.message())))
                    },
                    Ok(c) => {
                        proof {
                            let text = credential_text(header.unwrap()@);
                            let (u, p) = credentials_of(text);
                            assert(splits_at_first_colon(text, c.username@, c.password@));
                            lemma_first_colon_split_unique(text, c.username@, c.password@, u, p);
                        }
                        self.stage = PublishStage::AwaitingUser;
                        PublishAction::LookUpUser(c)
                    },
                }
            },
            PublishEvent::UserLookedUp(lookup) => match validate_credentials(lookup) {
                Ok(_) => {
                    self.stage = PublishStage::AwaitingSubscribers;
                    PublishAction::LoadConfirmedSubscribers
                },
                Err(e) => {
                    self.finish();
                    PublishAction::Finish(Err(e))
                },
            },
            PublishEvent::SubscribersLoaded(loaded) => match loaded {
                Err(m) => {
                    self.finish();
                    PublishAction::Finish(Err(PublishError::UnexpectedError(m)))
                },
                Ok(rows) => {
                    self.pending = recipients_of(&rows);
                    self.deliver_next()
                },
            },
            PublishEvent::Delivered(sent) => match sent {
                Err(_) => {
                    let e = send_failure(self.current.as_str());
                    self.finish();
                    PublishAction::Finish(Err(e))
                },
                Ok(_) => self.deliver_next(),
            },
        }
    }
}

/// The recipients among the stored addresses, as a stack whose top is the
/// first of them.
fn recipients_of(rows: &Vec<String>) -> (pending: Vec<SubscriberEmail>)
    ensures
        stack_order(pending@) == deliverable(rows@.map_values(|row: String| row@)),
{
    let ghost rv = rows@.map_values(|row: String| row@);
    let mut subs = confirmed_subscribers(rows);
    let mut pending: Vec<SubscriberEmail> = Vec::new();
    assert(rv.skip(rv.len() as int) =~= Seq::<Seq<char>>::empty());
    assert(stack_order(pending@) =~= Seq::<Seq<char>>::empty());
    while subs.len() > 0
        invariant
            subs@.len() <= rows@.len(),
            rv == rows@.map_values(|row: String| row@),
            forall|i: int|
                0 <= i < subs@.len() ==> match #[trigger] subs@[i] {
                    Ok(s) => html5_email_valid(rows@[i]@) && s.email@ == rows@[i]@,
                    Err(m) => !html5_email_valid(rows@[i]@) && m@ == invalid_email_text(rows@[i]@),
                },
            stack_order(pending@) == deliverable(rv.skip(subs@.len() as int)),
        decreases subs@.len(),
    {
        let ghost k = (subs@.len() - 1) as int;
        let ghost before = pending@;
        let entry = subs.pop();
        assert(rv.skip(k).drop_first() =~= rv.skip(k + 1));
        assert(rv.skip(k)[0] == rv[k]);
        match entry {
            Some(Ok(subscriber)) => {
                pending.push(subscriber.email);
                assert(stack_order(pending@) =~= seq![rv[k]] + stack_order(before));
            },
            _ => {},
        }
    }
    assert(rv.skip(0) =~= rv);
    pending
}

/// Runs a publication through a sequence of events: the final state and the
/// actions it asked for, in order.
pub open spec fn publish_run(s: PublishFlowView, events: Seq<PublishEventView>) -> (
    PublishFlowView,
    Seq<PublishActionView>,
)
    decreases events.len(),
{
    if events.len() == 0 {
        (s, seq![])
    } else {
        let (next, action) = publish_step(s, events[0]);
        let (last, rest) = publish_run(next, events.drop_first());
        (last, seq![action] + rest)
    }
}

/// Every event of the sequence is one that the publication can take when it
/// comes.
pub open spec fn publish_run_accepted(s: PublishFlowView, events: Seq<PublishEventView>) -> bool
    decreases events.len(),
{
    events.len() == 0 || (publish_accepts(s, events[0]) && publish_run_accepted(
        publish_step(s, events[0]).0,
        events.drop_first(),
    ))
}

/// `n` reports of a successful delivery.
pub open spec fn successful_deliveries(n: nat) -> Seq<PublishEventView> {
    Seq::new(n, |i: int| PublishEventView::Delivered(Ok(())))
}

/// One send action per address, in order.
pub open spec fn sends(addresses: Seq<Seq<char>>) -> Seq<PublishActionView> {
    addresses.map_values(|a: Seq<char>| PublishActionView::Send(a))
}

/// While delivering, as long as every delivery succeeds, the publication
/// sends to each queued address in order and then answers `200 OK`.
pub proof fn lemma_successful_deliveries(queue: Seq<Seq<char>>, current: Seq<char>)
    ensures
        ({
            let s = PublishFlowView { stage: PublishStage::Delivering, queue, current };
            let events = successful_deliveries(queue.len() + 1);
            &&& publish_run(s, events) == (
                publish_finished(),
                sends(queue) + seq![PublishActionView::Finish(Ok(()))],
            )
            &&& publish_run_accepted(s, events)
        }),
    decreases queue.len(),
{
    let s = PublishFlowView { stage: PublishStage::Delivering, queue, current };
    let events = successful_deliveries(queue.len() + 1);
    assert(events[0] == PublishEventView::Delivered(Ok(())));
    let rest = events.drop_first();
    if queue.len() == 0 {
        assert(publish_step(s, events[0]) == (publish_finished(), PublishActionView::Finish(Ok(()))));
        assert(rest =~= Seq::<PublishEventView>::empty());
        assert(publish_run(publish_finished(), rest) == (publish_finished(), Seq::<PublishActionView>::empty()));
        assert(sends(queue) + seq![PublishActionView::Finish(Ok(()))] =~= seq![
            PublishActionView::Finish(Ok(())),
        ]);
        assert(publish_run_accepted(publish_finished(), rest));
    } else {
        let next = PublishFlowView {
            stage: PublishStage::Delivering,
            queue: queue.drop_first(),
            current: queue[0],
        };
        assert(publish_step(s, events[0]) == (next, PublishActionView::Send(queue[0])));
        lemma_successful_deliveries(queue.drop_first(), queue[0]);
        assert(rest =~= successful_deliveries(queue.drop_first().len() + 1));
        assert(sends(queue) + seq![PublishActionView::Finish(Ok(()))] =~= seq![
            PublishActionView::Send(queue[0]),
        ] + (sends(queue.drop_first()) + seq![PublishActionView::Finish(Ok(()))]));
    }
}

/// A publication with valid credentials of a known user, whose deliveries
/// all succeed, asks to look the user up, to load the confirmed subscribers,
/// then sends the newsletter once to each stored address that validates, in
/// the stored order, and answers `200 OK`; it takes every one of these
/// events when it comes.
pub proof fn lemma_publication_reaches_every_valid_subscriber(
    header: Seq<u8>,
    user: u128,
    rows: Seq<Seq<char>>,
)
    requires
        auth_failure(Some(header)) is None,
        header.len() <= isize::MAX,
    ensures
        ({
            let recipients = deliverable(rows);
            let (username, password) = credentials_of(credential_text(header));
            let events = seq![
                PublishEventView::Requested(Some(header)),
                PublishEventView::UserLookedUp(Ok(Some(user))),
                PublishEventView::SubscribersLoaded(Ok(rows)),
            ] + successful_deliveries(recipients.len());
            &&& publish_run(publish_start(), events) == (
                publish_finished(),
                seq![
                    PublishActionView::LookUpUser(username, password),
                    PublishActionView::LoadConfirmedSubscribers,
                ] + sends(recipients) + seq![PublishActionView::Finish(Ok(()))],
            )
            &&& publish_run_accepted(publish_start(), events)
        }),
{
    let recipients = deliverable(rows);
    let (username, password) = credentials_of(credential_text(header));
    let deliveries = successful_deliveries(recipients.len());
    let events = seq![
        PublishEventView::Requested(Some(header)),
        PublishEventView::UserLookedUp(Ok(Some(user))),
        PublishEventView::SubscribersLoaded(Ok(rows)),
    ] + deliveries;
    let e1 = events.drop_first();
    let e2 = e1.drop_first();
    let e3 = e2.drop_first();
    assert(events[0] == PublishEventView::Requested(Some(header)));
    assert(e1[0] == PublishEventView::UserLookedUp(Ok(Some(user))));
    assert(e2[0] == PublishEventView::SubscribersLoaded(Ok(rows)));
    assert(e3 =~= deliveries);
    let s1 = PublishFlowView { stage: PublishStage::AwaitingUser, queue: seq![], current: seq![] };
    let s2 = PublishFlowView {
        stage: PublishStage::AwaitingSubscribers,
        queue: seq![],
        current: seq![],
    };
    assert(publish_step(publish_start(), events[0]) == (s1, PublishActionView::LookUpUser(
        username,
        password,
    )));
    assert(publish_step(s1, e1[0]) == (s2, PublishActionView::LoadConfirmedSubscribers));
    let tail = sends(recipients) + seq![PublishActionView::Finish(Ok(()))];
    if recipients.len() == 0 {
        assert(e3 =~= Seq::<PublishEventView>::empty());
        assert(publish_step(s2, e2[0]) == (publish_finished(), PublishActionView::Finish(Ok(()))));
        assert(publish_run(publish_finished(), e3) == (publish_finished(), Seq::<PublishActionView>::empty()));
        assert(tail =~= seq![PublishActionView::Finish(Ok(()))]);
        assert(publish_run(s2, e2) == (publish_finished(), tail));
        assert(publish_run_accepted(publish_finished(), e3));
    } else {
        let q = recipients.drop_first();
        let s3 = PublishFlowView { stage: PublishStage::Delivering, queue: q, current: recipients[0] };
        assert(publish_step(s2, e2[0]) == (s3, PublishActionView::Send(recipients[0])));
        lemma_successful_deliveries(q, recipients[0]);
        assert(deliveries =~= successful_deliveries(q.len() + 1));
        assert(sends(recipients) =~= seq![PublishActionView::Send(recipients[0])] + sends(q));
        assert(tail =~= seq![PublishActionView::Send(recipients[0])] + (sends(q) + seq![
            PublishActionView::Finish(Ok(())),
        ]));
        assert(publish_run(s2, e2) == (publish_finished(), tail));
    }
    assert(publish_run(s1, e1) == (publish_finished(), seq![PublishActionView::LoadConfirmedSubscribers] + tail));
    assert(seq![
        PublishActionView::LookUpUser(username, password),
        PublishActionView::LoadConfirmedSubscribers,
    ] + sends(recipients) + seq![PublishActionView::Finish(Ok(()))] =~= seq![
        PublishActionView::LookUpUser(username, password),
    ] + (seq![PublishActionView::LoadConfirmedSubscribers] + tail));
    assert(publish_run_accepted(s2, e2));
    assert(publish_run_accepted(s1, e1));
}

/// Every address that the publication holds passes e-mail validation.
pub open spec fn publish_addresses_valid(s: PublishFlowView) -> bool {
    &&& forall|i: int| 0 <= i < s.queue.len() ==> html5_email_valid(#[trigger] s.queue[i])
    &&& s.stage == PublishStage::Delivering ==> html5_email_valid(s.current)
}

/// The recipients all pass e-mail validation.
pub proof fn lemma_deliverable_valid(rows: Seq<Seq<char>>)
    ensures
        forall|i: int|
            0 <= i < deliverable(rows).len() ==> html5_email_valid(#[trigger] deliverable(rows)[i]),
    decreases rows.len(),
{
    if rows.len() > 0 {
        lemma_deliverable_valid(rows.drop_first());
        let rest = deliverable(rows.drop_first());
        if html5_email_valid(rows[0]) {
            assert forall|i: int|
                0 <= i < deliverable(rows).len() implies html5_email_valid(
                #[trigger] deliverable(rows)[i],
            ) by {
                if i > 0 {
                    assert(deliverable(rows)[i] == rest[i - 1]);
                }
            }
        }
    }
}

/// Every step keeps all held addresses valid, and the newsletter is only
/// ever sent to an address that passes e-mail validation.
pub proof fn lemma_publication_sends_only_valid_addresses(s: PublishFlowView, e: PublishEventView)
    requires
        publish_addresses_valid(s),
    ensures
        publish_addresses_valid(publish_step(s, e).0),
        publish_step(s, e).1 matches PublishActionView::Send(a) ==> html5_email_valid(a),
{
    match e {
        PublishEventView::SubscribersLoaded(Ok(rows)) => {
            lemma_deliverable_valid(rows);
            let d = deliverable(rows);
            if d.len() > 0 {
                assert(html5_email_valid(d[0]));
                assert forall|i: int| 0 <= i < d.drop_first().len() implies html5_email_valid(
                    #[trigger] d.drop_first()[i],
                ) by {
                    assert(d.drop_first()[i] == d[i + 1]);
                }
            }
        },
        PublishEventView::Delivered(Ok(_)) => {
            let q = s.queue;
            if q.len() > 0 {
                assert(html5_email_valid(q[0]));
                assert forall|i: int| 0 <= i < q.drop_first().len() implies html5_email_valid(
                    #[trigger] q.drop_first()[i],
                ) by {
                    assert(q.drop_first()[i] == q[i + 1]);
                }
            }
        },
        _ => {},
    }
}

/// A request without usable Basic credentials is answered
/// `401 Unauthorized` at once, before any user lookup.
pub proof fn lemma_refused_credentials_are_unauthorized(s: PublishFlowView, header: Option<Seq<u8>>)
    requires
        auth_failure(header) is Some,
    ensures
        publish_step(s, PublishEventView::Requested(header)).0 == publish_finished(),
        publish_step(s, PublishEventView::Requested(header)).1 matches PublishActionView::Finish(
            Err(e),
        ) && publish_error_status(e) == 401,
{
}

/// Credentials that match no user are answered `401 Unauthorized`; a
/// failed lookup is answered `500 Internal Server Error`; neither loads any
/// subscriber.
pub proof fn lemma_failed_lookups_end_the_publication(
    s: PublishFlowView,
    lookup: Result<Option<u128>, Seq<char>>,
)
    requires
        !(lookup matches Ok(Some(_))),
    ensures
        publish_step(s, PublishEventView::UserLookedUp(lookup)).0 == publish_finished(),
        publish_step(s, PublishEventView::UserLookedUp(lookup)).1 matches PublishActionView::Finish(
            Err(e),
        ) && publish_error_status(e) == (if lookup is Ok { 401u16 } else { 500u16 }),
{
}

/// The recipients are exactly the stored addresses that pass e-mail
/// validation, each once, in their stored order: the publication serves
/// every confirmed subscriber whose address validates, and no one else.
pub proof fn lemma_recipients_are_the_valid_rows_in_order(rows: Seq<Seq<char>>)
    ensures
        deliverable(rows) == rows.filter(|a: Seq<char>| html5_email_valid(a)),
        deliverable(rows).len() == rows.filter(|a: Seq<char>| html5_email_valid(a)).len(),
        forall|i: int|
            0 <= i < rows.len() && html5_email_valid(rows[i]) ==> deliverable(rows).contains(
                #[trigger] rows[i],
            ),
    decreases rows.len(),
{
    let pred = |a: Seq<char>| html5_email_valid(a);
    if rows.len() > 0 {
        lemma_recipients_are_the_valid_rows_in_order(rows.drop_first());
        rows.drop_first().lemma_filter_prepend(rows[0], pred);
        assert(rows =~= seq![rows[0]] + rows.drop_first());
    } else {
        assert(rows.filter(pred) =~= Seq::<Seq<char>>::empty());
    }
    assert forall|i: int|
        0 <= i < rows.len() && html5_email_valid(rows[i]) implies deliverable(rows).contains(
        #[trigger] rows[i],
    ) by {
        rows.lemma_filter_contains(pred, i);
    }
}

/// A header is accepted exactly when it is visible ASCII, starts with
/// `Basic `, and what follows decodes as standard Base64 into UTF-8 text
/// that holds a colon; in particular a header is refused as not Base64 only
/// when its payload does not decode.
pub proof fn lemma_basic_header_acceptance(h: Seq<u8>)
    ensures
        auth_failure(Some(h)) is None <==> {
            &&& forall|i: int| 0 <= i < h.len() ==> ((32 <= #[trigger] h[i] && h[i] < 127) || h[i] == 9)
            &&& h.len() >= 6
            &&& h[0] == 66u8 && h[1] == 97u8 && h[2] == 115u8 && h[3] == 105u8 && h[4] == 99u8 && h[5] == 32u8
            &&& base64_standard_decoding(h.skip(6)) matches Some(d) && valid_utf8(d) && decode_utf8(d).contains(':')
        },
        auth_failure(Some(h)) == Some(AuthFailure::NotBase64) ==> base64_standard_decoding(h.skip(6)) is None,
{
    if h.len() >= 6 {
        if h.take(6) == basic_scheme_prefix() {
            assert(h.take(6)[0] == h[0]);
            assert(h.take(6)[1] == h[1]);
            assert(h.take(6)[2] == h[2]);
            assert(h.take(6)[3] == h[3]);
            assert(h.take(6)[4] == h[4]);
            assert(h.take(6)[5] == h[5]);
        }
        if h[0] == 66u8 && h[1] == 97u8 && h[2] == 115u8 && h[3] == 105u8 && h[4] == 99u8 && h[5] == 32u8 {
            assert(h.take(6) =~= basic_scheme_prefix());
        }
    }
}

/// Whenever the Base64 payload of a well-formed `Basic ` header decodes to
/// the UTF-8 encoding of `user:password`, where the user holds no colon,
/// the header is accepted and yields exactly that user and password,
/// whatever the password holds.
pub proof fn lemma_encoded_credentials_are_read_back(h: Seq<u8>, user: Seq<char>, password: Seq<char>)
    requires
        forall|i: int| 0 <= i < h.len() ==> ((32 <= #[trigger] h[i] && h[i] < 127) || h[i] == 9),
        h.len() >= 6,
        h[0] == 66u8 && h[1] == 97u8 && h[2] == 115u8 && h[3] == 105u8 && h[4] == 99u8 && h[5] == 32u8,
        base64_standard_decoding(h.skip(6)) == Some(encode_utf8(user + seq![':'] + password)),
        !user.contains(':'),
    ensures
        auth_failure(Some(h)) is None,
        credentials_of(credential_text(h)) == (user, password),
{
    let text = user + seq![':'] + password;
    encode_utf8_valid_utf8(text);
    encode_utf8_decode_utf8(text);
    assert(text[user.len() as int] == ':');
    lemma_basic_header_acceptance(h);
    assert(splits_at_first_colon(text, user, password));
    let (u, p) = credentials_of(text);
    lemma_first_colon_split_unique(text, user, password, u, p);
}

/// The lookup decision: a found user id is passed on unchanged, no user is
/// an authentication failure, a failed query an unexpected failure.
pub proof fn lemma_lookup_outcomes(id: u128, e: Seq<char>)
    ensures
        credentials_outcome(Ok(Some(id))) == Ok::<u128, PublishErrorView>(id),
        credentials_outcome(Ok(None)) matches Err(PublishErrorView::AuthError(_)),
        credentials_outcome(Err(e)) matches Err(PublishErrorView::UnexpectedError(_)),
{
}

} // verus!
