//! The authentication guard.
//!
//! Every protected request passes the guard before its handler runs. The guard
//! reads the `Authorization` header, verifies the token it carries, and asks
//! the store whether the account the token speaks for still exists: a token
//! may outlive its account. Only then is the request admitted, with the
//! identity it acts under. The guard itself performs no I/O: it is a machine
//! that is fed events and answers with the next thing to do.

use crate::schema::{
    ApiResponse, Envelope, STATUS_CONFLICT, STATUS_INTERNAL_SERVER_ERROR, STATUS_UNAUTHORIZED,
};
use crate::utils::helper::{AccountLookup, AccountLookupView};
use crate::utils::jwt::{jwt_decoding, text_of, verification, verify_at, JwtPayload, Subject};
use crate::utils::text::chars_of;
use vstd::prelude::*;

verus! {

/// The token that an `Authorization` header carries: the header has to start
/// with `Bearer `, and the token is everything that follows these seven
/// characters. A header that repeats the prefix carries a text that begins
/// with `Bearer `, which is no token.
pub open spec fn bearer_token_of(header: Option<Seq<char>>) -> Option<Seq<char>> {
    match header {
        Some(h) => if "Bearer "@.is_prefix_of(h) {
            Some(h.skip(7))
        } else {
            None
        },
        None => None,
    }
}

/// Whether `text` starts with `prefix`.
fn begins_with(text: &Vec<char>, prefix: &Vec<char>) -> (r: bool)
    ensures
        r == prefix@.is_prefix_of(text@),
{
    let n = prefix.len();
    if text.len() < n {
        return false;
    }
    let mut j: usize = 0;
    while j < n
        invariant
            j <= n,
            n == prefix@.len(),
            n <= text.len(),
            forall|k: int| 0 <= k < j ==> text@[k] == prefix@[k],
        decreases n - j,
    {
        if text[j] != prefix[j] {
            return false;
        }
        j = j + 1;
    }
    true
}

/// The token that an `Authorization` header carries, if it carries one.
pub fn bearer_token(header: Option<&str>) -> (token: Option<String>)
    ensures
        text_of(token) == bearer_token_of(
            match header {
                Some(h) => Some(h@),
                None => None,
            },
        ),
{
    match header {
        Some(h) => {
            proof {
                reveal_strlit("Bearer ");
            }
            let chars = chars_of(h);
            let wanted = chars_of("Bearer ");
            if begins_with(&chars, &wanted) {
                Some(h.substring_char(7, chars.len()).to_owned())
            } else {
                None
            }
        },
        None => None,
    }
}

/// The token of a header is what follows one prefix, whatever it is: the
/// header `Bearer ` followed by a text carries exactly that text.
pub proof fn token_follows_one_prefix(text: Seq<char>)
    ensures
        bearer_token_of(Some("Bearer "@ + text)) == Some(text),
{
    reveal_strlit("Bearer ");
    let header = "Bearer "@ + text;
    assert(header.subrange(0, 7) =~= "Bearer "@);
    assert(header.skip(7) =~= text);
}

/// Why the guard turns a request away.
#[derive(Debug, Clone, PartialEq, Eq)]
pub enum AuthError {
    /// No `Authorization` header, or one that does not start with `Bearer `.
    MissingCredential,
    /// The token is malformed, was not signed by this service, or has
    /// expired; with the reason.
    InvalidToken(String),
    /// The token is good, but the account it speaks for is gone.
    PrincipalNotFound,
    /// The store failed while the account was looked up; with its words.
    StorageError(String),
}

/// The mathematical value of an `AuthError`.
pub enum AuthErrorView {
    MissingCredential,
    InvalidToken(Seq<char>),
    PrincipalNotFound,
    StorageError(Seq<char>),
}

impl View for AuthError {
    type V = AuthErrorView;

    open spec fn view(&self) -> AuthErrorView {
        match self {
            AuthError::MissingCredential => AuthErrorView::MissingCredential,
            AuthError::InvalidToken(reason) => AuthErrorView::InvalidToken(reason@),
            AuthError::PrincipalNotFound => AuthErrorView::PrincipalNotFound,
            AuthError::StorageError(reason) => AuthErrorView::StorageError(reason@),
        }
    }
}

impl AuthErrorView {
    /// The status a refusal is answered with.
    pub open spec fn status(self) -> u16 {
        match self {
            AuthErrorView::MissingCredential => STATUS_UNAUTHORIZED,
            AuthErrorView::InvalidToken(_) => STATUS_UNAUTHORIZED,
            AuthErrorView::PrincipalNotFound => STATUS_CONFLICT,
            AuthErrorView::StorageError(_) => STATUS_INTERNAL_SERVER_ERROR,
        }
    }

    /// The message a refusal is answered with.
    pub open spec fn message(self) -> Seq<char> {
        match self {
            AuthErrorView::MissingCredential => "Auth token missing"@,
            AuthErrorView::InvalidToken(reason) => reason,
            AuthErrorView::PrincipalNotFound => "User doesn't exits"@,
            AuthErrorView::StorageError(reason) => reason,
        }
    }

    /// The envelope a refusal is answered with.
    pub open spec fn envelope(self) -> Envelope<serde_json::Value> {
        Envelope::of_error(self.message(), self.status())
    }
}

impl AuthError {
    /// The envelope this refusal is answered with.
    pub fn into_response(self) -> (r: ApiResponse<serde_json::Value>)
        ensures
            r@ == self@.envelope(),
            !r.success,
    {
        match self {
            AuthError::MissingCredential => ApiResponse::error(
                "Auth token missing",
                STATUS_UNAUTHORIZED,
            ),
            AuthError::InvalidToken(reason) => ApiResponse::error(
                reason.as_str(),
                STATUS_UNAUTHORIZED,
            ),
            AuthError::PrincipalNotFound => ApiResponse::error(
                "User doesn't exits",
                STATUS_CONFLICT,
            ),
            AuthError::StorageError(reason) => ApiResponse::error(
                reason.as_str(),
                STATUS_INTERNAL_SERVER_ERROR,
            ),
        }
    }
}

/// Where the guard stands with one request.
#[derive(Debug, Clone, PartialEq, Eq)]
pub enum GuardState {
    /// The request has not been looked at.
    Waiting,
    /// The token was good; the store has been asked for the account.
    Resolving(JwtPayload),
    /// The request was admitted or turned away.
    Closed,
}

/// What the guard is told.
#[derive(Debug, Clone, PartialEq, Eq)]
pub enum GuardEvent {
    /// A request came in, with the text of its `Authorization` header if it
    /// has one that is text.
    Request(Option<String>),
    /// The store answered the question for the account.
    Account(AccountLookup),
}

/// What the guard wants done next.
#[derive(Debug, Clone, PartialEq, Eq)]
pub enum GuardAction {
    /// Ask the store for the account with this identifier.
    FindAccount(u128),
    /// Run the handler, under this identity.
    Admit(JwtPayload),
    /// Answer with this refusal; the handler does not run.
    Reject(AuthError),
}

/// The mathematical value of a `GuardState`.
pub enum GuardStateView {
    Waiting,
    Resolving(Subject),
    Closed,
}

/// The mathematical value of a `GuardEvent`.
pub enum GuardEventView {
    Request(Option<Seq<char>>),
    Account(AccountLookupView),
}

/// The mathematical value of a `GuardAction`.
pub enum GuardActionView {
    FindAccount(u128),
    Admit(Subject),
    Reject(AuthErrorView),
}

impl View for GuardState {
    type V = GuardStateView;

    open spec fn view(&self) -> GuardStateView {
        match self {
            GuardState::Waiting => GuardStateView::Waiting,
            GuardState::Resolving(identity) => GuardStateView::Resolving(identity@),
            GuardState::Closed => GuardStateView::Closed,
        }
    }
}

impl View for GuardEvent {
    type V = GuardEventView;

    open spec fn view(&self) -> GuardEventView {
        match self {
            GuardEvent::Request(header) => GuardEventView::Request(text_of(*header)),
            GuardEvent::Account(lookup) => GuardEventView::Account(lookup@),
        }
    }
}

impl View for GuardAction {
    type V = GuardActionView;

    open spec fn view(&self) -> GuardActionView {
        match self {
            GuardAction::FindAccount(id) => GuardActionView::FindAccount(*id),
            GuardAction::Admit(identity) => GuardActionView::Admit(identity@),
            GuardAction::Reject(refusal) => GuardActionView::Reject(refusal@),
        }
    }
}

/// One step of the guard: the state it moves to and what it wants done, from
/// the state it is in and what it is told, under the service's secret at the
/// second `now`.
///
/// A waiting guard that is shown a request turns it away unless its header
/// carries a token that verifies; for one that does, it asks for the
/// account. A resolving guard admits the request once the account is found,
/// and turns it away where there is none or the store failed. A guard told
/// anything else, and a closed guard whatever it is told, turns the request
/// away.
pub open spec fn guard_step(
    state: GuardStateView,
    event: GuardEventView,
    secret: Seq<char>,
    now: u64,
) -> (GuardStateView, GuardActionView) {
    match (state, event) {
        (GuardStateView::Waiting, GuardEventView::Request(header)) => match bearer_token_of(
            header,
        ) {
            None => (
                GuardStateView::Closed,
                GuardActionView::Reject(AuthErrorView::MissingCredential),
            ),
            Some(token) => match verification(jwt_decoding(token, secret), now) {
                Err(reason) => (
                    GuardStateView::Closed,
                    GuardActionView::Reject(AuthErrorView::InvalidToken(reason)),
                ),
                Ok(identity) => (
                    GuardStateView::Resolving(identity),
                    GuardActionView::FindAccount(identity.user_id),
                ),
            },
        },
        (GuardStateView::Resolving(identity), GuardEventView::Account(lookup)) => match lookup {
            AccountLookupView::Found => (GuardStateView::Closed, GuardActionView::Admit(identity)),
            AccountLookupView::Missing => (
                GuardStateView::Closed,
                GuardActionView::Reject(AuthErrorView::PrincipalNotFound),
            ),
            AccountLookupView::Failed(reason) => (
                GuardStateView::Closed,
                GuardActionView::Reject(AuthErrorView::StorageError(reason)),
            ),
        },
        _ => (
            GuardStateView::Closed,
            GuardActionView::Reject(AuthErrorView::StorageError("Authentication out of order"@)),
        ),
    }
}

/// One step of the guard.
pub fn require_auth(state: GuardState, event: GuardEvent, secret: &str, now: u64) -> (next: (
    GuardState,
    GuardAction,
))
    ensures
        (next.0@, next.1@) == guard_step(state@, event@, secret@, now),
{
    match (state, event) {
        (GuardState::Waiting, GuardEvent::Request(header)) => {
            let token = match &header {
                Some(h) => bearer_token(Some(h.as_str())),
                None => bearer_token(None),
            };
            match token {
                None => (GuardState::Closed, GuardAction::Reject(AuthError::MissingCredential)),
                Some(token) => match verify_at(token.as_str(), secret, now) {
                    Err(reason) => (
                        GuardState::Closed,
                        GuardAction::Reject(AuthError::InvalidToken(reason)),
                    ),
                    Ok(identity) => {
                        let id = identity.user_id;
                        (GuardState::Resolving(identity), GuardAction::FindAccount(id))
                    },
                },
            }
        },
        (GuardState::Resolving(identity), GuardEvent::Account(lookup)) => match lookup {
            AccountLookup::Found => (GuardState::Closed, GuardAction::Admit(identity)),
            AccountLookup::Missing => (
                GuardState::Closed,
                GuardAction::Reject(AuthError::PrincipalNotFound),
            ),
            AccountLookup::Failed(reason) => (
                GuardState::Closed,
                GuardAction::Reject(AuthError::StorageError(reason)),
            ),
        },
        _ => (
            GuardState::Closed,
            GuardAction::Reject(
                AuthError::StorageError("Authentication out of order".to_owned()),
            ),
        ),
    }
}

/// The actions of a guard that starts in `state` and is told `events` one
/// after the other.
pub open spec fn guard_run(
    state: GuardStateView,
    events: Seq<GuardEventView>,
    secret: Seq<char>,
    now: u64,
) -> Seq<GuardActionView>
    decreases events.len(),
{
    if events.len() == 0 {
        Seq::empty()
    } else {
        let (next, action) = guard_step(state, events[0], secret, now);
        seq![action] + guard_run(next, events.skip(1), secret, now)
    }
}

/// A request is judged by what follows the one prefix of its header: where
/// that text verifies, the guard asks for the account; where it does not,
/// the guard answers with status 401. So a header that repeats the prefix
/// is judged by a text that begins with `Bearer `.
pub proof fn request_is_judged_by_its_token(text: Seq<char>, secret: Seq<char>, now: u64)
    ensures
        guard_step(
            GuardStateView::Waiting,
            GuardEventView::Request(Some("Bearer "@ + text)),
            secret,
            now,
        ) == (match verification(jwt_decoding(text, secret), now) {
            Err(reason) => (
                GuardStateView::Closed,
                GuardActionView::Reject(AuthErrorView::InvalidToken(reason)),
            ),
            Ok(identity) => (
                GuardStateView::Resolving(identity),
                GuardActionView::FindAccount(identity.user_id),
            ),
        }),
        AuthErrorView::InvalidToken(""@).status() == 401,
{
    token_follows_one_prefix(text);
}

/// A closed guard stays closed: whatever it is told, it admits nothing and
/// asks the store nothing.
pub proof fn closed_guard_admits_nothing(events: Seq<GuardEventView>, secret: Seq<char>, now: u64)
    ensures
        guard_run(GuardStateView::Closed, events, secret, now).len() == events.len(),
        forall|i: int|
            0 <= i < events.len() ==> (#[trigger] guard_run(
                GuardStateView::Closed,
                events,
                secret,
                now,
            )[i]) is Reject,
    decreases events.len(),
{
    if events.len() > 0 {
        // A closed guard rejects and stays closed; the rest follows by induction.
        closed_guard_admits_nothing(events.skip(1), secret, now);
        let all = guard_run(GuardStateView::Closed, events, secret, now);
        assert forall|i: int| 0 <= i < events.len() implies (#[trigger] all[i]) is Reject by {}
    }
}

/// A request without a well-formed bearer header is answered with status
/// 401 at once, and its handler never runs: the guard turns it away at the
/// first step, and whatever the guard is told after that, it admits nothing.
pub proof fn request_without_bearer_is_rejected(
    header: Option<Seq<char>>,
    later: Seq<GuardEventView>,
    secret: Seq<char>,
    now: u64,
)
    requires
        bearer_token_of(header) is None,
    ensures
        ({
            let actions = guard_run(
                GuardStateView::Waiting,
                seq![GuardEventView::Request(header)] + later,
                secret,
                now,
            );
            &&& actions.len() == later.len() + 1
            &&& actions[0] == GuardActionView::Reject(AuthErrorView::MissingCredential)
            &&& AuthErrorView::MissingCredential.status() == 401
            &&& forall|i: int| 0 <= i < actions.len() ==> (#[trigger] actions[i]) is Reject
        }),
{
    // The first step rejects and closes the guard; what follows is the run
    // of a closed guard.
    let events = seq![GuardEventView::Request(header)] + later;
    assert(events.skip(1) =~= later);
    closed_guard_admits_nothing(later, secret, now);
    let actions = guard_run(GuardStateView::Waiting, events, secret, now);
    assert forall|i: int| 0 <= i < actions.len() implies (#[trigger] actions[i]) is Reject by {}
}

/// A request whose token does not verify is answered with status 401, and
/// its handler never runs.
pub proof fn request_with_bad_token_is_rejected(
    header: Option<Seq<char>>,
    later: Seq<GuardEventView>,
    secret: Seq<char>,
    now: u64,
)
    requires
        bearer_token_of(header) matches Some(token) && verification(
            jwt_decoding(token, secret),
            now,
        ) is Err,
    ensures
        ({
            let actions = guard_run(
                GuardStateView::Waiting,
                seq![GuardEventView::Request(header)] + later,
                secret,
                now,
            );
            &&& actions.len() == later.len() + 1
            &&& actions[0] matches GuardActionView::Reject(refusal) && refusal is InvalidToken
                && refusal.status() == 401
            &&& forall|i: int| 0 <= i < actions.len() ==> (#[trigger] actions[i]) is Reject
        }),
{
    let events = seq![GuardEventView::Request(header)] + later;
    assert(events.skip(1) =~= later);
    closed_guard_admits_nothing(later, secret, now);
    let actions = guard_run(GuardStateView::Waiting, events, secret, now);
    assert forall|i: int| 0 <= i < actions.len() implies (#[trigger] actions[i]) is Reject by {}
}

/// A request whose token verifies is admitted exactly where the store holds
/// its account: the guard asks for the account of the token's identity, and
/// then admits the request under that identity where the account is found,
/// answers with status 409 where there is none, and with status 500 where
/// the store failed.
pub proof fn verified_request_is_resolved(
    text: Seq<char>,
    identity: Subject,
    lookup: AccountLookupView,
    secret: Seq<char>,
    now: u64,
)
    requires
        verification(jwt_decoding(text, secret), now) == Ok::<Subject, Seq<char>>(identity),
    ensures
        guard_run(
            GuardStateView::Waiting,
            seq![GuardEventView::Request(Some("Bearer "@ + text)), GuardEventView::Account(lookup)],
            secret,
            now,
        ) == seq![
            GuardActionView::FindAccount(identity.user_id),
            match lookup {
                AccountLookupView::Found => GuardActionView::Admit(identity),
                AccountLookupView::Missing => GuardActionView::Reject(
                    AuthErrorView::PrincipalNotFound,
                ),
                AccountLookupView::Failed(reason) => GuardActionView::Reject(
                    AuthErrorView::StorageError(reason),
                ),
            },
        ],
        AuthErrorView::PrincipalNotFound.status() == 409,
        AuthErrorView::StorageError(""@).status() == 500,
{
    request_is_judged_by_its_token(text, secret, now);
    let events = seq![
        GuardEventView::Request(Some("Bearer "@ + text)),
        GuardEventView::Account(lookup),
    ];
    reveal_with_fuel(guard_run, 3);
    assert(events.skip(1) =~= seq![GuardEventView::Account(lookup)]);
    assert(events.skip(1).skip(1) =~= Seq::<GuardEventView>::empty());
    let actions = guard_run(GuardStateView::Waiting, events, secret, now);
    assert(actions.len() == 2);
    assert(actions =~= seq![actions[0], actions[1]]);
}

/// A guard answers each thing it is told with one action.
pub proof fn one_action_per_event(
    state: GuardStateView,
    events: Seq<GuardEventView>,
    secret: Seq<char>,
    now: u64,
)
    ensures
        guard_run(state, events, secret, now).len() == events.len(),
    decreases events.len(),
{
    if events.len() > 0 {
        let next = guard_step(state, events[0], secret, now).0;
        one_action_per_event(next, events.skip(1), secret, now);
    }
}

/// Nobody is admitted unasked. Where a guard that starts waiting admits a
/// request, it does so at its second step and under the identity of the
/// token: the first thing it was told was a request whose header carries a
/// token that verifies to that identity, and the second was that the store
/// holds the account.
pub proof fn admission_is_earned(
    events: Seq<GuardEventView>,
    secret: Seq<char>,
    now: u64,
    i: int,
)
    requires
        0 <= i < events.len(),
        guard_run(GuardStateView::Waiting, events, secret, now)[i] is Admit,
    ensures
        i == 1,
        events[0] matches GuardEventView::Request(header) && bearer_token_of(header) matches Some(
            token,
        ) && verification(jwt_decoding(token, secret), now) == Ok::<Subject, Seq<char>>(
            guard_run(GuardStateView::Waiting, events, secret, now)[i]->Admit_0,
        ),
        events[1] == GuardEventView::Account(AccountLookupView::Found),
{
    // The first step never admits. Where it closes the guard, nothing is
    // admitted later. Where it does not, the guard is resolving, its second
    // step closes it, and only that step can admit.
    let second_state = guard_step(GuardStateView::Waiting, events[0], secret, now).0;
    one_action_per_event(second_state, events.skip(1), secret, now);
    if second_state is Closed {
        closed_guard_admits_nothing(events.skip(1), secret, now);
    } else {
        let later = events.skip(1);
        let third_state = guard_step(second_state, later[0], secret, now).0;
        one_action_per_event(third_state, later.skip(1), secret, now);
        closed_guard_admits_nothing(later.skip(1), secret, now);
    }
}

} // verus!
