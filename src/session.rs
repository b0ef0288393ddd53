//! The session-token lifecycle: adopt the cached token, log in when there is
//! none, and log in once more when the server rejects the cached one.
//!
//! The decisions are a state machine: [`AuthState::step`] takes the outcome of
//! the last action (an [`AuthEvent`]) and gives the next state and the next
//! [`AuthAction`]. Whoever drives it performs each action (read the token
//! file, call the server, write the token file) and hands the outcome back.
use vstd::prelude::*;
use crate::json::{json_present_at, json_str_at, present_at, str_at};
use crate::text::opt_view;

verus! {

/// Why no accepted product listing could be had.
#[derive(Debug, Clone, Copy, PartialEq, Eq, Structural)]
pub enum AuthError {
    /// The login request failed, or its response held no token.
    LoginFailed,
    /// The fresh token could not be written to the token file.
    TokenNotSaved,
    /// The listing was refused even with a token from a fresh login.
    ListingRejected,
    /// An outcome came that the current state does not wait for.
    UnexpectedEvent,
}

/// Where a session stands.
pub enum AuthState {
    /// Nothing done yet: the cached token is to be loaded.
    Start,
    /// A login request is out.
    LoggingIn,
    /// A token from a fresh login is being written to the token file.
    Saving { token: String },
    /// A listing request is out with `token`; `fresh` when the token came from
    /// a login of this session rather than from the token file.
    Fetching { token: String, fresh: bool },
    /// The server accepted `token` and answered with `listing`.
    Ready { token: String, listing: String },
    /// The session cannot go on.
    Failed { error: AuthError },
}

/// The outcome of an action.
pub enum AuthEvent {
    /// The token file was read: its content, or `None` when there is none.
    TokenLoaded { token: Option<String> },
    /// The login request came back with `body`, or failed (`None`).
    LoginReplied { body: Option<String> },
    /// The token file was written (`true`) or could not be (`false`).
    TokenSaved { ok: bool },
    /// The listing request came back with a success status and `body`, or
    /// failed (`None`: no connection, or a status other than success).
    ListingReplied { body: Option<String> },
}

/// What the driver is to do next.
pub enum AuthAction {
    /// Read the token file.
    LoadToken,
    /// Send the credentials to the login endpoint.
    Login,
    /// Write `token` to the token file.
    SaveToken { token: String },
    /// Ask for the product listing, authorised by `token`.
    FetchListing { token: String },
    /// The listing is in: go on with the command.
    Proceed,
    /// Stop with `error`.
    Abort { error: AuthError },
}

/// The mathematical value of an [`AuthState`].
pub enum StateView {
    Start,
    LoggingIn,
    Saving(Seq<char>),
    Fetching(Seq<char>, bool),
    Ready(Seq<char>, Seq<char>),
    Failed(AuthError),
}

/// The mathematical value of an [`AuthEvent`].
pub enum EventView {
    TokenLoaded(Option<Seq<char>>),
    LoginReplied(Option<Seq<char>>),
    TokenSaved(bool),
    ListingReplied(Option<Seq<char>>),
}

/// The mathematical value of an [`AuthAction`].
pub enum ActionView {
    LoadToken,
    Login,
    SaveToken(Seq<char>),
    FetchListing(Seq<char>),
    Proceed,
    Abort(AuthError),
}

impl View for AuthState {
    type V = StateView;

    open spec fn view(&self) -> StateView {
        match self {
            AuthState::Start => StateView::Start,
            AuthState::LoggingIn => StateView::LoggingIn,
            AuthState::Saving { token } => StateView::Saving(token@),
            AuthState::Fetching { token, fresh } => StateView::Fetching(token@, *fresh),
            AuthState::Ready { token, listing } => StateView::Ready(token@, listing@),
            AuthState::Failed { error } => StateView::Failed(*error),
        }
    }
}

impl View for AuthEvent {
    type V = EventView;

    open spec fn view(&self) -> EventView {
        match self {
            AuthEvent::TokenLoaded { token } => EventView::TokenLoaded(opt_view(*token)),
            AuthEvent::LoginReplied { body } => EventView::LoginReplied(opt_view(*body)),
            AuthEvent::TokenSaved { ok } => EventView::TokenSaved(*ok),
            AuthEvent::ListingReplied { body } => EventView::ListingReplied(opt_view(*body)),
        }
    }
}

impl View for AuthAction {
    type V = ActionView;

    open spec fn view(&self) -> ActionView {
        match self {
            AuthAction::LoadToken => ActionView::LoadToken,
            AuthAction::Login => ActionView::Login,
            AuthAction::SaveToken { token } => ActionView::SaveToken(token@),
            AuthAction::FetchListing { token } => ActionView::FetchListing(token@),
            AuthAction::Proceed => ActionView::Proceed,
            AuthAction::Abort { error } => ActionView::Abort(*error),
        }
    }
}

/// The pointer to the token in a login response.
pub open spec fn token_pointer() -> Seq<char> {
    seq!['/', 't', 'o', 'k', 'e', 'n']
}

/// The pointer to the error field of a refused listing.
pub open spec fn error_pointer() -> Seq<char> {
    seq!['/', 'e', 'r', 'r', 'o', 'r']
}

/// The token that a login response carries, if any.
pub open spec fn login_token(body: Option<Seq<char>>) -> Option<Seq<char>> {
    match body {
        Some(b) => json_str_at(b, token_pointer()),
        None => None,
    }
}

/// Whether a listing response counts as a refusal of the token: the request
/// failed, or the body is an object with an `error` field.
pub open spec fn listing_refused(body: Option<Seq<char>>) -> bool {
    match body {
        Some(b) => json_present_at(b, error_pointer()),
        None => true,
    }
}

/// One transition: the state and the action that follow `s` on event `e`.
pub open spec fn step_view(s: StateView, e: EventView) -> (StateView, ActionView) {
    match (s, e) {
        (StateView::Start, EventView::TokenLoaded(Some(t))) => (
            StateView::Fetching(t, false),
            ActionView::FetchListing(t),
        ),
        (StateView::Start, EventView::TokenLoaded(None)) => (
            StateView::LoggingIn,
            ActionView::Login,
        ),
        (StateView::LoggingIn, EventView::LoginReplied(body)) => match login_token(body) {
            Some(t) => (StateView::Saving(t), ActionView::SaveToken(t)),
            None => (
                StateView::Failed(AuthError::LoginFailed),
                ActionView::Abort(AuthError::LoginFailed),
            ),
        },
        (StateView::Saving(t), EventView::TokenSaved(ok)) => if ok {
            (StateView::Fetching(t, true), ActionView::FetchListing(t))
        } else {
            (
                StateView::Failed(AuthError::TokenNotSaved),
                ActionView::Abort(AuthError::TokenNotSaved),
            )
        },
        (StateView::Fetching(t, fresh), EventView::ListingReplied(body)) => if !listing_refused(
            body,
        ) {
            (StateView::Ready(t, body->0), ActionView::Proceed)
        } else if !fresh {
            (StateView::LoggingIn, ActionView::Login)
        } else {
            (
                StateView::Failed(AuthError::ListingRejected),
                ActionView::Abort(AuthError::ListingRejected),
            )
        },
        _ => (
            StateView::Failed(AuthError::UnexpectedEvent),
            ActionView::Abort(AuthError::UnexpectedEvent),
        ),
    }
}

/// The state reached from `s` through `events`, and the actions given on the
/// way, one for each event.
pub open spec fn run(s: StateView, events: Seq<EventView>) -> (StateView, Seq<ActionView>)
    decreases events.len(),
{
    if events.len() == 0 {
        (s, Seq::empty())
    } else {
        let (next, a) = step_view(s, events[0]);
        let (last, rest) = run(next, events.drop_first());
        (last, seq![a] + rest)
    }
}

/// How many of `actions` are login requests.
pub open spec fn logins(actions: Seq<ActionView>) -> nat
    decreases actions.len(),
{
    if actions.len() == 0 {
        0
    } else {
        (if actions[0] is Login {
            1nat
        } else {
            0nat
        }) + logins(actions.drop_first())
    }
}

/// The states from which a login may still be asked for.
pub open spec fn may_log_in(s: StateView) -> bool {
    s is Start || s matches StateView::Fetching(_, false)
}

proof fn lemma_logins_from(s: StateView, events: Seq<EventView>)
    ensures
        logins(run(s, events).1) <= if may_log_in(s) {
            1nat
        } else {
            0nat
        },
    decreases events.len(),
{
    if events.len() > 0 {
        let (next, a) = step_view(s, events[0]);
        lemma_logins_from(next, events.drop_first());
        let acts = run(s, events).1;
        assert(acts[0] == a);
        assert(acts.drop_first() =~= run(next, events.drop_first()).1);
    }
}

/// A cached token that the server accepts: the token is used for a single
/// listing request, which succeeds, and no login is asked for.
pub proof fn law_cached_token_accepted(token: Seq<char>, listing: Seq<char>)
    requires
        !json_present_at(listing, error_pointer()),
    ensures
        run(
            StateView::Start,
            seq![EventView::TokenLoaded(Some(token)), EventView::ListingReplied(Some(listing))],
        ) == (StateView::Ready(token, listing), seq![
            ActionView::FetchListing(token),
            ActionView::Proceed,
        ]),
{
    reveal_with_fuel(run, 3);
    let evs = seq![EventView::TokenLoaded(Some(token)), EventView::ListingReplied(Some(listing))];
    assert(evs.drop_first().drop_first() =~= Seq::<EventView>::empty());
    assert(evs.drop_first() =~= seq![EventView::ListingReplied(Some(listing))]);
    assert(run(StateView::Fetching(token, false), evs.drop_first()).1 =~= seq![
        ActionView::Proceed,
    ]);
    assert(run(StateView::Start, evs).1 =~= seq![
        ActionView::FetchListing(token),
        ActionView::Proceed,
    ]);
}

/// No cached token: exactly one login, whose token is saved and then used
/// for the listing request.
pub proof fn law_absent_token_logs_in_once(reply: Seq<char>, token: Seq<char>, listing: Seq<char>)
    requires
        json_str_at(reply, token_pointer()) == Some(token),
        !json_present_at(listing, error_pointer()),
    ensures
        run(
            StateView::Start,
            seq![
                EventView::TokenLoaded(None),
                EventView::LoginReplied(Some(reply)),
                EventView::TokenSaved(true),
                EventView::ListingReplied(Some(listing)),
            ],
        ) == (StateView::Ready(token, listing), seq![
            ActionView::Login,
            ActionView::SaveToken(token),
            ActionView::FetchListing(token),
            ActionView::Proceed,
        ]),
{
    reveal_with_fuel(run, 5);
    let e3 = seq![EventView::ListingReplied(Some(listing))];
    let e2 = seq![EventView::TokenSaved(true)] + e3;
    let e1 = seq![EventView::LoginReplied(Some(reply))] + e2;
    let e0 = seq![EventView::TokenLoaded(None)] + e1;
    assert(e3.drop_first() =~= Seq::<EventView>::empty());
    assert(e2.drop_first() =~= e3);
    assert(e1.drop_first() =~= e2);
    assert(e0.drop_first() =~= e1);
    assert(run(StateView::Fetching(token, true), e3).1 =~= seq![ActionView::Proceed]);
    assert(run(StateView::Saving(token), e2).1 =~= seq![
        ActionView::FetchListing(token),
        ActionView::Proceed,
    ]);
    assert(run(StateView::LoggingIn, e1).1 =~= seq![
        ActionView::SaveToken(token),
        ActionView::FetchListing(token),
        ActionView::Proceed,
    ]);
    assert(run(StateView::Start, e0).1 =~= seq![
        ActionView::Login,
        ActionView::SaveToken(token),
        ActionView::FetchListing(token),
        ActionView::Proceed,
    ]);
    assert(e0 =~= seq![
        EventView::TokenLoaded(None),
        EventView::LoginReplied(Some(reply)),
        EventView::TokenSaved(true),
        EventView::ListingReplied(Some(listing)),
    ]);
}

/// A cached token that the server refuses: exactly one login, whose token is
/// saved and used for a second and last listing request.
pub proof fn law_rejected_token_logs_in_once(
    cached: Seq<char>,
    refusal: Option<Seq<char>>,
    reply: Seq<char>,
    token: Seq<char>,
    listing: Seq<char>,
)
    requires
        listing_refused(refusal),
        json_str_at(reply, token_pointer()) == Some(token),
        !json_present_at(listing, error_pointer()),
    ensures
        run(
            StateView::Start,
            seq![
                EventView::TokenLoaded(Some(cached)),
                EventView::ListingReplied(refusal),
                EventView::LoginReplied(Some(reply)),
                EventView::TokenSaved(true),
                EventView::ListingReplied(Some(listing)),
            ],
        ) == (StateView::Ready(token, listing), seq![
            ActionView::FetchListing(cached),
            ActionView::Login,
            ActionView::SaveToken(token),
            ActionView::FetchListing(token),
            ActionView::Proceed,
        ]),
{
    reveal_with_fuel(run, 6);
    let e4 = seq![EventView::ListingReplied(Some(listing))];
    let e3 = seq![EventView::TokenSaved(true)] + e4;
    let e2 = seq![EventView::LoginReplied(Some(reply))] + e3;
    let e1 = seq![EventView::ListingReplied(refusal)] + e2;
    let e0 = seq![EventView::TokenLoaded(Some(cached))] + e1;
    assert(e4.drop_first() =~= Seq::<EventView>::empty());
    assert(e3.drop_first() =~= e4);
    assert(e2.drop_first() =~= e3);
    assert(e1.drop_first() =~= e2);
    assert(e0.drop_first() =~= e1);
    assert(run(StateView::Fetching(token, true), e4).1 =~= seq![ActionView::Proceed]);
    assert(run(StateView::Saving(token), e3).1 =~= seq![
        ActionView::FetchListing(token),
        ActionView::Proceed,
    ]);
    assert(run(StateView::LoggingIn, e2).1 =~= seq![
        ActionView::SaveToken(token),
        ActionView::FetchListing(token),
        ActionView::Proceed,
    ]);
    assert(run(StateView::Fetching(cached, false), e1).1 =~= seq![
        ActionView::Login,
        ActionView::SaveToken(token),
        ActionView::FetchListing(token),
        ActionView::Proceed,
    ]);
    assert(run(StateView::Start, e0).1 =~= seq![
        ActionView::FetchListing(cached),
        ActionView::Login,
        ActionView::SaveToken(token),
        ActionView::FetchListing(token),
        ActionView::Proceed,
    ]);
    assert(e0 =~= seq![
        EventView::TokenLoaded(Some(cached)),
        EventView::ListingReplied(refusal),
        EventView::LoginReplied(Some(reply)),
        EventView::TokenSaved(true),
        EventView::ListingReplied(Some(listing)),
    ]);
}

/// Whatever the outcomes, a session asks for at most one login: a token
/// refused after a fresh login ends the session instead of another retry.
pub proof fn law_at_most_one_login(events: Seq<EventView>)
    ensures
        logins(run(StateView::Start, events).1) <= 1,
{
    lemma_logins_from(StateView::Start, events);
}

impl AuthState {
    /// A new session and its first action: load the cached token.
    pub fn begin() -> (r: (AuthState, AuthAction))
        ensures
            r.0@ == StateView::Start,
            r.1@ == ActionView::LoadToken,
    {
        (AuthState::Start, AuthAction::LoadToken)
    }

    /// The state and action that follow this state on `event`.
    pub fn step(self, event: AuthEvent) -> (r: (AuthState, AuthAction))
        ensures
            (r.0@, r.1@) == step_view(self@, event@),
    {
        proof {
            reveal_strlit("/token");
            reveal_strlit("/error");
            assert("/token"@ =~= token_pointer());
            assert("/error"@ =~= error_pointer());
        }
        let fail = AuthError::UnexpectedEvent;
        match self {
            AuthState::Start => match event {
                AuthEvent::TokenLoaded { token: Some(t) } => {
                    let t2 = t.clone();
                    (AuthState::Fetching { token: t, fresh: false }, AuthAction::FetchListing { token: t2 })
                },
                AuthEvent::TokenLoaded { token: None } => (AuthState::LoggingIn, AuthAction::Login),
                _ => (AuthState::Failed { error: fail }, AuthAction::Abort { error: fail }),
            },
            AuthState::LoggingIn => match event {
                AuthEvent::LoginReplied { body } => {
                    let token = match &body {
                        Some(b) => str_at(b.as_str(), "/token"),
                        None => None,
                    };
                    match token {
                        Some(t) => {
                            let t2 = t.clone();
                            (AuthState::Saving { token: t }, AuthAction::SaveToken { token: t2 })
                        },
                        None => {
                            let e = AuthError::LoginFailed;
                            (AuthState::Failed { error: e }, AuthAction::Abort { error: e })
                        },
                    }
                },
                _ => (AuthState::Failed { error: fail }, AuthAction::Abort { error: fail }),
            },
            AuthState::Saving { token } => match event {
                AuthEvent::TokenSaved { ok } => {
                    if ok {
                        let t2 = token.clone();
                        (AuthState::Fetching { token, fresh: true }, AuthAction::FetchListing { token: t2 })
                    } else {
                        let e = AuthError::TokenNotSaved;
                        (AuthState::Failed { error: e }, AuthAction::Abort { error: e })
                    }
                },
                _ => (AuthState::Failed { error: fail }, AuthAction::Abort { error: fail }),
            },
            AuthState::Fetching { token, fresh } => match event {
                AuthEvent::ListingReplied { body } => {
                    match body {
                        Some(b) => {
                            if !present_at(b.as_str(), "/error") {
                                return (AuthState::Ready { token, listing: b }, AuthAction::Proceed);
                            }
                        },
                        None => {},
                    }
                    if !fresh {
                        (AuthState::LoggingIn, AuthAction::Login)
                    } else {
                        let e = AuthError::ListingRejected;
                        (AuthState::Failed { error: e }, AuthAction::Abort { error: e })
                    }
                },
                _ => (AuthState::Failed { error: fail }, AuthAction::Abort { error: fail }),
            },
            _ => (AuthState::Failed { error: fail }, AuthAction::Abort { error: fail }),
        }
    }
}

} // verus!
