//! The session resolver: which session a request runs in.
//!
//! The resolver decides; the caller talks to storage. It is a machine that
//! takes what happened as an event and answers with what to do next:
//!
//! ```text
//! Start --Request(token)--> AwaitingLookup --found----------> Resolved
//!   |                            | not found, or lookup failed
//!   +-----Request(no token)------+--> AwaitingCreate --created--> Resolved
//!                                                    \-failed---> Failed
//! ```
//!
//! A session that storage finds is used as it is found: its expiry time is not
//! consulted.

use vstd::prelude::*;
use crate::cart::CartItem;
use crate::errors::{BeedleError, StoreOperation};
use crate::session::{
    cart_from_stored,
    new_session_row,
    stored_cart,
    SessionInfo,
    SessionInfoView,
    SessionRow,
    SessionRowView,
};

verus! {

/// What a request tells of its client. Kept for the record; nothing is
/// decided by it.
#[derive(Clone, Debug)]
pub struct ClientMeta {
    pub ip_address: String,
    pub user_agent: String,
}

/// What a [`ClientMeta`] holds, as mathematical values.
pub struct ClientMetaView {
    pub ip_address: Seq<char>,
    pub user_agent: Seq<char>,
}

impl View for ClientMeta {
    type V = ClientMetaView;

    open spec fn view(&self) -> ClientMetaView {
        ClientMetaView { ip_address: self.ip_address@, user_agent: self.user_agent@ }
    }
}

/// Where the resolver stands.
#[derive(Debug)]
pub enum ResolverState {
    /// No request has been seen.
    Start,
    /// Storage has been asked for the session `token`.
    AwaitingLookup { token: u128, client: ClientMeta },
    /// Storage has been asked to take a new session.
    AwaitingCreate { client: ClientMeta },
    /// The session is known. Final.
    Resolved,
    /// No session could be had. Final.
    Failed,
}

/// What a [`ResolverState`] holds, as mathematical values.
pub enum ResolverStateView {
    Start,
    AwaitingLookup { token: u128, client: ClientMetaView },
    AwaitingCreate { client: ClientMetaView },
    Resolved,
    Failed,
}

impl View for ResolverState {
    type V = ResolverStateView;

    open spec fn view(&self) -> ResolverStateView {
        match self {
            ResolverState::Start => ResolverStateView::Start,
            ResolverState::AwaitingLookup { token, client } => ResolverStateView::AwaitingLookup {
                token: *token,
                client: client@,
            },
            ResolverState::AwaitingCreate { client } => ResolverStateView::AwaitingCreate {
                client: client@,
            },
            ResolverState::Resolved => ResolverStateView::Resolved,
            ResolverState::Failed => ResolverStateView::Failed,
        }
    }
}

/// What happened.
#[derive(Debug)]
pub enum ResolverEvent {
    /// A request arrived, with the session token of its cookie if it had one.
    Request { token: Option<u128>, client: ClientMeta },
    /// Storage answered the lookup, with the row or with none.
    LookupDone { found: Option<SessionRow> },
    /// Storage failed the lookup.
    LookupFailed,
    /// Storage took the new session `row`.
    CreateDone { row: SessionRow },
    /// Storage failed to take the new session.
    CreateFailed,
}

/// What a [`ResolverEvent`] holds, as mathematical values.
pub enum ResolverEventView {
    Request { token: Option<u128>, client: ClientMetaView },
    LookupDone { found: Option<SessionRowView> },
    LookupFailed,
    CreateDone { row: SessionRowView },
    CreateFailed,
}

impl View for ResolverEvent {
    type V = ResolverEventView;

    open spec fn view(&self) -> ResolverEventView {
        match self {
            ResolverEvent::Request { token, client } => ResolverEventView::Request {
                token: *token,
                client: client@,
            },
            ResolverEvent::LookupDone { found } => ResolverEventView::LookupDone {
                found: match found {
                    Some(r) => Some(r@),
                    None => None,
                },
            },
            ResolverEvent::LookupFailed => ResolverEventView::LookupFailed,
            ResolverEvent::CreateDone { row } => ResolverEventView::CreateDone { row: row@ },
            ResolverEvent::CreateFailed => ResolverEventView::CreateFailed,
        }
    }
}

/// What the caller is to do next.
#[derive(Debug)]
pub enum ResolverAction {
    /// Look the session `token` up in storage.
    FindSession { token: u128 },
    /// Build a new session record for this client and insert it.
    CreateSession { ip_address: String, user_agent: String },
    /// Go on with the request, in this session.
    Finish { session: SessionInfo },
    /// Fail the request with this error.
    Fail { error: BeedleError },
    /// Nothing: the event was not one that the resolver waits for.
    Ignore,
}

/// What a [`ResolverAction`] holds, as mathematical values.
pub enum ResolverActionView {
    FindSession { token: u128 },
    CreateSession { ip_address: Seq<char>, user_agent: Seq<char> },
    Finish { session: SessionInfoView },
    Fail { error: BeedleError },
    Ignore,
}

impl View for ResolverAction {
    type V = ResolverActionView;

    open spec fn view(&self) -> ResolverActionView {
        match self {
            ResolverAction::FindSession { token } => ResolverActionView::FindSession {
                token: *token,
            },
            ResolverAction::CreateSession {
                ip_address,
                user_agent,
            } => ResolverActionView::CreateSession {
                ip_address: ip_address@,
                user_agent: user_agent@,
            },
            ResolverAction::Finish { session } => ResolverActionView::Finish { session: session@ },
            ResolverAction::Fail { error } => ResolverActionView::Fail { error: *error },
            ResolverAction::Ignore => ResolverActionView::Ignore,
        }
    }
}

/// The session of a request that storage found the row `row` for, under the
/// token `token` that the request carried.
pub open spec fn found_session(
    token: u128,
    row: SessionRowView,
    client: ClientMetaView,
) -> SessionInfoView {
    SessionInfoView {
        session_id: token,
        was_created: false,
        user_id: row.user_id,
        cart: stored_cart(row.cart_data),
        ip_address: client.ip_address,
        user_agent: client.user_agent,
    }
}

/// The session of a request for which the row `row` was created.
pub open spec fn created_session(row: SessionRowView, client: ClientMetaView) -> SessionInfoView {
    SessionInfoView {
        session_id: row.session_id,
        was_created: true,
        user_id: row.user_id,
        cart: stored_cart(row.cart_data),
        ip_address: client.ip_address,
        user_agent: client.user_agent,
    }
}

/// The transition of the resolver that goes over to creating a session.
pub open spec fn start_create(client: ClientMetaView) -> (ResolverStateView, ResolverActionView) {
    (
        ResolverStateView::AwaitingCreate { client },
        ResolverActionView::CreateSession {
            ip_address: client.ip_address,
            user_agent: client.user_agent,
        },
    )
}

/// The resolver's transition function: the state after `event` and the
/// action that it asks for.
///
/// * A request with a token has the token looked up; one without has a
///   session created.
/// * A session that is found is used. One that is not found, or a lookup that
///   fails, has a session created instead.
/// * A created session is used. A creation that fails fails the request:
///   storage is unavailable.
/// * An event that the state does not wait for changes nothing.
pub open spec fn resolver_next(state: ResolverStateView, event: ResolverEventView) -> (
    ResolverStateView,
    ResolverActionView,
) {
    match state {
        ResolverStateView::Start => match event {
            ResolverEventView::Request { token: Some(token), client } => (
                ResolverStateView::AwaitingLookup { token, client },
                ResolverActionView::FindSession { token },
            ),
            ResolverEventView::Request { token: None, client } => start_create(client),
            _ => (state, ResolverActionView::Ignore),
        },
        ResolverStateView::AwaitingLookup { token, client } => match event {
            ResolverEventView::LookupDone { found: Some(row) } => (
                ResolverStateView::Resolved,
                ResolverActionView::Finish { session: found_session(token, row, client) },
            ),
            ResolverEventView::LookupDone { found: None } => start_create(client),
            ResolverEventView::LookupFailed => start_create(client),
            _ => (state, ResolverActionView::Ignore),
        },
        ResolverStateView::AwaitingCreate { client } => match event {
            ResolverEventView::CreateDone { row } => (
                ResolverStateView::Resolved,
                ResolverActionView::Finish { session: created_session(row, client) },
            ),
            ResolverEventView::CreateFailed => (
                ResolverStateView::Failed,
                ResolverActionView::Fail {
                    error: BeedleError::StorageUnavailable {
                        operation: StoreOperation::CreateSession,
                    },
                },
            ),
            _ => (state, ResolverActionView::Ignore),
        },
        ResolverStateView::Resolved => (state, ResolverActionView::Ignore),
        ResolverStateView::Failed => (state, ResolverActionView::Ignore),
    }
}

/// Goes over to creating a session for `client`.
fn begin_create(client: ClientMeta) -> (next: (ResolverState, ResolverAction))
    ensures
        (next.0@, next.1@) == start_create(client@),
{
    let ip_address = client.ip_address.clone();
    let user_agent = client.user_agent.clone();
    (
        ResolverState::AwaitingCreate { client },
        ResolverAction::CreateSession { ip_address, user_agent },
    )
}

/// Takes one step of the resolver: see [`resolver_next`].
pub fn resolver_step(state: ResolverState, event: ResolverEvent) -> (next: (
    ResolverState,
    ResolverAction,
))
    ensures
        (next.0@, next.1@) == resolver_next(state@, event@),
{
    match state {
        ResolverState::Start => match event {
            ResolverEvent::Request { token: Some(token), client } => (
                ResolverState::AwaitingLookup { token, client },
                ResolverAction::FindSession { token },
            ),
            ResolverEvent::Request { token: None, client } => begin_create(client),
            _ => (ResolverState::Start, ResolverAction::Ignore),
        },
        ResolverState::AwaitingLookup { token, client } => match event {
            ResolverEvent::LookupDone { found: Some(row) } => {
                let session = SessionInfo {
                    session_id: token,
                    was_created: false,
                    user_id: row.user_id,
                    cart: cart_from_stored(row.cart_data),
                    ip_address: client.ip_address,
                    user_agent: client.user_agent,
                };
                (ResolverState::Resolved, ResolverAction::Finish { session })
            },
            ResolverEvent::LookupDone { found: None } => begin_create(client),
            ResolverEvent::LookupFailed => begin_create(client),
            _ => (ResolverState::AwaitingLookup { token, client }, ResolverAction::Ignore),
        },
        ResolverState::AwaitingCreate { client } => match event {
            ResolverEvent::CreateDone { row } => {
                let session = SessionInfo {
                    session_id: row.session_id,
                    was_created: true,
                    user_id: row.user_id,
                    cart: cart_from_stored(row.cart_data),
                    ip_address: client.ip_address,
                    user_agent: client.user_agent,
                };
                (ResolverState::Resolved, ResolverAction::Finish { session })
            },
            ResolverEvent::CreateFailed => (
                ResolverState::Failed,
                ResolverAction::Fail {
                    error: BeedleError::StorageUnavailable {
                        operation: StoreOperation::CreateSession,
                    },
                },
            ),
            _ => (ResolverState::AwaitingCreate { client }, ResolverAction::Ignore),
        },
        ResolverState::Resolved => (ResolverState::Resolved, ResolverAction::Ignore),
        ResolverState::Failed => (ResolverState::Failed, ResolverAction::Ignore),
    }
}

/// A request without a session token gets a new session: once storage has
/// taken the new record, the request runs in a session that it created, with
/// the record's identifier and an empty cart.
pub proof fn law_request_without_token_creates_session(
    client: ClientMetaView,
    session_id: u128,
    now: i64,
)
    requires
        now + crate::session::SESSION_TTL_SECS <= i64::MAX,
    ensures
        ({
            let row = new_session_row(session_id, now, client.ip_address, client.user_agent);
            let first = resolver_next(
                ResolverStateView::Start,
                ResolverEventView::Request { token: None, client },
            );
            let second = resolver_next(first.0, ResolverEventView::CreateDone { row });
            &&& first.1 == ResolverActionView::CreateSession {
                ip_address: client.ip_address,
                user_agent: client.user_agent,
            }
            &&& second.0 == ResolverStateView::Resolved
            &&& second.1 matches ResolverActionView::Finish { session }
            &&& session.was_created
            &&& session.session_id == session_id
            &&& session.user_id is None
            &&& session.cart == Seq::<CartItem>::empty()
        }),
{
}

/// The resolver finishes in a session only from a lookup that found one or
/// from a creation that succeeded, and the session is marked as created in
/// the second case alone.
pub proof fn law_created_flag_tells_creation(state: ResolverStateView, event: ResolverEventView)
    ensures
        resolver_next(state, event).1 matches ResolverActionView::Finish { session } ==> {
            if session.was_created {
                state is AwaitingCreate && event is CreateDone
            } else {
                state is AwaitingLookup && event matches ResolverEventView::LookupDone {
                    found: Some(_),
                }
            }
        },
{
}

} // verus!
