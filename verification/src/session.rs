//! Session records as storage holds them, and the session as a request sees
//! it.
//!
//! Times are whole seconds since the Unix epoch. A stored cart arrives here
//! already decoded; `None` stands for a cart that storage did not hold or that
//! could not be decoded.

use vstd::prelude::*;
use vstd::string::*;
use crate::cart::CartItem;
use crate::errors::BeedleError;
use crate::token::{is_random_uuid, text_of_uuid, uuid_display, uuid_of_text, uuid_random};

verus! {

/// How long a session lives after it was created: seven days, in seconds.
pub const SESSION_TTL_SECS: i64 = 604_800;

/// The view of an optional text.
pub open spec fn opt_text(text: Option<String>) -> Option<Seq<char>> {
    match text {
        Some(t) => Some(t@),
        None => None,
    }
}

/// The view of an optional cart.
pub open spec fn opt_cart(cart: Option<Vec<CartItem>>) -> Option<Seq<CartItem>> {
    match cart {
        Some(c) => Some(c@),
        None => None,
    }
}

/// A session as storage holds it.
#[derive(Clone, Debug)]
pub struct SessionRow {
    pub session_id: u128,
    pub user_id: Option<i32>,
    pub created_at: i64,
    pub updated_at: i64,
    pub expires_at: i64,
    pub ip_address: Option<String>,
    pub user_agent: Option<String>,
    pub cart_data: Option<Vec<CartItem>>,
}

/// What a [`SessionRow`] holds, as mathematical values.
pub struct SessionRowView {
    pub session_id: u128,
    pub user_id: Option<i32>,
    pub created_at: i64,
    pub updated_at: i64,
    pub expires_at: i64,
    pub ip_address: Option<Seq<char>>,
    pub user_agent: Option<Seq<char>>,
    pub cart_data: Option<Seq<CartItem>>,
}

impl View for SessionRow {
    type V = SessionRowView;

    open spec fn view(&self) -> SessionRowView {
        SessionRowView {
            session_id: self.session_id,
            user_id: self.user_id,
            created_at: self.created_at,
            updated_at: self.updated_at,
            expires_at: self.expires_at,
            ip_address: opt_text(self.ip_address),
            user_agent: opt_text(self.user_agent),
            cart_data: opt_cart(self.cart_data),
        }
    }
}

/// The session that a request runs in.
#[derive(Clone, Debug)]
pub struct SessionInfo {
    pub session_id: u128,
    /// Whether this request created the session. The client does not know the
    /// identifier of a created session yet.
    pub was_created: bool,
    pub user_id: Option<i32>,
    pub cart: Vec<CartItem>,
    pub ip_address: String,
    pub user_agent: String,
}

/// What a [`SessionInfo`] holds, as mathematical values.
pub struct SessionInfoView {
    pub session_id: u128,
    pub was_created: bool,
    pub user_id: Option<i32>,
    pub cart: Seq<CartItem>,
    pub ip_address: Seq<char>,
    pub user_agent: Seq<char>,
}

impl View for SessionInfo {
    type V = SessionInfoView;

    open spec fn view(&self) -> SessionInfoView {
        SessionInfoView {
            session_id: self.session_id,
            was_created: self.was_created,
            user_id: self.user_id,
            cart: self.cart@,
            ip_address: self.ip_address@,
            user_agent: self.user_agent@,
        }
    }
}

/// The record of a session that begins at `now` for a client at `ip_address`
/// using `user_agent`: anonymous, with an empty cart, and expiring after
/// [`SESSION_TTL_SECS`].
pub open spec fn new_session_row(
    session_id: u128,
    now: i64,
    ip_address: Seq<char>,
    user_agent: Seq<char>,
) -> SessionRowView
    recommends
        now + SESSION_TTL_SECS <= i64::MAX,
{
    SessionRowView {
        session_id,
        user_id: None,
        created_at: now,
        updated_at: now,
        expires_at: (now + SESSION_TTL_SECS) as i64,
        ip_address: Some(ip_address),
        user_agent: Some(user_agent),
        cart_data: Some(Seq::empty()),
    }
}

/// The cart of a stored session: the stored cart, or the empty cart where
/// storage held none or held one that could not be decoded.
pub open spec fn stored_cart(cart_data: Option<Seq<CartItem>>) -> Seq<CartItem> {
    match cart_data {
        Some(cart) => cart,
        None => Seq::empty(),
    }
}

/// The sum of the quantities of all lines.
pub open spec fn total_quantity(cart: Seq<CartItem>) -> int
    decreases cart.len(),
{
    if cart.len() == 0 {
        0
    } else {
        total_quantity(cart.drop_last()) + cart.last().quantity
    }
}

/// Calls `chrono::Utc::now` and `DateTime::timestamp`: the system's clock in
/// whole seconds since the Unix epoch. Trusted: `now` builds its result with
/// `DateTime::from_timestamp`, which refuses a count of seconds whose day
/// number, counted from the year 1 as `secs.div_euclid(86_400) + 719_163`, is
/// beyond `i32::MAX`, and `timestamp` gives the same count back. Nothing else
/// is claimed of the time. (`now` panics where the clock is before the epoch.)
#[verifier::external_body]
pub(crate) fn unix_now() -> (now: i64)
    ensures
        now / 86_400 + 719_163 <= i32::MAX,
{
    chrono::Utc::now().timestamp()
}

/// Builds the record of a session that begins at `now` with the identifier
/// `session_id`.
pub fn session_record(session_id: u128, now: i64, ip_address: &str, user_agent: &str) -> (row:
    SessionRow)
    requires
        now + SESSION_TTL_SECS <= i64::MAX,
    ensures
        row@ == new_session_row(session_id, now, ip_address@, user_agent@),
{
    SessionRow {
        session_id,
        user_id: None,
        created_at: now,
        updated_at: now,
        expires_at: now + SESSION_TTL_SECS,
        ip_address: Some(String::from_str(ip_address)),
        user_agent: Some(String::from_str(user_agent)),
        cart_data: Some(Vec::new()),
    }
}

/// Builds the record of a session that begins now, under a fresh random
/// identifier. The caller inserts it into storage.
///
/// The identifier and the time differ from call to call; whatever they are,
/// the record is the one that [`new_session_row`] describes for them.
pub fn create_new_session(ip_address: &str, user_agent: &str) -> (row: SessionRow)
    ensures
        is_random_uuid(row.session_id),
        row.created_at + SESSION_TTL_SECS <= i64::MAX,
        row@ == new_session_row(row.session_id, row.created_at, ip_address@, user_agent@),
{
    let session_id = uuid_random();
    let now = unix_now();
    session_record(session_id, now, ip_address, user_agent)
}

/// The cart of a stored session: see [`stored_cart`]. A cart that could not be
/// decoded never fails a request.
pub fn cart_from_stored(cart_data: Option<Vec<CartItem>>) -> (cart: Vec<CartItem>)
    ensures
        cart@ == stored_cart(opt_cart(cart_data)),
{
    match cart_data {
        Some(cart) => cart,
        None => Vec::new(),
    }
}

/// What a write-back sends to storage: the whole cart and the time of the
/// change, for the row of one session, in one operation.
#[derive(Clone, Debug)]
pub struct SessionCartUpdate {
    pub session_id: u128,
    pub cart: Vec<CartItem>,
    pub updated_at: i64,
}

/// Prepares the write-back of `cart` for the session `session_id`, stamped
/// with the current time. The time is whatever the clock reads.
pub fn update_session_cart(session_id: u128, cart: &Vec<CartItem>) -> (update: SessionCartUpdate)
    ensures
        update.session_id == session_id,
        update.cart@ == cart@,
{
    let updated_at = unix_now();
    SessionCartUpdate { session_id, cart: cart.clone(), updated_at }
}

/// Judges a write-back by the number of rows that took it. A write that
/// reached no row means that the session row has vanished, which is reported,
/// never passed over.
pub fn confirm_session_write(session_id: u128, rows_updated: usize) -> (outcome: Result<
    (),
    BeedleError,
>)
    ensures
        outcome == if rows_updated == 0 {
            Err::<(), BeedleError>(BeedleError::SessionRowMissing { session_id })
        } else {
            Ok::<(), BeedleError>(())
        },
{
    if rows_updated == 0 {
        Err(BeedleError::SessionRowMissing { session_id })
    } else {
        Ok(())
    }
}

/// The cookie that tells a client its session.
#[derive(Clone, Debug)]
pub struct SessionCookie {
    pub name: String,
    pub value: String,
    pub path: String,
    pub http_only: bool,
    pub max_age_secs: i64,
}

/// What a [`SessionCookie`] holds, as mathematical values.
pub struct SessionCookieView {
    pub name: Seq<char>,
    pub value: Seq<char>,
    pub path: Seq<char>,
    pub http_only: bool,
    pub max_age_secs: i64,
}

impl View for SessionCookie {
    type V = SessionCookieView;

    open spec fn view(&self) -> SessionCookieView {
        SessionCookieView {
            name: self.name@,
            value: self.value@,
            path: self.path@,
            http_only: self.http_only,
            max_age_secs: self.max_age_secs,
        }
    }
}

/// The view of an optional cookie.
pub open spec fn opt_cookie(cookie: Option<SessionCookie>) -> Option<SessionCookieView> {
    match cookie {
        Some(c) => Some(c@),
        None => None,
    }
}

/// The cookie for the session `session_id`: named `session_id`, valid for the
/// whole site, hidden from scripts, and kept for as long as a session lives.
/// Its value is the identifier as UUID text.
pub open spec fn session_cookie(session_id: u128) -> SessionCookieView {
    SessionCookieView {
        name: "session_id"@,
        value: text_of_uuid(session_id),
        path: "/"@,
        http_only: true,
        max_age_secs: SESSION_TTL_SECS,
    }
}

/// The cookie that the response to a request in `session` must carry: the
/// session's cookie exactly when the request created the session.
pub open spec fn cookie_due(session: SessionInfoView) -> Option<SessionCookieView> {
    if session.was_created {
        Some(session_cookie(session.session_id))
    } else {
        None
    }
}

/// Builds the cookie for the session `session_id`: see [`session_cookie`].
/// [`crate::token::parse_session_token`] reads `session_id` back from its
/// value.
pub fn ensure_session_cookie(session_id: u128) -> (cookie: SessionCookie)
    ensures
        cookie@ == session_cookie(session_id),
        uuid_of_text(cookie.value@) == Some(session_id),
{
    SessionCookie {
        name: String::from_str("session_id"),
        value: uuid_display(session_id),
        path: String::from_str("/"),
        http_only: true,
        max_age_secs: SESSION_TTL_SECS,
    }
}

/// The cookie that the response to this request must carry: see
/// [`cookie_due`].
pub fn cookie_for(session: &SessionInfo) -> (cookie: Option<SessionCookie>)
    ensures
        opt_cookie(cookie) == cookie_due(session@),
        cookie matches Some(c) ==> uuid_of_text(c.value@) == Some(session.session_id),
{
    if session.was_created {
        Some(ensure_session_cookie(session.session_id))
    } else {
        None
    }
}

/// The number of units in the session's cart, all lines together, or `None`
/// where that number is beyond `u32`.
pub fn get_cart_item_count(session: &SessionInfo) -> (count: Option<u32>)
    ensures
        count == if total_quantity(session.cart@) <= u32::MAX {
            Some(total_quantity(session.cart@) as u32)
        } else {
            None
        },
{
    let mut total: u32 = 0;
    let mut i: usize = 0;
    while i < session.cart.len()
        invariant
            i <= session.cart.len(),
            total as int == total_quantity(session.cart@.take(i as int)),
        decreases session.cart.len() - i,
    {
        proof {
            let seen = session.cart@.take(i + 1);
            assert(seen.drop_last() == session.cart@.take(i as int));
            lemma_total_quantity_grows(session.cart@, i + 1);
        }
        match total.checked_add(session.cart[i].quantity) {
            Some(sum) => {
                total = sum;
            },
            None => {
                return None;
            },
        }
        i += 1;
    }
    assert(session.cart@.take(i as int) == session.cart@);
    Some(total)
}

/// The quantities of a cart's first `k` lines sum to no more than those of all
/// its lines, and to no less than zero.
pub proof fn lemma_total_quantity_grows(cart: Seq<CartItem>, k: int)
    requires
        0 <= k <= cart.len(),
    ensures
        0 <= total_quantity(cart.take(k)) <= total_quantity(cart),
    decreases cart.len() - k,
{
    lemma_total_quantity_nonnegative(cart.take(k));
    if k < cart.len() {
        lemma_total_quantity_grows(cart, k + 1);
        assert(cart.take(k + 1).drop_last() == cart.take(k));
    } else {
        assert(cart.take(k) == cart);
    }
}

/// No cart holds a negative number of units.
pub proof fn lemma_total_quantity_nonnegative(cart: Seq<CartItem>)
    ensures
        0 <= total_quantity(cart),
    decreases cart.len(),
{
    if cart.len() > 0 {
        lemma_total_quantity_nonnegative(cart.drop_last());
    }
}

} // verus!
