//! The other devices that are signed in to the account.

use crate::db::TelegramSession;
use crate::text::text_of;
use vstd::prelude::*;

verus! {

/// The seconds between two listings.
pub const INTERVAL_SECS: u64 = 60;

/// One signed-in device, as the transport reports it.
#[derive(Clone, Debug, PartialEq, Eq)]
pub struct Authorization {
    /// Whether this is the device that asks.
    pub current: bool,
    pub hash: i64,
    pub device_model: String,
    pub platform: String,
    pub system_version: String,
    pub app_name: String,
    pub app_version: String,
    pub ip: String,
    pub country: String,
    pub region: String,
    pub date_created: i32,
    pub date_active: i32,
}

/// The devices other than the one that asks, in order.
pub open spec fn others(authorizations: Seq<Authorization>) -> Seq<Authorization>
    decreases authorizations.len(),
{
    if authorizations.len() == 0 {
        Seq::empty()
    } else if authorizations.last().current {
        others(authorizations.drop_last())
    } else {
        others(authorizations.drop_last()).push(authorizations.last())
    }
}

/// Whether `row` records the device `session`, listed at `now` seconds
/// since the epoch by the account `client_id`.
pub open spec fn is_session_row(
    row: TelegramSession,
    session: Authorization,
    now: u64,
    client_id: u64,
) -> bool {
    &&& row.hash == session.hash
    &&& row.device_model@ == session.device_model@
    &&& row.platform@ == session.platform@
    &&& text_of(row.system_version) == Some(session.system_version@)
    &&& row.app_name@ == session.app_name@
    &&& text_of(row.app_version) == Some(session.app_version@)
    &&& text_of(row.ip) == Some(session.ip@)
    &&& row.country@ == session.country@
    &&& row.region@ == session.region@
    &&& row.date_created == session.date_created as u32
    &&& row.date_active == session.date_active as u32
    &&& row.updated_at == now as u32
    &&& row.client_id == client_id
}

/// Whether `rows` record the devices `sessions`, one each and in order.
pub open spec fn are_session_rows(
    rows: Seq<TelegramSession>,
    sessions: Seq<Authorization>,
    now: u64,
    client_id: u64,
) -> bool {
    &&& rows.len() == sessions.len()
    &&& forall|i: int|
        0 <= i < rows.len() ==> is_session_row(#[trigger] rows[i], sessions[i], now, client_id)
}

/// The rows for a listing of the signed-in devices: one for each device but
/// the one that asks.
pub fn log_sessions(authorizations: &Vec<Authorization>, now: u64, client_id: u64) -> (rows: Vec<
    TelegramSession,
>)
    ensures
        are_session_rows(rows@, others(authorizations@), now, client_id),
{
    let mut rows: Vec<TelegramSession> = Vec::new();
    let mut i: usize = 0;
    assert(authorizations@.take(0) =~= Seq::<Authorization>::empty());
    while i < authorizations.len()
        invariant
            i <= authorizations.len(),
            are_session_rows(rows@, others(authorizations@.take(i as int)), now, client_id),
        decreases authorizations.len() - i,
    {
        let session = &authorizations[i];
        proof {
            assert(authorizations@.take(i + 1).drop_last() == authorizations@.take(i as int));
            assert(authorizations@.take(i + 1).last() == authorizations@[i as int]);
        }
        if !session.current {
            let row = TelegramSession {
                hash: session.hash,
                device_model: session.device_model.clone(),
                platform: session.platform.clone(),
                system_version: Some(session.system_version.clone()),
                app_name: session.app_name.clone(),
                app_version: Some(session.app_version.clone()),
                ip: Some(session.ip.clone()),
                country: session.country.clone(),
                region: session.region.clone(),
                date_created: #[verifier::truncate] (session.date_created as u32),
                date_active: #[verifier::truncate] (session.date_active as u32),
                updated_at: #[verifier::truncate] (now as u32),
                client_id,
            };
            rows.push(row);
        }
        i = i + 1;
    }
    assert(authorizations@.take(authorizations.len() as int) == authorizations@);
    rows
}

} // verus!
