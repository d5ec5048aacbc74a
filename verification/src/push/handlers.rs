//! The requests that a browser makes.
//!
//! A request that changes the subscriptions is answered in two steps: the
//! change itself, which may refuse the request, and then, once the caller has
//! saved the store, the answer.
use vstd::prelude::*;

use crate::clock::Timestamp;
use crate::push::notify::{
    settle, settled, Delivery, PayloadView, PushPayload, SendOutcome,
};
use crate::push::store::{
    from_list, owns, same_hash, unchanged_since, upserted, Subscription, SubscriptionStore,
    TokenHash,
};
use crate::push::vapid::{VapidError, VapidKeypair};

verus! {

/// The `sub` claim of the server's signatures: who is sending.
pub const VAPID_SUBJECT: &'static str = "https://github.com/njbrake/agent-of-empires";

/// The file that keeps the key pair.
pub const VAPID_FILE: &'static str = "push.vapid.json";

/// The file that keeps the subscriptions.
pub const SUBSCRIPTIONS_FILE: &'static str = "push.subscriptions.json";

/// What pushes need.
pub struct PushState {
    pub vapid: VapidKeypair,
    pub store: SubscriptionStore,
    /// The `sub` claim.
    pub subject: String,
}

impl PushState {
    /// The state at start: the key pair that was loaded or made, and the
    /// subscriptions that were saved. Without a key pair there is none.
    pub fn init(
        vapid: Result<VapidKeypair, VapidError>,
        saved: Option<Vec<Subscription>>,
    ) -> (res: Result<Self, VapidError>)
        ensures
            match vapid {
                Ok(kp) => {
                    &&& res matches Ok(push)
                    &&& push.vapid == kp
                    &&& push.subject@ == VAPID_SUBJECT@
                    &&& push.subject@ == "https://github.com/njbrake/agent-of-empires"@
                    &&& push.store@ == match saved {
                        Some(list) => from_list(list@),
                        None => Map::empty(),
                    }
                },
                Err(e) => res == Err::<Self, VapidError>(e),
            },
    {
        match vapid {
            Ok(vapid) => Ok(
                PushState {
                    vapid,
                    store: SubscriptionStore::load_or_empty(saved),
                    subject: VAPID_SUBJECT.to_owned(),
                },
            ),
            Err(e) => Err(e),
        }
    }
}

/// What the handlers see of the server.
pub struct AppState {
    /// Pushes are switched on.
    pub push_enabled: bool,
    pub push: Option<PushState>,
}

/// How a request is answered.
#[derive(Clone, Copy, Debug, PartialEq, Eq, Structural)]
pub enum StatusCode {
    NoContent,
    BadRequest,
    Forbidden,
    NotFound,
    InternalServerError,
}

impl StatusCode {
    /// The number of the status.
    pub fn as_u16(self) -> (code: u16)
        ensures
            code == match self {
                StatusCode::NoContent => 204u16,
                StatusCode::BadRequest => 400u16,
                StatusCode::Forbidden => 403u16,
                StatusCode::NotFound => 404u16,
                StatusCode::InternalServerError => 500u16,
            },
    {
        match self {
            StatusCode::NoContent => 204,
            StatusCode::BadRequest => 400,
            StatusCode::Forbidden => 403,
            StatusCode::NotFound => 404,
            StatusCode::InternalServerError => 500,
        }
    }
}

/// A request to subscribe, as browsers describe a subscription.
pub struct SubscribeBody {
    pub endpoint: String,
    pub keys: SubscribeKeys,
}

/// The keys of a browser's subscription.
pub struct SubscribeKeys {
    pub p256dh: String,
    pub auth: String,
}

/// A request about one endpoint.
pub struct EndpointBody {
    pub endpoint: String,
}

/// What became of a test notification.
#[derive(Clone, Copy, Debug, PartialEq, Eq, Structural)]
pub struct TestResult {
    pub delivered: u32,
    pub failed: u32,
    pub gone: u32,
}

/// Whether pushes are switched on.
pub fn get_status(state: &AppState) -> (enabled: bool)
    ensures
        enabled == state.push_enabled,
{
    state.push_enabled
}

/// The public key that browsers subscribe with; not found where there are no
/// pushes.
pub fn get_vapid_public_key(state: &AppState) -> (res: Result<String, StatusCode>)
    ensures
        res == match state.push {
            Some(push) => Ok::<String, StatusCode>(push.vapid.public_b64url),
            None => Err(StatusCode::NotFound),
        },
{
    match &state.push {
        Some(push) => Ok(push.vapid.public_b64url.clone()),
        None => Err(StatusCode::NotFound),
    }
}

/// The request leaves something out.
pub open spec fn incomplete(body: SubscribeBody) -> bool {
    body.endpoint@.len() == 0 || body.keys.p256dh@.len() == 0 || body.keys.auth@.len() == 0
}

/// The subscription that a request describes.
pub open spec fn requested(
    sub: Subscription,
    body: SubscribeBody,
    owner: Seq<u8>,
    user_agent: Option<&str>,
    now: Timestamp,
) -> bool {
    &&& sub.endpoint == body.endpoint
    &&& sub.p256dh == body.keys.p256dh
    &&& sub.auth == body.keys.auth
    &&& sub.owner_token_hash@ == owner
    &&& sub.user_agent@ == match user_agent {
        Some(text) => text@,
        None => Seq::empty(),
    }
    &&& sub.created_at == now
    &&& sub.generation == 0
}

/// Why a request to subscribe is refused, if it is.
pub open spec fn subscribe_refusal(push: Option<PushState>, body: SubscribeBody) -> Option<
    StatusCode,
> {
    if push is None {
        Some(StatusCode::NotFound)
    } else if incomplete(body) {
        Some(StatusCode::BadRequest)
    } else {
        None
    }
}

/// Files a browser's subscription under the hash of its token; the caller then
/// saves the store and answers with `after_save`.
pub fn subscribe(
    state: &mut AppState,
    owner: &TokenHash,
    user_agent: Option<&str>,
    body: SubscribeBody,
    now: Timestamp,
) -> (res: Result<(), StatusCode>)
    ensures
        match subscribe_refusal(old(state).push, body) {
            Some(status) => res == Err::<(), StatusCode>(status) && *final(state) == *old(state),
            None => {
                &&& res is Ok
                &&& final(state).push_enabled == old(state).push_enabled
                &&& final(state).push is Some
                &&& final(state).push->0.vapid == old(state).push->0.vapid
                &&& final(state).push->0.subject == old(state).push->0.subject
                &&& exists|sub: Subscription| #[trigger]
                    requested(sub, body, owner@, user_agent, now) && final(state).push->0.store@
                        == upserted(old(state).push->0.store@, sub)
            },
        },
{
    match &mut state.push {
        None => Err(StatusCode::NotFound),
        Some(push) => {
            if body.endpoint.as_str().unicode_len() == 0 || body.keys.p256dh.as_str().unicode_len()
                == 0 || body.keys.auth.as_str().unicode_len() == 0 {
                return Err(StatusCode::BadRequest);
            }
            let user_agent_text = match user_agent {
                Some(text) => text.to_owned(),
                None => String::new(),
            };
            let sub = Subscription {
                endpoint: body.endpoint,
                p256dh: body.keys.p256dh,
                auth: body.keys.auth,
                owner_token_hash: *owner,
                user_agent: user_agent_text,
                created_at: now,
                generation: 0,
            };
            assert(requested(sub, body, owner@, user_agent, now));
            push.store.upsert(sub);
            Ok(())
        },
    }
}

/// Why a request to unsubscribe is refused, if it is. An endpoint that does not
/// exist is answered like one of another owner.
pub open spec fn unsubscribe_refusal(
    push: Option<PushState>,
    endpoint: Seq<char>,
    owner: Seq<u8>,
) -> Option<StatusCode> {
    if push is None {
        Some(StatusCode::NotFound)
    } else if endpoint.len() == 0 {
        Some(StatusCode::BadRequest)
    } else if !owns(push->0.store@, endpoint, owner) {
        Some(StatusCode::Forbidden)
    } else {
        None
    }
}

/// Drops a subscription of the caller's own; the caller then saves the store
/// and answers with `after_save`.
pub fn unsubscribe(state: &mut AppState, owner: &TokenHash, body: &EndpointBody) -> (res: Result<
    (),
    StatusCode,
>)
    ensures
        match unsubscribe_refusal(old(state).push, body.endpoint@, owner@) {
            Some(status) => {
                &&& res == Err::<(), StatusCode>(status)
                &&& final(state).push is Some <==> old(state).push is Some
                &&& final(state).push is Some ==> final(state).push->0.store@ == old(
                    state,
                ).push->0.store@
            },
            None => {
                &&& res is Ok
                &&& final(state).push is Some
                &&& final(state).push->0.store@ == old(state).push->0.store@.remove(body.endpoint@)
            },
        },
        final(state).push_enabled == old(state).push_enabled,
        old(state).push is Some ==> {
            &&& final(state).push->0.vapid == old(state).push->0.vapid
            &&& final(state).push->0.subject == old(state).push->0.subject
        },
{
    match &mut state.push {
        None => Err(StatusCode::NotFound),
        Some(push) => {
            if body.endpoint.as_str().unicode_len() == 0 {
                return Err(StatusCode::BadRequest);
            }
            if push.store.remove_if_owner(body.endpoint.as_str(), owner) {
                Ok(())
            } else {
                Err(StatusCode::Forbidden)
            }
        },
    }
}

/// The answer to a request that changed the store, once it was saved or could
/// not be.
pub fn after_save(saved: bool) -> (res: Result<StatusCode, StatusCode>)
    ensures
        res == if saved {
            Ok::<StatusCode, StatusCode>(StatusCode::NoContent)
        } else {
            Err(StatusCode::InternalServerError)
        },
{
    if saved {
        Ok(StatusCode::NoContent)
    } else {
        Err(StatusCode::InternalServerError)
    }
}

/// The payload of a test notification.
pub open spec fn test_payload() -> PayloadView {
    PayloadView {
        title: "Agent of Empires"@,
        body: "Test notification. If you see this on your lock screen, push is working."@,
        url: "/"@,
        tag: "aoe-test"@,
        session_id: Seq::empty(),
    }
}

/// Prepares a test notification to one endpoint, which must be the caller's
/// own; the caller then sends it and answers with `finish_test`.
pub fn test(state: &AppState, owner: &TokenHash, body: &EndpointBody) -> (res: Result<
    Delivery,
    StatusCode,
>)
    ensures
        match unsubscribe_refusal(state.push, body.endpoint@, owner@) {
            Some(status) => res == Err::<Delivery, StatusCode>(status),
            None => {
                &&& res matches Ok(delivery)
                &&& delivery.subscription == state.push->0.store@[body.endpoint@]
                &&& delivery.payload@ == test_payload()
                &&& delivery.payload.title@ == "Agent of Empires"@
                &&& delivery.payload.body@
                    == "Test notification. If you see this on your lock screen, push is working."@
                &&& delivery.payload.url@ == "/"@
                &&& delivery.payload.tag@ == "aoe-test"@
                &&& delivery.payload.session_id@.len() == 0
            },
        },
{
    let push = match &state.push {
        Some(push) => push,
        None => {
            return Err(StatusCode::NotFound);
        },
    };
    if body.endpoint.as_str().unicode_len() == 0 {
        return Err(StatusCode::BadRequest);
    }
    let subscription = match push.store.get(body.endpoint.as_str()) {
        Some(sub) => if same_hash(&sub.owner_token_hash, owner) {
            sub.clone()
        } else {
            return Err(StatusCode::Forbidden);
        },
        None => {
            return Err(StatusCode::Forbidden);
        },
    };
    let payload = PushPayload {
        title: "Agent of Empires".to_owned(),
        body:
            "Test notification. If you see this on your lock screen, push is working.".to_owned(),
        url: "/".to_owned(),
        tag: "aoe-test".to_owned(),
        session_id: String::new(),
    };
    Ok(Delivery { subscription, payload })
}

/// What a test notification is answered.
pub struct TestReport {
    pub answer: Result<TestResult, StatusCode>,
    /// The store changed: the caller saves it.
    pub save: bool,
}

/// Counts one send under what became of it.
pub open spec fn tally(outcome: SendOutcome) -> TestResult {
    TestResult {
        delivered: if outcome == SendOutcome::Delivered {
            1
        } else {
            0
        },
        failed: if outcome == SendOutcome::Failed {
            1
        } else {
            0
        },
        gone: if outcome == SendOutcome::Gone {
            1
        } else {
            0
        },
    }
}

/// The answer to a test notification: what became of the send to `sent_to`, or
/// an error where nothing could be sent (`outcome` is `None`). A subscription
/// that is gone is dropped, unless it has subscribed again meanwhile.
pub fn finish_test(
    store: &mut SubscriptionStore,
    sent_to: &Subscription,
    outcome: Option<SendOutcome>,
) -> (res: TestReport)
    ensures
        match outcome {
            None => {
                &&& res.answer == Err::<TestResult, StatusCode>(StatusCode::InternalServerError)
                &&& !res.save
                &&& final(store)@ == old(store)@
            },
            Some(outcome) => {
                &&& res.answer == Ok::<TestResult, StatusCode>(tally(outcome))
                &&& res.save == (outcome == SendOutcome::Gone && unchanged_since(
                    old(store)@,
                    sent_to.endpoint@,
                    sent_to.generation,
                ))
                &&& final(store)@ == settled(old(store)@, *sent_to, outcome)
            },
        },
{
    let outcome = match outcome {
        Some(outcome) => outcome,
        None => {
            return TestReport { answer: Err(StatusCode::InternalServerError), save: false };
        },
    };
    let mut result = TestResult { delivered: 0, failed: 0, gone: 0 };
    match outcome {
        SendOutcome::Delivered => {
            result.delivered = 1;
        },
        SendOutcome::Failed => {
            result.failed = 1;
        },
        SendOutcome::Gone => {
            result.gone = 1;
        },
    }
    let save = settle(store, sent_to, outcome);
    TestReport { answer: Ok(result), save }
}

} // verus!
