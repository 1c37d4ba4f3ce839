//! The event ingestion path: validation and atomic insertion of a new event,
//! authorized by a tenant's application secret, plus the read-side mapping of
//! stored rows to the records handed back to callers.
//!
//! The store does the durable part; what stands here is every decision the
//! handlers make: which check fails first, what is inserted, and what a
//! duplicate insert reports.

use vstd::prelude::*;

use crate::codec::b64_decode;
use crate::codec::b64_decoding;
use crate::codec::b64_encode;
use crate::codec::b64_encoding;
use crate::codec::before_colon;
use crate::codec::bytes_before_colon;
use crate::codec::ip_parsed;
use crate::codec::parse_ip;
use crate::errors::Problem;
use crate::iam::access_allowed;
use crate::iam::can_access_application;
use crate::iam::Role;
use crate::json::JsonValue;
use vstd::utf8::encode_utf8;

verus! {

/// Query string of the event endpoints.
pub struct Qs {
    pub application_id: u128,
}

/// An application secret as the store resolves it: usable iff it was found
/// by application and token with `deleted_at` null.
pub struct ApplicationSecret {
    pub name: Option<String>,
    pub token: u128,
    pub created_at: i64,
    pub deleted_at: Option<i64>,
}

/// An event row as the list query returns it.
#[allow(non_snake_case)]
pub struct EventRaw {
    pub event__id: u128,
    pub event_type__name: String,
    pub payload_content_type__name: String,
    pub ip: String,
    pub metadata: Option<JsonValue>,
    pub occurred_at: i64,
    pub received_at: i64,
    pub application_secret__token: u128,
    pub labels: JsonValue,
}

/// An event as handed back to callers of the list endpoint.
pub struct Event {
    pub event_id: u128,
    pub event_type_name: String,
    pub payload_content_type_name: String,
    pub ip: String,
    pub metadata: Option<JsonValue>,
    pub occurred_at: i64,
    pub received_at: i64,
    pub application_secret_token: u128,
    pub labels: JsonValue,
}

/// How a returned event corresponds to its stored row.
pub open spec fn event_of_raw(raw: EventRaw, ev: Event) -> bool {
    &&& ev.event_id == raw.event__id
    &&& ev.event_type_name == raw.event_type__name
    &&& ev.payload_content_type_name == raw.payload_content_type__name
    &&& ev.ip == raw.ip
    &&& ev.metadata == raw.metadata
    &&& ev.occurred_at == raw.occurred_at
    &&& ev.received_at == raw.received_at
    &&& ev.application_secret_token == raw.application_secret__token
    &&& ev.labels == raw.labels
}

impl EventRaw {
    /// Turn the stored row into the record handed back to callers.
    pub fn to_event(self) -> (ev: Event)
        ensures
            event_of_raw(self, ev),
    {
        Event {
            event_id: self.event__id,
            event_type_name: self.event_type__name,
            payload_content_type_name: self.payload_content_type__name,
            ip: self.ip,
            metadata: self.metadata,
            occurred_at: self.occurred_at,
            received_at: self.received_at,
            application_secret_token: self.application_secret__token,
            labels: self.labels,
        }
    }
}

/// An event row with its payload, as the get query returns it.
#[allow(non_snake_case)]
pub struct EventWithPayloadRaw {
    pub event__id: u128,
    pub event_type__name: String,
    pub payload: Vec<u8>,
    pub payload_content_type__name: String,
    pub ip: String,
    pub metadata: Option<JsonValue>,
    pub occurred_at: i64,
    pub received_at: i64,
    pub application_secret__token: u128,
    pub labels: JsonValue,
}

/// An event with its payload in base64 form, as handed back to callers of
/// the get endpoint.
pub struct EventWithPayload {
    pub event_id: u128,
    pub event_type_name: String,
    pub payload: String,
    pub payload_content_type_name: String,
    pub ip: String,
    pub metadata: Option<JsonValue>,
    pub occurred_at: i64,
    pub received_at: i64,
    pub application_secret_token: u128,
    pub labels: JsonValue,
}

/// How a returned event with payload corresponds to its stored row: the
/// payload bytes travel in their base64 encoding.
pub open spec fn event_with_payload_of_raw(raw: EventWithPayloadRaw, ev: EventWithPayload) -> bool {
    &&& ev.event_id == raw.event__id
    &&& ev.event_type_name == raw.event_type__name
    &&& ev.payload@ == b64_encoding(raw.payload@)
    &&& ev.payload_content_type_name == raw.payload_content_type__name
    &&& ev.ip == raw.ip
    &&& ev.metadata == raw.metadata
    &&& ev.occurred_at == raw.occurred_at
    &&& ev.received_at == raw.received_at
    &&& ev.application_secret_token == raw.application_secret__token
    &&& ev.labels == raw.labels
}

impl EventWithPayloadRaw {
    /// Turn the stored row into the record handed back to callers, encoding
    /// the payload.
    pub fn to_event(self) -> (ev: EventWithPayload)
        ensures
            event_with_payload_of_raw(self, ev),
    {
        let payload = b64_encode(&self.payload);
        EventWithPayload {
            event_id: self.event__id,
            event_type_name: self.event_type__name,
            payload,
            payload_content_type_name: self.payload_content_type__name,
            ip: self.ip,
            metadata: self.metadata,
            occurred_at: self.occurred_at,
            received_at: self.received_at,
            application_secret_token: self.application_secret__token,
            labels: self.labels,
        }
    }
}

/// List the latest events of an application: forbidden unless the store
/// resolved at least the viewer role for the caller, else each fetched row
/// mapped in order.
pub fn list(resolved_role: Option<Role>, raw_events: Vec<EventRaw>) -> (r: Result<
    Vec<Event>,
    Problem,
>)
    ensures
        !access_allowed(resolved_role, Role::Viewer) ==> r == Err::<Vec<Event>, Problem>(
            Problem::Forbidden,
        ),
        access_allowed(resolved_role, Role::Viewer) ==> (r matches Ok(events) && events@.len()
            == raw_events@.len() && (forall|i: int|
            0 <= i < raw_events@.len() ==> event_of_raw(
                raw_events@[i],
                #[trigger] events@[i],
            ))),
{
    if !can_access_application(resolved_role, Role::Viewer) {
        return Err(Problem::Forbidden);
    }
    let ghost orig = raw_events@;
    let mut remaining = raw_events;
    let mut events: Vec<Event> = Vec::new();
    while remaining.len() > 0
        invariant
            events@.len() + remaining@.len() == orig.len(),
            remaining@ == orig.subrange(events@.len() as int, orig.len() as int),
            forall|i: int|
                0 <= i < events@.len() ==> event_of_raw(orig[i], #[trigger] events@[i]),
        decreases remaining@.len(),
    {
        let raw = remaining.remove(0);
        events.push(raw.to_event());
        proof {
            assert(remaining@ =~= orig.subrange(events@.len() as int, orig.len() as int));
        }
    }
    Ok(events)
}

/// Get one event with its payload: forbidden unless the store resolved at
/// least the viewer role for the caller, not found where the store had no
/// row, else the row mapped.
pub fn get(resolved_role: Option<Role>, raw_event: Option<EventWithPayloadRaw>) -> (r: Result<
    EventWithPayload,
    Problem,
>)
    ensures
        !access_allowed(resolved_role, Role::Viewer) ==> r == Err::<EventWithPayload, Problem>(
            Problem::Forbidden,
        ),
        access_allowed(resolved_role, Role::Viewer) && raw_event is None ==> r == Err::<
            EventWithPayload,
            Problem,
        >(Problem::NotFound),
        access_allowed(resolved_role, Role::Viewer) && raw_event is Some ==> (r matches Ok(ev)
            && event_with_payload_of_raw(raw_event.unwrap(), ev)),
{
    if !can_access_application(resolved_role, Role::Viewer) {
        return Err(Problem::Forbidden);
    }
    match raw_event {
        Some(raw) => Ok(raw.to_event()),
        None => Err(Problem::NotFound),
    }
}

/// The body of an ingest request, already shaped by the HTTP layer.
pub struct EventPost {
    pub application_id: u128,
    pub event_id: u128,
    pub event_type: String,
    pub payload: String,
    pub payload_content_type: String,
    pub metadata: Option<JsonValue>,
    pub occurred_at: i64,
    pub application_secret: u128,
    pub labels: JsonValue,
}

/// The count of registered content types matching the posted name.
pub struct ContentTypeLookup {
    pub nb: Option<i64>,
}

/// What the ingest endpoint returns on success.
pub struct IngestedEvent {
    pub application_id: u128,
    pub event_id: u128,
    pub received_at: i64,
}

/// The validated event row to insert: every field checked, the payload
/// decoded, the originating IP extracted.
pub struct NewEvent {
    pub application_id: u128,
    pub event_id: u128,
    pub event_type: String,
    pub payload: Vec<u8>,
    pub payload_content_type: String,
    pub ip: String,
    pub metadata: Option<JsonValue>,
    pub occurred_at: i64,
    pub application_secret_token: u128,
    pub labels: JsonValue,
}

/// The posted content type is registered iff exactly one row matched it.
pub open spec fn content_type_registered(lookup: ContentTypeLookup) -> bool {
    lookup.nb == Some(1i64)
}

/// Metadata passes iff absent or a JSON object.
pub open spec fn metadata_ok(metadata: Option<JsonValue>) -> bool {
    match metadata {
        Some(v) => v is Object,
        None => true,
    }
}

/// The originating IP recorded for a peer address: the address up to any
/// port suffix, parsed; `None` where the peer address is unavailable or does
/// not parse.
pub open spec fn ingest_ip(remote_addr: Option<Seq<char>>) -> Option<Seq<char>> {
    match remote_addr {
        Some(chars) => ip_parsed(before_colon(encode_utf8(chars))),
        None => None,
    }
}

/// Which problem an ingest request is refused with, if any: the unknown
/// secret first, then the four validation checks in their tie-break order —
/// content type, base64 payload, metadata, labels — then the originating
/// address.
pub open spec fn ingest_refusal(
    secret: Option<ApplicationSecret>,
    content_type_lookup: ContentTypeLookup,
    body: EventPost,
    remote_addr: Option<Seq<char>>,
) -> Option<Problem> {
    if secret is None {
        Some(Problem::Forbidden)
    } else if !content_type_registered(content_type_lookup) {
        Some(Problem::EventInvalidPayloadContentType)
    } else if b64_decoding(body.payload@) is None {
        Some(Problem::EventInvalidBase64Payload)
    } else if !metadata_ok(body.metadata) {
        Some(Problem::EventInvalidMetadata)
    } else if !(body.labels is Object) {
        Some(Problem::EventInvalidLabels)
    } else if ingest_ip(remote_addr) is None {
        Some(Problem::InternalServerError)
    } else {
        None
    }
}

/// Validate an ingest request and shape the event row to insert.
///
/// `secret` is the store's lookup of the posted application secret (by
/// application, token, and `deleted_at` null); `content_type_lookup` the
/// store's count of registered content types of the posted name;
/// `remote_addr` the peer address of the connection. The four validation
/// checks are all evaluated, and the first failing one wins, in the order:
/// content type, base64 payload, metadata, labels.
pub fn ingest(
    secret: Option<ApplicationSecret>,
    content_type_lookup: ContentTypeLookup,
    body: EventPost,
    remote_addr: Option<String>,
) -> (r: Result<NewEvent, Problem>)
    ensures
        (ingest_refusal(secret, content_type_lookup, body, views_of(remote_addr)) matches Some(
            problem,
        ) ==> r == Err::<NewEvent, Problem>(problem)),
        ingest_refusal(secret, content_type_lookup, body, views_of(remote_addr)) is None ==> (
        r matches Ok(ev) && {
            &&& ev.application_id == body.application_id
            &&& ev.event_id == body.event_id
            &&& ev.event_type == body.event_type
            &&& ev.payload@ == b64_decoding(body.payload@).unwrap()
            &&& ev.payload_content_type == body.payload_content_type
            &&& ev.ip@ == ingest_ip(views_of(remote_addr)).unwrap()
            &&& ev.metadata == body.metadata
            &&& ev.occurred_at == body.occurred_at
            &&& ev.application_secret_token == secret.unwrap().token
            &&& ev.labels == body.labels
        }),
{
    let secret = match secret {
        Some(s) => s,
        None => {
            return Err(Problem::Forbidden);
        },
    };
    let content_type_ok = match content_type_lookup.nb {
        Some(n) => n == 1,
        None => false,
    };
    let payload = b64_decode(body.payload.as_str());
    let metadata_is_ok = match &body.metadata {
        Some(v) => v.is_object(),
        None => true,
    };
    let labels_ok = body.labels.is_object();
    match (content_type_ok, payload, metadata_is_ok, labels_ok) {
        (true, Some(p), true, true) => {
            let addr = match remote_addr {
                Some(a) => a,
                None => {
                    return Err(Problem::InternalServerError);
                },
            };
            let host = bytes_before_colon(addr.as_str().as_bytes());
            match parse_ip(&host) {
                Some(ip) => Ok(
                    NewEvent {
                        application_id: body.application_id,
                        event_id: body.event_id,
                        event_type: body.event_type,
                        payload: p,
                        payload_content_type: body.payload_content_type,
                        ip,
                        metadata: body.metadata,
                        occurred_at: body.occurred_at,
                        application_secret_token: secret.token,
                        labels: body.labels,
                    },
                ),
                None => Err(Problem::InternalServerError),
            }
        },
        (false, _, _, _) => Err(Problem::EventInvalidPayloadContentType),
        (_, None, _, _) => Err(Problem::EventInvalidBase64Payload),
        (_, _, false, _) => Err(Problem::EventInvalidMetadata),
        (_, _, _, false) => Err(Problem::EventInvalidLabels),
    }
}

impl IngestedEvent {
    /// What the ingest endpoint reports of a committed event: its key, and
    /// the instant the store assigned at commit.
    pub fn of_committed(ev: &NewEvent, received_at: i64) -> (r: IngestedEvent)
        ensures
            r.application_id == ev.application_id,
            r.event_id == ev.event_id,
            r.received_at == received_at,
    {
        IngestedEvent {
            application_id: ev.application_id,
            event_id: ev.event_id,
            received_at,
        }
    }
}

/// The character view of an optional string.
pub open spec fn views_of(s: Option<String>) -> Option<Seq<char>> {
    match s {
        Some(inner) => Some(inner@),
        None => None,
    }
}

/// The committed event keys: one per `(application_id, event_id)` pair. The
/// store's primary key is what makes duplicate ingests collide; this is that
/// rule, stated over the committed keys.
pub struct EventStore {
    pub keys: Vec<(u128, u128)>,
}

/// What one committed ingest leaves of the keys: unchanged where the key is
/// already present, else the key appended.
pub open spec fn store_insert(keys: Seq<(u128, u128)>, key: (u128, u128)) -> Seq<(u128, u128)> {
    if keys.contains(key) {
        keys
    } else {
        keys.push(key)
    }
}

impl EventStore {
    /// Keys are unique: the store's primary key.
    pub open spec fn wf(&self) -> bool {
        forall|i: int, j: int|
            0 <= i < j < self.keys@.len() ==> #[trigger] self.keys@[i] != #[trigger] self.keys@[j]
    }

    /// Whether an event with this key was committed.
    pub open spec fn has_key(&self, key: (u128, u128)) -> bool {
        self.keys@.contains(key)
    }

    /// Commit an event: fails with a conflict, leaving the store unchanged,
    /// iff an event with the same key was committed before.
    #[verifier::loop_isolation(false)]
    pub fn insert_event(&mut self, application_id: u128, event_id: u128) -> (r: Result<
        (),
        Problem,
    >)
        requires
            old(self).wf(),
        ensures
            final(self).wf(),
            final(self).keys@ == store_insert(old(self).keys@, (application_id, event_id)),
            r is Ok <==> !old(self).has_key((application_id, event_id)),
            r is Err ==> r == Err::<(), Problem>(Problem::Conflict) && final(self).keys@ == old(
                self,
            ).keys@,
            final(self).has_key((application_id, event_id)),
    {
        let key = (application_id, event_id);
        let mut i: usize = 0;
        while i < self.keys.len()
            invariant
                0 <= i <= self.keys@.len(),
                forall|j: int| 0 <= j < i ==> #[trigger] self.keys@[j] != key,
                *self == *old(self),
                self.wf(),
            decreases self.keys@.len() - i,
        {
            let k = self.keys[i];
            if k.0 == application_id && k.1 == event_id {
                proof {
                    assert(k == (k.0, k.1));
                    assert(self.keys@.contains(key));
                }
                return Err(Problem::Conflict);
            }
            i = i + 1;
        }
        proof {
            assert(!old(self).keys@.contains(key));
            assert(forall|m: int, n: int|
                0 <= m < n < self.keys@.push(key).len() ==> self.keys@.push(key)[m]
                    != self.keys@.push(key)[n]) by {
                assert(forall|m: int|
                    0 <= m < self.keys@.len() ==> #[trigger] self.keys@.push(key)[m]
                        == self.keys@[m]);
            }
        }
        self.keys.push(key);
        proof {
            assert(self.keys@.last() == key);
            assert(self.keys@.contains(key));
        }
        Ok(())
    }
}

/// Law: ingestion is idempotent per key. Committing a key makes it present,
/// committing it again changes nothing, and a store that already holds the
/// key is left exactly as it was — so of two ingests of the same
/// `(application_id, event_id)`, exactly one commits a row and the other
/// collides.
pub proof fn lemma_ingest_idempotent(keys: Seq<(u128, u128)>, key: (u128, u128))
    ensures
        store_insert(keys, key).contains(key),
        store_insert(store_insert(keys, key), key) == store_insert(keys, key),
        keys.contains(key) ==> store_insert(keys, key) == keys,
        !keys.contains(key) ==> store_insert(keys, key).len() == keys.len() + 1,
{
    if !keys.contains(key) {
        assert(store_insert(keys, key).last() == key);
        assert(store_insert(keys, key).contains(key));
    }
}

} // verus!
