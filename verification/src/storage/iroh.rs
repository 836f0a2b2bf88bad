//! The peer-to-peer storage runtime's bookkeeping: which peers are connected, which
//! devices are registered, and the event each request produces.

use vstd::prelude::*;
use vstd::string::*;

use crate::oauth2::scope::strs;
use crate::storage::service::{blank, is_blank};

verus! {

/// A request that a client sends to the storage runtime.
#[derive(Clone, Debug)]
pub enum StorageRequest {
    AddDevice { device_id: String },
    RemoveDevice { device_id: String },
    ConnectPeer { peer_id: String },
    SyncPeer { peer_id: String },
    SendMessage { peer_id: String, payload: String },
    CloseSession { peer_id: String },
    ReadFile { path: String },
    WriteFile { path: String, content: String },
    ListDir { path: String },
    CreateDir { path: String },
    DeletePath { path: String },
    RenamePath { from: String, to: String },
    ExistsPath { path: String },
}

/// An event that the storage runtime publishes.
#[derive(Clone, Debug)]
pub enum StorageEvent {
    Connected { peer_id: String },
    MessageReceived { peer_id: String, payload: String },
    Closed { peer_id: String, reason: Option<String> },
}

/// `serde_json::Value`, a JSON payload carried through as an opaque value.
#[verifier::external_type_specification]
#[verifier::external_body]
pub struct ExJsonValue(serde_json::Value);

/// The answer to a storage request: whether it succeeded, the event it published, the
/// data it produced, or what went wrong.
#[derive(Clone, Debug)]
pub struct StorageResponse {
    pub ok: bool,
    pub event: Option<StorageEvent>,
    pub payload: Option<serde_json::Value>,
    pub error: Option<String>,
}

impl StorageResponse {
    /// A successful response with an optional event and payload.
    pub fn success(event: Option<StorageEvent>, payload: Option<serde_json::Value>) -> (r: Self)
        ensures
            r.ok,
            r.event == event,
            r.payload == payload,
            r.error is None,
    {
        StorageResponse { ok: true, event, payload, error: None }
    }

    /// A successful response with only a payload.
    pub fn success_payload(payload: serde_json::Value) -> (r: Self)
        ensures
            r.ok,
            r.event is None,
            r.payload == Some(payload),
            r.error is None,
    {
        StorageResponse { ok: true, event: None, payload: Some(payload), error: None }
    }

    /// A successful response with only an event.
    pub fn success_event(event: StorageEvent) -> (r: Self)
        ensures
            r.ok,
            r.event == Some(event),
            r.payload is None,
            r.error is None,
    {
        StorageResponse { ok: true, event: Some(event), payload: None, error: None }
    }

    /// A successful response with nothing else.
    pub fn success_empty() -> (r: Self)
        ensures
            r.ok,
            r.event is None,
            r.payload is None,
            r.error is None,
    {
        StorageResponse { ok: true, event: None, payload: None, error: None }
    }

    /// A failed response with its message.
    pub fn error(error: String) -> (r: Self)
        ensures
            !r.ok,
            r.event is None,
            r.payload is None,
            r.error == Some(error),
    {
        StorageResponse { ok: false, event: None, payload: None, error: Some(error) }
    }
}

/// What an event says.
pub enum EventView {
    Connected(Seq<char>),
    MessageReceived(Seq<char>, Seq<char>),
    Closed(Seq<char>, Option<Seq<char>>),
}

impl View for StorageEvent {
    type V = EventView;

    open spec fn view(&self) -> EventView {
        match self {
            StorageEvent::Connected { peer_id } => EventView::Connected(peer_id@),
            StorageEvent::MessageReceived { peer_id, payload } => EventView::MessageReceived(
                peer_id@,
                payload@,
            ),
            StorageEvent::Closed { peer_id, reason } => EventView::Closed(
                peer_id@,
                match reason {
                    Some(r) => Some(r@),
                    None => None,
                },
            ),
        }
    }
}

/// What the runtime knows: the connected peers and the registered devices.
pub struct RegistryView {
    pub peers: Set<Seq<char>>,
    pub devices: Set<Seq<char>>,
}

/// The outcome of a request: the event it publishes, or the message it is refused with.
pub type Outcome = Result<EventView, Seq<char>>;

pub open spec fn empty_peer_message() -> Seq<char> {
    "peer id cannot be empty"@
}

pub open spec fn empty_device_message() -> Seq<char> {
    "device id cannot be empty"@
}

pub open spec fn not_connected_message(peer_id: Seq<char>) -> Seq<char> {
    "peer '"@ + peer_id + "' is not connected"@
}

/// The registry after a peer connects.
pub open spec fn after_connect(v: RegistryView, peer_id: Seq<char>) -> RegistryView {
    if blank(peer_id) {
        v
    } else {
        RegistryView { peers: v.peers.insert(peer_id), devices: v.devices }
    }
}

pub open spec fn connect_outcome(peer_id: Seq<char>) -> Outcome {
    if blank(peer_id) {
        Err(empty_peer_message())
    } else {
        Ok(EventView::Connected(peer_id))
    }
}

pub open spec fn sync_outcome(v: RegistryView, peer_id: Seq<char>) -> Outcome {
    if blank(peer_id) {
        Err(empty_peer_message())
    } else if !v.peers.contains(peer_id) {
        Err(not_connected_message(peer_id))
    } else {
        Ok(EventView::Connected(peer_id))
    }
}

pub open spec fn message_outcome(v: RegistryView, peer_id: Seq<char>, payload: Seq<char>) -> Outcome {
    if blank(peer_id) {
        Err(empty_peer_message())
    } else if !v.peers.contains(peer_id) {
        Err(not_connected_message(peer_id))
    } else {
        Ok(EventView::MessageReceived(peer_id, payload))
    }
}

/// The registry after a peer's session closes.
pub open spec fn after_close(v: RegistryView, peer_id: Seq<char>) -> RegistryView {
    if blank(peer_id) {
        v
    } else {
        RegistryView { peers: v.peers.remove(peer_id), devices: v.devices }
    }
}

pub open spec fn close_outcome(peer_id: Seq<char>) -> Outcome {
    if blank(peer_id) {
        Err(empty_peer_message())
    } else {
        Ok(EventView::Closed(peer_id, Some("session closed"@)))
    }
}

/// The registry after a device is added.
pub open spec fn after_add_device(v: RegistryView, device_id: Seq<char>) -> RegistryView {
    if blank(device_id) {
        v
    } else {
        RegistryView { peers: v.peers, devices: v.devices.insert(device_id) }
    }
}

pub open spec fn add_device_outcome(device_id: Seq<char>) -> Outcome {
    if blank(device_id) {
        Err(empty_device_message())
    } else {
        Ok(EventView::Connected(device_id))
    }
}

/// The registry after a device is removed.
pub open spec fn after_remove_device(v: RegistryView, device_id: Seq<char>) -> RegistryView {
    if blank(device_id) {
        v
    } else {
        RegistryView { peers: v.peers, devices: v.devices.remove(device_id) }
    }
}

pub open spec fn remove_device_outcome(device_id: Seq<char>) -> Outcome {
    if blank(device_id) {
        Err(empty_device_message())
    } else {
        Ok(EventView::Closed(device_id, Some("device removed"@)))
    }
}

/// The view of a request's result.
pub open spec fn outcome_of(r: Result<StorageEvent, String>) -> Outcome {
    match r {
        Ok(e) => Ok(e@),
        Err(m) => Err(m@),
    }
}

/// The set of connected peers and the set of registered devices.
#[derive(Debug)]
pub struct PeerRegistry {
    peers: Vec<String>,
    devices: Vec<String>,
}

impl View for PeerRegistry {
    type V = RegistryView;

    closed spec fn view(&self) -> RegistryView {
        RegistryView { peers: strs(self.peers@).to_set(), devices: strs(self.devices@).to_set() }
    }
}

pub(crate) fn contains_text(list: &Vec<String>, s: &str) -> (r: bool)
    ensures
        r == strs(list@).contains(s@),
{
    let mut i: usize = 0;
    while i < list.len()
        invariant
            i <= list@.len(),
            forall|k: int| 0 <= k < i ==> list@[k]@ != s@,
        decreases list.len() - i,
    {
        if crate::text::str_eq(list[i].as_str(), s) {
            assert(strs(list@)[i as int] == s@);
            return true;
        }
        i = i + 1;
    }
    assert forall|k: int| 0 <= k < strs(list@).len() implies strs(list@)[k] != s@ by {
        assert(strs(list@)[k] == list@[k]@);
    }
    false
}

/// Adds `s` to `list` unless it is there already.
pub(crate) fn insert_text(list: &mut Vec<String>, s: &str)
    ensures
        strs(final(list)@).to_set() == strs(old(list)@).to_set().insert(s@),
{
    if !contains_text(list, s) {
        let ghost before = strs(list@);
        list.push(s.to_owned());
        assert(strs(list@) =~= before.push(s@));
        proof {
            before.lemma_push_to_set_commute(s@);
        }
    } else {
        assert(strs(list@).to_set().insert(s@) =~= strs(list@).to_set());
    }
}

/// Removes every occurrence of `s` from `list`.
pub(crate) fn remove_text(list: &mut Vec<String>, s: &str)
    ensures
        strs(final(list)@).to_set() == strs(old(list)@).to_set().remove(s@),
{
    let mut kept: Vec<String> = Vec::new();
    let mut i: usize = 0;
    while i < list.len()
        invariant
            i <= list@.len(),
            forall|x: Seq<char>| #[trigger] strs(kept@).contains(x) <==> (x != s@ && strs(list@).take(i as int).contains(x)),
        decreases list.len() - i,
    {
        let ghost before = strs(kept@);
        assert(forall|x: Seq<char>| #[trigger] before.contains(x) <==> (x != s@ && strs(list@).take(i as int).contains(x)));
        let ghost prefix = strs(list@).take(i as int);
        let ghost next = strs(list@).take(i + 1);
        let ghost item = list@[i as int]@;
        assert(next =~= prefix.push(item));
        let same = crate::text::str_eq(list[i].as_str(), s);
        if !same {
            kept.push(list[i].clone());
            assert(strs(kept@) =~= before.push(item));
        } else {
            assert(strs(kept@) =~= before);
        }
        assert(same == (item == s@));
        assert(!same ==> strs(kept@) == before.push(item));
        assert(same ==> strs(kept@) == before);
        assert forall|x: Seq<char>| #[trigger] strs(kept@).contains(x) <==> (x != s@ && next.contains(x)) by {
            assert(before.contains(x) <==> (x != s@ && prefix.contains(x)));
            if strs(kept@).contains(x) {
                if before.contains(x) {
                    let k = choose|k: int| 0 <= k < prefix.len() && #[trigger] prefix[k] == x;
                    assert(next[k] == x);
                } else {
                    let k = choose|k: int| 0 <= k < strs(kept@).len() && #[trigger] strs(kept@)[k] == x;
                    assert(!same);
                    assert(k == before.len());
                    assert(next[i as int] == x);
                }
            }
            if x != s@ && next.contains(x) {
                let k = choose|k: int| 0 <= k < next.len() && #[trigger] next[k] == x;
                if k < i {
                    assert(prefix[k] == x);
                    assert(before.contains(x));
                    let j = choose|j: int| 0 <= j < before.len() && #[trigger] before[j] == x;
                    assert(strs(kept@)[j] == x);
                } else {
                    assert(x == item);
                    assert(strs(kept@)[before.len() as int] == x);
                }
            }
        }
        i = i + 1;
    }
    assert(strs(list@).take(list@.len() as int) =~= strs(list@));
    assert(strs(kept@).to_set() =~= strs(list@).to_set().remove(s@));
    *list = kept;
}

impl PeerRegistry {
    /// No peer connected, no device registered.
    pub fn new() -> (r: Self)
        ensures
            r@.peers == Set::<Seq<char>>::empty(),
            r@.devices == Set::<Seq<char>>::empty(),
    {
        let r = PeerRegistry { peers: Vec::new(), devices: Vec::new() };
        assert(strs(r.peers@).to_set() =~= Set::<Seq<char>>::empty());
        assert(strs(r.devices@).to_set() =~= Set::<Seq<char>>::empty());
        r
    }

    /// Connects a peer.
    pub fn connect_peer(&mut self, peer_id: &str) -> (r: Result<StorageEvent, String>)
        ensures
            final(self)@ == after_connect(old(self)@, peer_id@),
            outcome_of(r) == connect_outcome(peer_id@),
    {
        if is_blank(peer_id) {
            return Err(String::from_str("peer id cannot be empty"));
        }
        insert_text(&mut self.peers, peer_id);
        Ok(StorageEvent::Connected { peer_id: peer_id.to_owned() })
    }

    /// Re-announces a connected peer.
    pub fn sync_peer(&self, peer_id: &str) -> (r: Result<StorageEvent, String>)
        ensures
            outcome_of(r) == sync_outcome(self@, peer_id@),
    {
        if is_blank(peer_id) {
            return Err(String::from_str("peer id cannot be empty"));
        }
        if !contains_text(&self.peers, peer_id) {
            return Err(not_connected(peer_id));
        }
        Ok(StorageEvent::Connected { peer_id: peer_id.to_owned() })
    }

    /// Delivers a message from a connected peer.
    pub fn send_message(&self, peer_id: &str, payload: &str) -> (r: Result<StorageEvent, String>)
        ensures
            outcome_of(r) == message_outcome(self@, peer_id@, payload@),
    {
        if is_blank(peer_id) {
            return Err(String::from_str("peer id cannot be empty"));
        }
        if !contains_text(&self.peers, peer_id) {
            return Err(not_connected(peer_id));
        }
        Ok(StorageEvent::MessageReceived { peer_id: peer_id.to_owned(), payload: payload.to_owned() })
    }

    /// Closes a peer's session.
    pub fn close_session(&mut self, peer_id: &str) -> (r: Result<StorageEvent, String>)
        ensures
            final(self)@ == after_close(old(self)@, peer_id@),
            outcome_of(r) == close_outcome(peer_id@),
    {
        if is_blank(peer_id) {
            return Err(String::from_str("peer id cannot be empty"));
        }
        remove_text(&mut self.peers, peer_id);
        Ok(StorageEvent::Closed {
            peer_id: peer_id.to_owned(),
            reason: Some(String::from_str("session closed")),
        })
    }

    /// Registers a device.
    pub fn add_device(&mut self, device_id: &str) -> (r: Result<StorageEvent, String>)
        ensures
            final(self)@ == after_add_device(old(self)@, device_id@),
            outcome_of(r) == add_device_outcome(device_id@),
    {
        if is_blank(device_id) {
            return Err(String::from_str("device id cannot be empty"));
        }
        insert_text(&mut self.devices, device_id);
        Ok(StorageEvent::Connected { peer_id: device_id.to_owned() })
    }

    /// Unregisters a device.
    pub fn remove_device(&mut self, device_id: &str) -> (r: Result<StorageEvent, String>)
        ensures
            final(self)@ == after_remove_device(old(self)@, device_id@),
            outcome_of(r) == remove_device_outcome(device_id@),
    {
        if is_blank(device_id) {
            return Err(String::from_str("device id cannot be empty"));
        }
        remove_text(&mut self.devices, device_id);
        Ok(StorageEvent::Closed {
            peer_id: device_id.to_owned(),
            reason: Some(String::from_str("device removed")),
        })
    }
}

fn not_connected(peer_id: &str) -> (r: String)
    ensures
        r@ == not_connected_message(peer_id@),
{
    let mut s = String::from_str("peer '");
    s.append(peer_id);
    s.append("' is not connected");
    s
}


/// A peer that has just connected can be synced and can send messages.
pub proof fn law_connected_peer_is_reachable(v: RegistryView, peer_id: Seq<char>, payload: Seq<char>)
    requires
        !blank(peer_id),
    ensures
        sync_outcome(after_connect(v, peer_id), peer_id) == Ok::<EventView, Seq<char>>(EventView::Connected(peer_id)),
        message_outcome(after_connect(v, peer_id), peer_id, payload) == Ok::<EventView, Seq<char>>(
            EventView::MessageReceived(peer_id, payload),
        ),
{
}

/// A peer whose session was closed is no longer connected: syncing it is refused.
pub proof fn law_closed_peer_is_unreachable(v: RegistryView, peer_id: Seq<char>, payload: Seq<char>)
    requires
        !blank(peer_id),
    ensures
        sync_outcome(after_close(v, peer_id), peer_id) == Err::<EventView, Seq<char>>(not_connected_message(peer_id)),
        message_outcome(after_close(v, peer_id), peer_id, payload) == Err::<EventView, Seq<char>>(
            not_connected_message(peer_id),
        ),
{
}

/// Closing the session of a peer that was not connected before undoes its connection.
pub proof fn law_close_undoes_connect(v: RegistryView, peer_id: Seq<char>)
    requires
        !v.peers.contains(peer_id),
    ensures
        after_close(after_connect(v, peer_id), peer_id) == v,
{
    if !blank(peer_id) {
        assert(v.peers.insert(peer_id).remove(peer_id) =~= v.peers);
    }
}

/// Connecting a peer twice is the same as connecting it once.
pub proof fn law_connect_idempotent(v: RegistryView, peer_id: Seq<char>)
    ensures
        after_connect(after_connect(v, peer_id), peer_id) == after_connect(v, peer_id),
{
    if !blank(peer_id) {
        assert(v.peers.insert(peer_id).insert(peer_id) =~= v.peers.insert(peer_id));
    }
}

/// Adding and removing devices leaves the connected peers alone, and peers leave devices alone.
pub proof fn law_devices_and_peers_are_independent(v: RegistryView, id: Seq<char>)
    ensures
        after_add_device(v, id).peers == v.peers,
        after_remove_device(v, id).peers == v.peers,
        after_connect(v, id).devices == v.devices,
        after_close(v, id).devices == v.devices,
{
}

/// A blank identifier changes nothing and is refused.
pub proof fn law_blank_ids_are_refused(v: RegistryView, id: Seq<char>, payload: Seq<char>)
    requires
        blank(id),
    ensures
        after_connect(v, id) == v,
        after_close(v, id) == v,
        after_add_device(v, id) == v,
        after_remove_device(v, id) == v,
        connect_outcome(id) is Err,
        sync_outcome(v, id) is Err,
        message_outcome(v, id, payload) is Err,
        close_outcome(id) is Err,
        add_device_outcome(id) is Err,
        remove_device_outcome(id) is Err,
{
}

} // verus!
