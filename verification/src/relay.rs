//! The poller script and the relay handler.
//!
//! A script injected into the login page polls page-local storage at a
//! fixed interval until a configuration payload appears under the key
//! `localConfig_v2` (preferred) or the legacy key `localConfig`, then hands
//! it to a host-exposed handler and stops polling once acknowledged.  The
//! handler relays the payload to the main application window and closes
//! the OAuth window.  This path is independent of the token capture and
//! may race with it; both can close the same window, so closing must be
//! idempotent (which [`crate::capture::spec_abort`] guarantees).

use vstd::prelude::*;

verus! {

/// One key/value entry of a string map (page-local storage, or the mapping
/// handed to the relay handler).
#[derive(Debug)]
pub struct ConfigEntry {
    pub key: String,
    pub value: String,
}

/// Mathematical image of a [`ConfigEntry`].
pub ghost struct ConfigEntryView {
    pub key: Seq<char>,
    pub value: Seq<char>,
}

impl View for ConfigEntry {
    type V = ConfigEntryView;

    open spec fn view(&self) -> ConfigEntryView {
        ConfigEntryView { key: self.key@, value: self.value@ }
    }
}

impl DeepView for ConfigEntry {
    type V = ConfigEntryView;

    open spec fn deep_view(&self) -> ConfigEntryView {
        self.view()
    }
}

/// A small string-keyed map, as the poller and the relay handler see it.
#[derive(Debug)]
pub struct ConfigMap {
    pub entries: Vec<ConfigEntry>,
}

impl View for ConfigMap {
    type V = Seq<ConfigEntryView>;

    open spec fn view(&self) -> Seq<ConfigEntryView> {
        self.entries.deep_view()
    }
}

impl DeepView for ConfigMap {
    type V = Seq<ConfigEntryView>;

    open spec fn deep_view(&self) -> Seq<ConfigEntryView> {
        self.view()
    }
}

/// The value of the first entry with the given key, if any.
pub open spec fn map_lookup(m: Seq<ConfigEntryView>, key: Seq<char>) -> Option<Seq<char>>
    decreases m.len(),
{
    if m.len() == 0 {
        None
    } else if m[0].key == key {
        Some(m[0].value)
    } else {
        map_lookup(m.drop_first(), key)
    }
}

/// The storage key the poller prefers.
pub open spec fn preferred_storage_key() -> Seq<char> {
    "localConfig_v2"@
}

/// The legacy storage key the poller falls back to.
pub open spec fn legacy_storage_key() -> Seq<char> {
    "localConfig"@
}

/// The key under which the handler receives the payload.
pub open spec fn relay_payload_key() -> Seq<char> {
    "localConfig"@
}

/// The literal marker the relay handler answers with; receiving it is the
/// acknowledgement that stops the poller.
pub open spec fn ack_marker() -> Seq<char> {
    "data_received"@
}

impl ConfigMap {
    /// Finds the value of the first entry with the given key.
    pub fn get(&self, key: &str) -> (r: Option<String>)
        ensures
            r.deep_view() == map_lookup(self@, key@),
    {
        let n = self.entries.len();
        let mut i: usize = 0;
        assert(self@.skip(0) =~= self@);
        while i < n
            invariant
                n == self.entries.len(),
                0 <= i <= n,
                map_lookup(self@.skip(i as int), key@) == map_lookup(self@, key@),
            decreases n - i,
        {
            let e = &self.entries[i];
            assert(self@[i as int] == self.entries@[i as int].deep_view());
            assert(self@.skip(i as int)[0] == self@[i as int]);
            if crate::text::str_eq(e.key.as_str(), key) {
                return Some(e.value.clone());
            }
            assert(self@.skip(i as int).drop_first() =~= self@.skip(i + 1));
            i = i + 1;
        }
        assert(self@.skip(n as int) =~= Seq::<ConfigEntryView>::empty());
        None
    }
}

/// What the injected poller does on one tick.
#[derive(Debug)]
pub enum PollerStep {
    /// A payload was found in storage: hand this mapping to the relay
    /// handler.
    Deliver { message: ConfigMap },
    /// Nothing in storage yet: poll again at the next interval.
    KeepPolling,
    /// The handler has acknowledged a delivery: stop polling.
    Stop,
}

/// One tick of the injected poller.  Once an acknowledgement has been
/// received the poller stops for good; before that it reads the preferred
/// storage key, falls back to the legacy key, and wraps a found payload
/// under the handler's key.
pub fn poller_step(storage: &ConfigMap, acknowledged: bool) -> (a: PollerStep)
    ensures
        acknowledged ==> a is Stop,
        !acknowledged ==> (match map_lookup(storage@, preferred_storage_key()) {
            Some(p) => a matches PollerStep::Deliver { message } && map_lookup(
                message@,
                relay_payload_key(),
            ) == Some(p),
            None => (match map_lookup(storage@, legacy_storage_key()) {
                Some(p) => a matches PollerStep::Deliver { message } && map_lookup(
                    message@,
                    relay_payload_key(),
                ) == Some(p),
                None => a is KeepPolling,
            }),
        }),
{
    if acknowledged {
        return PollerStep::Stop;
    }
    let found = match storage.get("localConfig_v2") {
        Some(p) => Some(p),
        None => storage.get("localConfig"),
    };
    match found {
        Some(p) => {
            let message = ConfigMap {
                entries: vec![ConfigEntry { key: String::from_str("localConfig"), value: p }],
            };
            assert(message@ =~= seq![message.entries@[0]@]);
            assert(message@.drop_first() =~= Seq::<ConfigEntryView>::empty());
            PollerStep::Deliver { message }
        },
        None => PollerStep::KeepPolling,
    }
}

/// What the relay handler decides to do with the mapping it received.
#[derive(Debug)]
pub struct RelayDecision {
    /// The payload to publish to the main application window, when the
    /// mapping carried one.
    pub publish: Option<String>,
    /// Whether to close the OAuth window.
    pub close_window: bool,
    /// The handler's reply to the poller; always the literal success
    /// marker, whose receipt stops the poller.
    pub reply: String,
}

/// The relay handler's decision: publish the payload found under the
/// handler's key to the main window and close the OAuth window, or do
/// nothing when the key is absent.  The reply is the success marker in
/// either case.
pub fn relay_decision(data: &ConfigMap) -> (d: RelayDecision)
    ensures
        d.publish.deep_view() == map_lookup(data@, relay_payload_key()),
        d.close_window == (map_lookup(data@, relay_payload_key()) is Some),
        d.reply@ == ack_marker(),
{
    let publish = data.get("localConfig");
    let close_window = publish.is_some();
    RelayDecision { publish, close_window, reply: String::from_str("data_received") }
}

} // verus!
