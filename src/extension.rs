//! The runtime that owns the host connection, as decisions on plain
//! values: startup configuration, classification of inbound frames,
//! replies to requests, and the frames that are due to be written.
use std::sync::Arc;
use vstd::prelude::*;
use vstd::string::*;
use crate::queue::{MessageQueue, SharedQueue};
use crate::wire::{
    is_json, member_text, str_member, str_eq, DataPacket, Envelope, EventMessage, broadcast_method,
    is_hyphenated_uuid, json_member_text, json_str_member, json_text_valid, opt_view, packet_frame,
};

verus! {

/// Whether `text` is an accepted absolute URL to url::Url::parse.
pub uninterp spec fn url_accepts(text: Seq<char>) -> bool;

#[verifier::external_type_specification]
#[verifier::external_body]
pub struct ExUrl(url::Url);

/// Relies on url::Url::parse: it succeeds exactly on the inputs it accepts.
#[verifier::external_body]
fn parse_url(text: &str) -> (r: Option<url::Url>)
    ensures
        r.is_some() == url_accepts(text@),
{
    url::Url::parse(text).ok()
}

/// A startup field that the host must provide.
#[derive(Debug, Clone, Copy, PartialEq, Eq, Structural)]
pub enum ConfigField {
    Port,
    ExtensionId,
    ConnectToken,
    Token,
}

/// Why the runtime cannot connect.
#[derive(Debug, Clone, Copy, PartialEq, Eq, Structural)]
pub enum StartupError {
    /// The startup input is not well-formed JSON.
    Malformed,
    /// A required field is absent or not a string.
    MissingField(ConfigField),
    /// No startup input has been accepted yet.
    NotConfigured,
    /// The connection URL is refused by the URL parser.
    InvalidUrl,
}

/// The connection coordinates and session token read once at startup.
pub struct Config {
    pub port: String,
    pub extension_id: String,
    pub connect_token: String,
    pub token: String,
}

/// The first absent field among the startup fields, in the order port,
/// extension id, connect token, token.
pub open spec fn first_missing(
    port: Option<Seq<char>>,
    extension_id: Option<Seq<char>>,
    connect_token: Option<Seq<char>>,
    token: Option<Seq<char>>,
) -> Option<ConfigField> {
    if port.is_none() {
        Some(ConfigField::Port)
    } else if extension_id.is_none() {
        Some(ConfigField::ExtensionId)
    } else if connect_token.is_none() {
        Some(ConfigField::ConnectToken)
    } else if token.is_none() {
        Some(ConfigField::Token)
    } else {
        None
    }
}

/// The channel URL for the given coordinates.
pub open spec fn url_text(port: Seq<char>, extension_id: Seq<char>, connect_token: Seq<char>) -> Seq<
    char,
> {
    "ws://127.0.0.1:"@ + port + "?extensionId="@ + extension_id + "&connectToken="@ + connect_token
}

impl Config {
    /// A configuration from the startup fields, or the first one missing.
    pub fn from_members(
        port: Option<String>,
        extension_id: Option<String>,
        connect_token: Option<String>,
        token: Option<String>,
    ) -> (r: Result<Config, StartupError>)
        ensures
            match first_missing(
                opt_view(port),
                opt_view(extension_id),
                opt_view(connect_token),
                opt_view(token),
            ) {
                Some(f) => r == Err::<Config, StartupError>(StartupError::MissingField(f)),
                None => r.is_ok() && r->Ok_0.port == port->Some_0 && r->Ok_0.extension_id
                    == extension_id->Some_0 && r->Ok_0.connect_token == connect_token->Some_0
                    && r->Ok_0.token == token->Some_0,
            },
    {
        match (port, extension_id, connect_token, token) {
            (Some(port), Some(extension_id), Some(connect_token), Some(token)) => Ok(
                Config { port, extension_id, connect_token, token },
            ),
            (None, _, _, _) => Err(StartupError::MissingField(ConfigField::Port)),
            (_, None, _, _) => Err(StartupError::MissingField(ConfigField::ExtensionId)),
            (_, _, None, _) => Err(StartupError::MissingField(ConfigField::ConnectToken)),
            (_, _, _, None) => Err(StartupError::MissingField(ConfigField::Token)),
        }
    }

    /// The channel URL for this configuration.
    pub fn url(&self) -> (r: String)
        ensures
            r@ == url_text(self.port@, self.extension_id@, self.connect_token@),
    {
        let mut s = String::from_str("ws://127.0.0.1:");
        s.append(self.port.as_str());
        s.append("?extensionId=");
        s.append(self.extension_id.as_str());
        s.append("&connectToken=");
        s.append(self.connect_token.as_str());
        s
    }
}


/// Whether an event name is one of the two that end the process.
pub open spec fn is_close_event(e: Seq<char>) -> bool {
    e == "windowClose"@ || e == "appClose"@
}

/// What the runtime does with one inbound frame.
pub enum FrameOutcome {
    /// The frame is not well-formed JSON: it is dropped.
    Malformed,
    /// The frame carries a close event: the process ends.
    Close,
    /// Any other envelope: it is handed to the callback.
    Deliver(Envelope),
}

/// The outcome for a decoded envelope `d` whose event member holds
/// `event`.
pub fn frame_outcome(d: Envelope, event: Option<String>) -> (r: FrameOutcome)
    ensures
        match event {
            Some(e) => if is_close_event(e@) {
                r is Close
            } else {
                r == FrameOutcome::Deliver(d)
            },
            None => r == FrameOutcome::Deliver(d),
        },
{
    match event {
        Some(e) => {
            if str_eq(e.as_str(), "windowClose") || str_eq(e.as_str(), "appClose") {
                FrameOutcome::Close
            } else {
                FrameOutcome::Deliver(d)
            }
        },
        None => FrameOutcome::Deliver(d),
    }
}

/// The runtime's state: the startup configuration once accepted, the
/// session token, the channel URL, the messages due to be written to the
/// host in order, and the queue that background workers push to.
pub struct Extension {
    config: Option<Config>,
    url_ipc: String,
    token: String,
    outbox: MessageQueue<EventMessage>,
    pub messages: Arc<SharedQueue<EventMessage>>,
}

impl Extension {
    pub open spec fn configured(&self) -> bool {
        self.spec_config().is_some()
    }

    pub closed spec fn spec_config(&self) -> Option<Config> {
        self.config
    }

    pub closed spec fn spec_token(&self) -> Seq<char> {
        self.token@
    }

    pub closed spec fn spec_url(&self) -> Seq<char> {
        self.url_ipc@
    }

    /// The handle on the queue that background workers push to.
    pub closed spec fn spec_messages(&self) -> Arc<SharedQueue<EventMessage>> {
        self.messages
    }

    /// The messages due to be written, oldest first.
    pub closed spec fn pending(&self) -> Seq<(Seq<char>, Seq<char>)> {
        self.outbox@.map_values(|m: EventMessage| m@)
    }

    pub fn new() -> (r: Self)
        ensures
            r.spec_config().is_none(),
            r.spec_token() == Seq::<char>::empty(),
            r.spec_url() == Seq::<char>::empty(),
            r.pending() == Seq::<(Seq<char>, Seq<char>)>::empty(),
    {
        let r = Extension {
            config: None,
            url_ipc: String::new(),
            token: String::new(),
            outbox: MessageQueue::new(),
            messages: Arc::new(SharedQueue::new()),
        };
        assert(r.pending() =~= Seq::<(Seq<char>, Seq<char>)>::empty());
        r
    }

    /// Accepts the startup input: JSON text with the string fields
    /// `nlPort`, `nlExtensionId`, `nlConnectToken` and `nlToken`. On
    /// success the session token and the channel URL are set from it; on
    /// failure nothing changes.
    pub fn configure(&mut self, startup: &str) -> (r: Result<(), StartupError>)
        ensures
            !json_text_valid(startup@) ==> r == Err::<(), StartupError>(StartupError::Malformed),
            json_text_valid(startup@) ==> ({
                let port = json_str_member(startup@, "nlPort"@);
                let ext = json_str_member(startup@, "nlExtensionId"@);
                let ct = json_str_member(startup@, "nlConnectToken"@);
                let tok = json_str_member(startup@, "nlToken"@);
                match first_missing(port, ext, ct, tok) {
                    Some(f) => r == Err::<(), StartupError>(StartupError::MissingField(f)),
                    None => {
                        &&& r == Ok::<(), StartupError>(())
                        &&& final(self).configured()
                        &&& final(self).spec_token() == tok->Some_0
                        &&& final(self).spec_url() == url_text(port->Some_0, ext->Some_0, ct->Some_0)
                    },
                }
            }),
            r is Err ==> final(self).spec_config() == old(self).spec_config()
                && final(self).spec_token() == old(self).spec_token()
                && final(self).spec_url() == old(self).spec_url(),
            final(self).pending() == old(self).pending(),
            final(self).spec_messages() == old(self).spec_messages(),
    {
        if !is_json(startup) {
            return Err(StartupError::Malformed);
        }
        let c = Config::from_members(
            str_member(startup, "nlPort"),
            str_member(startup, "nlExtensionId"),
            str_member(startup, "nlConnectToken"),
            str_member(startup, "nlToken"),
        );
        match c {
            Ok(c) => {
                self.token = c.token.clone();
                self.url_ipc = c.url();
                self.config = Some(c);
                Ok(())
            },
            Err(e) => Err(e),
        }
    }

    /// The parsed channel URL; only a configured runtime has one.
    pub fn endpoint(&self) -> (r: Result<url::Url, StartupError>)
        ensures
            !self.configured() ==> r == Err::<url::Url, StartupError>(StartupError::NotConfigured),
            self.configured() ==> (r is Ok <==> url_accepts(self.spec_url())),
            self.configured() && !url_accepts(self.spec_url()) ==> r == Err::<
                url::Url,
                StartupError,
            >(StartupError::InvalidUrl),
    {
        if self.config.is_none() {
            return Err(StartupError::NotConfigured);
        }
        match parse_url(self.url_ipc.as_str()) {
            Some(u) => Ok(u),
            None => Err(StartupError::InvalidUrl),
        }
    }

    /// Queues a message for the host; the runtime writes due messages in
    /// the order they were sent.
    pub fn send_message(&mut self, event: &str, data: &str)
        ensures
            final(self).pending() == old(self).pending().push((event@, data@)),
            final(self).spec_config() == old(self).spec_config(),
            final(self).spec_token() == old(self).spec_token(),
            final(self).spec_url() == old(self).spec_url(),
            final(self).spec_messages() == old(self).spec_messages(),
    {
        let m = EventMessage::new(event, data);
        proof {
            assert(self.outbox@.push(m).map_values(|m: EventMessage| m@) =~= self.pending().push(
                m@,
            ));
        }
        self.outbox.push(m);
    }

    /// Takes the oldest due message and frames it as a broadcast packet
    /// under the session token, with a fresh identifier; `None` when
    /// nothing is due.
    pub fn next_frame(&mut self) -> (r: Option<String>)
        ensures
            old(self).pending().len() == 0 ==> r.is_none() && final(self).pending() == old(
                self,
            ).pending(),
            old(self).pending().len() > 0 ==> ({
                let (event, data) = old(self).pending()[0];
                &&& final(self).pending() == old(self).pending().drop_first()
                &&& r is Some
                &&& exists|id: Seq<char>|
                    is_hyphenated_uuid(id) && r->Some_0@ == #[trigger] packet_frame(
                        id,
                        broadcast_method(),
                        old(self).spec_token(),
                        event,
                        data,
                    )
            }),
            final(self).spec_config() == old(self).spec_config(),
            final(self).spec_token() == old(self).spec_token(),
    {
        match self.outbox.pop() {
            Some(m) => {
                proof {
                    assert(self.pending() =~= old(self).pending().drop_first());
                }
                let ghost head = m@;
                assert(old(self).pending()[0] == head);
                let p = DataPacket::broadcast(self.token.as_str(), m);
                let f = p.encode();
                proof {
                    assert(p.data.event@ == head.0 && p.data.data@ == head.1);
                    assert(f@ == packet_frame(p.id@, broadcast_method(), self.spec_token(), head.0, head.1));
                    let id = p.id@;
                    assert(is_hyphenated_uuid(id) && f@ == packet_frame(
                        id,
                        broadcast_method(),
                        old(self).spec_token(),
                        old(self).pending()[0].0,
                        old(self).pending()[0].1,
                    ));
                }
                Some(f)
            },
            None => None,
        }
    }

    /// Makes the message popped from the shared queue, if any, due to be
    /// written; returns whether there was one.
    pub fn forward(&mut self, popped: Option<EventMessage>) -> (r: bool)
        ensures
            r == popped.is_some(),
            final(self).pending() == match popped {
                Some(m) => old(self).pending().push(m@),
                None => old(self).pending(),
            },
            final(self).spec_config() == old(self).spec_config(),
            final(self).spec_token() == old(self).spec_token(),
            final(self).spec_url() == old(self).spec_url(),
            final(self).spec_messages() == old(self).spec_messages(),
    {
        match popped {
            Some(m) => {
                self.send_message(m.event.as_str(), m.data.as_str());
                true
            },
            None => false,
        }
    }

    /// Moves at most one message, the head, from the shared queue to the
    /// due messages; returns whether one was moved. Which message that is
    /// depends on what the other threads pushed.
    pub fn forward_queued(&mut self) -> (r: bool)
        ensures
            r ==> exists|m: (Seq<char>, Seq<char>)|
                final(self).pending() == #[trigger] old(self).pending().push(m),
            !r ==> final(self).pending() == old(self).pending(),
            final(self).spec_config() == old(self).spec_config(),
            final(self).spec_token() == old(self).spec_token(),
            final(self).spec_url() == old(self).spec_url(),
    {
        let popped = self.messages.pop();
        self.forward(popped)
    }

    /// Whether the envelope carries the event `event_name`.
    pub fn is_event(&self, d: &Envelope, event_name: &str) -> (r: bool)
        ensures
            r == (json_str_member(d@, "event"@) == Some(event_name@)),
    {
        match str_member(d.text.as_str(), "event") {
            Some(e) => str_eq(e.as_str(), event_name),
            None => false,
        }
    }

    /// The envelope's nested `data` value, or an empty object.
    pub fn get_data(&self, d: &Envelope) -> (r: Envelope)
        ensures
            r@ == data_text(d@),
    {
        match member_text(d.text.as_str(), "data") {
            Some(t) => Envelope { text: t },
            None => Envelope { text: String::from_str("{}") },
        }
    }

    /// Decodes one inbound frame and decides what the runtime does with it.
    pub fn decode_frame(&self, text: &str) -> (r: FrameOutcome)
        ensures
            !json_text_valid(text@) ==> r is Malformed,
            json_text_valid(text@) ==> match json_str_member(text@, "event"@) {
                Some(e) => if is_close_event(e) {
                    r is Close
                } else {
                    r is Deliver && r->Deliver_0@ == text@
                },
                None => r is Deliver && r->Deliver_0@ == text@,
            },
    {
        if !is_json(text) {
            return FrameOutcome::Malformed;
        }
        let e = str_member(text, "event");
        frame_outcome(Envelope { text: String::from_str(text) }, e)
    }
}

/// The text of an envelope's nested `data` value, or of an empty object
/// where it has none.
pub open spec fn data_text(t: Seq<char>) -> Seq<char> {
    match json_member_text(t, "data"@) {
        Some(x) => x,
        None => "{}"@,
    }
}

} // verus!
