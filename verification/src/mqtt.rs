//! Broker-side logic: command parsing, topic names, payloads, and the
//! decision rules of the two broker loops.
//!
//! The broker connection is pumped by two independent activities: the
//! event pump (receiving packets, driving reconnection and backoff,
//! spotting a successful connect) and the request issuer (sending
//! subscribes and publishes).  Keeping them separate is what prevents
//! the pump from blocking on a queue only it can drain; they talk
//! through a one-slot connect signal.  The decisions of both loops
//! live here as step functions; the sockets, timers and the broker
//! client itself stay outside the library.

use vstd::prelude::*;

verus! {

/// A remote command for the protocol engine.
#[derive(Clone, Copy, Debug, PartialEq, Eq, Structural)]
pub enum Command {
    /// Drive to stored preset 1.
    Preset1,
    /// Drive to stored preset 2.
    Preset2,
    /// Drive to stored preset 3.
    Preset3,
    /// Drive to stored preset 4.
    Preset4,
    /// Run a bare wake/idle cycle without driving.
    Refresh,
}

impl Command {
    /// The preset slot a command drives toward; `None` for a refresh.
    pub fn preset_slot(&self) -> (r: Option<u8>)
        ensures
            r == spec_preset_slot(*self),
    {
        match self {
            Command::Preset1 => Some(1),
            Command::Preset2 => Some(2),
            Command::Preset3 => Some(3),
            Command::Preset4 => Some(4),
            Command::Refresh => None,
        }
    }
}

/// The preset slot of each command; a refresh drives nowhere.
pub open spec fn spec_preset_slot(c: Command) -> Option<u8> {
    match c {
        Command::Preset1 => Some(1u8),
        Command::Preset2 => Some(2u8),
        Command::Preset3 => Some(3u8),
        Command::Preset4 => Some(4u8),
        Command::Refresh => None,
    }
}

/// Every slot a command names is one of the four preset buttons.
pub proof fn lemma_preset_slot_range(c: Command)
    ensures
        spec_preset_slot(c) matches Some(p) ==> 1 <= p <= 4,
{
}

/// The command encoded by a message payload: the single bytes `1`
/// through `4` name the presets, the word `REFRESH` a refresh; every
/// other payload means nothing.
pub open spec fn spec_parse_command(p: Seq<u8>) -> Option<Command> {
    if p.len() == 1 && p[0] == 49u8 {
        Some(Command::Preset1)
    } else if p.len() == 1 && p[0] == 50u8 {
        Some(Command::Preset2)
    } else if p.len() == 1 && p[0] == 51u8 {
        Some(Command::Preset3)
    } else if p.len() == 1 && p[0] == 52u8 {
        Some(Command::Preset4)
    } else if p.len() == 7 && p[0] == 82u8 && p[1] == 69u8 && p[2] == 70u8 && p[3] == 82u8 && p[4]
        == 69u8 && p[5] == 83u8 && p[6] == 72u8 {
        Some(Command::Refresh)
    } else {
        None
    }
}

/// Parse a message payload into a command.
pub fn parse_command(payload: &[u8]) -> (r: Option<Command>)
    ensures
        r == spec_parse_command(payload@),
{
    if payload.len() == 1 {
        match payload[0] {
            49u8 => Some(Command::Preset1),
            50u8 => Some(Command::Preset2),
            51u8 => Some(Command::Preset3),
            52u8 => Some(Command::Preset4),
            _ => None,
        }
    } else if payload.len() == 7 {
        if payload[0] == 82 && payload[1] == 69 && payload[2] == 70 && payload[3] == 82
            && payload[4] == 69 && payload[5] == 83 && payload[6] == 72 {
            Some(Command::Refresh)
        } else {
            None
        }
    } else {
        None
    }
}

/// Character-wise string equality, usable on runtime strings.
pub fn str_eq(a: &str, b: &str) -> (r: bool)
    ensures
        r <==> a@ == b@,
{
    let a_len = a.unicode_len();
    let b_len = b.unicode_len();
    if a_len != b_len {
        proof {
            assert(a@ != b@);
        }
        return false;
    }
    let mut i: usize = 0;
    while i < a_len
        invariant
            a_len == a@.len(),
            b_len == b@.len(),
            a_len == b_len,
            i <= a_len,
            forall|j: int| 0 <= j < i ==> a@[j] == b@[j],
        decreases a_len - i,
    {
        if a.get_char(i) != b.get_char(i) {
            proof {
                assert(a@[i as int] != b@[i as int]);
            }
            return false;
        }
        i = i + 1;
    }
    proof {
        assert(a@ =~= b@);
    }
    true
}

/// A topic under the configured prefix and device id.
pub open spec fn spec_topic(prefix: Seq<char>, id: Seq<char>, leaf: Seq<char>) -> Seq<char> {
    prefix + seq!['/'] + id + seq!['/'] + leaf
}

/// Build `{prefix}/{id}/{leaf}`.
pub fn topic(prefix: &str, id: &str, leaf: &str) -> (r: String)
    ensures
        r@ == spec_topic(prefix@, id@, leaf@),
{
    proof {
        reveal_strlit("/");
        assert("/"@ =~= seq!['/']);
    }
    let mut r = String::from_str(prefix);
    r.append("/");
    r.append(id);
    r.append("/");
    r.append(leaf);
    r
}

/// Topic of the retained presence flag (`ON`/`OFF`, with a last-will
/// `OFF`).
pub fn connected_topic(prefix: &str, id: &str) -> (r: String)
    ensures
        r@ == spec_topic(prefix@, id@, "connected"@),
{
    topic(prefix, id, "connected")
}

/// Topic of the retained height report.
pub fn height_topic(prefix: &str, id: &str) -> (r: String)
    ensures
        r@ == spec_topic(prefix@, id@, "height"@),
{
    topic(prefix, id, "height")
}

/// Topic the controller listens on for commands.
pub fn command_topic(prefix: &str, id: &str) -> (r: String)
    ensures
        r@ == spec_topic(prefix@, id@, "command"@),
{
    topic(prefix, id, "command")
}

/// Broker transports and their standard ports.
#[derive(Clone, Copy, Debug, PartialEq, Eq, Structural)]
pub enum MqttTransport {
    /// Plain TCP, port 1883 unless configured.
    Tcp,
    /// TLS, port 8883 unless configured.
    Tls,
}

impl Default for MqttTransport {
    /// Unconfigured transport defaults to TLS.
    fn default() -> (r: Self)
        ensures
            r is Tls,
    {
        MqttTransport::Tls
    }
}

/// The broker port to use: the configured one, or the transport's
/// standard port.
pub fn effective_port(port: Option<u16>, transport: MqttTransport) -> (r: u16)
    ensures
        port matches Some(p) ==> r == p,
        port is None && transport is Tcp ==> r == 1883,
        port is None && transport is Tls ==> r == 8883,
{
    match port {
        Some(p) => p,
        None => match transport {
            MqttTransport::Tcp => 1883,
            MqttTransport::Tls => 8883,
        },
    }
}

/// Minimum spacing between broker connection attempts, in
/// milliseconds, so a dead broker is not hammered in a hot loop.
pub const MIN_DELAY_MS: u64 = 1000;

/// How long to wait before the next connection attempt, given the time
/// elapsed since the last one: the remainder of the minimum delay
/// window, or nothing once the window has passed.
pub fn backoff_wait(elapsed_ms: u64) -> (r: u64)
    ensures
        elapsed_ms < MIN_DELAY_MS ==> r == MIN_DELAY_MS - elapsed_ms,
        elapsed_ms >= MIN_DELAY_MS ==> r == 0,
{
    if elapsed_ms < MIN_DELAY_MS {
        MIN_DELAY_MS - elapsed_ms
    } else {
        0
    }
}

/// What the broker event pump saw in one poll.
pub enum PumpEvent {
    /// The broker acknowledged a connection.
    ConnAckSuccess,
    /// Our own clean disconnect went out; the next error ends the pump.
    OutgoingDisconnect,
    /// An application message arrived.
    Message {
        /// The topic it was published on.
        topic: String,
        /// Its raw payload bytes.
        payload: Vec<u8>,
    },
    /// Any other successful event; nothing to do.
    OtherOk,
    /// A broker-level error.
    Fault,
}

/// What the event pump must do after one poll.
#[derive(Clone, Copy, Debug, PartialEq, Eq, Structural)]
pub enum PumpAction {
    /// Raise the connect signal so the issuer re-subscribes and
    /// republishes presence (never done from the pump itself, which
    /// must keep draining the queue).
    SignalConnected,
    /// Push this command to the command channel.
    PushCommand(Command),
    /// Wait out the rest of the minimum delay window, then poll again.
    Backoff,
    /// Stop pumping: the clean shutdown has completed.
    Stop,
    /// Keep pumping.
    Nothing,
}

/// The pump's action for one event: a successful connect raises the
/// signal; a message on the command topic that parses becomes a
/// command; an error stops the pump if a clean shutdown was under way
/// and otherwise backs off and retries.
pub open spec fn spec_pump_action(
    stopping: bool,
    command_topic: Seq<char>,
    e: PumpEvent,
) -> PumpAction {
    match e {
        PumpEvent::ConnAckSuccess => PumpAction::SignalConnected,
        PumpEvent::OutgoingDisconnect => PumpAction::Nothing,
        PumpEvent::Message { topic, payload } => {
            if topic@ == command_topic {
                match spec_parse_command(payload@) {
                    Some(c) => PumpAction::PushCommand(c),
                    None => PumpAction::Nothing,
                }
            } else {
                PumpAction::Nothing
            }
        },
        PumpEvent::OtherOk => PumpAction::Nothing,
        PumpEvent::Fault => if stopping {
            PumpAction::Stop
        } else {
            PumpAction::Backoff
        },
    }
}

/// Whether the pump is in clean shutdown after this event: once our
/// own disconnect has gone out, it stays that way.
pub open spec fn spec_pump_stopping(stopping: bool, e: PumpEvent) -> bool {
    stopping || e is OutgoingDisconnect
}

/// The broker event pump's state: whether a clean shutdown is under
/// way.
pub struct EventPump {
    /// Set once our own disconnect went out.
    pub stopping: bool,
}

impl EventPump {
    /// A pump that has just connected for the first time.
    pub fn new() -> (r: Self)
        ensures
            !r.stopping,
    {
        EventPump { stopping: false }
    }

    /// Decide what one polled event means.
    pub fn step(&mut self, command_topic: &str, e: &PumpEvent) -> (r: PumpAction)
        ensures
            r == spec_pump_action(old(self).stopping, command_topic@, *e),
            final(self).stopping == spec_pump_stopping(old(self).stopping, *e),
    {
        match e {
            PumpEvent::ConnAckSuccess => PumpAction::SignalConnected,
            PumpEvent::OutgoingDisconnect => {
                self.stopping = true;
                PumpAction::Nothing
            }
            PumpEvent::Message { topic, payload } => {
                if str_eq(topic.as_str(), command_topic) {
                    match parse_command(payload.as_slice()) {
                        Some(c) => PumpAction::PushCommand(c),
                        None => PumpAction::Nothing,
                    }
                } else {
                    PumpAction::Nothing
                }
            }
            PumpEvent::OtherOk => PumpAction::Nothing,
            PumpEvent::Fault => {
                if self.stopping {
                    PumpAction::Stop
                } else {
                    PumpAction::Backoff
                }
            }
        }
    }
}

/// What woke the request issuer.
#[derive(Clone, Copy, Debug, PartialEq, Eq, Structural)]
pub enum IssuerEvent {
    /// The pump signalled a fresh connection.
    ConnectSignal,
    /// The pump is gone; its signal channel closed.
    SignalClosed,
    /// The height channel changed; the latest reading, in tenths.
    HeightUpdate(Option<u16>),
    /// The height channel closed; the engine is gone.
    HeightClosed,
}

/// What the request issuer must do.
#[derive(Clone, Copy, Debug, PartialEq, Eq, Structural)]
pub enum IssuerAction {
    /// Re-subscribe to the command topic and publish the presence
    /// on-flag (the last will flips it off on ungraceful disconnect,
    /// so every fresh connection must set it again).
    Announce,
    /// Publish this height, in tenths, retained, to the height topic.
    PublishHeight(u16),
    /// Stop issuing and disconnect cleanly.
    Shutdown,
    /// Nothing to send.
    Nothing,
}

/// The issuer's rule: announce on every fresh connection, publish
/// every known height update, shut down when either peer is gone.  An
/// unreadable height is not published.
pub open spec fn spec_issuer_action(e: IssuerEvent) -> IssuerAction {
    match e {
        IssuerEvent::ConnectSignal => IssuerAction::Announce,
        IssuerEvent::SignalClosed => IssuerAction::Shutdown,
        IssuerEvent::HeightUpdate(h) => match h {
            Some(t) => IssuerAction::PublishHeight(t),
            None => IssuerAction::Nothing,
        },
        IssuerEvent::HeightClosed => IssuerAction::Shutdown,
    }
}

/// Decide what one issuer wakeup means.
pub fn issuer_action(e: IssuerEvent) -> (r: IssuerAction)
    ensures
        r == spec_issuer_action(e),
{
    match e {
        IssuerEvent::ConnectSignal => IssuerAction::Announce,
        IssuerEvent::SignalClosed => IssuerAction::Shutdown,
        IssuerEvent::HeightUpdate(h) => match h {
            Some(t) => IssuerAction::PublishHeight(t),
            None => IssuerAction::Nothing,
        },
        IssuerEvent::HeightClosed => IssuerAction::Shutdown,
    }
}

/// The decimal character of one digit.
pub open spec fn spec_digit_char(d: u16) -> char {
    if d == 0 {
        '0'
    } else if d == 1 {
        '1'
    } else if d == 2 {
        '2'
    } else if d == 3 {
        '3'
    } else if d == 4 {
        '4'
    } else if d == 5 {
        '5'
    } else if d == 6 {
        '6'
    } else if d == 7 {
        '7'
    } else if d == 8 {
        '8'
    } else {
        '9'
    }
}

/// The decimal digits of a whole number of units (at most two digits,
/// since heights stay below one hundred units).
pub open spec fn spec_unit_digits(n: u16) -> Seq<char> {
    if n >= 10 {
        seq![spec_digit_char(n / 10), spec_digit_char(n % 10)]
    } else {
        seq![spec_digit_char(n)]
    }
}

/// The payload published for a height of `t` tenths: the engineering
/// value as a decimal string, with the fractional digit only when it
/// is not zero (`105` becomes `10.5`, `100` becomes `10`).
pub open spec fn spec_height_payload(t: u16) -> Seq<char> {
    if t % 10 == 0 {
        spec_unit_digits(t / 10)
    } else {
        spec_unit_digits(t / 10) + seq!['.'] + seq![spec_digit_char(t % 10)]
    }
}

/// One decimal digit as a string slice.
fn digit_str(d: u16) -> (r: &'static str)
    requires
        d <= 9,
    ensures
        r@ == seq![spec_digit_char(d)],
{
    proof {
        reveal_strlit("0");
        reveal_strlit("1");
        reveal_strlit("2");
        reveal_strlit("3");
        reveal_strlit("4");
        reveal_strlit("5");
        reveal_strlit("6");
        reveal_strlit("7");
        reveal_strlit("8");
        reveal_strlit("9");
    }
    let r = match d {
        0u16 => "0",
        1u16 => "1",
        2u16 => "2",
        3u16 => "3",
        4u16 => "4",
        5u16 => "5",
        6u16 => "6",
        7u16 => "7",
        8u16 => "8",
        _ => "9",
    };
    proof {
        assert(r@ =~= seq![spec_digit_char(d)]);
    }
    r
}

/// Format a height in tenths as the decimal payload string.
pub fn height_payload(tenths: u16) -> (r: String)
    requires
        tenths <= 999,
    ensures
        r@ == spec_height_payload(tenths),
{
    let units = tenths / 10;
    let frac = tenths % 10;
    let mut r = String::new();
    if units >= 10 {
        r.append(digit_str(units / 10));
        r.append(digit_str(units % 10));
    } else {
        r.append(digit_str(units));
    }
    if frac != 0 {
        proof {
            reveal_strlit(".");
            assert("."@ =~= seq!['.']);
        }
        r.append(".");
        r.append(digit_str(frac));
    }
    proof {
        assert(r@ =~= spec_height_payload(tenths));
    }
    r
}

} // verus!
