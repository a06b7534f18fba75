//! The message channel as the firmware sees it: what an inbound event
//! means, how an outbound payload is framed, and the two queues between
//! the event loop and the transport.

use vstd::prelude::*;
use vstd::string::StringSliceAdditionalSpecFns;

verus! {

/// Topic on which light changes are published.
pub const MQTT_TOPIC_LIGHT_STATE: &'static str = "sensecap/indicator/light/state";

/// Topic on which water levels arrive.
pub const MQTT_TOPIC_WATER_LEVEL: &'static str = "sensecap/indicator/water/level";

/// Highest water level that an inbound payload may carry, in percent.
pub const MAX_WATER_LEVEL: u8 = 100;

/// What the transport tells the event loop.
#[derive(Clone, Copy, Debug, PartialEq, Eq, Structural)]
pub enum MqttMessage {
    WaterLevel(u8),
    Connected,
    Disconnected,
}

/// What the transport reports, reduced to what the firmware reads.
pub enum MqttEvent {
    Connected,
    Disconnected,
    /// A message arrived; either part may be missing.
    Received { topic: Option<Vec<u8>>, data: Option<Vec<u8>> },
    /// Anything else: a publish acknowledgement, an error, a subscription.
    Other,
}

/// Whether `b` is ASCII white space.
pub open spec fn is_space(b: u8) -> bool {
    b == 0x20 || (0x09 <= b <= 0x0D)
}

/// Whether `b` is an ASCII decimal digit.
pub open spec fn is_digit(b: u8) -> bool {
    0x30 <= b <= 0x39
}

/// Index of the first byte at or after `i` that is not white space, or the
/// length of `s` if there is none.
pub open spec fn trim_start(s: Seq<u8>, i: int) -> int
    decreases s.len() - i,
{
    if 0 <= i < s.len() && is_space(s[i]) {
        trim_start(s, i + 1)
    } else {
        i
    }
}

/// One past the last byte before `j` that is not white space, or zero if
/// there is none.
pub open spec fn trim_end(s: Seq<u8>, j: int) -> int
    decreases j,
{
    if 0 < j <= s.len() && is_space(s[j - 1]) {
        trim_end(s, j - 1)
    } else {
        j
    }
}

/// Whether every byte of `s` from `i` up to `j` is a digit.
pub open spec fn all_digits(s: Seq<u8>, i: int, j: int) -> bool {
    forall|k: int| i <= k < j ==> is_digit(#[trigger] s[k])
}

/// The number that the digits of `s` from `i` up to `j` spell.
pub open spec fn decimal_value(s: Seq<u8>, i: int, j: int) -> int
    decreases j - i,
{
    if j <= i {
        0
    } else {
        decimal_value(s, i, j - 1) * 10 + (s[j - 1] - 0x30)
    }
}

/// The water level that a payload carries: white space around it aside, an
/// optional plus sign and then one or more decimal digits that spell a
/// number from 0 to 100. Any other payload carries none.
pub open spec fn water_level_of(s: Seq<u8>) -> Option<u8> {
    let i = trim_start(s, 0);
    let j = trim_end(s, s.len() as int);
    let b = if i < j && s[i] == 0x2B {
        i + 1
    } else {
        i
    };
    if b < j && all_digits(s, b, j) && decimal_value(s, b, j) <= MAX_WATER_LEVEL {
        Some(decimal_value(s, b, j) as u8)
    } else {
        None
    }
}

/// What an inbound message means: a water level, if it came on the water
/// level topic with a payload that carries one; nothing otherwise.
pub open spec fn message_of(topic: Option<Seq<u8>>, data: Option<Seq<u8>>) -> Option<MqttMessage> {
    match (topic, data) {
        (Some(t), Some(d)) => if t == MQTT_TOPIC_WATER_LEVEL.spec_bytes() {
            match water_level_of(d) {
                Some(level) => Some(MqttMessage::WaterLevel(level)),
                None => None,
            }
        } else {
            None
        },
        _ => None,
    }
}

/// The payload that announces a light state: a JSON object with the mode
/// as a string and the state as 1 or 0.
pub open spec fn light_state_payload(mode: &str, state: bool) -> Seq<u8> {
    "{\"mode\":\"".spec_bytes() + mode.spec_bytes() + "\",\"state\":".spec_bytes() + (if state {
        "1".spec_bytes()
    } else {
        "0".spec_bytes()
    }) + "}".spec_bytes()
}

/// Digits spell a number that does not shrink when a digit is appended.
pub proof fn lemma_decimal_value_grows(s: Seq<u8>, i: int, j: int)
    requires
        0 <= i <= j <= s.len(),
        all_digits(s, i, j),
    ensures
        decimal_value(s, i, j) >= 0,
        forall|k: int| i <= k <= j ==> decimal_value(s, i, k) <= #[trigger] decimal_value(s, i, j),
    decreases j - i,
{
    if i < j {
        lemma_decimal_value_grows(s, i, j - 1);
        assert(is_digit(s[j - 1]));
    }
}

/// A payload never carries a level above 100, and a payload that is
/// nothing but digits carries the number they spell if that is at most 100.
pub proof fn lemma_water_level_bounded(s: Seq<u8>)
    ensures
        water_level_of(s) matches Some(level) ==> level <= MAX_WATER_LEVEL,
        s.len() > 0 && all_digits(s, 0, s.len() as int) && decimal_value(s, 0, s.len() as int)
            <= MAX_WATER_LEVEL ==> water_level_of(s) == Some(
            decimal_value(s, 0, s.len() as int) as u8,
        ),
{
    if s.len() > 0 && all_digits(s, 0, s.len() as int) {
        assert(is_digit(s[0]));
        assert(is_digit(s[s.len() - 1]));
        assert(trim_start(s, 0) == 0);
        assert(trim_end(s, s.len() as int) == s.len());
    }
    if water_level_of(s) is Some {
        let i = trim_start(s, 0);
        let j = trim_end(s, s.len() as int);
        let b = if i < j && s[i] == 0x2B {
            i + 1
        } else {
            i
        };
        lemma_trim_bounds(s, 0);
        lemma_trim_end_bounds(s, s.len() as int);
        lemma_decimal_value_grows(s, b, j);
    }
}

/// Trimming at the front stays within the payload.
pub proof fn lemma_trim_bounds(s: Seq<u8>, i: int)
    requires
        0 <= i <= s.len(),
    ensures
        i <= trim_start(s, i) <= s.len(),
    decreases s.len() - i,
{
    if i < s.len() && is_space(s[i]) {
        lemma_trim_bounds(s, i + 1);
    }
}

/// Trimming at the back stays within the payload.
pub proof fn lemma_trim_end_bounds(s: Seq<u8>, j: int)
    requires
        0 <= j <= s.len(),
    ensures
        0 <= trim_end(s, j) <= j,
    decreases j,
{
    if 0 < j && is_space(s[j - 1]) {
        lemma_trim_end_bounds(s, j - 1);
    }
}

/// Parses a water level from a payload.
pub fn parse_water_level(payload: &[u8]) -> (level: Option<u8>)
    ensures
        level == water_level_of(payload@),
{
    let n = payload.len();
    let mut i: usize = 0;
    while i < n && (payload[i] == 0x20 || (0x09 <= payload[i] && payload[i] <= 0x0D))
        invariant
            i <= n,
            n == payload@.len(),
            trim_start(payload@, 0) == trim_start(payload@, i as int),
        decreases n - i,
    {
        i = i + 1;
    }
    let mut j: usize = n;
    while j > 0 && (payload[j - 1] == 0x20 || (0x09 <= payload[j - 1] && payload[j - 1] <= 0x0D))
        invariant
            j <= n,
            n == payload@.len(),
            trim_end(payload@, n as int) == trim_end(payload@, j as int),
        decreases j,
    {
        j = j - 1;
    }
    let b: usize = if i < j && payload[i] == 0x2B {
        i + 1
    } else {
        i
    };
    if b >= j {
        return None;
    }
    let mut value: u32 = 0;
    let mut k: usize = b;
    while k < j
        invariant
            b <= k <= j,
            j <= n,
            n == payload@.len(),
            all_digits(payload@, b as int, k as int),
            water_level_of(payload@) == (if all_digits(payload@, b as int, j as int)
                && decimal_value(payload@, b as int, j as int) <= MAX_WATER_LEVEL {
                Some(decimal_value(payload@, b as int, j as int) as u8)
            } else {
                None
            }),
            value <= 101,
            value == if decimal_value(payload@, b as int, k as int) <= 100 {
                decimal_value(payload@, b as int, k as int)
            } else {
                101
            },
        decreases j - k,
    {
        let byte = payload[k];
        if byte < 0x30 || byte > 0x39 {
            assert(!all_digits(payload@, b as int, j as int)) by {
                assert(!is_digit(payload@[k as int]));
            }
            return None;
        }
        proof {
            lemma_decimal_value_grows(payload@, b as int, k as int);
        }
        value = value * 10 + (byte - 0x30) as u32;
        if value > 100 {
            value = 101;
        }
        k = k + 1;
    }
    if value > 100 {
        return None;
    }
    Some(value as u8)
}

/// Whether two byte strings are the same.
pub fn bytes_equal(a: &[u8], b: &[u8]) -> (same: bool)
    ensures
        same == (a@ == b@),
{
    if a.len() != b.len() {
        return false;
    }
    let mut i: usize = 0;
    while i < a.len()
        invariant
            i <= a.len(),
            a.len() == b.len(),
            forall|k: int| 0 <= k < i ==> a@[k] == b@[k],
        decreases a.len() - i,
    {
        if a[i] != b[i] {
            return false;
        }
        i = i + 1;
    }
    assert(a@ =~= b@);
    true
}

/// Appends `bytes` to `out`.
fn append_bytes(out: &mut Vec<u8>, bytes: &[u8])
    ensures
        final(out)@ == old(out)@ + bytes@,
{
    let mut i: usize = 0;
    while i < bytes.len()
        invariant
            i <= bytes.len(),
            out@ == old(out)@ + bytes@.subrange(0, i as int),
        decreases bytes.len() - i,
    {
        out.push(bytes[i]);
        i = i + 1;
    }
    assert(bytes@.subrange(0, bytes.len() as int) =~= bytes@);
}

/// Mathematical model of an [`MqttClient`].
pub struct MqttClientView {
    /// Messages that arrived and were not taken yet, oldest first.
    pub inbox: Seq<MqttMessage>,
    /// Payloads for the light state topic that were not sent yet, oldest
    /// first.
    pub outbox: Seq<Seq<u8>>,
}

/// The two queues between the event loop and the transport.
pub struct MqttClient {
    inbox: Vec<MqttMessage>,
    outbox: Vec<Vec<u8>>,
}

impl View for MqttClient {
    type V = MqttClientView;

    closed spec fn view(&self) -> MqttClientView {
        MqttClientView {
            inbox: self.inbox@,
            outbox: self.outbox@.map_values(|payload: Vec<u8>| payload@),
        }
    }
}

impl MqttClient {
    /// A client with both queues empty.
    pub fn new() -> (client: MqttClient)
        ensures
            client@ == (MqttClientView { inbox: Seq::empty(), outbox: Seq::empty() }),
    {
        let client = MqttClient { inbox: Vec::new(), outbox: Vec::new() };
        assert(client@.outbox =~= Seq::empty());
        client
    }

    /// What an inbound message means.
    pub fn decode(topic: Option<&[u8]>, data: Option<&[u8]>) -> (message: Option<MqttMessage>)
        ensures
            message == message_of(
                match topic {
                    Some(t) => Some(t@),
                    None => None,
                },
                match data {
                    Some(d) => Some(d@),
                    None => None,
                },
            ),
    {
        match topic {
            Some(t) => {
                if bytes_equal(t, MQTT_TOPIC_WATER_LEVEL.as_bytes()) {
                    match data {
                        Some(d) => match parse_water_level(d) {
                            Some(level) => Some(MqttMessage::WaterLevel(level)),
                            None => None,
                        },
                        None => None,
                    }
                } else {
                    None
                }
            },
            None => None,
        }
    }

    /// Takes an event of the transport and queues what it means for the
    /// event loop: connection changes, and water levels that were
    /// understood. Everything else is dropped.
    pub fn on_event(&mut self, event: &MqttEvent)
        ensures
            final(self)@.outbox == old(self)@.outbox,
            final(self)@.inbox == (match *event {
                MqttEvent::Connected => old(self)@.inbox.push(MqttMessage::Connected),
                MqttEvent::Disconnected => old(self)@.inbox.push(MqttMessage::Disconnected),
                MqttEvent::Received { topic, data } => match message_of(
                    match topic {
                        Some(t) => Some(t@),
                        None => None,
                    },
                    match data {
                        Some(d) => Some(d@),
                        None => None,
                    },
                ) {
                    Some(message) => old(self)@.inbox.push(message),
                    None => old(self)@.inbox,
                },
                MqttEvent::Other => old(self)@.inbox,
            }),
    {
        match event {
            MqttEvent::Connected => {
                self.inbox.push(MqttMessage::Connected);
            },
            MqttEvent::Disconnected => {
                self.inbox.push(MqttMessage::Disconnected);
            },
            MqttEvent::Received { topic, data } => {
                let t: Option<&[u8]> = match topic {
                    Some(t) => Some(t.as_slice()),
                    None => None,
                };
                let d: Option<&[u8]> = match data {
                    Some(d) => Some(d.as_slice()),
                    None => None,
                };
                match MqttClient::decode(t, d) {
                    Some(message) => {
                        self.inbox.push(message);
                    },
                    None => {},
                }
            },
            MqttEvent::Other => {},
        }
    }

    /// Frames the payload that announces a light state.
    pub fn light_state_payload(mode: &str, state: bool) -> (payload: Vec<u8>)
        ensures
            payload@ == light_state_payload(mode, state),
    {
        let mut payload: Vec<u8> = Vec::new();
        append_bytes(&mut payload, "{\"mode\":\"".as_bytes());
        append_bytes(&mut payload, mode.as_bytes());
        append_bytes(&mut payload, "\",\"state\":".as_bytes());
        if state {
            append_bytes(&mut payload, "1".as_bytes());
        } else {
            append_bytes(&mut payload, "0".as_bytes());
        }
        append_bytes(&mut payload, "}".as_bytes());
        assert(payload@ =~= light_state_payload(mode, state));
        payload
    }

    /// Queues the announcement of a light state for the light state topic.
    pub fn publish_light_state(&mut self, mode: &str, state: bool)
        ensures
            final(self)@ == (MqttClientView {
                outbox: old(self)@.outbox.push(light_state_payload(mode, state)),
                ..old(self)@
            }),
    {
        let payload = MqttClient::light_state_payload(mode, state);
        self.outbox.push(payload);
        assert(self@.outbox =~= old(self)@.outbox.push(light_state_payload(mode, state)));
    }

    /// Queues the announcement of a light state for the light state topic.
    pub fn try_publish_light_state(&mut self, mode: &str, state: bool)
        ensures
            final(self)@ == (MqttClientView {
                outbox: old(self)@.outbox.push(light_state_payload(mode, state)),
                ..old(self)@
            }),
    {
        self.publish_light_state(mode, state);
    }

    /// Takes the oldest message that arrived, if there is one.
    pub fn try_recv(&mut self) -> (message: Option<MqttMessage>)
        ensures
            old(self)@.inbox.len() == 0 ==> message.is_none() && final(self)@ == old(self)@,
            old(self)@.inbox.len() > 0 ==> message == Some(old(self)@.inbox[0]) && final(self)@ == (
            MqttClientView { inbox: old(self)@.inbox.drop_first(), ..old(self)@ }),
    {
        if self.inbox.len() == 0 {
            return None;
        }
        let message = self.inbox.remove(0);
        assert(self.inbox@ =~= old(self).inbox@.drop_first());
        Some(message)
    }

    /// The messages that arrived and were not taken yet, oldest first.
    pub fn get_receiver(&self) -> (pending: &Vec<MqttMessage>)
        ensures
            pending@ == self@.inbox,
    {
        &self.inbox
    }

    /// Hands over the payloads queued for the light state topic, oldest
    /// first, and leaves that queue empty.
    pub fn take_publications(&mut self) -> (payloads: Vec<Vec<u8>>)
        ensures
            payloads@.map_values(|payload: Vec<u8>| payload@) == old(self)@.outbox,
            final(self)@ == (MqttClientView { outbox: Seq::empty(), ..old(self)@ }),
    {
        let mut payloads: Vec<Vec<u8>> = Vec::new();
        std::mem::swap(&mut self.outbox, &mut payloads);
        assert(self@.outbox =~= Seq::empty());
        payloads
    }
}

} // verus!
