//! The MQTT side of the firmware: the topics it uses, what it does with an
//! incoming message, the decisions of its session loop, and the formatting
//! of sensor readings. The loop itself, which talks to the broker, lives with
//! the caller: it performs the actions these functions decide on.
use vstd::prelude::*;
use vstd::string::*;
use crate::discovery::{
    lemma_discovery_topic_text, lemma_encode_utf8_concat, lemma_humidity_payload_literal, lemma_switch_payload_text,
    lemma_temperature_payload_literal, BASE_TOPIC, discovery_topic_pieces, discovery_topic_sensor, discovery_topic_switch, humidity_payload,
    humidity_payload_text, switch_payload, switch_payload_pieces, temperature_payload,
    temperature_payload_text,
};
use crate::text::{
    fill_within, lemma_ascii_bytes_len, lemma_fill_within_exact, occurs_at, occurs_at_exec,
    push16_ascii, push64, push64_fitting, string128_bytes, string16_bytes, string16_new,
    string512_bytes, string64_bytes, string64_new,
};

verus! {

/// Base of every topic this device publishes or subscribes to.
pub const BASE: &'static str = "wooden-box";

/// Keep-alive interval negotiated with the broker, in seconds.
pub const KEEPALIVE_SECS: u16 = 30;

/// Interval between two status lines on the console, in microseconds (5 s).
pub const STATUS_INTERVAL_US: u64 = 5_000_000;

/// Interval between two publications of the sensor readings, in
/// microseconds (30 s).
pub const SENSOR_INTERVAL_US: u64 = 30_000_000;

/// Pause at the end of each loop iteration, in milliseconds.
pub const LOOP_YIELD_MS: u64 = 10;

// ---- Topics ----------------------------------------------------------------

/// The byte length of the base topic.
proof fn lemma_base_len()
    ensures
        BASE.spec_bytes().len() == 10,
        BASE@.len() == 10,
{
    reveal_strlit("wooden-box");
    lemma_ascii_bytes_len(BASE);
}

fn fixed_topic(suffix: &str) -> (t: heapless::String<64>)
    requires
        suffix.spec_bytes().len() <= 54,
    ensures
        string64_bytes(t) == BASE.spec_bytes() + suffix.spec_bytes(),
{
    proof {
        lemma_base_len();
    }
    let mut t = string64_new();
    push64_fitting(&mut t, BASE);
    push64_fitting(&mut t, suffix);
    t
}

/// Topic of the device's availability: `wooden-box/status`. The broker
/// publishes `offline` there as the last will; the device publishes `online`
/// once connected.
pub fn status_topic() -> (t: heapless::String<64>)
    ensures
        string64_bytes(t) == BASE.spec_bytes() + "/status".spec_bytes(),
{
    proof {
        reveal_strlit("/status");
        lemma_ascii_bytes_len("/status");
    }
    fixed_topic("/status")
}

/// Subscription filter for switch commands: `wooden-box/switch/+/command`.
pub fn command_filter() -> (t: heapless::String<64>)
    ensures
        string64_bytes(t) == BASE.spec_bytes() + "/switch/+/command".spec_bytes(),
{
    proof {
        reveal_strlit("/switch/+/command");
        lemma_ascii_bytes_len("/switch/+/command");
    }
    fixed_topic("/switch/+/command")
}

/// Topic of the lights automation state: `wooden-box/automation/lights_on`.
pub fn lights_topic() -> (t: heapless::String<64>)
    ensures
        string64_bytes(t) == BASE.spec_bytes() + "/automation/lights_on".spec_bytes(),
{
    proof {
        reveal_strlit("/automation/lights_on");
        lemma_ascii_bytes_len("/automation/lights_on");
    }
    fixed_topic("/automation/lights_on")
}

/// Topic on which a button press is published: `wooden-box/button/toggle`.
pub fn button_topic() -> (t: heapless::String<64>)
    ensures
        string64_bytes(t) == BASE.spec_bytes() + "/button/toggle".spec_bytes(),
{
    proof {
        reveal_strlit("/button/toggle");
        lemma_ascii_bytes_len("/button/toggle");
    }
    fixed_topic("/button/toggle")
}

/// The pieces of the state topic of switch `switch_id`:
/// `wooden-box/switch/<switch_id>/state`.
pub open spec fn switch_state_topic_pieces(switch_id: Seq<u8>) -> Seq<Seq<u8>> {
    seq![BASE.spec_bytes(), "/switch/".spec_bytes(), switch_id, "/state".spec_bytes()]
}

/// The pieces of the state topic of sensor `sensor`:
/// `wooden-box/sensor/<sensor>/state`.
pub open spec fn sensor_state_topic_pieces(sensor: Seq<u8>) -> Seq<Seq<u8>> {
    seq![BASE.spec_bytes(), "/sensor/".spec_bytes(), sensor, "/state".spec_bytes()]
}

fn four_piece_topic(a: &str, b: &str, c: &str, d: &str) -> (t: heapless::String<64>)
    ensures
        string64_bytes(t) == fill_within(
            seq![a.spec_bytes(), b.spec_bytes(), c.spec_bytes(), d.spec_bytes()],
            64,
        ),
{
    let mut t = string64_new();
    let ghost pieces: Seq<Seq<u8>> = Seq::empty();
    push64(&mut t, a, Ghost(pieces));
    let ghost pieces = pieces.push(a.spec_bytes());
    push64(&mut t, b, Ghost(pieces));
    let ghost pieces = pieces.push(b.spec_bytes());
    push64(&mut t, c, Ghost(pieces));
    let ghost pieces = pieces.push(c.spec_bytes());
    push64(&mut t, d, Ghost(pieces));
    let ghost pieces = pieces.push(d.spec_bytes());
    assert(pieces =~= seq![a.spec_bytes(), b.spec_bytes(), c.spec_bytes(), d.spec_bytes()]);
    t
}

/// State topic of switch `switch_id`, on which its state is echoed back to
/// Home Assistant. A piece that no longer fits in the 64-byte buffer is left
/// out; when the whole topic fits, it is exactly the concatenation.
pub fn switch_state_topic(switch_id: &str) -> (t: heapless::String<64>)
    ensures
        string64_bytes(t) == fill_within(switch_state_topic_pieces(switch_id.spec_bytes()), 64),
        switch_state_topic_pieces(switch_id.spec_bytes()).flatten().len() <= 64
            ==> string64_bytes(t) == switch_state_topic_pieces(switch_id.spec_bytes()).flatten(),
{
    let t = four_piece_topic(BASE, "/switch/", switch_id, "/state");
    proof {
        let pieces = switch_state_topic_pieces(switch_id.spec_bytes());
        if pieces.flatten().len() <= 64 {
            lemma_fill_within_exact(pieces, 64);
        }
    }
    t
}

/// State topic of sensor `sensor`. A piece that no longer fits in the
/// 64-byte buffer is left out; when the whole topic fits, it is exactly the
/// concatenation.
pub fn sensor_state_topic(sensor: &str) -> (t: heapless::String<64>)
    ensures
        string64_bytes(t) == fill_within(sensor_state_topic_pieces(sensor.spec_bytes()), 64),
        sensor_state_topic_pieces(sensor.spec_bytes()).flatten().len() <= 64 ==> string64_bytes(t)
            == sensor_state_topic_pieces(sensor.spec_bytes()).flatten(),
{
    let t = four_piece_topic(BASE, "/sensor/", sensor, "/state");
    proof {
        let pieces = sensor_state_topic_pieces(sensor.spec_bytes());
        if pieces.flatten().len() <= 64 {
            lemma_fill_within_exact(pieces, 64);
        }
    }
    t
}

// ---- Payloads --------------------------------------------------------------

/// The payload `ON`.
pub open spec fn on_payload() -> Seq<u8> {
    seq![79u8, 78u8]
}

/// Whether a command payload switches on: exactly the bytes `ON`.
pub fn payload_is_on(payload: &[u8]) -> (on: bool)
    ensures
        on == (payload@ == on_payload()),
{
    if payload.len() == 2 && payload[0] == 79u8 && payload[1] == 78u8 {
        assert(payload@ =~= on_payload());
        true
    } else {
        false
    }
}

/// The retained payload that reports a switch state: `ON` or `OFF`.
pub fn switch_state_payload(on: bool) -> (p: &'static str)
    ensures
        p@ == (if on {
            "ON"@
        } else {
            "OFF"@
        }),
{
    if on {
        "ON"
    } else {
        "OFF"
    }
}

/// Payload published on the status topic once connected.
pub const ONLINE_PAYLOAD: &'static str = "online";

/// Payload the broker publishes on the status topic as the last will.
pub const OFFLINE_PAYLOAD: &'static str = "offline";

/// Payload published on the button topic for each press.
pub const PRESSED_PAYLOAD: &'static str = "pressed";

// ---- Incoming messages -----------------------------------------------------

/// The topics of switch commands start with `wooden-box/switch/`.
pub open spec fn command_prefix() -> Seq<char> {
    BASE@ + "/switch/"@
}

/// The topics of switch commands end with `/command`.
pub open spec fn command_suffix() -> Seq<char> {
    "/command"@
}

/// Whether `topic` is `wooden-box/switch/<switch id>/command` for some
/// (possibly empty) switch id.
pub open spec fn is_switch_command_topic(topic: Seq<char>) -> bool {
    &&& topic.len() >= command_prefix().len() + command_suffix().len()
    &&& topic.subrange(0, command_prefix().len() as int) == command_prefix()
    &&& topic.subrange(topic.len() - command_suffix().len(), topic.len() as int)
        == command_suffix()
}

/// The switch id of a switch command topic: what lies between the prefix and
/// the suffix.
pub open spec fn command_switch_id(topic: Seq<char>) -> Seq<char> {
    topic.subrange(command_prefix().len() as int, topic.len() - command_suffix().len())
}

/// The topic of the lights automation state, as characters.
pub open spec fn lights_topic_chars() -> Seq<char> {
    BASE@ + "/automation/lights_on"@
}

/// The MQTT quality of service of a publication.
#[derive(Clone, Copy, Debug, PartialEq, Eq, Structural)]
pub enum Qos {
    /// Delivered at most once, without acknowledgement.
    AtMostOnce,
    /// Delivered at least once.
    AtLeastOnce,
    /// Delivered exactly once.
    ExactlyOnce,
}

/// A publication of a fixed text on a topic of this device.
pub struct TextPublication {
    pub topic: heapless::String<64>,
    pub payload: &'static str,
    /// Whether the broker keeps it for later subscribers.
    pub retain: bool,
    pub qos: Qos,
}

/// The publication of a button press: `pressed` on `wooden-box/button/toggle`,
/// QoS 0, not retained.
pub fn button_publication() -> (p: TextPublication)
    ensures
        string64_bytes(p.topic) == BASE.spec_bytes() + "/button/toggle".spec_bytes(),
        p.payload@ == "pressed"@,
        !p.retain,
        p.qos == Qos::AtMostOnce,
{
    TextPublication {
        topic: button_topic(),
        payload: PRESSED_PAYLOAD,
        retain: false,
        qos: Qos::AtMostOnce,
    }
}

/// The publication that marks the device available once connected: `online`
/// on `wooden-box/status`, QoS 0, retained.
pub fn online_publication() -> (p: TextPublication)
    ensures
        string64_bytes(p.topic) == BASE.spec_bytes() + "/status".spec_bytes(),
        p.payload@ == "online"@,
        p.retain,
        p.qos == Qos::AtMostOnce,
{
    TextPublication {
        topic: status_topic(),
        payload: ONLINE_PAYLOAD,
        retain: true,
        qos: Qos::AtMostOnce,
    }
}

/// The last will that the broker publishes when the device drops off:
/// `offline` on `wooden-box/status`, QoS 0, not retained.
pub fn last_will() -> (p: TextPublication)
    ensures
        string64_bytes(p.topic) == BASE.spec_bytes() + "/status".spec_bytes(),
        p.payload@ == "offline"@,
        !p.retain,
        p.qos == Qos::AtMostOnce,
{
    TextPublication {
        topic: status_topic(),
        payload: OFFLINE_PAYLOAD,
        retain: false,
        qos: Qos::AtMostOnce,
    }
}

/// What the device does with one incoming message.
pub enum Reaction<'a> {
    /// A command for switch `switch_id`: hand `(switch_id, on)` to the command
    /// handler, then publish `echo`, the switch's new state.
    Switch { switch_id: &'a str, on: bool, echo: TextPublication },
    /// The lights automation changed: hand `("lights_on", on)` to the command
    /// handler.
    Lights { on: bool },
    /// Nothing to do.
    Ignore,
}

/// Name under which the lights automation is handed to the command handler.
pub const LIGHTS_COMMAND_ID: &'static str = "lights_on";

/// Decides what to do with a message received on `topic` with `payload`.
///
/// A message on `wooden-box/switch/<id>/command` is a command for switch
/// `<id>`: it switches on exactly when the payload is `ON`, and its new state
/// is echoed on `wooden-box/switch/<id>/state` (`ON` or `OFF`, QoS 0,
/// retained). A message on
/// `wooden-box/automation/lights_on` reports the lights automation, on exactly
/// when the payload is `ON`. Every other message is ignored.
pub fn handle_message<'a>(topic: &'a str, payload: &[u8]) -> (r: Reaction<'a>)
    ensures
        (match r {
            Reaction::Switch { switch_id, on, echo } => {
                &&& is_switch_command_topic(topic@)
                &&& switch_id@ == command_switch_id(topic@)
                &&& on == (payload@ == on_payload())
                &&& string64_bytes(echo.topic) == fill_within(
                    switch_state_topic_pieces(switch_id.spec_bytes()),
                    64,
                )
                &&& echo.payload@ == (if on {
                    "ON"@
                } else {
                    "OFF"@
                })
                &&& echo.retain
                &&& echo.qos == Qos::AtMostOnce
            },
            Reaction::Lights { on } => {
                &&& !is_switch_command_topic(topic@)
                &&& topic@ == lights_topic_chars()
                &&& on == (payload@ == on_payload())
            },
            Reaction::Ignore => {
                &&& !is_switch_command_topic(topic@)
                &&& topic@ != lights_topic_chars()
            },
        }),
{
    let n = topic.unicode_len();
    let base_len = BASE.unicode_len();
    let switch_len = "/switch/".unicode_len();
    let command_len = "/command".unicode_len();
    proof {
        reveal_strlit("wooden-box");
        reveal_strlit("/switch/");
        reveal_strlit("/command");
        reveal_strlit("/automation/lights_on");
        assert(command_prefix().subrange(0, base_len as int) =~= BASE@);
        assert(command_prefix().subrange(base_len as int, command_prefix().len() as int)
            =~= "/switch/"@);
        assert(lights_topic_chars().subrange(0, base_len as int) =~= BASE@);
    }
    let has_prefix = occurs_at_exec(topic, n, 0, BASE) && occurs_at_exec(
        topic,
        n,
        base_len,
        "/switch/",
    );
    proof {
        let p = command_prefix();
        if n >= p.len() {
            let head = topic@.subrange(0, p.len() as int);
            assert(head.subrange(0, base_len as int) =~= topic@.subrange(0, base_len as int));
            assert(head.subrange(base_len as int, p.len() as int) =~= topic@.subrange(
                base_len as int,
                p.len() as int,
            ));
            if has_prefix {
                assert(head =~= p);
            }
            if head == p {
                assert(occurs_at(topic@, 0, BASE@));
                assert(occurs_at(topic@, base_len as int, "/switch/"@));
            }
        }
    }
    if has_prefix && n - (base_len + switch_len) >= command_len {
        let prefix_len = base_len + switch_len;
        let has_suffix = occurs_at_exec(topic, n, n - command_len, "/command");
        if has_suffix {
            let switch_id = topic.substring_char(prefix_len, n - command_len);
            let on = payload_is_on(payload);
            let echo = TextPublication {
                topic: switch_state_topic(switch_id),
                payload: switch_state_payload(on),
                retain: true,
                qos: Qos::AtMostOnce,
            };
            return Reaction::Switch { switch_id, on, echo };
        }
    }
    let lights_len = "/automation/lights_on".unicode_len();
    let is_lights = n == base_len + lights_len && occurs_at_exec(topic, n, 0, BASE)
        && occurs_at_exec(topic, n, base_len, "/automation/lights_on");
    proof {
        let l = lights_topic_chars();
        if is_lights {
            assert(topic@.subrange(0, base_len as int) =~= BASE@);
            assert(topic@ =~= l);
        }
        if topic@ == l {
            assert(topic@.subrange(0, base_len as int) =~= BASE@);
            assert(topic@.subrange(base_len as int, n as int) =~= "/automation/lights_on"@);
        }
    }
    if is_lights {
        let on = payload_is_on(payload);
        Reaction::Lights { on }
    } else {
        Reaction::Ignore
    }
}

/// A command addressed to switch `id` on `wooden-box/switch/<id>/command` is
/// recognised as such, and `id` is recovered as its switch id, whatever `id`
/// holds (even `/command` or slashes).
pub proof fn lemma_command_topic_dispatch(id: Seq<char>)
    ensures
        is_switch_command_topic(command_prefix() + id + command_suffix()),
        command_switch_id(command_prefix() + id + command_suffix()) == id,
{
    let p = command_prefix();
    let s = command_suffix();
    let t = p + id + s;
    assert(t.subrange(0, p.len() as int) =~= p);
    assert(t.subrange(t.len() - s.len(), t.len() as int) =~= s);
    assert(command_switch_id(t) =~= id);
}

/// The switch discovery payload names the base topic `~` = `wooden-box`, the
/// same base as the topics handled here. So the command topic it announces,
/// `~/switch/<id>/command`, is recognised as a command for switch `<id>`,
/// and the state is echoed on `~/switch/<id>/state`, the state topic it
/// announces.
pub proof fn lemma_announced_switch_topics(id: Seq<char>)
    ensures
        BASE_TOPIC@ == BASE@,
        BASE_TOPIC.spec_bytes() == BASE.spec_bytes(),
        is_switch_command_topic(BASE_TOPIC@ + "/switch/"@ + id + "/command"@),
        command_switch_id(BASE_TOPIC@ + "/switch/"@ + id + "/command"@) == id,
{
    reveal_strlit("wooden-box");
    lemma_command_topic_dispatch(id);
    assert(BASE_TOPIC@ + "/switch/"@ + id + "/command"@ =~= command_prefix() + id
        + command_suffix());
}

// ---- Sensor readings -------------------------------------------------------

/// A reading split into the parts that are printed with one decimal: its
/// sign, its integer part and its tenths.
#[derive(Clone, Copy, Debug, PartialEq, Eq, Structural)]
pub struct OneDecimal {
    pub negative: bool,
    pub integer: u32,
    pub tenths: u32,
}

/// The ASCII byte of a single decimal digit `d` (`d < 10`).
pub open spec fn digit_byte(d: nat) -> u8 {
    (48 + d) as u8
}

/// The decimal representation of `n`, without leading zeros.
pub open spec fn decimal_digits(n: nat) -> Seq<u8>
    decreases n,
{
    if n < 10 {
        seq![digit_byte(n)]
    } else {
        decimal_digits(n / 10).push(digit_byte(n % 10))
    }
}

/// The tenths digit of a reading; a tenths value that is not a single digit
/// (which only a value beyond the range of `u32` yields) is written `0`.
pub open spec fn tenths_byte(tenths: u32) -> u8 {
    if tenths < 10 {
        digit_byte(tenths as nat)
    } else {
        digit_byte(0)
    }
}

/// The text of a reading with one decimal: an optional `-`, every decimal
/// digit of the integer part without leading zeros, a `.` and the tenths
/// digit.
pub open spec fn one_decimal_text(v: OneDecimal) -> Seq<u8> {
    (if v.negative {
        seq![45u8]
    } else {
        Seq::<u8>::empty()
    }) + decimal_digits(v.integer as nat) + seq![46u8, tenths_byte(v.tenths)]
}

/// The number read from a sequence of decimal digits.
pub open spec fn digits_value(d: Seq<u8>) -> nat
    decreases d.len(),
{
    if d.len() == 0 {
        0
    } else {
        digits_value(d.drop_last()) * 10 + (d.last() - 48) as nat
    }
}

/// The number of tenths that a non-negative text `<digits>.<digit>` stands for.
pub open spec fn written_tenths(text: Seq<u8>) -> nat {
    digits_value(text.subrange(0, text.len() - 2)) * 10 + (text.last() - 48) as nat
}

/// `10` to the power `k`.
pub open spec fn ten_pow(k: nat) -> nat
    decreases k,
{
    if k == 0 {
        1
    } else {
        10 * ten_pow((k - 1) as nat)
    }
}

/// A number below `10^k` has at most `k` digits.
proof fn lemma_decimal_digits_len(n: nat, k: nat)
    requires
        k >= 1,
        n < ten_pow(k),
    ensures
        decimal_digits(n).len() <= k,
    decreases k,
{
    if n >= 10 {
        assert(ten_pow(k) == 10 * ten_pow((k - 1) as nat));
        if k == 1 {
            assert(ten_pow(0) == 1);
        } else {
            lemma_decimal_digits_len(n / 10, (k - 1) as nat);
        }
    }
}

/// A `u32` has at most ten decimal digits.
proof fn lemma_u32_digits(n: u32)
    ensures
        decimal_digits(n as nat).len() <= 10,
{
    assert(ten_pow(10) == 10000000000) by {
        reveal_with_fuel(ten_pow, 11);
    }
    lemma_decimal_digits_len(n as nat, 10);
}

/// The digits written for `n` are decimal digits, the first one is `0`
/// only for `n == 0`, and they read back as `n`.
pub proof fn lemma_decimal_digits_read_back(n: nat)
    ensures
        digits_value(decimal_digits(n)) == n,
        decimal_digits(n).len() >= 1,
        forall|i: int|
            0 <= i < decimal_digits(n).len() ==> 48 <= #[trigger] decimal_digits(n)[i] <= 57,
        n > 0 ==> decimal_digits(n)[0] != 48u8,
    decreases n,
{
    if n >= 10 {
        lemma_decimal_digits_read_back(n / 10);
        let d = decimal_digits(n);
        assert(d.drop_last() =~= decimal_digits(n / 10));
        assert(d.last() == digit_byte(n % 10));
        assert(digit_byte(n % 10) - 48 == n % 10);
        assert(digits_value(d) == digits_value(decimal_digits(n / 10)) * 10 + (n % 10));
        assert(n == (n / 10) * 10 + n % 10) by (nonlinear_arith);
        assert(d[0] == decimal_digits(n / 10)[0]);
    } else {
        let d = decimal_digits(n);
        assert(d.drop_last() =~= Seq::<u8>::empty());
        assert(digits_value(d.drop_last()) == 0);
        assert(d.last() - 48 == n);
    }
}

/// A non-negative reading is written as the number of tenths it stands for;
/// so, of two such readings, the larger is written as the larger number.
pub proof fn lemma_one_decimal_read_back(v: OneDecimal, w: OneDecimal)
    requires
        !v.negative,
        !w.negative,
        v.tenths < 10,
        w.tenths < 10,
    ensures
        written_tenths(one_decimal_text(v)) == v.integer * 10 + v.tenths,
        v.integer * 10 + v.tenths <= w.integer * 10 + w.tenths ==> written_tenths(
            one_decimal_text(v),
        ) <= written_tenths(one_decimal_text(w)),
{
    lemma_decimal_digits_read_back(v.integer as nat);
    lemma_decimal_digits_read_back(w.integer as nat);
    let tv = one_decimal_text(v);
    assert(tv.subrange(0, tv.len() - 2) =~= decimal_digits(v.integer as nat));
    let tw = one_decimal_text(w);
    assert(tw.subrange(0, tw.len() - 2) =~= decimal_digits(w.integer as nat));
}

/// The character of decimal digit `d` (`d < 10`).
fn digit_char(d: u32) -> (c: char)
    requires
        d < 10,
    ensures
        (c as u32) < 128,
        c as u8 == digit_byte(d as nat),
{
    match d {
        0 => '0',
        1 => '1',
        2 => '2',
        3 => '3',
        4 => '4',
        5 => '5',
        6 => '6',
        7 => '7',
        8 => '8',
        _ => '9',
    }
}

/// Appends the decimal digits of `n`, most significant first.
fn push_decimal_digits(s: &mut heapless::String<16>, n: u32)
    requires
        string16_bytes(*old(s)).len() + decimal_digits(n as nat).len() <= 16,
    ensures
        string16_bytes(*final(s)) == string16_bytes(*old(s)) + decimal_digits(n as nat),
    decreases n,
{
    let ghost before = string16_bytes(*s);
    if n >= 10 {
        push_decimal_digits(s, n / 10);
    }
    let c = digit_char(n % 10);
    push16_ascii(s, c);
    proof {
        if n >= 10 {
            assert(string16_bytes(*s) =~= before + decimal_digits(n as nat));
        } else {
            assert(string16_bytes(*s) =~= before + decimal_digits(n as nat));
        }
    }
}

/// Formats a reading with one decimal (`XX.X`) in a 16-byte buffer: an
/// optional `-`, every digit of the integer part, `.` and the tenths digit.
/// The text (at most 13 bytes) always fits.
pub fn format_one_decimal(value: OneDecimal) -> (s: heapless::String<16>)
    ensures
        string16_bytes(s) == one_decimal_text(value),
        string16_bytes(s).len() <= 13,
{
    proof {
        lemma_u32_digits(value.integer);
    }
    let mut s = string16_new();
    let ghost mut text: Seq<u8> = Seq::empty();
    if value.negative {
        push16_ascii(&mut s, '-');
        proof {
            text = text.push(45u8);
        }
    }
    push_decimal_digits(&mut s, value.integer);
    push16_ascii(&mut s, '.');
    let f = if value.tenths < 10 {
        digit_char(value.tenths)
    } else {
        '0'
    };
    push16_ascii(&mut s, f);
    proof {
        text = text + decimal_digits(value.integer as nat) + seq![46u8, f as u8];
        assert(string16_bytes(s) =~= text);
        assert(text =~= one_decimal_text(value));
    }
    s
}

/// A sensor reading ready to publish.
pub struct SensorPublication {
    pub topic: heapless::String<64>,
    pub payload: heapless::String<16>,
    /// Whether the broker keeps it for later subscribers.
    pub retain: bool,
    pub qos: Qos,
}

/// What to publish for sensor `sensor` reading `value`: the value with one
/// decimal on `wooden-box/sensor/<sensor>/state`, QoS 0, not retained.
pub fn publish_sensor(sensor: &str, value: OneDecimal) -> (p: SensorPublication)
    ensures
        string64_bytes(p.topic) == fill_within(sensor_state_topic_pieces(sensor.spec_bytes()), 64),
        string16_bytes(p.payload) == one_decimal_text(value),
        !p.retain,
        p.qos == Qos::AtMostOnce,
{
    let topic = sensor_state_topic(sensor);
    let payload = format_one_decimal(value);
    SensorPublication { topic, payload, retain: false, qos: Qos::AtMostOnce }
}

// ---- Discovery -------------------------------------------------------------

/// A discovery message.
pub struct DiscoveryMessage {
    pub topic: heapless::String<128>,
    pub payload: heapless::String<512>,
    /// Whether the broker keeps it for later subscribers.
    pub retain: bool,
    pub qos: Qos,
}

/// Whether `m` is the `k`-th discovery message (QoS 0, retained): the
/// temperature sensor, the humidity sensor, then switch `relay1`.
pub open spec fn is_discovery_message(k: int, m: DiscoveryMessage) -> bool {
    &&& m.retain
    &&& m.qos == Qos::AtMostOnce
    &&& k == 0 ==> string128_bytes(m.topic) == fill_within(
        discovery_topic_pieces("/sensor/".spec_bytes(), "temperature".spec_bytes()),
        128,
    ) && string512_bytes(m.payload) == temperature_payload_text()
    &&& k == 1 ==> string128_bytes(m.topic) == fill_within(
        discovery_topic_pieces("/sensor/".spec_bytes(), "humidity".spec_bytes()),
        128,
    ) && string512_bytes(m.payload) == humidity_payload_text()
    &&& k == 2 ==> string128_bytes(m.topic) == fill_within(
        discovery_topic_pieces("/switch/".spec_bytes(), "relay1".spec_bytes()),
        128,
    ) && string512_bytes(m.payload) == fill_within(
        switch_payload_pieces("relay1".spec_bytes(), "Relay 1".spec_bytes()),
        512,
    )
}

/// The discovery messages published once per connection, in order: the
/// temperature sensor, the humidity sensor, and switch `relay1`
/// ("Relay 1"); each QoS 0 and retained.
pub fn discovery_messages() -> (msgs: Vec<DiscoveryMessage>)
    ensures
        msgs.len() == 3,
        forall|k: int| 0 <= k < 3 ==> is_discovery_message(k, #[trigger] msgs[k]),
{
    let mut msgs: Vec<DiscoveryMessage> = Vec::new();
    msgs.push(
        DiscoveryMessage {
            topic: discovery_topic_sensor("temperature"),
            payload: temperature_payload(),
            retain: true,
            qos: Qos::AtMostOnce,
        },
    );
    msgs.push(
        DiscoveryMessage {
            topic: discovery_topic_sensor("humidity"),
            payload: humidity_payload(),
            retain: true,
            qos: Qos::AtMostOnce,
        },
    );
    msgs.push(
        DiscoveryMessage {
            topic: discovery_topic_switch("relay1"),
            payload: switch_payload("relay1", "Relay 1"),
            retain: true,
            qos: Qos::AtMostOnce,
        },
    );
    msgs
}

/// One thing done when a connection is announced.
pub enum AnnounceStep {
    /// Subscribe to these topic filters.
    Subscribe { filters: Vec<heapless::String<64>> },
    /// Publish a discovery message.
    Discover { message: DiscoveryMessage },
    /// Publish a fixed text.
    Publish { publication: TextPublication },
}

/// What is done, in order, when a new connection is announced: subscribe to
/// the switch command filter and the lights topic; publish the three
/// discovery messages; publish `online` (retained) on the status topic.
pub fn announcement() -> (steps: Vec<AnnounceStep>)
    ensures
        steps.len() == 5,
        (match steps[0] {
            AnnounceStep::Subscribe { filters } => {
                &&& filters.len() == 2
                &&& string64_bytes(filters[0]) == BASE.spec_bytes()
                    + "/switch/+/command".spec_bytes()
                &&& string64_bytes(filters[1]) == BASE.spec_bytes()
                    + "/automation/lights_on".spec_bytes()
            },
            _ => false,
        }),
        forall|k: int|
            1 <= k < 4 ==> (match #[trigger] steps[k] {
                AnnounceStep::Discover { message } => is_discovery_message(k - 1, message),
                _ => false,
            }),
        (match steps[4] {
            AnnounceStep::Publish { publication } => {
                &&& string64_bytes(publication.topic) == BASE.spec_bytes() + "/status".spec_bytes()
                &&& publication.payload@ == "online"@
                &&& publication.retain
                &&& publication.qos == Qos::AtMostOnce
            },
            _ => false,
        }),
{
    let mut filters: Vec<heapless::String<64>> = Vec::new();
    filters.push(command_filter());
    filters.push(lights_topic());
    let mut steps: Vec<AnnounceStep> = Vec::new();
    steps.push(AnnounceStep::Subscribe { filters });
    let mut msgs = discovery_messages();
    let ghost all = msgs@;
    let m0 = msgs.remove(0);
    let m1 = msgs.remove(0);
    let m2 = msgs.remove(0);
    proof {
        assert(is_discovery_message(0, all[0]));
        assert(is_discovery_message(1, all[1]));
        assert(is_discovery_message(2, all[2]));
    }
    steps.push(AnnounceStep::Discover { message: m0 });
    steps.push(AnnounceStep::Discover { message: m1 });
    steps.push(AnnounceStep::Discover { message: m2 });
    steps.push(AnnounceStep::Publish { publication: online_publication() });
    steps
}

// ---- The session loop ------------------------------------------------------
//
// Each iteration of the MQTT loop goes through these steps, in order:
// count the iteration and print a status line when one is due; poll the
// client (incoming messages go to `handle_message`); log a failed poll and
// report a change of the connection; poll the button and publish a press;
// check the connection, subscribe and announce on a new connection, and
// publish the sensor readings when due; pause. The session below decides each
// step from what the previous one observed; the caller performs the outside
// work and reports back.

/// Where the session stands within an iteration: which report it awaits.
#[derive(Clone, Copy, Debug, PartialEq, Eq, Structural)]
pub enum LoopPhase {
    /// Between iterations: awaits `Start`.
    Idle,
    /// A status line was ordered: awaits `StatusPrinted`.
    PrintingStatus,
    /// The client is being polled: awaits `Polled`.
    Polling,
    /// The button is being polled: awaits `Button`.
    PollingButton,
    /// The connection is being checked: awaits `Connection`.
    CheckingConnection,
    /// The sensor readings are being published: awaits `SensorsPublished`.
    PublishingSensors,
}

/// What the caller reports to the session. Times are microseconds since boot.
#[derive(Clone, Copy, Debug)]
pub enum LoopEvent {
    /// An iteration starts at `now_us`.
    Start { now_us: u64 },
    /// The status line was printed; it is now `now_us`.
    StatusPrinted { now_us: u64 },
    /// The client was polled: whether the poll failed, and whether the
    /// client is connected right after.
    Polled { failed: bool, connected: bool },
    /// The button was polled: whether a press was reported.
    Button { pressed: bool },
    /// The connection was checked at `now_us`: whether the client is connected.
    Connection { connected: bool, now_us: u64 },
    /// The sensor readings were published; it is now `now_us`.
    SensorsPublished { now_us: u64 },
}

/// What the session asks the caller to do next.
#[derive(Clone, Copy, Debug, PartialEq, Eq)]
pub enum LoopAction {
    /// Print a status line with these counts and the connection state, then
    /// report `StatusPrinted`.
    PrintStatus { loop_counter: u32, poll_errors: u32 },
    /// Poll the client, handing each message to `handle_message` and acting
    /// on its reaction, then report `Polled`.
    Poll,
    /// Log poll error number `n` if `log_error` is `Some(n)`, hand the new
    /// connection state to the connection handler if `notify` is `Some`,
    /// then poll the button and report `Button`.
    PollButton { log_error: Option<u32>, notify: Option<bool> },
    /// Publish `button_publication()` if `publish_press`, then check the
    /// connection and report `Connection`.
    CheckConnection { publish_press: bool },
    /// The connection was checked. If `announce`: carry out `announcement()`
    /// in order. Then, if `publish_sensors`:
    /// publish the readings and report `SensorsPublished`; otherwise pause
    /// and start the next iteration.
    Connected { connected: bool, announce: bool, publish_sensors: bool },
    /// Pause, then start the next iteration.
    Yield,
    /// The report was not the one awaited: nothing to do.
    Ignore,
}

/// The state the MQTT loop carries from one step to the next.
pub struct MqttSession {
    /// Which report the session awaits.
    pub phase: LoopPhase,
    /// Whether the subscriptions and announcements of the current connection
    /// have been made.
    pub subscribed: bool,
    /// The connection state last reported to the caller.
    pub was_connected: bool,
    /// Number of failed polls so far.
    pub poll_errors: u32,
    /// Number of loop iterations started so far.
    pub loop_counter: u32,
    /// When the last status line was printed (or the loop started).
    pub last_status_us: u64,
    /// When the sensor readings were last published (or the loop started).
    pub last_sensor_us: u64,
}

/// Time from `since_us` to `now_us`; none if the clock reads earlier.
pub open spec fn elapsed_us(now_us: u64, since_us: u64) -> u64 {
    if now_us >= since_us {
        (now_us - since_us) as u64
    } else {
        0
    }
}

/// Whether the `n`-th poll error is logged: the first five, then every
/// hundredth.
pub open spec fn poll_error_logged(n: u32) -> bool {
    n <= 5 || n % 100 == 0
}

/// The change reported when the connection is observed as `now` after `was`
/// was last reported.
pub open spec fn connection_change(was: bool, now: bool) -> Option<bool> {
    if now != was {
        Some(now)
    } else {
        None
    }
}

/// One step of the session: the state after report `e`, and what to do next.
pub open spec fn loop_step(s: MqttSession, e: LoopEvent) -> (MqttSession, LoopAction) {
    match (s.phase, e) {
        (LoopPhase::Idle, LoopEvent::Start { now_us }) => {
            let counter = (s.loop_counter + 1) as u32;
            if elapsed_us(now_us, s.last_status_us) >= STATUS_INTERVAL_US {
                (
                    MqttSession { phase: LoopPhase::PrintingStatus, loop_counter: counter, ..s },
                    LoopAction::PrintStatus { loop_counter: counter, poll_errors: s.poll_errors },
                )
            } else {
                (MqttSession { phase: LoopPhase::Polling, loop_counter: counter, ..s }, LoopAction::Poll)
            }
        },
        (LoopPhase::PrintingStatus, LoopEvent::StatusPrinted { now_us }) => (
            MqttSession { phase: LoopPhase::Polling, last_status_us: now_us, ..s },
            LoopAction::Poll,
        ),
        (LoopPhase::Polling, LoopEvent::Polled { failed, connected }) => {
            let errors = if failed {
                (s.poll_errors + 1) as u32
            } else {
                s.poll_errors
            };
            (
                MqttSession {
                    phase: LoopPhase::PollingButton,
                    poll_errors: errors,
                    was_connected: connected,
                    ..s
                },
                LoopAction::PollButton {
                    log_error: if failed && poll_error_logged(errors) {
                        Some(errors)
                    } else {
                        None
                    },
                    notify: connection_change(s.was_connected, connected),
                },
            )
        },
        (LoopPhase::PollingButton, LoopEvent::Button { pressed }) => (
            MqttSession { phase: LoopPhase::CheckingConnection, ..s },
            LoopAction::CheckConnection { publish_press: pressed },
        ),
        (LoopPhase::CheckingConnection, LoopEvent::Connection { connected, now_us }) => {
            let publish = connected && elapsed_us(now_us, s.last_sensor_us) >= SENSOR_INTERVAL_US;
            (
                MqttSession {
                    phase: if publish {
                        LoopPhase::PublishingSensors
                    } else {
                        LoopPhase::Idle
                    },
                    subscribed: connected,
                    ..s
                },
                LoopAction::Connected {
                    connected,
                    announce: connected && !s.subscribed,
                    publish_sensors: publish,
                },
            )
        },
        (LoopPhase::PublishingSensors, LoopEvent::SensorsPublished { now_us }) => (
            MqttSession { phase: LoopPhase::Idle, last_sensor_us: now_us, ..s },
            LoopAction::Yield,
        ),
        _ => (s, LoopAction::Ignore),
    }
}

/// Whether a step stays within the counters' range (the counts never wrap).
pub open spec fn step_allowed(s: MqttSession, e: LoopEvent) -> bool {
    match (s.phase, e) {
        (LoopPhase::Idle, LoopEvent::Start { .. }) => s.loop_counter < u32::MAX,
        (LoopPhase::Polling, LoopEvent::Polled { failed, .. }) => failed ==> s.poll_errors
            < u32::MAX,
        _ => true,
    }
}

impl MqttSession {
    /// A session at the start of the loop, at `now_us`: between iterations,
    /// nothing subscribed, not connected, no errors, and both timers started.
    pub fn new(now_us: u64) -> (s: Self)
        ensures
            s.phase == LoopPhase::Idle,
            !s.subscribed,
            !s.was_connected,
            s.poll_errors == 0,
            s.loop_counter == 0,
            s.last_status_us == now_us,
            s.last_sensor_us == now_us,
    {
        MqttSession {
            phase: LoopPhase::Idle,
            subscribed: false,
            was_connected: false,
            poll_errors: 0,
            loop_counter: 0,
            last_status_us: now_us,
            last_sensor_us: now_us,
        }
    }

    /// Takes report `event` and decides what to do next.
    pub fn step(&mut self, event: LoopEvent) -> (action: LoopAction)
        requires
            step_allowed(*old(self), event),
        ensures
            (*final(self), action) == loop_step(*old(self), event),
    {
        match (self.phase, event) {
            (LoopPhase::Idle, LoopEvent::Start { now_us }) => {
                self.loop_counter = self.loop_counter + 1;
                let elapsed = if now_us >= self.last_status_us {
                    now_us - self.last_status_us
                } else {
                    0
                };
                if elapsed >= STATUS_INTERVAL_US {
                    self.phase = LoopPhase::PrintingStatus;
                    LoopAction::PrintStatus {
                        loop_counter: self.loop_counter,
                        poll_errors: self.poll_errors,
                    }
                } else {
                    self.phase = LoopPhase::Polling;
                    LoopAction::Poll
                }
            },
            (LoopPhase::PrintingStatus, LoopEvent::StatusPrinted { now_us }) => {
                self.phase = LoopPhase::Polling;
                self.last_status_us = now_us;
                LoopAction::Poll
            },
            (LoopPhase::Polling, LoopEvent::Polled { failed, connected }) => {
                let mut log_error = None;
                if failed {
                    self.poll_errors = self.poll_errors + 1;
                    // Log every error, but throttle to avoid flooding
                    if self.poll_errors <= 5 || self.poll_errors % 100 == 0 {
                        log_error = Some(self.poll_errors);
                    }
                }
                let notify = if connected != self.was_connected {
                    Some(connected)
                } else {
                    None
                };
                self.was_connected = connected;
                self.phase = LoopPhase::PollingButton;
                LoopAction::PollButton { log_error, notify }
            },
            (LoopPhase::PollingButton, LoopEvent::Button { pressed }) => {
                self.phase = LoopPhase::CheckingConnection;
                LoopAction::CheckConnection { publish_press: pressed }
            },
            (LoopPhase::CheckingConnection, LoopEvent::Connection { connected, now_us }) => {
                let elapsed = if now_us >= self.last_sensor_us {
                    now_us - self.last_sensor_us
                } else {
                    0
                };
                let publish = connected && elapsed >= SENSOR_INTERVAL_US;
                let announce = connected && !self.subscribed;
                self.subscribed = connected;
                self.phase = if publish {
                    LoopPhase::PublishingSensors
                } else {
                    LoopPhase::Idle
                };
                LoopAction::Connected { connected, announce, publish_sensors: publish }
            },
            (LoopPhase::PublishingSensors, LoopEvent::SensorsPublished { now_us }) => {
                self.phase = LoopPhase::Idle;
                self.last_sensor_us = now_us;
                LoopAction::Yield
            },
            _ => LoopAction::Ignore,
        }
    }
}

// ---- Laws over runs of the session -----------------------------------------

/// The session after taking `events` in order, starting from `s`.
pub open spec fn session_after(s: MqttSession, events: Seq<LoopEvent>) -> MqttSession
    decreases events.len(),
{
    if events.len() == 0 {
        s
    } else {
        loop_step(session_after(s, events.drop_last()), events.last()).0
    }
}

/// The actions decided while taking `events` in order, starting from `s`.
pub open spec fn session_actions(s: MqttSession, events: Seq<LoopEvent>) -> Seq<LoopAction>
    decreases events.len(),
{
    if events.len() == 0 {
        Seq::empty()
    } else {
        session_actions(s, events.drop_last()).push(
            loop_step(session_after(s, events.drop_last()), events.last()).1,
        )
    }
}

/// The connection states handed to the connection handler, in order.
pub open spec fn notifications(actions: Seq<LoopAction>) -> Seq<bool>
    decreases actions.len(),
{
    if actions.len() == 0 {
        Seq::empty()
    } else {
        let before = notifications(actions.drop_last());
        match actions.last() {
            LoopAction::PollButton { notify: Some(v), .. } => before.push(v),
            _ => before,
        }
    }
}

/// Each value of `q` differs from the one before it, the first from `start`.
pub open spec fn alternates_from(q: Seq<bool>, start: bool) -> bool {
    forall|i: int|
        0 <= i < q.len() ==> #[trigger] q[i] != (if i == 0 {
            start
        } else {
            q[i - 1]
        })
}

/// The connection checks, in order: whether connected, and whether the
/// subscriptions and announcements were made.
pub open spec fn connection_checks(actions: Seq<LoopAction>) -> Seq<(bool, bool)>
    decreases actions.len(),
{
    if actions.len() == 0 {
        Seq::empty()
    } else {
        let before = connection_checks(actions.drop_last());
        match actions.last() {
            LoopAction::Connected { connected, announce, .. } => before.push((connected, announce)),
            _ => before,
        }
    }
}

/// The sensor publications in a run: `(true, t)` when one is ordered at `t`,
/// `(false, t)` when it is reported done at `t`.
pub open spec fn sensor_marks(s: MqttSession, events: Seq<LoopEvent>) -> Seq<(bool, u64)>
    decreases events.len(),
{
    if events.len() == 0 {
        Seq::empty()
    } else {
        let before = sensor_marks(s, events.drop_last());
        let r = session_after(s, events.drop_last());
        match (r.phase, events.last()) {
            (LoopPhase::CheckingConnection, LoopEvent::Connection { connected, now_us }) => {
                if connected && elapsed_us(now_us, r.last_sensor_us) >= SENSOR_INTERVAL_US {
                    before.push((true, now_us))
                } else {
                    before
                }
            },
            (LoopPhase::PublishingSensors, LoopEvent::SensorsPublished { now_us }) => before.push(
                (false, now_us),
            ),
            _ => before,
        }
    }
}

/// Over any run, the connection handler gets the states alternately: each
/// value differs from the one before (the first from the state last reported
/// before the run, `false` for a new session), and the session's last
/// reported state is the last value handed over.
pub proof fn lemma_connection_reports_alternate(s: MqttSession, events: Seq<LoopEvent>)
    ensures
        alternates_from(notifications(session_actions(s, events)), s.was_connected),
        session_after(s, events).was_connected == (if notifications(session_actions(s, events)).len() == 0 {
            s.was_connected
        } else {
            notifications(session_actions(s, events)).last()
        }),
    decreases events.len(),
{
    if events.len() > 0 {
        let init = events.drop_last();
        lemma_connection_reports_alternate(s, init);
        let acts = session_actions(s, events);
        assert(acts.drop_last() =~= session_actions(s, init));
    }
}

/// Over any run, the subscriptions and announcements are made at the first
/// connection check of each stretch of connected checks, and at no other:
/// at a check exactly when connected and the check before (or, for the
/// first, the session's state before the run) was not connected.
pub proof fn lemma_announce_once_per_connection(s: MqttSession, events: Seq<LoopEvent>)
    ensures
        ({
            let c = connection_checks(session_actions(s, events));
            &&& forall|j: int|
                0 <= j < c.len() ==> #[trigger] c[j].1 == (c[j].0 && !(if j == 0 {
                    s.subscribed
                } else {
                    c[j - 1].0
                }))
            &&& session_after(s, events).subscribed == (if c.len() == 0 {
                s.subscribed
            } else {
                c.last().0
            })
        }),
    decreases events.len(),
{
    if events.len() > 0 {
        let init = events.drop_last();
        lemma_announce_once_per_connection(s, init);
        let acts = session_actions(s, events);
        assert(acts.drop_last() =~= session_actions(s, init));
    }
}

/// Over any run that starts between iterations, the sensor publications
/// alternate between ordered and done, and each is ordered at least
/// `SENSOR_INTERVAL_US` after the previous one was reported done (the first,
/// after the session's last publication or start).
pub proof fn lemma_sensor_cadence(s: MqttSession, events: Seq<LoopEvent>)
    requires
        s.phase != LoopPhase::PublishingSensors,
    ensures
        ({
            let m = sensor_marks(s, events);
            forall|i: int|
                0 <= i < m.len() ==> (#[trigger] m[i].0 <==> i % 2 == 0) && (i % 2 == 0 ==> m[i].1
                    >= (if i == 0 {
                    s.last_sensor_us
                } else {
                    m[i - 1].1
                }) + SENSOR_INTERVAL_US)
        }),
{
    lemma_sensor_marks_state(s, events);
    let m = sensor_marks(s, events);
    assert forall|i: int| 0 <= i < m.len() implies (#[trigger] m[i].0 <==> i % 2 == 0) && (i % 2
        == 0 ==> m[i].1 >= (if i == 0 {
        s.last_sensor_us
    } else {
        m[i - 1].1
    }) + SENSOR_INTERVAL_US) by {
        assert(m[i].0 <==> i % 2 == 0);
    }
}

#[verifier::spinoff_prover]
proof fn lemma_sensor_marks_state(s: MqttSession, events: Seq<LoopEvent>)
    requires
        s.phase != LoopPhase::PublishingSensors,
    ensures
        ({
            let m = sensor_marks(s, events);
            let r = session_after(s, events);
            &&& forall|i: int|
                0 <= i < m.len() ==> (#[trigger] m[i].0 <==> i % 2 == 0) && (i % 2 == 0 ==> m[i].1
                    >= (if i == 0 {
                    s.last_sensor_us
                } else {
                    m[i - 1].1
                }) + SENSOR_INTERVAL_US)
            &&& (r.phase == LoopPhase::PublishingSensors <==> m.len() % 2 == 1)
            &&& r.last_sensor_us == (if m.len() % 2 == 0 {
                if m.len() == 0 {
                    s.last_sensor_us
                } else {
                    m.last().1
                }
            } else {
                if m.len() == 1 {
                    s.last_sensor_us
                } else {
                    m[m.len() - 2].1
                }
            })
        }),
    decreases events.len(),
{
    if events.len() > 0 {
        let init = events.drop_last();
        lemma_sensor_marks_state(s, init);
        let m0 = sensor_marks(s, init);
        let r0 = session_after(s, init);
        let m = sensor_marks(s, events);
        assert(session_after(s, events) == loop_step(r0, events.last()).0);
        assert(m.len() == m0.len() || m.len() == m0.len() + 1);
        assert forall|i: int| 0 <= i < m0.len() implies #[trigger] m[i] == m0[i] by {
            if m.len() == m0.len() + 1 {
                assert(m =~= m0.push(m.last()));
            } else {
                assert(m =~= m0);
            }
        }
    }
}

/// The steps of a run that took effect: each report with the action decided
/// on it, leaving out the reports that were ignored.
pub open spec fn effective_steps(s: MqttSession, events: Seq<LoopEvent>) -> Seq<
    (LoopEvent, LoopAction),
>
    decreases events.len(),
{
    if events.len() == 0 {
        Seq::empty()
    } else {
        let before = effective_steps(s, events.drop_last());
        let a = loop_step(session_after(s, events.drop_last()), events.last()).1;
        if a is Ignore {
            before
        } else {
            before.push((events.last(), a))
        }
    }
}

/// The phase the session is in after deciding `a` (`otherwise` when `a`
/// decides nothing).
pub open spec fn phase_after(a: LoopAction, otherwise: LoopPhase) -> LoopPhase {
    match a {
        LoopAction::PrintStatus { .. } => LoopPhase::PrintingStatus,
        LoopAction::Poll => LoopPhase::Polling,
        LoopAction::PollButton { .. } => LoopPhase::PollingButton,
        LoopAction::CheckConnection { .. } => LoopPhase::CheckingConnection,
        LoopAction::Connected { publish_sensors, .. } => if publish_sensors {
            LoopPhase::PublishingSensors
        } else {
            LoopPhase::Idle
        },
        LoopAction::Yield => LoopPhase::Idle,
        LoopAction::Ignore => otherwise,
    }
}

/// Whether action `a` can be decided in phase `p`: an iteration runs
/// (status line,) poll, button poll, connection check, (sensor publication,)
/// and back to the start.
pub open spec fn decided_in(p: LoopPhase, a: LoopAction) -> bool {
    match p {
        LoopPhase::Idle => a is PrintStatus || a is Poll,
        LoopPhase::PrintingStatus => a is Poll,
        LoopPhase::Polling => a is PollButton,
        LoopPhase::PollingButton => a is CheckConnection,
        LoopPhase::CheckingConnection => a is Connected,
        LoopPhase::PublishingSensors => a is Yield,
    }
}

/// Over any run, the actions taken follow the iteration in order: an
/// optional status line, the poll, one button poll, the connection check,
/// an optional sensor publication, then the next iteration. So each
/// iteration polls the button exactly once, and the press publication
/// (`button_publication`) is ordered exactly when that button poll reported
/// a press.
pub proof fn lemma_iteration_order(s: MqttSession, events: Seq<LoopEvent>)
    ensures
        ({
            let q = effective_steps(s, events);
            &&& forall|i: int|
                0 <= i < q.len() ==> decided_in(
                    if i == 0 {
                        s.phase
                    } else {
                        phase_after(q[i - 1].1, s.phase)
                    },
                    #[trigger] q[i].1,
                )
            &&& session_after(s, events).phase == (if q.len() == 0 {
                s.phase
            } else {
                phase_after(q.last().1, s.phase)
            })
            &&& forall|i: int|
                0 <= i < q.len() ==> ((#[trigger] q[i].0 is Button) <==> q[i].1 is CheckConnection)
            &&& forall|i: int|
                0 <= i < q.len() && #[trigger] q[i].0 is Button ==> q[i].1
                    == LoopAction::CheckConnection { publish_press: q[i].0->pressed }
        }),
{
    lemma_effective_steps(s, events);
    lemma_effective_button(s, events);
}

#[verifier::spinoff_prover]
#[verifier::rlimit(50)]
proof fn lemma_effective_steps(s: MqttSession, events: Seq<LoopEvent>)
    ensures
        ({
            let q = effective_steps(s, events);
            &&& forall|i: int|
                0 <= i < q.len() ==> decided_in(
                    if i == 0 {
                        s.phase
                    } else {
                        phase_after(q[i - 1].1, s.phase)
                    },
                    #[trigger] q[i].1,
                )
            &&& session_after(s, events).phase == (if q.len() == 0 {
                s.phase
            } else {
                phase_after(q.last().1, s.phase)
            })
        }),
    decreases events.len(),
{
    if events.len() > 0 {
        let init = events.drop_last();
        lemma_effective_steps(s, init);
        let q0 = effective_steps(s, init);
        let r0 = session_after(s, init);
        let q = effective_steps(s, events);
        let e = events.last();
        lemma_step_shape(r0, e);
        let a = loop_step(r0, e).1;
        if a is Ignore {
            assert(q =~= q0);
        } else {
            assert(q =~= q0.push((e, a)));
            assert forall|i: int| 0 <= i < q.len() implies decided_in(
                if i == 0 {
                    s.phase
                } else {
                    phase_after(q[i - 1].1, s.phase)
                },
                #[trigger] q[i].1,
            ) by {
                if i < q0.len() {
                    assert(q[i] == q0[i]);
                    if i > 0 {
                        assert(q[i - 1] == q0[i - 1]);
                    }
                } else if i > 0 {
                    assert(q[i - 1] == q0.last());
                }
            }
        }
    }
}

#[verifier::spinoff_prover]
#[verifier::rlimit(50)]
proof fn lemma_effective_button(s: MqttSession, events: Seq<LoopEvent>)
    ensures
        ({
            let q = effective_steps(s, events);
            &&& forall|i: int|
                0 <= i < q.len() ==> ((#[trigger] q[i].0 is Button) <==> q[i].1 is CheckConnection)
            &&& forall|i: int|
                0 <= i < q.len() && #[trigger] q[i].0 is Button ==> q[i].1
                    == LoopAction::CheckConnection { publish_press: q[i].0->pressed }
        }),
    decreases events.len(),
{
    if events.len() > 0 {
        let init = events.drop_last();
        lemma_effective_button(s, init);
        let q0 = effective_steps(s, init);
        let r0 = session_after(s, init);
        let q = effective_steps(s, events);
        let e = events.last();
        lemma_step_shape(r0, e);
        let a = loop_step(r0, e).1;
        if a is Ignore {
            assert(q =~= q0);
        } else {
            assert(q =~= q0.push((e, a)));
            assert forall|i: int| 0 <= i < q.len() implies ((#[trigger] q[i].0 is Button) <==> q[
                i
            ].1 is CheckConnection) by {
                if i < q0.len() {
                    assert(q[i] == q0[i]);
                }
            }
            assert forall|i: int| 0 <= i < q.len() && #[trigger] q[i].0 is Button implies q[i].1
                == LoopAction::CheckConnection { publish_press: q[i].0->pressed } by {
                if i < q0.len() {
                    assert(q[i] == q0[i]);
                }
            }
        }
    }
}

/// The shape of one step: an ignored report changes nothing; any other
/// action is one that the phase allows, and leads to the phase after it; a
/// button report is taken exactly when it leads to a connection check, which
/// orders the press publication exactly when a press was reported.
proof fn lemma_step_shape(r: MqttSession, e: LoopEvent)
    ensures
        ({
            let (r1, a) = loop_step(r, e);
            &&& a is Ignore ==> r1 == r
            &&& !(a is Ignore) ==> decided_in(r.phase, a) && r1.phase == phase_after(a, r.phase)
            &&& !(a is Ignore) ==> ((e is Button) <==> a is CheckConnection)
            &&& (e is Button && !(a is Ignore)) ==> a == LoopAction::CheckConnection {
                publish_press: e->pressed,
            }
        }),
{
}

// ---- What each step does --------------------------------------------------

/// Starting an iteration at `now_us`: the count goes up by one, and a status
/// line is ordered exactly when at least 5 s have passed since the last one.
pub proof fn lemma_start_step(s: MqttSession, now_us: u64)
    requires
        s.phase == LoopPhase::Idle,
        s.loop_counter < u32::MAX,
    ensures
        ({
            let (r, a) = loop_step(s, LoopEvent::Start { now_us });
            &&& r.loop_counter == s.loop_counter + 1
            &&& (a is PrintStatus) <==> now_us >= s.last_status_us + 5_000_000
            &&& a is PrintStatus ==> a == LoopAction::PrintStatus {
                loop_counter: (s.loop_counter + 1) as u32,
                poll_errors: s.poll_errors,
            }
            &&& !(a is PrintStatus) ==> a == LoopAction::Poll
            &&& r.was_connected == s.was_connected
            &&& r.subscribed == s.subscribed
            &&& r.poll_errors == s.poll_errors
        }),
{
}

/// After a poll, whether it failed or not: the connection handler gets the
/// new state exactly when it differs from the state last reported, which it
/// then becomes; a failed poll is counted, and logged when it is one of the
/// first five or a multiple of a hundred.
pub proof fn lemma_poll_step(s: MqttSession, failed: bool, connected: bool)
    requires
        s.phase == LoopPhase::Polling,
        s.poll_errors < u32::MAX,
    ensures
        ({
            let (r, a) = loop_step(s, LoopEvent::Polled { failed, connected });
            let n = s.poll_errors + 1;
            &&& a == LoopAction::PollButton {
                log_error: if failed && (n <= 5 || n % 100 == 0) {
                    Some(n as u32)
                } else {
                    None
                },
                notify: if connected != s.was_connected {
                    Some(connected)
                } else {
                    None
                },
            }
            &&& r.was_connected == connected
            &&& r.poll_errors == (if failed {
                n
            } else {
                s.poll_errors as int
            })
            &&& r.phase == LoopPhase::PollingButton
            &&& r.subscribed == s.subscribed
        }),
{
}

/// Reporting the status line printed at `now_us` restarts the status timer
/// from `now_us` and orders the poll; nothing else changes.
pub proof fn lemma_status_printed_step(s: MqttSession, now_us: u64)
    requires
        s.phase == LoopPhase::PrintingStatus,
    ensures
        ({
            let (r, a) = loop_step(s, LoopEvent::StatusPrinted { now_us });
            &&& a == LoopAction::Poll
            &&& r == MqttSession { phase: LoopPhase::Polling, last_status_us: now_us, ..s }
        }),
{
}

/// Reporting the button: a press is published exactly when one was
/// reported, then the connection is checked; nothing else changes.
pub proof fn lemma_button_step(s: MqttSession, pressed: bool)
    requires
        s.phase == LoopPhase::PollingButton,
    ensures
        ({
            let (r, a) = loop_step(s, LoopEvent::Button { pressed });
            &&& a == LoopAction::CheckConnection { publish_press: pressed }
            &&& r == MqttSession { phase: LoopPhase::CheckingConnection, ..s }
        }),
{
}

/// A report other than the one awaited is ignored and leaves the session as
/// it was.
pub proof fn lemma_unexpected_report(s: MqttSession, e: LoopEvent)
    requires
        !(s.phase == LoopPhase::Idle && e is Start),
        !(s.phase == LoopPhase::PrintingStatus && e is StatusPrinted),
        !(s.phase == LoopPhase::Polling && e is Polled),
        !(s.phase == LoopPhase::PollingButton && e is Button),
        !(s.phase == LoopPhase::CheckingConnection && e is Connection),
        !(s.phase == LoopPhase::PublishingSensors && e is SensorsPublished),
    ensures
        loop_step(s, e) == (s, LoopAction::Ignore),
{
}

/// Checking the connection at `now_us`: the subscriptions and announcements
/// are made exactly when connected and not yet made for this connection; the
/// sensor readings are published exactly when connected and at least 30 s
/// have passed since they were last published; the announcements count as
/// made exactly when connected.
pub proof fn lemma_connection_step(s: MqttSession, connected: bool, now_us: u64)
    requires
        s.phase == LoopPhase::CheckingConnection,
    ensures
        ({
            let (r, a) = loop_step(s, LoopEvent::Connection { connected, now_us });
            let publish = connected && now_us >= s.last_sensor_us + 30_000_000;
            &&& a == LoopAction::Connected {
                connected,
                announce: connected && !s.subscribed,
                publish_sensors: publish,
            }
            &&& r.subscribed == connected
            &&& r.was_connected == s.was_connected
            &&& r.phase == (if publish {
                LoopPhase::PublishingSensors
            } else {
                LoopPhase::Idle
            })
        }),
{
}

/// Reporting the sensor readings published at `now_us` restarts their timer
/// from `now_us`, and the iteration ends.
pub proof fn lemma_sensors_published_step(s: MqttSession, now_us: u64)
    requires
        s.phase == LoopPhase::PublishingSensors,
    ensures
        loop_step(s, LoopEvent::SensorsPublished { now_us }).1 == LoopAction::Yield,
        loop_step(s, LoopEvent::SensorsPublished { now_us }).0.last_sensor_us == now_us,
        loop_step(s, LoopEvent::SensorsPublished { now_us }).0.phase == LoopPhase::Idle,
{
}

/// The sign of a reading: a negative reading is written as `-` followed by
/// the text of the same magnitude; a non-negative one starts with a digit.
/// Either way the magnitude reads back as `integer * 10 + tenths` tenths.
pub proof fn lemma_one_decimal_sign(v: OneDecimal)
    requires
        v.tenths < 10,
    ensures
        one_decimal_text(v).len() >= 3,
        v.negative ==> one_decimal_text(v)[0] == 45u8 && one_decimal_text(v).drop_first()
            == one_decimal_text(OneDecimal { negative: false, ..v }),
        !v.negative ==> 48 <= one_decimal_text(v)[0] <= 57,
        written_tenths(
            if v.negative {
                one_decimal_text(v).drop_first()
            } else {
                one_decimal_text(v)
            },
        ) == v.integer * 10 + v.tenths,
        one_decimal_text(v).last() == 48 + v.tenths,
        one_decimal_text(v)[one_decimal_text(v).len() - 2] == 46u8,
{
    let m = OneDecimal { negative: false, ..v };
    lemma_decimal_digits_read_back(v.integer as nat);
    lemma_one_decimal_read_back(m, m);
    let t = one_decimal_text(v);
    assert(one_decimal_text(m) =~= decimal_digits(v.integer as nat) + seq![
        46u8,
        tenths_byte(v.tenths),
    ]);
    if v.negative {
        assert(t.drop_first() =~= one_decimal_text(m));
    } else {
        assert(t =~= one_decimal_text(m));
        assert(t[0] == decimal_digits(v.integer as nat)[0]);
    }
}

/// The state topics, spelled out: `wooden-box/switch/<id>/state` and
/// `wooden-box/sensor/<id>/state`, each held in full whenever the id takes at
/// most 40 bytes.
pub proof fn lemma_state_topic_text(id: Seq<u8>)
    ensures
        switch_state_topic_pieces(id).flatten() == "wooden-box/switch/".spec_bytes() + id
            + "/state".spec_bytes(),
        sensor_state_topic_pieces(id).flatten() == "wooden-box/sensor/".spec_bytes() + id
            + "/state".spec_bytes(),
        id.len() <= 40 ==> fill_within(switch_state_topic_pieces(id), 64)
            == switch_state_topic_pieces(id).flatten(),
        id.len() <= 40 ==> fill_within(sensor_state_topic_pieces(id), 64)
            == sensor_state_topic_pieces(id).flatten(),
{
    reveal_strlit("wooden-box");
    reveal_strlit("/switch/");
    reveal_strlit("/sensor/");
    reveal_strlit("/state");
    reveal_strlit("wooden-box/switch/");
    reveal_strlit("wooden-box/sensor/");
    lemma_base_len();
    lemma_ascii_bytes_len("/switch/");
    lemma_ascii_bytes_len("/sensor/");
    lemma_ascii_bytes_len("/state");
    lemma_encode_utf8_concat(BASE@, "/switch/"@);
    lemma_encode_utf8_concat(BASE@, "/sensor/"@);
    assert("wooden-box/switch/"@ =~= BASE@ + "/switch/"@);
    assert("wooden-box/sensor/"@ =~= BASE@ + "/sensor/"@);
    lemma_four_pieces_flatten(BASE.spec_bytes(), "/switch/".spec_bytes(), id, "/state".spec_bytes());
    lemma_four_pieces_flatten(BASE.spec_bytes(), "/sensor/".spec_bytes(), id, "/state".spec_bytes());
    if id.len() <= 40 {
        lemma_fill_within_exact(switch_state_topic_pieces(id), 64);
        lemma_fill_within_exact(sensor_state_topic_pieces(id), 64);
    }
}

/// Four pieces flatten to their concatenation.
proof fn lemma_four_pieces_flatten(a: Seq<u8>, b: Seq<u8>, c: Seq<u8>, d: Seq<u8>)
    ensures
        seq![a, b, c, d].flatten() == a + b + c + d,
{
    let q0 = Seq::<Seq<u8>>::empty();
    let q1 = q0.push(a);
    let q2 = q1.push(b);
    let q3 = q2.push(c);
    let q4 = q3.push(d);
    assert(seq![a, b, c, d] =~= q4);
    assert(q0.flatten() =~= Seq::<u8>::empty());
    q0.lemma_flatten_push(a);
    q1.lemma_flatten_push(b);
    q2.lemma_flatten_push(c);
    q3.lemma_flatten_push(d);
    assert(q4.flatten() =~= a + b + c + d);
}

/// The payload that switches on is the text `ON`.
pub proof fn lemma_on_payload_text()
    ensures
        on_payload() == "ON".spec_bytes(),
{
    reveal_strlit("ON");
    lemma_ascii_bytes_len("ON");
    is_ascii_spec_bytes("ON");
    assert(on_payload() =~= "ON".spec_bytes());
}

/// The discovery messages, spelled out: each is retained with QoS 0; the
/// first announces the temperature sensor and the second the humidity
/// sensor, each with its own payload text, and the third switch `relay1`
/// ("Relay 1") with the switch payload.
pub proof fn lemma_discovery_message_contents(k: int, m: DiscoveryMessage)
    requires
        is_discovery_message(k, m),
    ensures
        m.retain,
        m.qos == Qos::AtMostOnce,
        k == 0 ==> string512_bytes(m.payload)
            == r#"{"~":"wooden-box","name":"Temperature","uniq_id":"wooden_box_temp","stat_t":"~/sensor/temperature/state","unit_of_meas":"\u00b0C","dev_cla":"temperature","dev":{"ids":["wooden_box"],"name":"Wooden Box"}}"#.spec_bytes(),
        k == 0 ==> string128_bytes(m.topic)
            == "homeassistant/sensor/wooden_box/temperature/config".spec_bytes(),
        k == 1 ==> string512_bytes(m.payload)
            == r#"{"~":"wooden-box","name":"Humidity","uniq_id":"wooden_box_hum","stat_t":"~/sensor/humidity/state","unit_of_meas":"%","dev_cla":"humidity","dev":{"ids":["wooden_box"],"name":"Wooden Box"}}"#.spec_bytes(),
        k == 1 ==> string128_bytes(m.topic)
            == "homeassistant/sensor/wooden_box/humidity/config".spec_bytes(),
        k == 2 ==> string512_bytes(m.payload)
            == r#"{"~":"wooden-box","name":"Relay 1","uniq_id":"wooden_box_relay1","stat_t":"~/switch/relay1/state","cmd_t":"~/switch/relay1/command","dev":{"ids":["wooden_box"],"name":"Wooden Box"}}"#.spec_bytes(),
        k == 2 ==> string128_bytes(m.topic)
            == "homeassistant/switch/wooden_box/relay1/config".spec_bytes(),
{
    lemma_temperature_payload_literal();
    lemma_humidity_payload_literal();
    lemma_relay1_payload_literal();
    lemma_temperature_topic_literal();
    lemma_humidity_topic_literal();
    lemma_relay1_topic_literal();
}

proof fn lemma_temperature_topic_literal()
    ensures
        fill_within(discovery_topic_pieces("/sensor/".spec_bytes(), "temperature".spec_bytes()), 128)
            == "homeassistant/sensor/wooden_box/temperature/config".spec_bytes(),
{
    reveal_strlit("/sensor/");
    reveal_strlit("temperature");
    reveal_strlit("homeassistant/sensor/wooden_box/");
    reveal_strlit("homeassistant/sensor/wooden_box/temperature/config");
    reveal_strlit("/config");
    assert("homeassistant/sensor/wooden_box/temperature/config"@ =~= "homeassistant/sensor/wooden_box/"@ + "temperature"@ + "/config"@);
    assert("/sensor/"@ != "/switch/"@) by {
        reveal_strlit("/sensor/");
        reveal_strlit("/switch/");
        assert("/sensor/"@[2] != "/switch/"@[2]);
    }
    lemma_topic_literal("/sensor/", "temperature", "homeassistant/sensor/wooden_box/temperature/config");
}

proof fn lemma_humidity_topic_literal()
    ensures
        fill_within(discovery_topic_pieces("/sensor/".spec_bytes(), "humidity".spec_bytes()), 128)
            == "homeassistant/sensor/wooden_box/humidity/config".spec_bytes(),
{
    reveal_strlit("/sensor/");
    reveal_strlit("humidity");
    reveal_strlit("homeassistant/sensor/wooden_box/");
    reveal_strlit("homeassistant/sensor/wooden_box/humidity/config");
    reveal_strlit("/config");
    assert("homeassistant/sensor/wooden_box/humidity/config"@ =~= "homeassistant/sensor/wooden_box/"@ + "humidity"@ + "/config"@);
    assert("/sensor/"@ != "/switch/"@) by {
        reveal_strlit("/sensor/");
        reveal_strlit("/switch/");
        assert("/sensor/"@[2] != "/switch/"@[2]);
    }
    lemma_topic_literal("/sensor/", "humidity", "homeassistant/sensor/wooden_box/humidity/config");
}

proof fn lemma_relay1_topic_literal()
    ensures
        fill_within(discovery_topic_pieces("/switch/".spec_bytes(), "relay1".spec_bytes()), 128)
            == "homeassistant/switch/wooden_box/relay1/config".spec_bytes(),
{
    reveal_strlit("/switch/");
    reveal_strlit("relay1");
    reveal_strlit("homeassistant/switch/wooden_box/");
    reveal_strlit("homeassistant/switch/wooden_box/relay1/config");
    reveal_strlit("/config");
    assert("homeassistant/switch/wooden_box/relay1/config"@ =~= "homeassistant/switch/wooden_box/"@ + "relay1"@ + "/config"@);
    assert("/sensor/"@ != "/switch/"@) by {
        reveal_strlit("/sensor/");
        reveal_strlit("/switch/");
        assert("/sensor/"@[2] != "/switch/"@[2]);
    }
    lemma_topic_literal("/switch/", "relay1", "homeassistant/switch/wooden_box/relay1/config");
}

proof fn lemma_relay1_payload_literal()
    ensures
        fill_within(switch_payload_pieces("relay1".spec_bytes(), "Relay 1".spec_bytes()), 512)
            == r#"{"~":"wooden-box","name":"Relay 1","uniq_id":"wooden_box_relay1","stat_t":"~/switch/relay1/state","cmd_t":"~/switch/relay1/command","dev":{"ids":["wooden_box"],"name":"Wooden Box"}}"#.spec_bytes(),
{
    let id = "relay1";
    let name = "Relay 1";
    let full = r#"{"~":"wooden-box","name":"Relay 1","uniq_id":"wooden_box_relay1","stat_t":"~/switch/relay1/state","cmd_t":"~/switch/relay1/command","dev":{"ids":["wooden_box"],"name":"Wooden Box"}}"#;
    let a = r#"{"~":"wooden-box","name":""#;
    let b = r#"","uniq_id":"wooden_box_"#;
    let c = r#"","stat_t":"~/switch/"#;
    let d = r#"/state","cmd_t":"~/switch/"#;
    let e = r#"/command","dev":{"ids":["wooden_box"],"name":"Wooden Box"}}"#;
    reveal_strlit("relay1");
    reveal_strlit("Relay 1");
    reveal_strlit(
        r#"{"~":"wooden-box","name":"Relay 1","uniq_id":"wooden_box_relay1","stat_t":"~/switch/relay1/state","cmd_t":"~/switch/relay1/command","dev":{"ids":["wooden_box"],"name":"Wooden Box"}}"#,
    );
    reveal_strlit(r#"{"~":"wooden-box","name":""#);
    reveal_strlit(r#"","uniq_id":"wooden_box_"#);
    reveal_strlit(r#"","stat_t":"~/switch/"#);
    reveal_strlit(r#"/state","cmd_t":"~/switch/"#);
    reveal_strlit(r#"/command","dev":{"ids":["wooden_box"],"name":"Wooden Box"}}"#);
    lemma_ascii_bytes_len("relay1");
    lemma_ascii_bytes_len("Relay 1");
    let chars = a@ + name@ + b@ + id@ + c@ + id@ + d@ + id@ + e@;
    assert(full@ =~= chars);
    lemma_encode_utf8_concat(a@, name@);
    lemma_encode_utf8_concat(a@ + name@, b@);
    lemma_encode_utf8_concat(a@ + name@ + b@, id@);
    lemma_encode_utf8_concat(a@ + name@ + b@ + id@, c@);
    lemma_encode_utf8_concat(a@ + name@ + b@ + id@ + c@, id@);
    lemma_encode_utf8_concat(a@ + name@ + b@ + id@ + c@ + id@, d@);
    lemma_encode_utf8_concat(a@ + name@ + b@ + id@ + c@ + id@ + d@, id@);
    lemma_encode_utf8_concat(a@ + name@ + b@ + id@ + c@ + id@ + d@ + id@, e@);
    lemma_switch_payload_text(id.spec_bytes(), name.spec_bytes());
}

/// A discovery config topic, spelled out as one literal.
proof fn lemma_topic_literal(component: &str, object_id: &str, full: &str)
    requires
        is_ascii(object_id),
        is_ascii(full),
        object_id@.len() <= 89,
        component@ == "/sensor/"@ || component@ == "/switch/"@,
        component@ == "/sensor/"@ ==> full@ == "homeassistant/sensor/wooden_box/"@ + object_id@
            + "/config"@,
        component@ == "/switch/"@ ==> full@ == "homeassistant/switch/wooden_box/"@ + object_id@
            + "/config"@,
    ensures
        fill_within(discovery_topic_pieces(component.spec_bytes(), object_id.spec_bytes()), 128)
            == full.spec_bytes(),
{
    reveal_strlit("/sensor/");
    reveal_strlit("/switch/");
    reveal_strlit("/config");
    reveal_strlit("homeassistant/sensor/wooden_box/");
    reveal_strlit("homeassistant/switch/wooden_box/");
    lemma_ascii_bytes_len(object_id);
    is_ascii_spec_bytes("/config");
    is_ascii_spec_bytes("/sensor/");
    is_ascii_spec_bytes("/switch/");
    is_ascii_spec_bytes("homeassistant/sensor/wooden_box/");
    is_ascii_spec_bytes("homeassistant/switch/wooden_box/");
    is_ascii_spec_bytes(object_id);
    is_ascii_spec_bytes(full);
    lemma_discovery_topic_text(object_id.spec_bytes());
    if component@ == "/sensor/"@ {
        assert(component.spec_bytes() =~= "/sensor/".spec_bytes());
        assert(full.spec_bytes() =~= "homeassistant/sensor/wooden_box/".spec_bytes()
            + object_id.spec_bytes() + "/config".spec_bytes());
    } else {
        assert(component.spec_bytes() =~= "/switch/".spec_bytes());
        assert(full.spec_bytes() =~= "homeassistant/switch/wooden_box/".spec_bytes()
            + object_id.spec_bytes() + "/config".spec_bytes());
    }
}

} // verus!
