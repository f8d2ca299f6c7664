//! Home Assistant MQTT discovery: the config topics and the JSON payloads that
//! announce this device's entities.
//!
//! Payloads use HA abbreviations to stay small; `~` expands to the value of
//! the `"~"` key (the base topic) inside `stat_t` and `cmd_t`.
use vstd::prelude::*;
use vstd::string::*;
use vstd::utf8::encode_utf8;
use crate::config::{HA_DEVICE_ID, HA_DEVICE_NAME};
use crate::text::{
    char_bytes, lemma_ascii_char_bytes, fill_within, lemma_ascii_bytes_len, lemma_fill_within_exact, push128,
    push128_char, push512, push512_char, push512_fitting, string128_bytes, string128_new,
    string512_bytes, string512_new,
};

verus! {

/// HA MQTT discovery topic prefix.
pub const DISCOVERY_PREFIX: &'static str = "homeassistant";

/// Base topic used with the `~` abbreviation in payloads.
pub const BASE_TOPIC: &'static str = "wooden-box";

// ---- Topics ----------------------------------------------------------------

/// The pieces of the discovery config topic of an entity:
/// `homeassistant/<component>/<device id>/<object id>/config`, where
/// `component_part` is `/<component>/`.
pub open spec fn discovery_topic_pieces(component_part: Seq<u8>, object_id: Seq<u8>) -> Seq<Seq<u8>> {
    seq![
        DISCOVERY_PREFIX.spec_bytes(),
        component_part,
        HA_DEVICE_ID.spec_bytes(),
        char_bytes('/'),
        object_id,
        "/config".spec_bytes(),
    ]
}

fn discovery_topic(component_part: &str, object_id: &str) -> (t: heapless::String<128>)
    ensures
        string128_bytes(t) == fill_within(
            discovery_topic_pieces(component_part.spec_bytes(), object_id.spec_bytes()),
            128,
        ),
{
    let mut s = string128_new();
    let ghost pieces: Seq<Seq<u8>> = Seq::empty();
    push128(&mut s, DISCOVERY_PREFIX, Ghost(pieces));
    let ghost pieces = pieces.push(DISCOVERY_PREFIX.spec_bytes());
    push128(&mut s, component_part, Ghost(pieces));
    let ghost pieces = pieces.push(component_part.spec_bytes());
    push128(&mut s, HA_DEVICE_ID, Ghost(pieces));
    let ghost pieces = pieces.push(HA_DEVICE_ID.spec_bytes());
    push128_char(&mut s, '/', Ghost(pieces));
    let ghost pieces = pieces.push(char_bytes('/'));
    push128(&mut s, object_id, Ghost(pieces));
    let ghost pieces = pieces.push(object_id.spec_bytes());
    push128(&mut s, "/config", Ghost(pieces));
    let ghost pieces = pieces.push("/config".spec_bytes());
    assert(pieces =~= discovery_topic_pieces(component_part.spec_bytes(), object_id.spec_bytes()));
    s
}

/// Discovery config topic of a sensor entity:
/// `homeassistant/sensor/<device id>/<object_id>/config`.
/// A piece that no longer fits in the 128-byte buffer is left out; when the
/// whole topic fits, it is exactly the concatenation of its pieces.
pub fn discovery_topic_sensor(object_id: &str) -> (t: heapless::String<128>)
    ensures
        string128_bytes(t) == fill_within(
            discovery_topic_pieces("/sensor/".spec_bytes(), object_id.spec_bytes()),
            128,
        ),
        discovery_topic_pieces("/sensor/".spec_bytes(), object_id.spec_bytes()).flatten().len()
            <= 128 ==> string128_bytes(t) == discovery_topic_pieces(
            "/sensor/".spec_bytes(),
            object_id.spec_bytes(),
        ).flatten(),
{
    let t = discovery_topic("/sensor/", object_id);
    proof {
        let pieces = discovery_topic_pieces("/sensor/".spec_bytes(), object_id.spec_bytes());
        if pieces.flatten().len() <= 128 {
            lemma_fill_within_exact(pieces, 128);
        }
    }
    t
}

/// Discovery config topic of a switch entity:
/// `homeassistant/switch/<device id>/<object_id>/config`.
/// A piece that no longer fits in the 128-byte buffer is left out; when the
/// whole topic fits, it is exactly the concatenation of its pieces.
pub fn discovery_topic_switch(object_id: &str) -> (t: heapless::String<128>)
    ensures
        string128_bytes(t) == fill_within(
            discovery_topic_pieces("/switch/".spec_bytes(), object_id.spec_bytes()),
            128,
        ),
        discovery_topic_pieces("/switch/".spec_bytes(), object_id.spec_bytes()).flatten().len()
            <= 128 ==> string128_bytes(t) == discovery_topic_pieces(
            "/switch/".spec_bytes(),
            object_id.spec_bytes(),
        ).flatten(),
{
    let t = discovery_topic("/switch/", object_id);
    proof {
        let pieces = discovery_topic_pieces("/switch/".spec_bytes(), object_id.spec_bytes());
        if pieces.flatten().len() <= 128 {
            lemma_fill_within_exact(pieces, 128);
        }
    }
    t
}

// ---- Payloads --------------------------------------------------------------

/// The byte lengths of the configured identity and base topic.
proof fn lemma_identity_lens()
    ensures
        HA_DEVICE_ID.spec_bytes().len() == 10,
        HA_DEVICE_NAME.spec_bytes().len() == 10,
        BASE_TOPIC.spec_bytes().len() == 10,
{
    reveal_strlit("wooden_box");
    reveal_strlit("Wooden Box");
    reveal_strlit("wooden-box");
    lemma_ascii_bytes_len(HA_DEVICE_ID);
    lemma_ascii_bytes_len(HA_DEVICE_NAME);
    lemma_ascii_bytes_len(BASE_TOPIC);
}

/// Text of the discovery payload for the temperature sensor entity.
pub open spec fn temperature_payload_text() -> Seq<u8> {
    r#"{"~":""#.spec_bytes() + BASE_TOPIC.spec_bytes()
        + r#"","name":"Temperature","uniq_id":""#.spec_bytes() + HA_DEVICE_ID.spec_bytes()
        + r#"_temp","stat_t":"~/sensor/temperature/state","unit_of_meas":"\u00b0C","dev_cla":"temperature","dev":{"ids":[""#.spec_bytes()
        + HA_DEVICE_ID.spec_bytes() + r#""],"name":""#.spec_bytes()
        + HA_DEVICE_NAME.spec_bytes() + r#""}}"#.spec_bytes()
}

/// Text of the discovery payload for the humidity sensor entity.
pub open spec fn humidity_payload_text() -> Seq<u8> {
    r#"{"~":""#.spec_bytes() + BASE_TOPIC.spec_bytes()
        + r#"","name":"Humidity","uniq_id":""#.spec_bytes() + HA_DEVICE_ID.spec_bytes()
        + r#"_hum","stat_t":"~/sensor/humidity/state","unit_of_meas":"%","dev_cla":"humidity","dev":{"ids":[""#.spec_bytes()
        + HA_DEVICE_ID.spec_bytes() + r#""],"name":""#.spec_bytes()
        + HA_DEVICE_NAME.spec_bytes() + r#""}}"#.spec_bytes()
}

/// Discovery payload for a temperature sensor entity. The whole text fits in
/// the 512-byte buffer, so it is held in full.
pub fn temperature_payload() -> (p: heapless::String<512>)
    ensures
        string512_bytes(p) == temperature_payload_text(),
        string512_bytes(p).len() == 203,
{
    proof {
        lemma_identity_lens();
        reveal_strlit(r#"{"~":""#);
        reveal_strlit(r#"","name":"Temperature","uniq_id":""#);
        reveal_strlit(
            r#"_temp","stat_t":"~/sensor/temperature/state","unit_of_meas":"\u00b0C","dev_cla":"temperature","dev":{"ids":[""#,
        );
        reveal_strlit(r#""],"name":""#);
        reveal_strlit(r#""}}"#);
        lemma_ascii_bytes_len(r#"{"~":""#);
        lemma_ascii_bytes_len(r#"","name":"Temperature","uniq_id":""#);
        lemma_ascii_bytes_len(
            r#"_temp","stat_t":"~/sensor/temperature/state","unit_of_meas":"\u00b0C","dev_cla":"temperature","dev":{"ids":[""#,
        );
        lemma_ascii_bytes_len(r#""],"name":""#);
        lemma_ascii_bytes_len(r#""}}"#);
    }
    let mut s = string512_new();
    push512_fitting(&mut s, r#"{"~":""#);
    push512_fitting(&mut s, BASE_TOPIC);
    push512_fitting(&mut s, r#"","name":"Temperature","uniq_id":""#);
    push512_fitting(&mut s, HA_DEVICE_ID);
    push512_fitting(
        &mut s,
        r#"_temp","stat_t":"~/sensor/temperature/state","unit_of_meas":"\u00b0C","dev_cla":"temperature","dev":{"ids":[""#,
    );
    push512_fitting(&mut s, HA_DEVICE_ID);
    push512_fitting(&mut s, r#""],"name":""#);
    push512_fitting(&mut s, HA_DEVICE_NAME);
    push512_fitting(&mut s, r#""}}"#);
    s
}

/// Discovery payload for a humidity sensor entity. The whole text fits in the
/// 512-byte buffer, so it is held in full.
pub fn humidity_payload() -> (p: heapless::String<512>)
    ensures
        string512_bytes(p) == humidity_payload_text(),
        string512_bytes(p).len() == 187,
{
    proof {
        lemma_identity_lens();
        reveal_strlit(r#"{"~":""#);
        reveal_strlit(r#"","name":"Humidity","uniq_id":""#);
        reveal_strlit(
            r#"_hum","stat_t":"~/sensor/humidity/state","unit_of_meas":"%","dev_cla":"humidity","dev":{"ids":[""#,
        );
        reveal_strlit(r#""],"name":""#);
        reveal_strlit(r#""}}"#);
        lemma_ascii_bytes_len(r#"{"~":""#);
        lemma_ascii_bytes_len(r#"","name":"Humidity","uniq_id":""#);
        lemma_ascii_bytes_len(
            r#"_hum","stat_t":"~/sensor/humidity/state","unit_of_meas":"%","dev_cla":"humidity","dev":{"ids":[""#,
        );
        lemma_ascii_bytes_len(r#""],"name":""#);
        lemma_ascii_bytes_len(r#""}}"#);
    }
    let mut s = string512_new();
    push512_fitting(&mut s, r#"{"~":""#);
    push512_fitting(&mut s, BASE_TOPIC);
    push512_fitting(&mut s, r#"","name":"Humidity","uniq_id":""#);
    push512_fitting(&mut s, HA_DEVICE_ID);
    push512_fitting(
        &mut s,
        r#"_hum","stat_t":"~/sensor/humidity/state","unit_of_meas":"%","dev_cla":"humidity","dev":{"ids":[""#,
    );
    push512_fitting(&mut s, HA_DEVICE_ID);
    push512_fitting(&mut s, r#""],"name":""#);
    push512_fitting(&mut s, HA_DEVICE_NAME);
    push512_fitting(&mut s, r#""}}"#);
    s
}

/// The pieces of the discovery payload of a switch entity, in order. The
/// entity's state topic is `~/switch/<object_id>/state` and its command topic
/// `~/switch/<object_id>/command`, with `~` standing for the base topic.
pub open spec fn switch_payload_pieces(object_id: Seq<u8>, display_name: Seq<u8>) -> Seq<Seq<u8>> {
    seq![
        r#"{"~":""#.spec_bytes(),
        BASE_TOPIC.spec_bytes(),
        r#"","name":""#.spec_bytes(),
        display_name,
        r#"","uniq_id":""#.spec_bytes(),
        HA_DEVICE_ID.spec_bytes(),
        char_bytes('_'),
        object_id,
        r#"","stat_t":"~/switch/"#.spec_bytes(),
        object_id,
        r#"/state","cmd_t":"~/switch/"#.spec_bytes(),
        object_id,
        r#"/command","dev":{"ids":[""#.spec_bytes(),
        HA_DEVICE_ID.spec_bytes(),
        r#""],"name":""#.spec_bytes(),
        HA_DEVICE_NAME.spec_bytes(),
        r#""}}"#.spec_bytes(),
    ]
}

/// Discovery payload for a switch/relay entity.
/// `object_id` should match the one used in `discovery_topic_switch`.
/// A piece that no longer fits in the 512-byte buffer is left out; when the
/// whole payload fits, it is exactly the concatenation of its pieces.
pub fn switch_payload(object_id: &str, display_name: &str) -> (p: heapless::String<512>)
    ensures
        string512_bytes(p) == fill_within(
            switch_payload_pieces(object_id.spec_bytes(), display_name.spec_bytes()),
            512,
        ),
        switch_payload_pieces(object_id.spec_bytes(), display_name.spec_bytes()).flatten().len()
            <= 512 ==> string512_bytes(p) == switch_payload_pieces(
            object_id.spec_bytes(),
            display_name.spec_bytes(),
        ).flatten(),
{
    let mut s = string512_new();
    let ghost pieces: Seq<Seq<u8>> = Seq::empty();
    push512(&mut s, r#"{"~":""#, Ghost(pieces));
    let ghost pieces = pieces.push(r#"{"~":""#.spec_bytes());
    push512(&mut s, BASE_TOPIC, Ghost(pieces));
    let ghost pieces = pieces.push(BASE_TOPIC.spec_bytes());
    push512(&mut s, r#"","name":""#, Ghost(pieces));
    let ghost pieces = pieces.push(r#"","name":""#.spec_bytes());
    push512(&mut s, display_name, Ghost(pieces));
    let ghost pieces = pieces.push(display_name.spec_bytes());
    push512(&mut s, r#"","uniq_id":""#, Ghost(pieces));
    let ghost pieces = pieces.push(r#"","uniq_id":""#.spec_bytes());
    push512(&mut s, HA_DEVICE_ID, Ghost(pieces));
    let ghost pieces = pieces.push(HA_DEVICE_ID.spec_bytes());
    push512_char(&mut s, '_', Ghost(pieces));
    let ghost pieces = pieces.push(char_bytes('_'));
    push512(&mut s, object_id, Ghost(pieces));
    let ghost pieces = pieces.push(object_id.spec_bytes());
    push512(&mut s, r#"","stat_t":"~/switch/"#, Ghost(pieces));
    let ghost pieces = pieces.push(r#"","stat_t":"~/switch/"#.spec_bytes());
    push512(&mut s, object_id, Ghost(pieces));
    let ghost pieces = pieces.push(object_id.spec_bytes());
    push512(&mut s, r#"/state","cmd_t":"~/switch/"#, Ghost(pieces));
    let ghost pieces = pieces.push(r#"/state","cmd_t":"~/switch/"#.spec_bytes());
    push512(&mut s, object_id, Ghost(pieces));
    let ghost pieces = pieces.push(object_id.spec_bytes());
    push512(&mut s, r#"/command","dev":{"ids":[""#, Ghost(pieces));
    let ghost pieces = pieces.push(r#"/command","dev":{"ids":[""#.spec_bytes());
    push512(&mut s, HA_DEVICE_ID, Ghost(pieces));
    let ghost pieces = pieces.push(HA_DEVICE_ID.spec_bytes());
    push512(&mut s, r#""],"name":""#, Ghost(pieces));
    let ghost pieces = pieces.push(r#""],"name":""#.spec_bytes());
    push512(&mut s, HA_DEVICE_NAME, Ghost(pieces));
    let ghost pieces = pieces.push(HA_DEVICE_NAME.spec_bytes());
    push512(&mut s, r#""}}"#, Ghost(pieces));
    let ghost pieces = pieces.push(r#""}}"#.spec_bytes());
    proof {
        let expected = switch_payload_pieces(object_id.spec_bytes(), display_name.spec_bytes());
        assert(pieces =~= expected);
        if expected.flatten().len() <= 512 {
            lemma_fill_within_exact(expected, 512);
        }
    }
    s
}

// ---- Unique ids ------------------------------------------------------------

/// The unique id of the temperature sensor entity: `<device id>_temp`.
pub open spec fn temperature_unique_id() -> Seq<u8> {
    HA_DEVICE_ID.spec_bytes() + "_temp".spec_bytes()
}

/// The unique id of the humidity sensor entity: `<device id>_hum`.
pub open spec fn humidity_unique_id() -> Seq<u8> {
    HA_DEVICE_ID.spec_bytes() + "_hum".spec_bytes()
}

/// The unique id of switch `object_id`: `<device id>_<object_id>`.
pub open spec fn switch_unique_id(object_id: Seq<u8>) -> Seq<u8> {
    HA_DEVICE_ID.spec_bytes() + char_bytes('_') + object_id
}

/// The payloads carry these unique ids as their `uniq_id` values, and the
/// ids are pairwise distinct as long as the switch's object id is neither
/// `temp` nor `hum`.
pub proof fn lemma_unique_ids(object_id: Seq<u8>, display_name: Seq<u8>)
    ensures
        temperature_payload_text().subrange(50, 65) == temperature_unique_id(),
        humidity_payload_text().subrange(47, 61) == humidity_unique_id(),
        switch_payload_pieces(object_id, display_name)[5] + switch_payload_pieces(
            object_id,
            display_name,
        )[6] + switch_payload_pieces(object_id, display_name)[7] == switch_unique_id(object_id),
        temperature_unique_id() != humidity_unique_id(),
        object_id != "temp".spec_bytes() ==> switch_unique_id(object_id)
            != temperature_unique_id(),
        object_id != "hum".spec_bytes() ==> switch_unique_id(object_id) != humidity_unique_id(),
{
    lemma_identity_lens();
    reveal_strlit("_temp");
    reveal_strlit("_hum");
    reveal_strlit("temp");
    reveal_strlit("hum");
    reveal_strlit(r#"{"~":""#);
    reveal_strlit(r#"","name":"Temperature","uniq_id":""#);
    reveal_strlit(r#"","name":"Humidity","uniq_id":""#);
    reveal_strlit(
        r#"_temp","stat_t":"~/sensor/temperature/state","unit_of_meas":"\u00b0C","dev_cla":"temperature","dev":{"ids":[""#,
    );
    reveal_strlit(
        r#"_hum","stat_t":"~/sensor/humidity/state","unit_of_meas":"%","dev_cla":"humidity","dev":{"ids":[""#,
    );
    reveal_strlit(r#""],"name":""#);
    reveal_strlit(r#""}}"#);
    is_ascii_spec_bytes("_temp");
    is_ascii_spec_bytes("_hum");
    is_ascii_spec_bytes("temp");
    is_ascii_spec_bytes("hum");
    is_ascii_spec_bytes(r#"{"~":""#);
    is_ascii_spec_bytes(r#"","name":"Temperature","uniq_id":""#);
    is_ascii_spec_bytes(r#"","name":"Humidity","uniq_id":""#);
    is_ascii_spec_bytes(
        r#"_temp","stat_t":"~/sensor/temperature/state","unit_of_meas":"\u00b0C","dev_cla":"temperature","dev":{"ids":[""#,
    );
    is_ascii_spec_bytes(
        r#"_hum","stat_t":"~/sensor/humidity/state","unit_of_meas":"%","dev_cla":"humidity","dev":{"ids":[""#,
    );
    is_ascii_spec_bytes(r#""],"name":""#);
    is_ascii_spec_bytes(r#""}}"#);
    lemma_ascii_char_bytes('_');
    let id = HA_DEVICE_ID.spec_bytes();
    assert(temperature_payload_text().subrange(50, 65) =~= temperature_unique_id());
    assert(humidity_payload_text().subrange(47, 61) =~= humidity_unique_id());
    assert(temperature_unique_id().len() != humidity_unique_id().len());
    if object_id != "temp".spec_bytes() {
        if switch_unique_id(object_id) == temperature_unique_id() {
            assert(object_id =~= switch_unique_id(object_id).subrange(11, switch_unique_id(
                object_id,
            ).len() as int));
            assert(object_id =~= "temp".spec_bytes());
        }
    }
    if object_id != "hum".spec_bytes() {
        if switch_unique_id(object_id) == humidity_unique_id() {
            assert(object_id =~= switch_unique_id(object_id).subrange(11, switch_unique_id(
                object_id,
            ).len() as int));
            assert(object_id =~= "hum".spec_bytes());
        }
    }
}

/// UTF-8 encoding distributes over concatenation.
pub(crate) proof fn lemma_encode_utf8_concat(a: Seq<char>, b: Seq<char>)
    ensures
        encode_utf8(a + b) == encode_utf8(a) + encode_utf8(b),
    decreases a.len(),
{
    if a.len() > 0 {
        lemma_encode_utf8_concat(a.drop_first(), b);
        assert((a + b).drop_first() =~= a.drop_first() + b);
        assert((a + b)[0] == a[0]);
    } else {
        assert(a + b =~= b);
    }
}

/// The humidity payload, spelled out in full.
pub proof fn lemma_humidity_payload_literal()
    ensures
        humidity_payload_text() == r#"{"~":"wooden-box","name":"Humidity","uniq_id":"wooden_box_hum","stat_t":"~/sensor/humidity/state","unit_of_meas":"%","dev_cla":"humidity","dev":{"ids":["wooden_box"],"name":"Wooden Box"}}"#.spec_bytes(),
{
    let p1 = r#"{"~":""#;
    let p3 = r#"","name":"Humidity","uniq_id":""#;
    let p5 = r#"_hum","stat_t":"~/sensor/humidity/state","unit_of_meas":"%","dev_cla":"humidity","dev":{"ids":[""#;
    let p7 = r#""],"name":""#;
    let p9 = r#""}}"#;
    let full = r#"{"~":"wooden-box","name":"Humidity","uniq_id":"wooden_box_hum","stat_t":"~/sensor/humidity/state","unit_of_meas":"%","dev_cla":"humidity","dev":{"ids":["wooden_box"],"name":"Wooden Box"}}"#;
    reveal_strlit(r#"{"~":""#);
    reveal_strlit(r#"","name":"Humidity","uniq_id":""#);
    reveal_strlit(
        r#"_hum","stat_t":"~/sensor/humidity/state","unit_of_meas":"%","dev_cla":"humidity","dev":{"ids":[""#,
    );
    reveal_strlit(r#""],"name":""#);
    reveal_strlit(r#""}}"#);
    reveal_strlit("wooden_box");
    reveal_strlit("Wooden Box");
    reveal_strlit("wooden-box");
    reveal_strlit(
        r#"{"~":"wooden-box","name":"Humidity","uniq_id":"wooden_box_hum","stat_t":"~/sensor/humidity/state","unit_of_meas":"%","dev_cla":"humidity","dev":{"ids":["wooden_box"],"name":"Wooden Box"}}"#,
    );
    let id = HA_DEVICE_ID@;
    let chars = p1@ + BASE_TOPIC@ + p3@ + id + p5@ + id + p7@ + HA_DEVICE_NAME@ + p9@;
    assert(full@ =~= chars);
    lemma_encode_utf8_concat(p1@, BASE_TOPIC@);
    lemma_encode_utf8_concat(p1@ + BASE_TOPIC@, p3@);
    lemma_encode_utf8_concat(p1@ + BASE_TOPIC@ + p3@, id);
    lemma_encode_utf8_concat(p1@ + BASE_TOPIC@ + p3@ + id, p5@);
    lemma_encode_utf8_concat(p1@ + BASE_TOPIC@ + p3@ + id + p5@, id);
    lemma_encode_utf8_concat(p1@ + BASE_TOPIC@ + p3@ + id + p5@ + id, p7@);
    lemma_encode_utf8_concat(p1@ + BASE_TOPIC@ + p3@ + id + p5@ + id + p7@, HA_DEVICE_NAME@);
    lemma_encode_utf8_concat(
        p1@ + BASE_TOPIC@ + p3@ + id + p5@ + id + p7@ + HA_DEVICE_NAME@,
        p9@,
    );
}

/// The temperature payload, spelled out in full.
pub proof fn lemma_temperature_payload_literal()
    ensures
        temperature_payload_text() == r#"{"~":"wooden-box","name":"Temperature","uniq_id":"wooden_box_temp","stat_t":"~/sensor/temperature/state","unit_of_meas":"\u00b0C","dev_cla":"temperature","dev":{"ids":["wooden_box"],"name":"Wooden Box"}}"#.spec_bytes(),
{
    let p1 = r#"{"~":""#;
    let p3 = r#"","name":"Temperature","uniq_id":""#;
    let p5 = r#"_temp","stat_t":"~/sensor/temperature/state","unit_of_meas":"\u00b0C","dev_cla":"temperature","dev":{"ids":[""#;
    let p7 = r#""],"name":""#;
    let p9 = r#""}}"#;
    let full = r#"{"~":"wooden-box","name":"Temperature","uniq_id":"wooden_box_temp","stat_t":"~/sensor/temperature/state","unit_of_meas":"\u00b0C","dev_cla":"temperature","dev":{"ids":["wooden_box"],"name":"Wooden Box"}}"#;
    reveal_strlit(r#"{"~":""#);
    reveal_strlit(r#"","name":"Temperature","uniq_id":""#);
    reveal_strlit(
        r#"_temp","stat_t":"~/sensor/temperature/state","unit_of_meas":"\u00b0C","dev_cla":"temperature","dev":{"ids":[""#,
    );
    reveal_strlit(r#""],"name":""#);
    reveal_strlit(r#""}}"#);
    reveal_strlit("wooden_box");
    reveal_strlit("Wooden Box");
    reveal_strlit("wooden-box");
    reveal_strlit(
        r#"{"~":"wooden-box","name":"Temperature","uniq_id":"wooden_box_temp","stat_t":"~/sensor/temperature/state","unit_of_meas":"\u00b0C","dev_cla":"temperature","dev":{"ids":["wooden_box"],"name":"Wooden Box"}}"#,
    );
    let id = HA_DEVICE_ID@;
    let chars = p1@ + BASE_TOPIC@ + p3@ + id + p5@ + id + p7@ + HA_DEVICE_NAME@ + p9@;
    assert(full@ =~= chars);
    lemma_encode_utf8_concat(p1@, BASE_TOPIC@);
    lemma_encode_utf8_concat(p1@ + BASE_TOPIC@, p3@);
    lemma_encode_utf8_concat(p1@ + BASE_TOPIC@ + p3@, id);
    lemma_encode_utf8_concat(p1@ + BASE_TOPIC@ + p3@ + id, p5@);
    lemma_encode_utf8_concat(p1@ + BASE_TOPIC@ + p3@ + id + p5@, id);
    lemma_encode_utf8_concat(p1@ + BASE_TOPIC@ + p3@ + id + p5@ + id, p7@);
    lemma_encode_utf8_concat(p1@ + BASE_TOPIC@ + p3@ + id + p5@ + id + p7@, HA_DEVICE_NAME@);
    lemma_encode_utf8_concat(
        p1@ + BASE_TOPIC@ + p3@ + id + p5@ + id + p7@ + HA_DEVICE_NAME@,
        p9@,
    );
}

/// The switch payload, spelled out: for any object id and display name it
/// reads `{"~":"wooden-box","name":"<name>","uniq_id":"wooden_box_<id>",
/// "stat_t":"~/switch/<id>/state","cmd_t":"~/switch/<id>/command",
/// "dev":{"ids":["wooden_box"],"name":"Wooden Box"}}` (without line breaks),
/// and it is held in full whenever the name and three copies of the id take
/// at most 356 bytes.
pub proof fn lemma_switch_payload_text(object_id: Seq<u8>, display_name: Seq<u8>)
    ensures
        switch_payload_pieces(object_id, display_name).flatten() == r#"{"~":"wooden-box","name":""#.spec_bytes()
            + display_name + r#"","uniq_id":"wooden_box_"#.spec_bytes() + object_id
            + r#"","stat_t":"~/switch/"#.spec_bytes() + object_id
            + r#"/state","cmd_t":"~/switch/"#.spec_bytes() + object_id
            + r#"/command","dev":{"ids":["wooden_box"],"name":"Wooden Box"}}"#.spec_bytes(),
        display_name.len() + 3 * object_id.len() <= 356 ==> fill_within(
            switch_payload_pieces(object_id, display_name),
            512,
        ) == switch_payload_pieces(object_id, display_name).flatten(),
{
    let p1 = r#"{"~":""#;
    let p3 = r#"","name":""#;
    let p5 = r#"","uniq_id":""#;
    let p9 = r#"","stat_t":"~/switch/"#;
    let p11 = r#"/state","cmd_t":"~/switch/"#;
    let p13 = r#"/command","dev":{"ids":[""#;
    let p15 = r#""],"name":""#;
    let p17 = r#""}}"#;
    let a = r#"{"~":"wooden-box","name":""#;
    let b = r#"","uniq_id":"wooden_box_"#;
    let e = r#"/command","dev":{"ids":["wooden_box"],"name":"Wooden Box"}}"#;
    reveal_strlit(r#"{"~":""#);
    reveal_strlit(r#"","name":""#);
    reveal_strlit(r#"","uniq_id":""#);
    reveal_strlit(r#"","stat_t":"~/switch/"#);
    reveal_strlit(r#"/state","cmd_t":"~/switch/"#);
    reveal_strlit(r#"/command","dev":{"ids":[""#);
    reveal_strlit(r#""],"name":""#);
    reveal_strlit(r#""}}"#);
    reveal_strlit(r#"{"~":"wooden-box","name":""#);
    reveal_strlit(r#"","uniq_id":"wooden_box_"#);
    reveal_strlit(r#"/command","dev":{"ids":["wooden_box"],"name":"Wooden Box"}}"#);
    reveal_strlit("wooden_box");
    reveal_strlit("Wooden Box");
    reveal_strlit("wooden-box");
    let id = HA_DEVICE_ID@;
    assert(a@ =~= p1@ + BASE_TOPIC@ + p3@);
    lemma_encode_utf8_concat(p1@, BASE_TOPIC@);
    lemma_encode_utf8_concat(p1@ + BASE_TOPIC@, p3@);
    assert(b@ =~= p5@ + id + seq!['_']);
    lemma_encode_utf8_concat(p5@, id);
    lemma_encode_utf8_concat(p5@ + id, seq!['_']);
    assert(e@ =~= p13@ + id + p15@ + HA_DEVICE_NAME@ + p17@);
    lemma_encode_utf8_concat(p13@, id);
    lemma_encode_utf8_concat(p13@ + id, p15@);
    lemma_encode_utf8_concat(p13@ + id + p15@, HA_DEVICE_NAME@);
    lemma_encode_utf8_concat(p13@ + id + p15@ + HA_DEVICE_NAME@, p17@);
    let pieces = switch_payload_pieces(object_id, display_name);
    let q0 = Seq::<Seq<u8>>::empty();
    let q1 = q0.push(p1.spec_bytes());
    let q2 = q1.push(BASE_TOPIC.spec_bytes());
    let q3 = q2.push(p3.spec_bytes());
    let q4 = q3.push(display_name);
    let q5 = q4.push(p5.spec_bytes());
    let q6 = q5.push(HA_DEVICE_ID.spec_bytes());
    let q7 = q6.push(char_bytes('_'));
    let q8 = q7.push(object_id);
    let q9 = q8.push(p9.spec_bytes());
    let q10 = q9.push(object_id);
    let q11 = q10.push(p11.spec_bytes());
    let q12 = q11.push(object_id);
    let q13 = q12.push(p13.spec_bytes());
    let q14 = q13.push(HA_DEVICE_ID.spec_bytes());
    let q15 = q14.push(p15.spec_bytes());
    let q16 = q15.push(HA_DEVICE_NAME.spec_bytes());
    let q17 = q16.push(p17.spec_bytes());
    assert(pieces =~= q17);
    assert(q0.flatten() =~= Seq::<u8>::empty());
    q0.lemma_flatten_push(p1.spec_bytes());
    q1.lemma_flatten_push(BASE_TOPIC.spec_bytes());
    q2.lemma_flatten_push(p3.spec_bytes());
    q3.lemma_flatten_push(display_name);
    q4.lemma_flatten_push(p5.spec_bytes());
    q5.lemma_flatten_push(HA_DEVICE_ID.spec_bytes());
    q6.lemma_flatten_push(char_bytes('_'));
    q7.lemma_flatten_push(object_id);
    q8.lemma_flatten_push(p9.spec_bytes());
    q9.lemma_flatten_push(object_id);
    q10.lemma_flatten_push(p11.spec_bytes());
    q11.lemma_flatten_push(object_id);
    q12.lemma_flatten_push(p13.spec_bytes());
    q13.lemma_flatten_push(HA_DEVICE_ID.spec_bytes());
    q14.lemma_flatten_push(p15.spec_bytes());
    q15.lemma_flatten_push(HA_DEVICE_NAME.spec_bytes());
    q16.lemma_flatten_push(p17.spec_bytes());
    assert(pieces.flatten() =~= a.spec_bytes() + display_name + b.spec_bytes() + object_id
        + p9.spec_bytes() + object_id + p11.spec_bytes() + object_id + e.spec_bytes());
    is_ascii_spec_bytes(a);
    is_ascii_spec_bytes(b);
    is_ascii_spec_bytes(p9);
    is_ascii_spec_bytes(p11);
    is_ascii_spec_bytes(e);
    if display_name.len() + 3 * object_id.len() <= 356 {
        lemma_fill_within_exact(pieces, 512);
    }
}

/// The discovery config topics, spelled out:
/// `homeassistant/sensor/wooden_box/<object_id>/config` and
/// `homeassistant/switch/wooden_box/<object_id>/config`, each held in full
/// whenever the object id takes at most 89 bytes.
pub proof fn lemma_discovery_topic_text(object_id: Seq<u8>)
    ensures
        discovery_topic_pieces("/sensor/".spec_bytes(), object_id).flatten()
            == "homeassistant/sensor/wooden_box/".spec_bytes() + object_id
            + "/config".spec_bytes(),
        discovery_topic_pieces("/switch/".spec_bytes(), object_id).flatten()
            == "homeassistant/switch/wooden_box/".spec_bytes() + object_id
            + "/config".spec_bytes(),
        object_id.len() <= 89 ==> fill_within(
            discovery_topic_pieces("/sensor/".spec_bytes(), object_id),
            128,
        ) == discovery_topic_pieces("/sensor/".spec_bytes(), object_id).flatten(),
        object_id.len() <= 89 ==> fill_within(
            discovery_topic_pieces("/switch/".spec_bytes(), object_id),
            128,
        ) == discovery_topic_pieces("/switch/".spec_bytes(), object_id).flatten(),
{
    reveal_strlit("homeassistant");
    reveal_strlit("wooden_box");
    reveal_strlit("/sensor/");
    reveal_strlit("/switch/");
    reveal_strlit("homeassistant/sensor/wooden_box/");
    reveal_strlit("homeassistant/switch/wooden_box/");
    assert("homeassistant/sensor/wooden_box/"@ =~= DISCOVERY_PREFIX@ + "/sensor/"@ + HA_DEVICE_ID@
        + seq!['/']);
    assert("homeassistant/switch/wooden_box/"@ =~= DISCOVERY_PREFIX@ + "/switch/"@ + HA_DEVICE_ID@
        + seq!['/']);
    lemma_discovery_topic_text_for("/sensor/", "homeassistant/sensor/wooden_box/", object_id);
    lemma_discovery_topic_text_for("/switch/", "homeassistant/switch/wooden_box/", object_id);
}

proof fn lemma_discovery_topic_text_for(component: &str, head: &str, object_id: Seq<u8>)
    requires
        head@ == DISCOVERY_PREFIX@ + component@ + HA_DEVICE_ID@ + seq!['/'],
        is_ascii(head),
        component@.len() == 8,
    ensures
        discovery_topic_pieces(component.spec_bytes(), object_id).flatten() == head.spec_bytes()
            + object_id + "/config".spec_bytes(),
        object_id.len() <= 89 ==> fill_within(discovery_topic_pieces(component.spec_bytes(), object_id), 128)
            == discovery_topic_pieces(component.spec_bytes(), object_id).flatten(),
{
    reveal_strlit("homeassistant");
    reveal_strlit("wooden_box");
    reveal_strlit("/config");
    let id = HA_DEVICE_ID@;
    lemma_encode_utf8_concat(DISCOVERY_PREFIX@, component@);
    lemma_encode_utf8_concat(DISCOVERY_PREFIX@ + component@, id);
    lemma_encode_utf8_concat(DISCOVERY_PREFIX@ + component@ + id, seq!['/']);
    let pieces = discovery_topic_pieces(component.spec_bytes(), object_id);
    let q0 = Seq::<Seq<u8>>::empty();
    let q1 = q0.push(DISCOVERY_PREFIX.spec_bytes());
    let q2 = q1.push(component.spec_bytes());
    let q3 = q2.push(HA_DEVICE_ID.spec_bytes());
    let q4 = q3.push(char_bytes('/'));
    let q5 = q4.push(object_id);
    let q6 = q5.push("/config".spec_bytes());
    assert(pieces =~= q6);
    assert(q0.flatten() =~= Seq::<u8>::empty());
    q0.lemma_flatten_push(DISCOVERY_PREFIX.spec_bytes());
    q1.lemma_flatten_push(component.spec_bytes());
    q2.lemma_flatten_push(HA_DEVICE_ID.spec_bytes());
    q3.lemma_flatten_push(char_bytes('/'));
    q4.lemma_flatten_push(object_id);
    q5.lemma_flatten_push("/config".spec_bytes());
    assert(pieces.flatten() =~= head.spec_bytes() + object_id + "/config".spec_bytes());
    is_ascii_spec_bytes(head);
    is_ascii_spec_bytes("/config");
    if object_id.len() <= 89 {
        lemma_fill_within_exact(pieces, 128);
    }
}

} // verus!
