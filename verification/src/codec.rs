//! Outgoing control messages as JSON text.
//!
//! The member names and the nesting of every message are fixed here, in
//! verified code; `serde_json` renders the object that they describe.

use vstd::prelude::*;
use crate::models::{ChannelModel, WsChannel};
use crate::signer::{sign, signature};

verus! {

/// The text that `serde_json` renders for the object with the three
/// members `k1: v1`, `k2: v2` and `k3: v3`, all values being strings.
pub uninterp spec fn object3_text(
    k1: Seq<char>,
    v1: Seq<char>,
    k2: Seq<char>,
    v2: Seq<char>,
    k3: Seq<char>,
    v3: Seq<char>,
) -> Seq<char>;

/// The text that `serde_json` renders for the object with the members
/// `k1: v1`, a string, and `k2`, an object with the members `m1: s1` and
/// `m2: s2`, strings, `m3: n3`, a number, and `m4: s4`, a string or null.
pub uninterp spec fn nested_text(
    k1: Seq<char>,
    v1: Seq<char>,
    k2: Seq<char>,
    m1: Seq<char>,
    s1: Seq<char>,
    m2: Seq<char>,
    s2: Seq<char>,
    m3: Seq<char>,
    n3: u64,
    m4: Seq<char>,
    s4: Option<Seq<char>>,
) -> Seq<char>;

/// Every character is a lowercase letter of the basic Latin alphabet, so
/// that a JSON string holds the characters as they are.
pub open spec fn is_plain(s: Seq<char>) -> bool {
    forall|i: int| 0 <= i < s.len() ==> 97 <= (#[trigger] s[i]) as u32 <= 122
}

/// The compact JSON object with the single member `k: v`, for a name and a
/// value that need no escaping.
pub open spec fn plain_object1(k: Seq<char>, v: Seq<char>) -> Seq<char> {
    seq!['{', '"'] + k + seq!['"', ':', '"'] + v + seq!['"', '}']
}

/// The operation named in a subscription change.
pub open spec fn op_name(subscribe: bool) -> Seq<char> {
    if subscribe {
        "subscribe"@
    } else {
        "unsubscribe"@
    }
}

/// The keepalive message.
pub open spec fn ping_text() -> Seq<char> {
    "{\"op\":\"ping\"}"@
}

/// The request to subscribe to `channel` or to unsubscribe from it: the
/// object with the members `op`, `channel` and `market`.
pub open spec fn subscription_text(subscribe: bool, channel: ChannelModel) -> Seq<char> {
    object3_text(
        "op"@,
        op_name(subscribe),
        "channel"@,
        channel.wire_tag(),
        "market"@,
        channel.market(),
    )
}

/// The login message: the object with the members `op`, which is `login`,
/// and `args`, an object with the members `key`, `sign`, `time` and
/// `subaccount`.
pub open spec fn login_text(
    key: Seq<char>,
    sign: Seq<char>,
    time: u64,
    subaccount: Option<Seq<char>>,
) -> Seq<char> {
    nested_text(
        "op"@,
        "login"@,
        "args"@,
        "key"@,
        key,
        "sign"@,
        sign,
        "time"@,
        time,
        "subaccount"@,
        subaccount,
    )
}

/// Puts one string member into a `serde_json::Map` with `insert` and
/// renders it as a `serde_json::Value` with `to_string`. Not proved: that a
/// name and a value of lowercase letters come out unescaped between
/// quotes, joined by a colon, within braces.
#[verifier::external_body]
fn encode_object1(k: &str, v: &str) -> (text: String)
    ensures
        is_plain(k@) && is_plain(v@) ==> text@ == plain_object1(k@, v@),
{
    let mut object = serde_json::Map::new();
    object.insert(String::from(k), serde_json::Value::from(v));
    serde_json::Value::Object(object).to_string()
}

/// Puts three string members into a `serde_json::Map` with `insert` and
/// renders it as a `serde_json::Value` with `to_string`. Not proved: that
/// the text is the one that `object3_text` names, which depends on the six
/// arguments alone.
#[verifier::external_body]
fn encode_object3(k1: &str, v1: &str, k2: &str, v2: &str, k3: &str, v3: &str) -> (text: String)
    ensures
        text@ == object3_text(k1@, v1@, k2@, v2@, k3@, v3@),
{
    let mut object = serde_json::Map::new();
    object.insert(String::from(k1), serde_json::Value::from(v1));
    object.insert(String::from(k2), serde_json::Value::from(v2));
    object.insert(String::from(k3), serde_json::Value::from(v3));
    serde_json::Value::Object(object).to_string()
}

/// Puts two strings, a number and an optional string into one
/// `serde_json::Map` with `insert`, that map and a string into another,
/// and renders the latter as a `serde_json::Value` with `to_string`. Not
/// proved: that the text is the one that `nested_text` names, which depends
/// on the eleven arguments alone.
#[verifier::external_body]
fn encode_nested(
    k1: &str,
    v1: &str,
    k2: &str,
    m1: &str,
    s1: &str,
    m2: &str,
    s2: &str,
    m3: &str,
    n3: u64,
    m4: &str,
    s4: Option<&str>,
) -> (text: String)
    ensures
        text@ == nested_text(
            k1@,
            v1@,
            k2@,
            m1@,
            s1@,
            m2@,
            s2@,
            m3@,
            n3,
            m4@,
            match s4 {
                Some(s) => Some(s@),
                None => None,
            },
        ),
{
    let mut inner = serde_json::Map::new();
    inner.insert(String::from(m1), serde_json::Value::from(s1));
    inner.insert(String::from(m2), serde_json::Value::from(s2));
    inner.insert(String::from(m3), serde_json::Value::from(n3));
    inner.insert(String::from(m4), serde_json::Value::from(s4));
    let mut outer = serde_json::Map::new();
    outer.insert(String::from(k1), serde_json::Value::from(v1));
    outer.insert(String::from(k2), serde_json::Value::Object(inner));
    serde_json::Value::Object(outer).to_string()
}

/// The keepalive message.
pub fn ping() -> (text: String)
    ensures
        text@ == ping_text(),
{
    proof {
        reveal_strlit("op");
        reveal_strlit("ping");
        reveal_strlit("{\"op\":\"ping\"}");
    }
    let text = encode_object1("op", "ping");
    assert(text@ =~= ping_text());
    text
}

/// The request to subscribe to `channel`, or to unsubscribe from it.
pub fn subscription_message(channel: &WsChannel, subscribe: bool) -> (text: String)
    ensures
        text@ == subscription_text(subscribe, channel@),
{
    let op = if subscribe {
        "subscribe"
    } else {
        "unsubscribe"
    };
    encode_object3("op", op, "channel", channel.wire_tag(), "market", channel.market())
}

/// The low 64 bits of a millisecond timestamp, as the login message carries it.
pub open spec fn login_time(timestamp_ms: u128) -> u64 {
    (timestamp_ms % 0x1_0000_0000_0000_0000) as u64
}

/// The login message for `key`, signed with `secret` at `timestamp_ms`.
pub fn login_message(key: &str, secret: &str, subaccount: Option<&str>, timestamp_ms: u128) -> (text: String)
    ensures
        text@ == login_text(
            key@,
            signature(vstd::utf8::encode_utf8(secret@), timestamp_ms as nat),
            login_time(timestamp_ms),
            match subaccount {
                Some(s) => Some(s@),
                None => None,
            },
        ),
{
    let signed = sign(secret, timestamp_ms);
    let time: u64 = (timestamp_ms % 0x1_0000_0000_0000_0000) as u64;
    encode_nested(
        "op",
        "login",
        "args",
        "key",
        key,
        "sign",
        signed.as_str(),
        "time",
        time,
        "subaccount",
        subaccount,
    )
}

} // verus!
