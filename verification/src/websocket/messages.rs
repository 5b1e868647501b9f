//! The texts that the client sends to the WebSocket to subscribe and unsubscribe, and the errors
//! that it reports about the connection.

use vstd::prelude::*;

use crate::errors::{CbError, CbErrorView, CbResult};
use crate::models::websocket::{channel_name, Channel, EndpointType};
use crate::websocket::subscriptions::texts;

verus! {

/// The error type of `serde_json`.
#[verifier::external_type_specification]
#[verifier::external_body]
pub struct ExJsonError(serde_json::Error);

/// A hexadecimal digit, as `serde_json` writes it: `0`-`9`, then `a`-`f`.
pub open spec fn hex_digit(d: u32) -> char {
    if d < 10 {
        (('0' as u32) + d) as char
    } else {
        (('a' as u32) + d - 10) as char
    }
}

/// How `serde_json` writes a character inside a JSON string: a quote and a backslash behind a
/// backslash; backspace, form feed, line feed, carriage return and tab as `\b`, `\f`, `\n`,
/// `\r`, `\t`; any other control character below `0x20` as `\u00` and two lowercase
/// hexadecimal digits; every other character as it is.
pub open spec fn json_escape_char(c: char) -> Seq<char> {
    let code = c as u32;
    if c == '"' {
        seq!['\\', '"']
    } else if c == '\\' {
        seq!['\\', '\\']
    } else if code == 8 {
        seq!['\\', 'b']
    } else if code == 12 {
        seq!['\\', 'f']
    } else if code == 10 {
        seq!['\\', 'n']
    } else if code == 13 {
        seq!['\\', 'r']
    } else if code == 9 {
        seq!['\\', 't']
    } else if code < 0x20 {
        seq!['\\', 'u', '0', '0', hex_digit(code / 16), hex_digit(code % 16)]
    } else {
        seq![c]
    }
}

/// The characters of a text, each written as inside a JSON string.
pub open spec fn json_escaped(s: Seq<char>) -> Seq<char>
    decreases s.len(),
{
    if s.len() == 0 {
        Seq::empty()
    } else {
        json_escaped(s.drop_last()) + json_escape_char(s.last())
    }
}

/// The JSON string that `serde_json` writes for a text: its escaped characters between quotes.
pub open spec fn json_string_text(text: Seq<char>) -> Seq<char> {
    seq!['"'] + json_escaped(text) + seq!['"']
}

/// A text that JSON carries as it is: no control character, quote or backslash.
pub open spec fn plain_json_text(s: Seq<char>) -> bool {
    forall|i: int| 0 <= i < s.len() ==> (s[i] as u32) >= 0x20 && s[i] != '"' && s[i] != '\\'
}

/// A text with no control character, quote or backslash is written between two quotes as it
/// is.
pub proof fn lemma_plain_json_text(s: Seq<char>)
    requires
        plain_json_text(s),
    ensures
        json_string_text(s) == seq!['"'] + s + seq!['"'],
    decreases s.len(),
{
    lemma_plain_escaped(s);
}

proof fn lemma_plain_escaped(s: Seq<char>)
    requires
        plain_json_text(s),
    ensures
        json_escaped(s) == s,
    decreases s.len(),
{
    if s.len() > 0 {
        assert(plain_json_text(s.drop_last()));
        lemma_plain_escaped(s.drop_last());
        let c = s.last();
        assert((c as u32) >= 0x20 && c != '"' && c != '\\');
        assert(json_escape_char(c) == seq![c]);
        assert(s.drop_last() + seq![c] =~= s);
    }
}

/// Writes a text as a JSON string with `serde_json::to_string`. As the source shows, writing a
/// `str` into the `Vec` that `to_string` fills cannot fail, and the text is escaped by the
/// table of `format_escaped_str_contents`, which `json_string_text` states.
#[verifier::external_body]
fn json_string(text: &str) -> (r: Result<String, serde_json::Error>)
    ensures
        r is Ok,
        r matches Ok(s) ==> s@ == json_string_text(text@),
{
    serde_json::to_string(text)
}

/// The message of a `serde_json` error, as its `Display` writes it. Nothing is claimed of it.
#[verifier::external_body]
fn json_error_text(e: &serde_json::Error) -> String {
    e.to_string()
}

/// The items of a list, separated by commas.
pub open spec fn joined(items: Seq<Seq<char>>) -> Seq<char>
    decreases items.len(),
{
    if items.len() == 0 {
        Seq::empty()
    } else if items.len() == 1 {
        items[0]
    } else {
        joined(items.drop_last()) + ","@ + items.last()
    }
}

/// A JSON array of values already written as JSON.
pub open spec fn json_array(items: Seq<Seq<char>>) -> Seq<char> {
    "["@ + joined(items) + "]"@
}

/// The JSON object of a subscription, its fields in this order: `type`, `product_ids` (left out
/// when there is none), `channel`, then the field that authenticates it. Each value but the
/// channel's name is given already written as JSON.
pub open spec fn subscription_text(
    action_json: Seq<char>,
    ids_json: Seq<Seq<char>>,
    channel: Channel,
    auth_key: Seq<char>,
    auth_json: Seq<char>,
) -> Seq<char> {
    "{\"type\":"@ + action_json + (if ids_json.len() == 0 {
        Seq::empty()
    } else {
        ",\"product_ids\":"@ + json_array(ids_json)
    }) + ",\"channel\":\""@ + channel_name(channel) + "\",\""@ + auth_key + "\":"@ + auth_json
        + "}"@
}

/// Writes the JSON object of a subscription from values already written as JSON.
pub fn frame_subscription(
    action_json: &str,
    ids_json: &[String],
    channel: &Channel,
    auth_key: &str,
    auth_json: &str,
) -> (s: String)
    ensures
        s@ == subscription_text(action_json@, texts(ids_json@), *channel, auth_key@, auth_json@),
{
    let mut s = String::from_str("{\"type\":");
    s.append(action_json);
    let n = ids_json.len();
    if n > 0 {
        s.append(",\"product_ids\":");
        s.append("[");
        let ghost head = s@;
        let mut i: usize = 0;
        while i < n
            invariant
                n == ids_json@.len(),
                0 <= i <= n,
                s@ == head + joined(texts(ids_json@).take(i as int)),
            decreases n - i,
        {
            let ghost before = texts(ids_json@).take(i as int);
            if i > 0 {
                s.append(",");
            }
            s.append(ids_json[i].as_str());
            proof {
                let after = texts(ids_json@).take(i as int + 1);
                assert(after.drop_last() =~= before);
                if i == 0 {
                    assert(joined(before) =~= Seq::<char>::empty());
                    assert(joined(after) == after[0]);
                    assert(s@ =~= head + joined(after));
                } else {
                    assert(after.last() == ids_json@[i as int]@);
                    assert(joined(after) == joined(before) + ","@ + after.last());
                    assert(s@ =~= head + joined(after));
                }
            }
            i = i + 1;
        }
        s.append("]");
        proof {
            assert(texts(ids_json@).take(n as int) =~= texts(ids_json@));
        }
    }
    s.append(",\"channel\":\"");
    s.append(channel.as_ref());
    s.append("\",\"");
    s.append(auth_key);
    s.append("\":");
    s.append(auth_json);
    s.append("}");
    proof {
        assert(s@ =~= subscription_text(
            action_json@,
            texts(ids_json@),
            *channel,
            auth_key@,
            auth_json@,
        ));
    }
    s
}

/// How a subscription is authenticated: public ones carry the time they were made, in seconds
/// since the UNIX epoch; those of the user endpoint carry a signed token.
pub enum SubscriptionAuth {
    Timestamp(u64),
    Jwt(String),
}

/// The name of the field that carries the authentication.
pub open spec fn auth_key(auth: SubscriptionAuth) -> Seq<char> {
    match auth {
        SubscriptionAuth::Timestamp(_) => "timestamp"@,
        SubscriptionAuth::Jwt(_) => "jwt"@,
    }
}

/// The text of the authentication: the timestamp in decimal, or the token.
pub open spec fn auth_value(auth: SubscriptionAuth) -> Seq<char> {
    match auth {
        SubscriptionAuth::Timestamp(t) => crate::text::decimal(t as nat),
        SubscriptionAuth::Jwt(token) => token@,
    }
}

/// The JSON text of a subscription to `channel` for `product_ids`, with the action (`subscribe`
/// or `unsubscribe`) and the authentication, as serializing the subscription gives it.
pub open spec fn subscription_json(
    action: Seq<char>,
    product_ids: Seq<Seq<char>>,
    channel: Channel,
    auth_field: Seq<char>,
    auth_text: Seq<char>,
) -> Seq<char> {
    subscription_text(
        json_string_text(action),
        product_ids.map_values(|p: Seq<char>| json_string_text(p)),
        channel,
        auth_field,
        json_string_text(auth_text),
    )
}

/// The prefix of the error reported when a subscription cannot be serialized.
pub open spec fn serialization_failure(m: Seq<char>) -> bool {
    m.len() >= "Failed to serialize subscription: "@.len() && m.subrange(
        0,
        "Failed to serialize subscription: "@.len() as int,
    ) == "Failed to serialize subscription: "@
}

fn serialization_error(e: &serde_json::Error) -> (r: CbError)
    ensures
        r@ matches CbErrorView::BadSerialization(m) && serialization_failure(m),
{
    let mut m = String::from_str("Failed to serialize subscription: ");
    let detail = json_error_text(e);
    let ghost prefix = m@;
    m.append(detail.as_str());
    proof {
        assert(m@.subrange(0, prefix.len() as int) =~= prefix);
    }
    CbError::BadSerialization(m)
}

/// Serializes a subscription to the WebSocket: every text through `serde_json`, framed as the
/// subscription's JSON object.
pub fn subscription_body(
    channel: &Channel,
    product_ids: &[String],
    action: &str,
    auth: &SubscriptionAuth,
) -> (r: CbResult<String>)
    ensures
        r matches Ok(s) ==> s@ == subscription_json(
            action@,
            texts(product_ids@),
            *channel,
            auth_key(*auth),
            auth_value(*auth),
        ),
        r is Ok,
{
    let action_json = match json_string(action) {
        Ok(s) => s,
        Err(e) => {
            return Err(serialization_error(&e));
        },
    };
    let mut ids_json: Vec<String> = Vec::new();
    let n = product_ids.len();
    let mut i: usize = 0;
    while i < n
        invariant
            n == product_ids@.len(),
            0 <= i <= n,
            texts(ids_json@) == texts(product_ids@).take(i as int).map_values(
                |p: Seq<char>| json_string_text(p),
            ),
        decreases n - i,
    {
        let ghost prior = texts(ids_json@);
        match json_string(product_ids[i].as_str()) {
            Ok(s) => {
                ids_json.push(s);
                proof {
                    assert(texts(ids_json@) =~= prior.push(json_string_text(product_ids@[i as int]@)));
                    assert(texts(product_ids@).take(i as int + 1) =~= texts(product_ids@).take(
                        i as int,
                    ).push(product_ids@[i as int]@));
                }
            },
            Err(e) => {
                return Err(serialization_error(&e));
            },
        }
        proof {
            assert(texts(ids_json@) =~= texts(product_ids@).take(i as int + 1).map_values(
                |p: Seq<char>| json_string_text(p),
            ));
        }
        i = i + 1;
    }
    proof {
        assert(texts(product_ids@).take(n as int) =~= texts(product_ids@));
    }
    let (key, value): (&str, String) = match auth {
        SubscriptionAuth::Timestamp(t) => ("timestamp", crate::text::u64_text(*t)),
        SubscriptionAuth::Jwt(token) => ("jwt", token.clone()),
    };
    let value_json = match json_string(value.as_str()) {
        Ok(s) => s,
        Err(e) => {
            return Err(serialization_error(&e));
        },
    };
    Ok(frame_subscription(action_json.as_str(), ids_json.as_slice(), channel, key, value_json.as_str()))
}

/// The error reported when the connection to an endpoint cannot be established.
pub open spec fn connection_failure_text(endpoint: EndpointType, detail: Seq<char>) -> Seq<char> {
    match endpoint {
        EndpointType::Public => "Unable to establish public WebSocket connection: "@ + detail,
        EndpointType::User => "Unable to establish secure user WebSocket connection: "@ + detail,
    }
}

/// The error reported when the connection to an endpoint cannot be established, with the reason
/// that the connection gave.
pub fn connection_failure(endpoint: &EndpointType, detail: &str) -> (e: CbError)
    ensures
        e@ == CbErrorView::BadConnection(connection_failure_text(*endpoint, detail@)),
{
    let mut m = match endpoint {
        EndpointType::Public => String::from_str("Unable to establish public WebSocket connection: "),
        EndpointType::User => String::from_str(
            "Unable to establish secure user WebSocket connection: ",
        ),
    };
    m.append(detail);
    CbError::BadConnection(m)
}

/// The error reported when a subscription is to be sent to an endpoint that is not connected.
pub open spec fn not_connected_text(endpoint: EndpointType) -> Seq<char> {
    match endpoint {
        EndpointType::Public => "Public WebSocket connection not established. Call `connect()` first."@,
        EndpointType::User => "Secure WebSocket connection not established. Call `connect()` first."@,
    }
}

/// The error reported when a subscription is to be sent to an endpoint that is not connected.
pub fn not_connected(endpoint: &EndpointType) -> (e: CbError)
    ensures
        e@ == CbErrorView::BadConnection(not_connected_text(*endpoint)),
{
    match endpoint {
        EndpointType::Public => CbError::BadConnection(
            String::from_str("Public WebSocket connection not established. Call `connect()` first."),
        ),
        EndpointType::User => CbError::BadConnection(
            String::from_str("Secure WebSocket connection not established. Call `connect()` first."),
        ),
    }
}

/// The error reported when a subscription could not be sent, with the reason that the
/// connection gave.
pub fn send_failure(detail: &str) -> (e: CbError)
    ensures
        e@ == CbErrorView::BadConnection("Failed to send message over WebSocket: "@ + detail@),
{
    let mut m = String::from_str("Failed to send message over WebSocket: ");
    m.append(detail);
    CbError::BadConnection(m)
}

} // verus!
