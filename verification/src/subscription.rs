use vstd::prelude::*;
use vstd::string::StringSliceAdditionalSpecFns;
use vstd::utf8::encode_utf8;

verus! {

/// The action with which the native side delivers a new record.
pub const EVT_SUBSCRIBE_ACTION_DELIVER: u32 = 1;

/// The subscription flag that asks for future records only.
pub const EVT_SUBSCRIBE_TO_FUTURE_EVENTS: u32 = 1;

/// The UTF-16 code units of a text.
pub uninterp spec fn utf16_units(text: Seq<char>) -> Seq<u16>;

/// `str::encode_utf16`, gathered into a vector: the UTF-16 encoding of the
/// text, which depends on the text alone and is named `utf16_units`.
#[verifier::external_body]
fn encode_utf16(text: &str) -> (units: Vec<u16>)
    ensures
        units@ == utf16_units(text@),
{
    text.encode_utf16().collect()
}

/// `units` cut, or padded with null units, to exactly `len` units.
pub open spec fn resized(units: Seq<u16>, len: nat) -> Seq<u16> {
    Seq::new(len, |i: int| if i < units.len() { units[i] } else { 0u16 })
}

/// The length of a text in bytes, as `str::len` reports it.
pub open spec fn byte_len(text: Seq<char>) -> usize {
    encode_utf8(text).len() as usize
}

/// The null-terminated wide form of a text: its UTF-16 code units, brought
/// to the text's length in bytes, and a null unit behind them.
pub open spec fn wide_string(text: Seq<char>) -> Seq<u16> {
    resized(utf16_units(text), byte_len(text) as nat).push(0u16)
}

/// Encodes a text as a null-terminated wide string.
pub fn to_wide(text: &str) -> (wide: Vec<u16>)
    ensures
        wide@ == wide_string(text@),
        wide@.len() >= 1,
        wide@[wide@.len() - 1] == 0,
{
    let mut wide = encode_utf16(text);
    let ghost units = wide@;
    let n: usize = text.len();
    wide.resize(n, 0u16);
    assert(wide@ =~= resized(units, n as nat));
    wide.push(0u16);
    assert(n == byte_len(text@));
    assert(wide@ =~= wide_string(text@));
    wide
}

/// What the native callback does with one notification.
#[derive(Debug, Clone, Copy, PartialEq, Eq, Structural)]
pub struct CallbackDecision {
    /// The status returned to the native side.
    pub status: u32,
    /// Whether the record that came with the notification is rendered and
    /// forwarded.
    pub render: bool,
}

/// Decides on one notification of a subscription. Only the delivery of a
/// new record is rendered and forwarded; any other action is unexpected and
/// passed over. The native side is told success either way, so that delivery
/// goes on.
pub fn evt_subscribe_callback(action: u32) -> (out: CallbackDecision)
    ensures
        out.status == 0,
        out.render == (action == EVT_SUBSCRIBE_ACTION_DELIVER),
{
    CallbackDecision { status: 0, render: action == EVT_SUBSCRIBE_ACTION_DELIVER }
}

/// The arguments of a native subscription.
#[derive(Debug)]
pub struct SubscriptionRequest {
    /// The channel path, as a null-terminated wide string.
    pub channel_path: Vec<u16>,
    /// The filter query, as a null-terminated wide string.
    pub query: Vec<u16>,
    pub flags: u32,
}

/// The query that a subscription is registered with: the given one, or the
/// one that matches every record.
pub open spec fn effective_query(query: Option<String>) -> Seq<char> {
    match query {
        Some(q) => q@,
        None => "*"@,
    }
}

/// Prepares the registration of a callback for the records that arrive on
/// `channel_path` from now on and match `query`; without a query every
/// record matches.
pub fn register_event_callback(channel_path: &String, query: Option<String>) -> (request:
    SubscriptionRequest)
    ensures
        request.channel_path@ == wide_string(channel_path@),
        request.query@ == wide_string(effective_query(query)),
        request.flags == EVT_SUBSCRIBE_TO_FUTURE_EVENTS,
{
    let channel_path_u16 = to_wide(channel_path.as_str());
    let query_str: String = match query {
        Some(q) => q,
        None => "*".to_owned(),
    };
    let query_u16 = to_wide(query_str.as_str());
    SubscriptionRequest {
        channel_path: channel_path_u16,
        query: query_u16,
        flags: EVT_SUBSCRIBE_TO_FUTURE_EVENTS,
    }
}

} // verus!
