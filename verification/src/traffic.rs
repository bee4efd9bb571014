//! Traffic samples and the messages that carry them.
//!
//! The proxy core reports its traffic as a stream of JSON texts, each an
//! object with the members `up` and `down`. A message is read with
//! `serde_json`; whatever it holds, it decodes to a sample: a member that is
//! missing or is no unsigned integer counts as zero, and so does every member
//! of a text that is no JSON at all.

use vstd::prelude::*;

verus! {

/// The parsed form of a JSON text, as `serde_json` holds it.
#[verifier::external_type_specification]
#[verifier::external_body]
pub struct ExJsonValue(serde_json::Value);

/// The error that `serde_json` reports for a text it cannot parse.
#[verifier::external_type_specification]
#[verifier::external_body]
pub struct ExJsonError(serde_json::Error);

/// The unsigned integer members of a JSON value: the keys `k` for which
/// `value[k].as_u64()` is `Some`, each with that number. A value that is no
/// object has none.
pub uninterp spec fn json_members(value: serde_json::Value) -> Map<Seq<char>, u64>;

/// What `serde_json::from_str` makes of a text: the unsigned integer members
/// of the value it parses, or `None` where it reports an error.
pub uninterp spec fn json_document(text: Seq<char>) -> Option<Map<Seq<char>, u64>>;

/// Calls `serde_json::from_str` for a `serde_json::Value`.
///
/// Not proved: that the outcome is the one that [`json_document`] names for
/// this text. The call parses the text alone, so one text always has one
/// outcome.
#[verifier::external_body]
fn parse_json(text: &str) -> (parsed: Result<serde_json::Value, serde_json::Error>)
    ensures
        match parsed {
            Ok(value) => json_document(text@) == Some(json_members(value)),
            Err(_) => json_document(text@) is None,
        },
{
    serde_json::from_str(text)
}

/// Calls `Value::as_u64` on the member that indexing `value` by `key` gives.
///
/// Not proved: that the result is the entry of [`json_members`] for `key`.
/// Indexing by a text gives the member of that name, or JSON null where the
/// value is no object or has no such member, and `as_u64` is `Some` for a
/// number that is an integer in the range of `u64` and `None` for anything
/// else.
#[verifier::external_body]
fn member_u64(value: &serde_json::Value, key: &str) -> (member: Option<u64>)
    ensures
        member == member_of(json_members(*value), key@),
{
    value[key].as_u64()
}

/// The entry of `members` for `key`, if there is one.
pub open spec fn member_of(members: Map<Seq<char>, u64>, key: Seq<char>) -> Option<u64> {
    if members.contains_key(key) {
        Some(members[key])
    } else {
        None
    }
}

/// One traffic sample: the upload and download rates, in bytes per second,
/// that the proxy core reported at one moment.
#[derive(Clone, Copy, Debug, PartialEq, Eq, Structural)]
pub struct Traffic {
    pub up: u64,
    pub down: u64,
}

/// The count that stands for a member: its number, or zero where the member
/// is missing or is no unsigned integer.
pub open spec fn count_or_zero(member: Option<u64>) -> u64 {
    match member {
        Some(count) => count,
        None => 0,
    }
}

/// The sample that a parsed message carries. A text that could not be parsed
/// carries the zero sample.
pub open spec fn traffic_of_document(document: Option<Map<Seq<char>, u64>>) -> Traffic {
    match document {
        Some(members) => Traffic {
            up: count_or_zero(member_of(members, "up"@)),
            down: count_or_zero(member_of(members, "down"@)),
        },
        None => Traffic { up: 0, down: 0 },
    }
}

impl Traffic {
    /// The sample of the two members of a message, each as it was found.
    pub fn from_members(up: Option<u64>, down: Option<u64>) -> (sample: Traffic)
        ensures
            sample.up == count_or_zero(up),
            sample.down == count_or_zero(down),
    {
        let up = match up {
            Some(count) => count,
            None => 0,
        };
        let down = match down {
            Some(count) => count,
            None => 0,
        };
        Traffic { up, down }
    }

    /// Decodes one message of the traffic feed.
    ///
    /// Every text decodes: a malformed message gives zeros in place of what
    /// it fails to say, so that one bad frame never ends a subscription.
    pub fn decode(text: &str) -> (sample: Traffic)
        ensures
            sample == traffic_of_document(json_document(text@)),
    {
        match parse_json(text) {
            Ok(value) => {
                let up = member_u64(&value, "up");
                let down = member_u64(&value, "down");
                Traffic::from_members(up, down)
            },
            Err(_) => Traffic::from_members(None, None),
        }
    }
}

} // verus!
