use vstd::prelude::*;
use vstd::string::*;

verus! {

/// The key of the set that holds every shared location.
pub fn locations_key() -> (key: &'static str)
    ensures
        key@ == "locations"@,
{
    "locations"
}

/// The member stored for a location: the latitude text, `|`, the longitude
/// text.
pub fn coordinates_member(lat_text: &str, lon_text: &str) -> (member: String)
    ensures
        member@ == lat_text@ + seq!['|'] + lon_text@,
{
    let mut member = String::from_str(lat_text);
    proof {
        reveal_strlit("|");
    }
    member.append("|");
    member.append(lon_text);
    member
}

/// The one write that storing a location makes: adding `member` to the set
/// named `key`.
#[derive(Clone, Debug, PartialEq, Eq)]
pub struct SetAddition {
    pub key: String,
    pub member: String,
}

/// The write that stores the location written as `lat_text` and `lon_text`:
/// its member, added to the set of locations and nowhere else.
pub fn location_addition(lat_text: &str, lon_text: &str) -> (addition: SetAddition)
    ensures
        addition.key@ == "locations"@,
        addition.member@ == lat_text@ + seq!['|'] + lon_text@,
{
    SetAddition {
        key: String::from_str(locations_key()),
        member: coordinates_member(lat_text, lon_text),
    }
}

/// What happened when a location was added to the set.
#[derive(Clone, Debug, PartialEq, Eq)]
pub enum StoreOutcome {
    /// No connection to the store could be had; the text says why.
    ConnectionFailed(String),
    /// The connection refused the addition; the text says why.
    AddFailed(String),
    /// The member is in the set; the flag says whether it was new to it.
    Added(bool),
}

pub open spec fn connection_failure_text(cause: Seq<char>) -> Seq<char> {
    "Error: getting redis connection: "@ + cause
}

pub open spec fn add_failure_text(cause: Seq<char>) -> Seq<char> {
    "Error: Insertion location: "@ + cause
}

/// The outcome of the addition, from the store's reply to it: any answer
/// means the member is in the set, its flag saying whether it was new.
pub fn addition_outcome(reply: Result<bool, String>) -> (outcome: StoreOutcome)
    ensures
        match reply {
            Ok(new) => outcome == StoreOutcome::Added(new),
            Err(cause) => outcome matches StoreOutcome::AddFailed(c) && c@ == cause@,
        },
{
    match reply {
        Ok(new) => StoreOutcome::Added(new),
        Err(cause) => StoreOutcome::AddFailed(cause),
    }
}

/// The message for a store that cannot be reached.
pub fn connection_failure_message(cause: &str) -> (message: String)
    ensures
        message@ == connection_failure_text(cause@),
{
    let mut message = String::from_str("Error: getting redis connection: ");
    message.append(cause);
    message
}

/// The result of storing `member`: the member itself once it is in the set,
/// whether or not it was there before (so storing the same location again
/// gives the same result), otherwise a message that says which step failed
/// and why.
pub fn insertion_result(member: String, outcome: StoreOutcome) -> (res: Result<String, String>)
    ensures
        match outcome {
            StoreOutcome::ConnectionFailed(cause) => res matches Err(m) && m@
                == connection_failure_text(cause@),
            StoreOutcome::AddFailed(cause) => res matches Err(m) && m@ == add_failure_text(cause@),
            StoreOutcome::Added(_) => res matches Ok(m) && m@ == member@,
        },
{
    match outcome {
        StoreOutcome::ConnectionFailed(cause) => Err(connection_failure_message(cause.as_str())),
        StoreOutcome::AddFailed(cause) => {
            let mut message = String::from_str("Error: Insertion location: ");
            message.append(cause.as_str());
            Err(message)
        },
        StoreOutcome::Added(_) => Ok(member),
    }
}

/// One line of the streamed list of locations: the member and a newline.
pub fn location_line(member: &str) -> (line: String)
    ensures
        line@ == member@.push('\n'),
{
    let mut line = String::from_str(member);
    proof {
        reveal_strlit("\n");
    }
    line.append("\n");
    proof {
        assert(line@ =~= member@.push('\n'));
    }
    line
}

/// How long, in seconds, the set of locations lives after each refresh of
/// its expiry: twenty-three and a half hours, so that the set is gone
/// before the next refresh comes.
pub fn expiry_seconds() -> (secs: i64)
    ensures
        secs == 23 * 60 * 60 + 30 * 60,
        secs < 24 * 60 * 60,
{
    23 * 60 * 60 + 30 * 60
}

/// How long, in seconds, the service waits between two refreshes of the
/// expiry: a day.
pub fn refresh_interval_seconds() -> (secs: u64)
    ensures
        secs == 24 * 60 * 60,
{
    24 * 60 * 60
}

/// The message with which the expiry refresher stops.
pub fn expiry_failure_message(cause: &str) -> (message: String)
    ensures
        message@ == "Setting expiry to redis SET. "@ + cause@,
{
    let mut message = String::from_str("Setting expiry to redis SET. ");
    message.append(cause);
    message
}

} // verus!

verus! {

/// The two failure messages of a store: the cause, after a prefix that says
/// which step failed.
pub proof fn lemma_failure_texts(cause: Seq<char>)
    ensures
        connection_failure_text(cause) == "Error: getting redis connection: "@ + cause,
        add_failure_text(cause) == "Error: Insertion location: "@ + cause,
{
}

} // verus!
