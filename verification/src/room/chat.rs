//! Chat messages.

use crate::endpoint::EndpointId;
use std::time::{Duration, SystemTime, SystemTimeError, UNIX_EPOCH};
use vstd::prelude::*;

verus! {

/// `std::time::SystemTime`: a reading of the clock. It is carried through unread.
#[verifier::external_type_specification]
#[verifier::external_body]
pub struct ExSystemTime(SystemTime);

/// `std::time::SystemTimeError`: the clock's complaint. It is carried through unread.
#[verifier::external_type_specification]
#[verifier::external_body]
pub struct ExSystemTimeError(SystemTimeError);

/// Calls `SystemTime::now`. The time is whatever the clock says.
#[verifier::external_body]
fn clock_now() -> (r: SystemTime) {
    SystemTime::now()
}

/// Calls `SystemTime::duration_since` with the Unix epoch. It fails where the
/// clock is set before the epoch.
#[verifier::external_body]
fn since_epoch(time: &SystemTime) -> (r: Result<Duration, SystemTimeError>) {
    time.duration_since(UNIX_EPOCH)
}

/// Calls `Duration::as_millis`.
#[verifier::external_body]
fn whole_millis(elapsed: &Duration) -> (r: u128) {
    elapsed.as_millis()
}

/// One message of the room's chat.
#[derive(Clone, Debug, PartialEq, Eq)]
pub struct ChatMessage {
    /// Who sent it.
    pub from: EndpointId,
    /// What it says.
    pub message: String,
    /// When it was sent, in milliseconds since the Unix epoch, by the sender's clock.
    pub timestamp: u64,
}

impl ChatMessage {
    /// A message sent at the given time.
    pub fn at(from: EndpointId, message: &str, timestamp: u64) -> (r: ChatMessage)
        ensures
            r.from == from,
            r.message@ == message@,
            r.timestamp == timestamp,
    {
        ChatMessage { from, message: message.to_owned(), timestamp }
    }

    /// A message sent now. It fails, with the clock's complaint, where the
    /// clock is set before the Unix epoch.
    pub fn new(from: EndpointId, message: &str) -> (r: Result<ChatMessage, String>)
        ensures
            r matches Ok(sent) ==> sent.from == from && sent.message@ == message@,
    {
        let now = clock_now();
        let reading = match since_epoch(&now) {
            Ok(elapsed) => Ok(whole_millis(&elapsed)),
            Err(error) => Err(error.to_string()),
        };
        ChatMessage::stamped(from, message, reading)
    }

    /// The message that is sent when the clock reads `reading`: the
    /// milliseconds since the Unix epoch, or the clock's complaint. The
    /// message's time is the reading, cut to its low 64 bits; a complaint is
    /// handed on as it is.
    pub fn stamped(from: EndpointId, message: &str, reading: Result<u128, String>) -> (r: Result<
        ChatMessage,
        String,
    >)
        ensures
            stamped_with(r, from, message@, reading),
    {
        match reading {
            Ok(millis) => {
                let timestamp: u64 = #[verifier::truncate]
                (millis as u64);
                assert(timestamp as u128 == millis % 0x1_0000_0000_0000_0000u128) by (bit_vector)
                    requires
                        timestamp == millis as u64,
                ;
                Ok(ChatMessage::at(from, message, timestamp))
            },
            Err(complaint) => Err(complaint),
        }
    }
}

/// True when `r` is the message that `from` sends with the text `message`
/// when the clock reads `reading`.
pub open spec fn stamped_with(
    r: Result<ChatMessage, String>,
    from: EndpointId,
    message: Seq<char>,
    reading: Result<u128, String>,
) -> bool {
    match reading {
        Ok(millis) => r matches Ok(sent) && sent.from == from && sent.message@ == message
            && sent.timestamp as int == millis as int % 0x1_0000_0000_0000_0000,
        Err(complaint) => r == Err::<ChatMessage, String>(complaint),
    }
}

} // verus!
