//! What goes back to the host for one message: the application's reply
//! without its line terminator, or an error object made up on the spot.

use crate::diagnostics::join;
use vstd::prelude::*;
use vstd::string::*;
use vstd::utf8::encode_utf8;

verus! {

/// The byte that ends a line on the socket.
pub const LINE_FEED: u8 = 10;

/// The error text for an application that cannot be reached.
pub open spec fn connect_failure_text(reason: Seq<char>) -> Seq<char> {
    "App not running: "@ + reason
}

/// The error text for a connection whose read deadline could not be set.
pub open spec fn deadline_failure_text(reason: Seq<char>) -> Seq<char> {
    "Connection setup failed: "@ + reason
}

/// The error text for a message that could not be sent to the application.
pub open spec fn send_failure_text(reason: Seq<char>) -> Seq<char> {
    "Send failed: "@ + reason
}

/// The error text for an application that hung up without a reply.
pub open spec fn closed_text() -> Seq<char> {
    "App closed connection"@
}

/// The error text for a reply that could not be read, or not in time.
pub open spec fn read_failure_text(reason: Seq<char>) -> Seq<char> {
    "Read timeout: "@ + reason
}

/// An error object: one field named `error` that holds `text` as it is,
/// with nothing in it escaped.
pub open spec fn error_object(text: Seq<char>) -> Seq<char> {
    "{\"error\":\""@ + text + "\"}"@
}

/// The bytes of an error object.
pub open spec fn error_body(text: Seq<char>) -> Seq<u8> {
    encode_utf8(error_object(text))
}

/// A line without the line feed that ends it. A line that ends otherwise
/// stays as it is.
pub open spec fn without_terminator(line: Seq<u8>) -> Seq<u8> {
    if line.len() > 0 && line.last() == LINE_FEED {
        line.drop_last()
    } else {
        line
    }
}

/// A message as it is sent to the application: followed by one line feed.
pub open spec fn with_terminator(message: Seq<u8>) -> Seq<u8> {
    message.push(LINE_FEED)
}

/// Builds the body of an error response.
pub fn error_response(error: &str) -> (body: Vec<u8>)
    ensures
        body@ == error_body(error@),
{
    let mut object = join("{\"error\":\"", error);
    object.append("\"}");
    object.as_str().as_bytes_vec()
}

/// Takes the line terminator off a reply.
pub fn strip_terminator(line: Vec<u8>) -> (payload: Vec<u8>)
    ensures
        payload@ == without_terminator(line@),
{
    let mut payload = line;
    let n: usize = payload.len();
    if n > 0 && payload[n - 1] == LINE_FEED {
        payload.pop();
    }
    payload
}

/// Ends a message with the line terminator.
pub fn terminate(message: Vec<u8>) -> (line: Vec<u8>)
    ensures
        line@ == with_terminator(message@),
{
    let mut line = message;
    line.push(LINE_FEED);
    line
}

} // verus!
