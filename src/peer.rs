//! What the two peers agree on: where they meet, how large a read is, and
//! what the sending peer writes.

use vstd::prelude::*;

verus! {

/// The port on which the sending peer listens unless told otherwise.
pub const DEMO_PORT: u16 = 1234;

/// The capacity of the receiver's read buffer: 64 KiB.
pub const READ_BUFFER_LEN: usize = 0x10000;

/// An IPv4 address and port at which the two peers meet.
#[derive(Clone, Copy, PartialEq, Eq, Debug)]
pub struct Endpoint {
    pub host: [u8; 4],
    pub port: u16,
}

impl Endpoint {
    /// The loopback address, 127.0.0.1, at `port`.
    pub fn loopback(port: u16) -> (r: Endpoint)
        ensures
            r.host@ == seq![127u8, 0, 0, 1],
            r.port == port,
    {
        Endpoint { host: [127u8, 0, 0, 1], port }
    }

    /// The loopback address at [`DEMO_PORT`].
    pub fn demo() -> (r: Endpoint)
        ensures
            r.host@ == seq![127u8, 0, 0, 1],
            r.port == DEMO_PORT,
    {
        Endpoint::loopback(DEMO_PORT)
    }
}

/// One step of the sending peer.
#[derive(Clone, PartialEq, Eq, Debug)]
pub enum SendStep {
    /// Write these bytes to the connection.
    Write(Vec<u8>),
    /// Pause for this many milliseconds.
    Pause { millis: u64 },
}

pub open spec fn is_write_of(step: SendStep, bytes: Seq<u8>) -> bool {
    match step {
        SendStep::Write(b) => b@ == bytes,
        SendStep::Pause { .. } => false,
    }
}

/// "Hello"
pub open spec fn hello_bytes() -> Seq<u8> {
    seq![72u8, 101, 108, 108, 111]
}

/// ", "
pub open spec fn comma_bytes() -> Seq<u8> {
    seq![44u8, 32]
}

/// "world!"
pub open spec fn world_bytes() -> Seq<u8> {
    seq![119u8, 111, 114, 108, 100, 33]
}

/// The sending peer's script: "Hello", then ", ", then a pause of one
/// second, then "world!". The connection closes after the last step.
pub fn demo_script() -> (r: Vec<SendStep>)
    ensures
        r@.len() == 4,
        is_write_of(r@[0], hello_bytes()),
        is_write_of(r@[1], comma_bytes()),
        r@[2] == (SendStep::Pause { millis: 1000 }),
        is_write_of(r@[3], world_bytes()),
{
    let mut r: Vec<SendStep> = Vec::new();
    r.push(SendStep::Write(vec![72u8, 101, 108, 108, 111]));
    r.push(SendStep::Write(vec![44u8, 32]));
    r.push(SendStep::Pause { millis: 1000 });
    r.push(SendStep::Write(vec![119u8, 111, 114, 108, 100, 33]));
    r
}

} // verus!
