//! The two kinds of error that every call reports, and the status check that
//! both clients apply to a reply.
use vstd::prelude::*;

verus! {

/// A failed call.
#[derive(Debug, Clone, PartialEq)]
pub enum Error {
    /// The request did not get through, or the body could not be decoded.
    Message(String),
    /// The server answered with a status other than 200.
    StatusCode(u16),
}

/// The text of a transport failure, with its description.
pub open spec fn failed_message(desc: Seq<char>) -> Seq<char> {
    "Failed:\n"@ + desc
}

/// The text of a body that could not be decoded, with its description.
pub open spec fn undecodable_message(desc: Seq<char>) -> Seq<char> {
    "Couldn't Deserialize:\n"@ + desc
}

/// The status code of a successful reply.
pub const STATUS_OK: u16 = 200;

impl Error {
    /// A message error holding `msg`.
    pub fn new_message(msg: &str) -> (r: Error)
        ensures
            r matches Error::Message(m) && m@ == msg@,
    {
        Error::Message(String::from_str(msg))
    }

    /// The error of a request that did not get through.
    pub fn transport(desc: &str) -> (r: Error)
        ensures
            r matches Error::Message(m) && m@ == failed_message(desc@),
    {
        let s = String::from_str("Failed:\n");
        Error::Message(s.concat(desc))
    }

    /// The error of a body that could not be decoded.
    pub fn undecodable(desc: &str) -> (r: Error)
        ensures
            r matches Error::Message(m) && m@ == undecodable_message(desc@),
    {
        let s = String::from_str("Couldn't Deserialize:\n");
        Error::Message(s.concat(desc))
    }
}

/// Classifies the outcome of a send before its body is read: a transport
/// failure is a message error that carries its description, any status but
/// 200 is a status error that carries the code, and 200 lets the body be
/// decoded.
pub fn check_status(sent: &Result<u16, String>) -> (r: Result<(), Error>)
    ensures
        match sent {
            Err(desc) => r matches Err(Error::Message(m)) && m@ == failed_message(desc@),
            Ok(status) => if *status == STATUS_OK {
                r is Ok
            } else {
                r == Err::<(), Error>(Error::StatusCode(*status))
            },
        },
{
    match sent {
        Err(desc) => Err(Error::transport(desc.as_str())),
        Ok(status) => if *status == STATUS_OK {
            Ok(())
        } else {
            Err(Error::StatusCode(*status))
        },
    }
}

} // verus!
