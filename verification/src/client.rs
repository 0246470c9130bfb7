//! The client side of a connection: which requests wait for a response, and which
//! response answers which request.

use std::collections::HashMap;
use vstd::prelude::*;

verus! {

broadcast use vstd::std_specs::hash::group_hash_axioms;

#[derive(Debug, Clone, Copy, PartialEq, Eq, Structural)]
pub enum ClientError {
    Closed,
    SendError,
    InvalidRequest,
    InvalidResponse,
    ResponseMismatch,
}

/// What came in from the connection.
#[derive(Debug, Clone, Copy, PartialEq, Eq, Structural)]
pub enum Incoming {
    /// The connection failed or was closed.
    Closed,
    /// A message that could not be read.
    Unreadable,
    /// A response to the request with this number.
    Response(u64),
}

/// What to do about what came in.
#[derive(Debug, Clone, Copy, PartialEq, Eq, Structural)]
pub enum Delivery {
    /// Nothing comes in any more.
    Disconnect,
    /// Drop the message.
    Ignore,
    /// Hand the response to the waiting request with this ticket.
    Deliver(u64),
}

/// The requests that wait for a response: the ticket of each, under its number.
pub struct WsHandle {
    pending: HashMap<u64, u64>,
    connected: bool,
}

/// How many requests can wait at once, where nothing else is asked for.
pub const DEFAULT_BUFFER: usize = 32;

impl ClientError {
    /// The sentence that describes the error.
    pub open spec fn message_text(self) -> Seq<char> {
        match self {
            ClientError::Closed => "channel closed"@,
            ClientError::SendError => "failed to send message"@,
            ClientError::InvalidRequest => "given an invalid request"@,
            ClientError::InvalidResponse => "received an invalid response"@,
            ClientError::ResponseMismatch => "received an unknown response"@,
        }
    }

    pub fn message(&self) -> (message: &'static str)
        ensures
            message@ == self.message_text(),
    {
        match self {
            ClientError::Closed => "channel closed",
            ClientError::SendError => "failed to send message",
            ClientError::InvalidRequest => "given an invalid request",
            ClientError::InvalidResponse => "received an invalid response",
            ClientError::ResponseMismatch => "received an unknown response",
        }
    }

    /// The error for a connection that failed: closed where the connection was closed,
    /// and a failure to send otherwise.
    pub fn from_connection(closed: bool) -> (err: Self)
        ensures
            err == if closed {
                ClientError::Closed
            } else {
                ClientError::SendError
            },
    {
        if closed {
            ClientError::Closed
        } else {
            ClientError::SendError
        }
    }
}

impl WsHandle {
    /// The tickets of the waiting requests, by the number of the request.
    pub closed spec fn waiting(&self) -> Map<u64, u64> {
        self.pending@
    }

    /// Messages still come in.
    pub closed spec fn is_connected(&self) -> bool {
        self.connected
    }

    /// A connection that nothing waits on yet.
    pub fn new() -> (handle: Self)
        ensures
            handle.waiting() == Map::<u64, u64>::empty(),
            handle.is_connected(),
    {
        WsHandle { pending: HashMap::new(), connected: true }
    }

    pub fn connected(&self) -> (connected: bool)
        ensures
            connected == self.is_connected(),
    {
        self.connected
    }

    /// Takes note of a request once it was handed to the connection. A request that was
    /// sent waits under its number, in the place of any that waited there; one that
    /// could not be sent is answered at once, with the error of the connection.
    pub fn process_req(&mut self, nonce: u64, ticket: u64, sent: Result<(), ClientError>) -> (failed:
        Option<(u64, ClientError)>)
        ensures
            final(self).is_connected() == old(self).is_connected(),
            match sent {
                Ok(_) => failed is None && final(self).waiting() == old(self).waiting().insert(
                    nonce,
                    ticket,
                ),
                Err(err) => failed == Some((ticket, err)) && final(self).waiting() == old(self).waiting(),
            },
    {
        match sent {
            Ok(_) => {
                self.pending.insert(nonce, ticket);
                None
            },
            Err(err) => Some((ticket, err)),
        }
    }

    /// Deals with what came in. A failure ends the connection. A message that cannot be
    /// read, and a response that no request waits for, is dropped. Any other response
    /// goes to the request that waits for it, which then waits no more.
    pub fn process_msg(&mut self, incoming: Incoming) -> (delivery: Delivery)
        ensures
            match incoming {
                Incoming::Closed => delivery is Disconnect && !final(self).is_connected() && final(self).waiting() == old(self).waiting(),
                Incoming::Unreadable => delivery is Ignore && final(self).is_connected() == old(self).is_connected() && final(self).waiting() == old(self).waiting(),
                Incoming::Response(nonce) => {
                    &&& final(self).is_connected() == old(self).is_connected()
                    &&& final(self).waiting() == old(self).waiting().remove(nonce)
                    &&& delivery == if old(self).waiting().contains_key(nonce) {
                        Delivery::Deliver(old(self).waiting()[nonce])
                    } else {
                        Delivery::Ignore
                    }
                },
            },
    {
        match incoming {
            Incoming::Closed => {
                self.connected = false;
                Delivery::Disconnect
            },
            Incoming::Unreadable => Delivery::Ignore,
            Incoming::Response(nonce) => match self.pending.remove(&nonce) {
                Some(ticket) => Delivery::Deliver(ticket),
                None => {
                    assert(self.pending@ =~= old(self).pending@.remove(nonce));
                    Delivery::Ignore
                },
            },
        }
    }
}

/// What a response to a login is taken for: the result of the login, if the response is
/// one to the account service.
pub fn login_response<T, U>(response: Result<T, U>, matches_request: bool) -> (res: Result<
    T,
    ClientError,
>)
    ensures
        match response {
            Ok(payload) if matches_request => res == Ok::<T, ClientError>(payload),
            Ok(_) => res == Err::<T, ClientError>(ClientError::ResponseMismatch),
            Err(_) => res == Err::<T, ClientError>(ClientError::Closed),
        },
{
    match response {
        Ok(payload) => {
            if matches_request {
                Ok(payload)
            } else {
                Err(ClientError::ResponseMismatch)
            }
        },
        Err(_) => Err(ClientError::Closed),
    }
}

} // verus!
