//! The machine-server client: its error kinds and the verified part of
//! opening a session — validating the options and building the connection
//! address that embeds them.

use vstd::prelude::*;
use vstd::string::StringExecFns;
use vstd::string::StringSliceAdditionalSpecFns;
use vstd::utf8::encode_utf8;
use crate::machine::models::{ReplayNormalizedRequestOptions, StreamNormalizedRequestOptions};
use crate::machine::encode::{
    replay_options_json,
    stream_options_json,
    spec_replay_json,
    spec_stream_json,
    percent_encode,
    percent_encode_str,
};

verus! {

/// The error that can happen while interacting with the machine server.
#[derive(Debug, Clone, PartialEq, Eq)]
pub enum Error {
    /// An empty options list was given; checked before any network work.
    EmptyOptions,
    /// The transport could not establish the connection.
    ConnectFailed {
        /// What the transport reported.
        reason: String,
    },
    /// The server answered the upgrade request with a non-success status.
    ConnectRejected {
        /// The status code of the upgrade response.
        status: u16,
        /// The response body, or a fixed placeholder if absent.
        reason: String,
    },
    /// The connection was closed other than by a normal close frame.
    ConnectionClosed {
        /// The reason carried by the close frame, or a fixed placeholder.
        reason: String,
    },
    /// A text frame did not decode into a message.
    Deserialization,
}

impl Error {
    /// A human-readable description of the error.
    pub fn message(&self) -> (r: String)
        ensures
            r@ == match self {
                Error::EmptyOptions => "Options cannot be empty"@,
                Error::ConnectFailed { reason } => "Failed to connect: "@ + reason@,
                Error::ConnectRejected { status, reason } => "Connection rejected: "@ + reason@,
                Error::ConnectionClosed { reason } => "Connection closed: "@ + reason@,
                Error::Deserialization => "Failed to deserialize message"@,
            },
    {
        match self {
            Error::EmptyOptions => String::from_str("Options cannot be empty"),
            Error::ConnectFailed { reason } => {
                let mut s = String::from_str("Failed to connect: ");
                s.append(reason.as_str());
                s
            },
            Error::ConnectRejected { status: _, reason } => {
                let mut s = String::from_str("Connection rejected: ");
                s.append(reason.as_str());
                s
            },
            Error::ConnectionClosed { reason } => {
                let mut s = String::from_str("Connection closed: ");
                s.append(reason.as_str());
                s
            },
            Error::Deserialization => String::from_str("Failed to deserialize message"),
        }
    }
}

/// The client for the machine server: holds the base address of the
/// service's WebSocket endpoints.
#[derive(Debug, Clone)]
pub struct Client {
    /// Base address of the service, without a trailing slash.
    pub url: String,
}

impl Client {
    /// Creates a client for the service at `url`.
    pub fn new(url: &str) -> (r: Client)
        ensures
            r.url@ == url@,
    {
        Client { url: String::from_str(url) }
    }

    /// The connection address of a replay-normalized session: the base
    /// address, the replay path, and the options list rendered as compact
    /// JSON and percent-encoded into the query string. Fails with
    /// `EmptyOptions` if and only if the options list has no elements; this
    /// is checked before any network work.
    pub fn replay_normalized_url(&self, options: &Vec<ReplayNormalizedRequestOptions>) -> (r:
        Result<String, Error>)
        ensures
            r is Err <==> options@.len() == 0,
            r matches Err(e) ==> e == Error::EmptyOptions,
            r matches Ok(u) ==> u@ == self.url@ + "/ws-replay-normalized?options="@
                + percent_encode(encode_utf8(spec_replay_json(options@))),
    {
        if options.len() == 0 {
            return Err(Error::EmptyOptions);
        }
        let json = replay_options_json(options);
        let enc = percent_encode_str(json.as_str());
        let mut u = self.url.clone();
        u.append("/ws-replay-normalized?options=");
        u.append(enc.as_str());
        proof {
            assert(u@ =~= self.url@ + "/ws-replay-normalized?options="@ + percent_encode(
                encode_utf8(spec_replay_json(options@)),
            ));
        }
        Ok(u)
    }

    /// The connection address of a stream-normalized session, built the same
    /// way over the stream path. Fails with `EmptyOptions` if and only if
    /// the options list has no elements, before any network work.
    pub fn stream_normalized_url(&self, options: &Vec<StreamNormalizedRequestOptions>) -> (r:
        Result<String, Error>)
        ensures
            r is Err <==> options@.len() == 0,
            r matches Err(e) ==> e == Error::EmptyOptions,
            r matches Ok(u) ==> u@ == self.url@ + "/ws-stream-normalized?options="@
                + percent_encode(encode_utf8(spec_stream_json(options@))),
    {
        if options.len() == 0 {
            return Err(Error::EmptyOptions);
        }
        let json = stream_options_json(options);
        let enc = percent_encode_str(json.as_str());
        let mut u = self.url.clone();
        u.append("/ws-stream-normalized?options=");
        u.append(enc.as_str());
        proof {
            assert(u@ =~= self.url@ + "/ws-stream-normalized?options="@ + percent_encode(
                encode_utf8(spec_stream_json(options@)),
            ));
        }
        Ok(u)
    }
}

} // verus!
