//! The user-facing facade state.
//!
//! The shared connection and channel state that facade calls consult:
//! the open flag (a one-way true-to-false transition) and the
//! negotiated channel limit.  The asynchronous shell holds this state
//! behind its atomics and queues; the decisions about it are made here.

use vstd::prelude::*;
use crate::error::ErrorKind;
use crate::frame::{Frame, Payload};
use crate::method;
use crate::method::MethodKey;

verus! {

/// Turns the reader's channel-allocation acknowledgement into the
/// facade's result: a missing id means every channel id is in use.
pub fn map_allocation(reply: Option<u16>) -> (r: Result<u16, ErrorKind>)
    ensures
        match reply {
            Some(id) => r == Ok::<u16, ErrorKind>(id),
            None => r == Err::<u16, ErrorKind>(ErrorKind::NoFreeChannel),
        },
{
    match reply {
        Some(id) => Ok(id),
        None => Err(ErrorKind::NoFreeChannel),
    }
}

/// The last step of a synchronous RPC: the fulfilled frame must carry
/// the method key the waiter was registered for; anything else is the
/// broker misbehaving.
pub fn expect_response(frame: Frame, expected: MethodKey) -> (r: Result<Frame, ErrorKind>)
    ensures
        match r {
            Ok(f) => f == frame
                && (frame matches Frame::Method { key, .. } && key == expected),
            Err(e) => e == (ErrorKind::UnexpectedFrame {  })
                && !(frame matches Frame::Method { key, .. } && key == expected),
        },
{
    match frame {
        Frame::Method { channel, key, payload } => {
            if key == expected {
                Ok(Frame::Method { channel, key, payload })
            } else {
                Err(ErrorKind::UnexpectedFrame)
            }
        },
        _ => Err(ErrorKind::UnexpectedFrame),
    }
}

/// Capabilities the client announces.  None are negotiated yet.
pub struct ClientCapabilities {}

/// Capabilities the server announced.  None are interpreted yet.
#[derive(Debug, Clone)]
pub struct ServerCapabilities {}

/// The facade-visible state of one connection.
#[derive(Clone, Copy, Debug, PartialEq, Eq, Structural)]
pub struct Connection {
    pub is_open: bool,
    pub channel_max: u16,
}

impl Connection {
    /// The state right after a successful handshake.
    pub fn new(channel_max: u16) -> (r: Self)
        ensures
            r.is_open,
            r.channel_max == channel_max,
    {
        Connection { is_open: true, channel_max }
    }

    /// The open flag's true-to-false transition is permanent: setting
    /// it false closes, setting it true on a closed connection does
    /// nothing.
    pub fn set_open_state(&mut self, is_open: bool)
        ensures
            final(self).is_open == (old(self).is_open && is_open),
            final(self).channel_max == old(self).channel_max,
    {
        self.is_open = self.is_open && is_open;
    }

    pub fn get_open_state(&self) -> (b: bool)
        ensures
            b == self.is_open,
    {
        self.is_open
    }

    /// Every facade call starts here: on a closed connection it is
    /// refused with `ConnectionClosed`, and nothing else ever is.
    pub fn guard_open(&self) -> (r: Result<(), ErrorKind>)
        ensures
            r is Ok <==> self.is_open,
            r matches Err(e) ==> e matches ErrorKind::ConnectionClosed { code, text }
                && code == 200 && text@.len() == 0,
    {
        if self.is_open {
            Ok(())
        } else {
            Err(ErrorKind::ConnectionClosed { code: 200, text: String::new() })
        }
    }

    /// The `Connection.Close` request the facade sends on channel 0:
    /// reply code 200 (success), empty reply text.
    pub fn close_request(&self) -> (f: Frame)
        ensures
            f matches Frame::Method { channel, key, payload }
                && channel == 0 && key == method::spec_connection_close()
                && (payload matches Payload::Close { code, text }
                    && code == 200 && text@.len() == 0),
    {
        Frame::Method {
            channel: 0,
            key: method::connection_close(),
            payload: Payload::Close { code: 200, text: String::new() },
        }
    }

    /// `CloseOk` arrived (or close turned out unnecessary): the open
    /// flag falls, permanently.
    pub fn finish_close(&mut self)
        ensures
            !final(self).is_open,
            final(self).channel_max == old(self).channel_max,
    {
        self.is_open = false;
    }

    /// The drop decision: a still-open connection flips its flag and
    /// asks the caller to schedule `close` as a detached task; dropping
    /// a closed one does nothing.
    pub fn on_drop(&mut self) -> (close_needed: bool)
        ensures
            close_needed == old(self).is_open,
            !final(self).is_open,
            final(self).channel_max == old(self).channel_max,
    {
        let was_open = self.is_open;
        self.is_open = false;
        was_open
    }
}

/// The guard every channel facade call consults first: a closed
/// connection refuses with `ConnectionClosed` whatever the channel's
/// own flag still says, since a connection-wide close closes every
/// channel with it; an open connection defers to the channel's own
/// guard.
pub fn guard_channel_call(conn: &Connection, ch: &ChannelState) -> (r: Result<(), ErrorKind>)
    ensures
        r is Ok <==> conn.is_open && ch.is_open,
        !conn.is_open ==> (r matches Err(e) && (e matches ErrorKind::ConnectionClosed {
            code,
            text,
        } && code == 200 && text@.len() == 0)),
        conn.is_open && !ch.is_open ==> (r matches Err(e)
            && (e matches ErrorKind::ChannelClosed { code, text }
                && code == 200 && text@.len() == 0)),
{
    conn.guard_open()?;
    ch.guard_open()
}

/// The facade-visible state of one channel.
#[derive(Clone, Copy, Debug, PartialEq, Eq, Structural)]
pub struct ChannelState {
    pub is_open: bool,
    pub channel_id: u16,
}

impl ChannelState {
    /// The state right after `Channel.OpenOk` arrived for `channel_id`.
    pub fn new(channel_id: u16) -> (r: Self)
        ensures
            r.is_open,
            r.channel_id == channel_id,
    {
        ChannelState { is_open: true, channel_id }
    }

    /// As `Connection::guard_open`, scoped to the channel.
    pub fn guard_open(&self) -> (r: Result<(), ErrorKind>)
        ensures
            r is Ok <==> self.is_open,
            r matches Err(e) ==> e matches ErrorKind::ChannelClosed { code, text }
                && code == 200 && text@.len() == 0,
    {
        if self.is_open {
            Ok(())
        } else {
            Err(ErrorKind::ChannelClosed { code: 200, text: String::new() })
        }
    }

    /// The `Channel.Open` request for this channel.
    pub fn open_request(channel_id: u16) -> (f: Frame)
        ensures
            f matches Frame::Method { channel, key, payload }
                && channel == channel_id && key == method::spec_channel_open()
                && (payload matches Payload::Opaque(b) && b@.len() == 0),
    {
        Frame::Method {
            channel: channel_id,
            key: method::channel_open(),
            payload: Payload::Opaque(Vec::new()),
        }
    }

    /// The `Channel.Close` request for this channel.
    pub fn close_request(&self) -> (f: Frame)
        ensures
            f matches Frame::Method { channel, key, payload }
                && channel == self.channel_id && key == method::spec_channel_close()
                && (payload matches Payload::Close { code, text }
                    && code == 200 && text@.len() == 0),
    {
        Frame::Method {
            channel: self.channel_id,
            key: method::channel_close(),
            payload: Payload::Close { code: 200, text: String::new() },
        }
    }

    pub fn finish_close(&mut self)
        ensures
            !final(self).is_open,
            final(self).channel_id == old(self).channel_id,
    {
        self.is_open = false;
    }

    /// The drop decision, as for the connection.
    pub fn on_drop(&mut self) -> (close_needed: bool)
        ensures
            close_needed == old(self).is_open,
            !final(self).is_open,
            final(self).channel_id == old(self).channel_id,
    {
        let was_open = self.is_open;
        self.is_open = false;
        was_open
    }
}

} // verus!
