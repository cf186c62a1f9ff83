//! Websocket protocol values: close codes, close reasons, operation codes
//! and protocol errors, with the numeric conversions the protocol defines.

use vstd::prelude::*;

verus! {

/// Reason for closing the connection.
#[derive(Debug, Eq, PartialEq, Clone)]
pub struct CloseReason {
    /// Exit code.
    pub code: CloseCode,
    /// Optional description of the exit code.
    pub description: Option<String>,
}

/// Status code used to indicate why an endpoint is closing the websocket
/// connection.
#[derive(Debug, Eq, PartialEq, Clone, Copy, Structural)]
pub enum CloseCode {
    /// Normal closure: the purpose of the connection has been fulfilled.
    Normal,
    /// The endpoint is going away, such as a server going down.
    Away,
    /// The endpoint is terminating the connection due to a protocol error.
    Protocol,
    /// The endpoint received a type of data it cannot accept.
    Unsupported,
    /// Abnormal closure: the connection was dropped without an error.
    Abnormal,
    /// Data within a message was not consistent with the message's type.
    Invalid,
    /// The endpoint received a message that violates its policy.
    Policy,
    /// The endpoint received a message too big for it to process.
    Size,
    /// The client expected the server to negotiate an extension and the
    /// server did not return it.
    Extension,
    /// The server encountered an unexpected condition.
    Error,
    /// The server is restarting; the client may reconnect.
    Restart,
    /// The server is overloaded; the client should try elsewhere or later.
    Again,
    Tls,
    Other(u16),
}

/// The numeric value the protocol assigns to each close code.
pub open spec fn close_code_num(code: CloseCode) -> u16 {
    match code {
        CloseCode::Normal => 1000,
        CloseCode::Away => 1001,
        CloseCode::Protocol => 1002,
        CloseCode::Unsupported => 1003,
        CloseCode::Abnormal => 1006,
        CloseCode::Invalid => 1007,
        CloseCode::Policy => 1008,
        CloseCode::Size => 1009,
        CloseCode::Extension => 1010,
        CloseCode::Error => 1011,
        CloseCode::Restart => 1012,
        CloseCode::Again => 1013,
        CloseCode::Tls => 1015,
        CloseCode::Other(num) => num,
    }
}

/// The close code a numeric value stands for; an unassigned value stays
/// numeric.
pub open spec fn close_code_of(num: u16) -> CloseCode {
    if num == 1000 {
        CloseCode::Normal
    } else if num == 1001 {
        CloseCode::Away
    } else if num == 1002 {
        CloseCode::Protocol
    } else if num == 1003 {
        CloseCode::Unsupported
    } else if num == 1006 {
        CloseCode::Abnormal
    } else if num == 1007 {
        CloseCode::Invalid
    } else if num == 1008 {
        CloseCode::Policy
    } else if num == 1009 {
        CloseCode::Size
    } else if num == 1010 {
        CloseCode::Extension
    } else if num == 1011 {
        CloseCode::Error
    } else if num == 1012 {
        CloseCode::Restart
    } else if num == 1013 {
        CloseCode::Again
    } else if num == 1015 {
        CloseCode::Tls
    } else {
        CloseCode::Other(num)
    }
}

impl core::convert::From<CloseCode> for u16 {
    fn from(code: CloseCode) -> (num: u16) {
        match code {
            CloseCode::Normal => 1000,
            CloseCode::Away => 1001,
            CloseCode::Protocol => 1002,
            CloseCode::Unsupported => 1003,
            CloseCode::Abnormal => 1006,
            CloseCode::Invalid => 1007,
            CloseCode::Policy => 1008,
            CloseCode::Size => 1009,
            CloseCode::Extension => 1010,
            CloseCode::Error => 1011,
            CloseCode::Restart => 1012,
            CloseCode::Again => 1013,
            CloseCode::Tls => 1015,
            CloseCode::Other(num) => num,
        }
    }
}

impl vstd::std_specs::convert::FromSpecImpl<CloseCode> for u16 {
    open spec fn obeys_from_spec() -> bool {
        true
    }

    open spec fn from_spec(code: CloseCode) -> u16 {
        close_code_num(code)
    }
}

impl core::convert::From<u16> for CloseCode {
    fn from(num: u16) -> (code: CloseCode) {
        if num == 1000 {
            CloseCode::Normal
        } else if num == 1001 {
            CloseCode::Away
        } else if num == 1002 {
            CloseCode::Protocol
        } else if num == 1003 {
            CloseCode::Unsupported
        } else if num == 1006 {
            CloseCode::Abnormal
        } else if num == 1007 {
            CloseCode::Invalid
        } else if num == 1008 {
            CloseCode::Policy
        } else if num == 1009 {
            CloseCode::Size
        } else if num == 1010 {
            CloseCode::Extension
        } else if num == 1011 {
            CloseCode::Error
        } else if num == 1012 {
            CloseCode::Restart
        } else if num == 1013 {
            CloseCode::Again
        } else if num == 1015 {
            CloseCode::Tls
        } else {
            CloseCode::Other(num)
        }
    }
}

impl vstd::std_specs::convert::FromSpecImpl<u16> for CloseCode {
    open spec fn obeys_from_spec() -> bool {
        true
    }

    open spec fn from_spec(num: u16) -> CloseCode {
        close_code_of(num)
    }
}

impl core::convert::From<CloseCode> for CloseReason {
    fn from(code: CloseCode) -> (reason: CloseReason) {
        CloseReason { code, description: None }
    }
}

impl vstd::std_specs::convert::FromSpecImpl<CloseCode> for CloseReason {
    open spec fn obeys_from_spec() -> bool {
        true
    }

    open spec fn from_spec(code: CloseCode) -> CloseReason {
        CloseReason { code, description: None }
    }
}

/// Websocket protocol errors.
#[derive(Debug, PartialEq, Eq)]
pub enum ProtocolError {
    /// Received an unmasked frame from client.
    UnmaskedFrame,
    /// Received a masked frame from server.
    MaskedFrame,
    /// Encountered invalid opcode.
    InvalidOpcode(u8),
    /// Invalid control frame length.
    InvalidLength(usize),
    /// Bad opcode.
    BadOpCode,
    /// A payload reached size limit.
    Overflow,
    /// Continuation has not started.
    ContinuationNotStarted,
    /// Received new continuation but it is already started.
    ContinuationStarted,
    /// Unknown continuation fragment.
    ContinuationFragment(OpCode),
    /// Input/output failure, carrying its message.
    Io(String),
}

impl core::convert::From<u8> for ProtocolError {
    fn from(byte: u8) -> (e: ProtocolError) {
        ProtocolError::InvalidOpcode(byte)
    }
}

impl vstd::std_specs::convert::FromSpecImpl<u8> for ProtocolError {
    open spec fn obeys_from_spec() -> bool {
        true
    }

    open spec fn from_spec(byte: u8) -> ProtocolError {
        ProtocolError::InvalidOpcode(byte)
    }
}

impl core::convert::From<usize> for ProtocolError {
    fn from(length: usize) -> (e: ProtocolError) {
        ProtocolError::InvalidLength(length)
    }
}

impl vstd::std_specs::convert::FromSpecImpl<usize> for ProtocolError {
    open spec fn obeys_from_spec() -> bool {
        true
    }

    open spec fn from_spec(length: usize) -> ProtocolError {
        ProtocolError::InvalidLength(length)
    }
}

impl core::convert::From<OpCode> for ProtocolError {
    fn from(op: OpCode) -> (e: ProtocolError) {
        ProtocolError::ContinuationFragment(op)
    }
}

impl vstd::std_specs::convert::FromSpecImpl<OpCode> for ProtocolError {
    open spec fn obeys_from_spec() -> bool {
        true
    }

    open spec fn from_spec(op: OpCode) -> ProtocolError {
        ProtocolError::ContinuationFragment(op)
    }
}

/// Operation codes of the websocket framing protocol.
#[derive(Debug, Eq, PartialEq, Clone, Copy, Structural)]
pub enum OpCode {
    /// Indicates a continuation frame of a fragmented message.
    Continue,
    /// Indicates a text data frame.
    Text,
    /// Indicates a binary data frame.
    Binary,
    /// Indicates a close control frame.
    Close,
    /// Indicates a ping control frame.
    Ping,
    /// Indicates a pong control frame.
    Pong,
    /// Indicates an invalid opcode was received.
    Bad,
}

/// The frame nibble each operation code is written as; the invalid code
/// falls back to the close frame, tearing the connection down quickly.
pub open spec fn op_code_num(op: OpCode) -> u8 {
    match op {
        OpCode::Continue => 0,
        OpCode::Text => 1,
        OpCode::Binary => 2,
        OpCode::Close => 8,
        OpCode::Ping => 9,
        OpCode::Pong => 10,
        OpCode::Bad => 8,
    }
}

/// The operation code a frame nibble stands for; anything unassigned is
/// the invalid code.
pub open spec fn op_code_of(byte: u8) -> OpCode {
    if byte == 0 {
        OpCode::Continue
    } else if byte == 1 {
        OpCode::Text
    } else if byte == 2 {
        OpCode::Binary
    } else if byte == 8 {
        OpCode::Close
    } else if byte == 9 {
        OpCode::Ping
    } else if byte == 10 {
        OpCode::Pong
    } else {
        OpCode::Bad
    }
}

impl OpCode {
    /// The operation code's name.
    pub fn name(&self) -> (r: String)
        ensures
            *self is Continue ==> r@ == "CONTINUE"@,
            *self is Text ==> r@ == "TEXT"@,
            *self is Binary ==> r@ == "BINARY"@,
            *self is Close ==> r@ == "CLOSE"@,
            *self is Ping ==> r@ == "PING"@,
            *self is Pong ==> r@ == "PONG"@,
            *self is Bad ==> r@ == "BAD"@,
    {
        match self {
            OpCode::Continue => "CONTINUE".to_owned(),
            OpCode::Text => "TEXT".to_owned(),
            OpCode::Binary => "BINARY".to_owned(),
            OpCode::Close => "CLOSE".to_owned(),
            OpCode::Ping => "PING".to_owned(),
            OpCode::Pong => "PONG".to_owned(),
            OpCode::Bad => "BAD".to_owned(),
        }
    }
}

impl core::convert::From<OpCode> for u8 {
    fn from(op: OpCode) -> (byte: u8) {
        match op {
            OpCode::Continue => 0,
            OpCode::Text => 1,
            OpCode::Binary => 2,
            OpCode::Close => 8,
            OpCode::Ping => 9,
            OpCode::Pong => 10,
            OpCode::Bad => 8,
        }
    }
}

impl vstd::std_specs::convert::FromSpecImpl<OpCode> for u8 {
    open spec fn obeys_from_spec() -> bool {
        true
    }

    open spec fn from_spec(op: OpCode) -> u8 {
        op_code_num(op)
    }
}

impl core::convert::From<u8> for OpCode {
    fn from(byte: u8) -> (op: OpCode) {
        if byte == 0 {
            OpCode::Continue
        } else if byte == 1 {
            OpCode::Text
        } else if byte == 2 {
            OpCode::Binary
        } else if byte == 8 {
            OpCode::Close
        } else if byte == 9 {
            OpCode::Ping
        } else if byte == 10 {
            OpCode::Pong
        } else {
            OpCode::Bad
        }
    }
}

impl vstd::std_specs::convert::FromSpecImpl<u8> for OpCode {
    open spec fn obeys_from_spec() -> bool {
        true
    }

    open spec fn from_spec(byte: u8) -> OpCode {
        op_code_of(byte)
    }
}

} // verus!
