//! The command protocol of a bidirectional stream, and the fixed replies of
//! the three kinds of channel.

use crate::text::{decode, str_equal, trimmed, utf8_bytes};
use vstd::prelude::*;
use vstd::utf8::*;

verus! {

/// Why servicing a stream or a datagram failed.
#[derive(Clone, Copy, Debug, PartialEq, Eq, Structural)]
pub enum ProtocolError {
    /// The peer's bytes are not well-formed UTF-8.
    MalformedUtf8,
    /// Reading from or writing to the transport failed.
    Io,
}

/// A command token, as classified by the dispatcher.
#[derive(Clone, Copy, Debug, PartialEq, Eq, Structural)]
pub enum Command {
    /// `START_VIDEO`
    StartVideo,
    /// `GET_METADATA`
    GetMetadata,
    /// Any other token, the empty one included.
    Unknown,
}

/// A message that the server sends.
#[derive(Clone, Copy, Debug, PartialEq, Eq, Structural)]
pub enum Reply {
    /// Acknowledges `START_VIDEO`.
    StartingVideo,
    /// Describes the media file, in answer to `GET_METADATA`.
    Metadata,
    /// Answers any other command.
    Ack,
    /// Acknowledges a unidirectional stream.
    AckUni,
    /// Acknowledges a datagram.
    AckDatagram,
}

/// The token that asks for the video.
pub open spec fn start_video_token() -> Seq<char> {
    "START_VIDEO"@
}

/// The token that asks for the description of the media file.
pub open spec fn get_metadata_token() -> Seq<char> {
    "GET_METADATA"@
}

/// The command that a token stands for, by exact match.
pub open spec fn classify(token: Seq<char>) -> Command {
    if token == start_video_token() {
        Command::StartVideo
    } else if token == get_metadata_token() {
        Command::GetMetadata
    } else {
        Command::Unknown
    }
}

/// The command token held by the first read of a stream: the bytes decoded as
/// UTF-8, without surrounding white space.
pub open spec fn token_of(bytes: Seq<u8>) -> Seq<char>
    recommends
        valid_utf8(bytes),
{
    trimmed(decode_utf8(bytes))
}

/// The command sent in `bytes`, or the error that ends the connection.
pub open spec fn command_of(bytes: Seq<u8>) -> Result<Command, ProtocolError> {
    if valid_utf8(bytes) {
        Ok(classify(token_of(bytes)))
    } else {
        Err(ProtocolError::MalformedUtf8)
    }
}

/// The reply that each command is answered with.
pub open spec fn reply_to(command: Command) -> Reply {
    match command {
        Command::StartVideo => Reply::StartingVideo,
        Command::GetMetadata => Reply::Metadata,
        Command::Unknown => Reply::Ack,
    }
}

impl Reply {
    /// The text of the message.
    pub open spec fn text(self) -> Seq<char> {
        match self {
            Reply::StartingVideo => "STARTING_VIDEO"@,
            Reply::Metadata => "{\"file\":\"test_video.mp4\",\"size\":1048576}"@,
            Reply::Ack => "ACK"@,
            Reply::AckUni => "ACK_UNI"@,
            Reply::AckDatagram => "ACK_DGRAM"@,
        }
    }

    /// The bytes of the message on the wire.
    pub open spec fn wire(self) -> Seq<u8> {
        encode_utf8(self.text())
    }

    /// The text of the message.
    pub fn as_str(self) -> (s: &'static str)
        ensures
            s@ == self.text(),
    {
        match self {
            Reply::StartingVideo => "STARTING_VIDEO",
            Reply::Metadata => "{\"file\":\"test_video.mp4\",\"size\":1048576}",
            Reply::Ack => "ACK",
            Reply::AckUni => "ACK_UNI",
            Reply::AckDatagram => "ACK_DGRAM",
        }
    }

    /// The bytes to write.
    pub fn payload(self) -> (bytes: Vec<u8>)
        ensures
            bytes@ == self.wire(),
    {
        utf8_bytes(self.as_str())
    }
}

impl Command {
    /// Classifies a trimmed token by exact match.
    pub fn from_token(token: &str) -> (command: Command)
        ensures
            command == classify(token@),
    {
        if str_equal(token, "START_VIDEO") {
            Command::StartVideo
        } else if str_equal(token, "GET_METADATA") {
            Command::GetMetadata
        } else {
            Command::Unknown
        }
    }

    /// Reads the command out of the first bytes of a bidirectional stream.
    pub fn parse(bytes: &[u8]) -> (r: Result<Command, ProtocolError>)
        ensures
            r == command_of(bytes@),
    {
        match decode(bytes) {
            Some(text) => Ok(Command::from_token(text.trim())),
            None => Err(ProtocolError::MalformedUtf8),
        }
    }

    /// The reply that answers this command.
    pub fn reply(self) -> (reply: Reply)
        ensures
            reply == reply_to(self),
    {
        match self {
            Command::StartVideo => Reply::StartingVideo,
            Command::GetMetadata => Reply::Metadata,
            Command::Unknown => Reply::Ack,
        }
    }
}

} // verus!
