//! What is settled before the server starts: the settings of the listening
//! endpoint and the check of the media file.

use vstd::prelude::*;

verus! {

/// The media file that the server is started for.
pub const VIDEO_PATH: &'static str = "test.mp4";

/// The port to bind where any free port will do.
pub const ANY_PORT: u16 = 0;

/// The seconds of silence after which a keep-alive probe is sent, so that a
/// peer that died without a word is found out.
pub const KEEP_ALIVE_SECS: u64 = 5;

/// The status that the process exits with when it cannot start.
pub const STARTUP_FAILURE_STATUS: i32 = 1;

/// The settings of the listening endpoint.
#[derive(Clone, Copy, Debug, PartialEq, Eq, Structural)]
pub struct ListenerSettings {
    /// The port to bind, on every local address.
    pub bind_port: u16,
    /// The keep-alive interval in seconds; `None` switches the probes off.
    pub keep_alive_secs: Option<u64>,
}

/// Why the server cannot start.
#[derive(Clone, Copy, Debug, PartialEq, Eq, Structural)]
pub enum StartupError {
    /// The media file is not there.
    MissingMedia,
}

impl StartupError {
    /// The status to exit with.
    pub fn exit_status(self) -> (status: i32)
        ensures
            status == STARTUP_FAILURE_STATUS,
    {
        STARTUP_FAILURE_STATUS
    }
}

/// The settings that every listening endpoint of this server has: any free
/// port, and a keep-alive probe every five seconds.
pub fn listener_settings() -> (settings: ListenerSettings)
    ensures
        settings == (ListenerSettings {
            bind_port: ANY_PORT,
            keep_alive_secs: Some(KEEP_ALIVE_SECS),
        }),
{
    ListenerSettings { bind_port: ANY_PORT, keep_alive_secs: Some(KEEP_ALIVE_SECS) }
}

/// Decides whether the server may start, given whether the media file exists.
pub fn validate_video(exists: bool) -> (r: Result<(), StartupError>)
    ensures
        r is Ok <==> exists,
        r matches Err(error) ==> error == StartupError::MissingMedia,
{
    if exists {
        Ok(())
    } else {
        Err(StartupError::MissingMedia)
    }
}

} // verus!
