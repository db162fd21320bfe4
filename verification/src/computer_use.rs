//! Computer-use backends for platforms without recording or input support.
//!
//! The configuration, handle, output and action types of the recording and
//! action interfaces are the caller's; these backends never look inside them.
use vstd::prelude::*;
use vstd::string::*;

verus! {

/// Whether screen recording and computer-use actions are available on this platform.
pub fn is_supported_on_current_platform() -> (supported: bool)
    ensures
        !supported,
{
    false
}

/// The message with which recording requests are refused.
pub open spec fn recording_unsupported_message() -> Seq<char> {
    "Video recording is not supported on this platform."@
}

/// The outcome of a batch of actions: an optional screenshot and cursor position.
#[derive(Debug)]
pub struct ActionResult<Screenshot, Position> {
    pub screenshot: Option<Screenshot>,
    pub cursor_position: Option<Position>,
}

/// A recorder that reports recording as unsupported on the current platform.
pub struct Recorder;

impl Recorder {
    pub fn new() -> (recorder: Self) {
        Recorder
    }

    /// Starting a recording always fails with the unsupported-platform message.
    pub fn start<Config, Handle>(&self, _config: Config) -> (result: Result<Handle, String>)
        ensures
            result matches Err(message) && message@ == recording_unsupported_message(),
    {
        Err(String::from_str("Video recording is not supported on this platform."))
    }

    /// Stopping a recording always fails with the unsupported-platform message.
    pub fn stop<Handle, Output>(&self, _handle: Handle) -> (result: Result<Output, String>)
        ensures
            result matches Err(message) && message@ == recording_unsupported_message(),
    {
        Err(String::from_str("Video recording is not supported on this platform."))
    }
}

/// An actor that performs no input actions and reports no platform.
pub struct Actor;

impl Actor {
    pub fn new() -> (actor: Self) {
        Actor
    }

    /// There is no platform to report.
    pub fn platform<Platform>(&self) -> (platform: Option<Platform>)
        ensures
            platform is None,
    {
        None
    }

    /// Accepts any batch of actions and performs none of them: the result
    /// carries neither a screenshot nor a cursor position.
    pub fn perform_actions<Action, Options, Screenshot, Position>(
        &mut self,
        _actions: &[Action],
        _options: Options,
    ) -> (result: Result<ActionResult<Screenshot, Position>, String>)
        ensures
            result matches Ok(r) && r.screenshot is None && r.cursor_position is None,
    {
        Ok(ActionResult { screenshot: None, cursor_position: None })
    }
}

} // verus!
