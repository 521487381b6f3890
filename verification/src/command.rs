//! Commands that a session accepts. Arguments the session logic never reads
//! (paces, coordinates, queries) are carried as compact JSON text.
use vstd::prelude::*;

verus! {

/// One command of the session protocol.
#[derive(Debug)]
#[allow(inconsistent_fields)]
pub enum Command {
    WarpStart { ticks: u64, pace: Option<String> },
    WarpStop,
    WarpSetPace { pace: String },
    Inspect { query: String },
    KeyboardPress { key: String },
    KeyboardRelease { key: String },
    PointerMoveTo { position: String },
    PointerMoveBy { delta: String },
    PointerPress { button: String },
    PointerRelease { button: String },
    PointerScroll { delta: String },
    TextInput { text: String },
    ScreenshotCapture { path: String },
    RecordingStart { path: String },
    RecordingStop,
    ReplayStart { path: String },
    ReplayStop,
    Shutdown,
}

/// The wire name of a command.
pub open spec fn command_name(c: Command) -> Seq<char> {
    match c {
        Command::WarpStart { .. } => "tick.warp.start"@,
        Command::WarpStop => "tick.warp.stop"@,
        Command::WarpSetPace { .. } => "tick.warp.set_pace"@,
        Command::Inspect { .. } => "inspect.query"@,
        Command::KeyboardPress { .. } => "input.keyboard.press"@,
        Command::KeyboardRelease { .. } => "input.keyboard.release"@,
        Command::PointerMoveTo { .. } => "input.pointer.move_to"@,
        Command::PointerMoveBy { .. } => "input.pointer.move_by"@,
        Command::PointerPress { .. } => "input.pointer.press"@,
        Command::PointerRelease { .. } => "input.pointer.release"@,
        Command::PointerScroll { .. } => "input.pointer.scroll"@,
        Command::TextInput { .. } => "input.text.input"@,
        Command::ScreenshotCapture { .. } => "screenshot.capture"@,
        Command::RecordingStart { .. } => "recording.start"@,
        Command::RecordingStop => "recording.stop"@,
        Command::ReplayStart { .. } => "replay.start"@,
        Command::ReplayStop => "replay.stop"@,
        Command::Shutdown => "shutdown"@,
    }
}

/// Session controls (recording, replay and shutdown) are never written to a
/// recording; every command the game executes is.
pub open spec fn recordable(c: Command) -> bool {
    !(c is RecordingStart || c is RecordingStop || c is ReplayStart || c is ReplayStop
        || c is Shutdown)
}

impl Command {
    /// The wire name of this command.
    pub fn name(&self) -> (r: &'static str)
        ensures
            r@ == command_name(*self),
    {
        match self {
            Command::WarpStart { .. } => "tick.warp.start",
            Command::WarpStop => "tick.warp.stop",
            Command::WarpSetPace { .. } => "tick.warp.set_pace",
            Command::Inspect { .. } => "inspect.query",
            Command::KeyboardPress { .. } => "input.keyboard.press",
            Command::KeyboardRelease { .. } => "input.keyboard.release",
            Command::PointerMoveTo { .. } => "input.pointer.move_to",
            Command::PointerMoveBy { .. } => "input.pointer.move_by",
            Command::PointerPress { .. } => "input.pointer.press",
            Command::PointerRelease { .. } => "input.pointer.release",
            Command::PointerScroll { .. } => "input.pointer.scroll",
            Command::TextInput { .. } => "input.text.input",
            Command::ScreenshotCapture { .. } => "screenshot.capture",
            Command::RecordingStart { .. } => "recording.start",
            Command::RecordingStop => "recording.stop",
            Command::ReplayStart { .. } => "replay.start",
            Command::ReplayStop => "replay.stop",
            Command::Shutdown => "shutdown",
        }
    }

    /// Whether this command is written to a recording.
    pub fn is_recordable(&self) -> (r: bool)
        ensures
            r == recordable(*self),
    {
        !matches!(
            self,
            Command::RecordingStart { .. } | Command::RecordingStop | Command::ReplayStart { .. }
                | Command::ReplayStop | Command::Shutdown
        )
    }

    /// Whether this command ends the session.
    pub fn is_shutdown(&self) -> (r: bool)
        ensures
            r == (*self is Shutdown),
    {
        matches!(self, Command::Shutdown)
    }

    /// A copy of this command.
    pub fn duplicate(&self) -> (r: Command)
        ensures
            r == *self,
    {
        match self {
            Command::WarpStart { ticks, pace } => Command::WarpStart {
                ticks: *ticks,
                pace: match pace {
                    Some(p) => Some(p.clone()),
                    None => None,
                },
            },
            Command::WarpStop => Command::WarpStop,
            Command::WarpSetPace { pace } => Command::WarpSetPace { pace: pace.clone() },
            Command::Inspect { query } => Command::Inspect { query: query.clone() },
            Command::KeyboardPress { key } => Command::KeyboardPress { key: key.clone() },
            Command::KeyboardRelease { key } => Command::KeyboardRelease { key: key.clone() },
            Command::PointerMoveTo { position } => Command::PointerMoveTo {
                position: position.clone(),
            },
            Command::PointerMoveBy { delta } => Command::PointerMoveBy { delta: delta.clone() },
            Command::PointerPress { button } => Command::PointerPress { button: button.clone() },
            Command::PointerRelease { button } => Command::PointerRelease {
                button: button.clone(),
            },
            Command::PointerScroll { delta } => Command::PointerScroll { delta: delta.clone() },
            Command::TextInput { text } => Command::TextInput { text: text.clone() },
            Command::ScreenshotCapture { path } => Command::ScreenshotCapture { path: path.clone() },
            Command::RecordingStart { path } => Command::RecordingStart { path: path.clone() },
            Command::RecordingStop => Command::RecordingStop,
            Command::ReplayStart { path } => Command::ReplayStart { path: path.clone() },
            Command::ReplayStop => Command::ReplayStop,
            Command::Shutdown => Command::Shutdown,
        }
    }
}

} // verus!
