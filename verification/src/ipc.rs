use vstd::prelude::*;

verus! {

/// A message exchanged with the web UI over the IPC bridge. The same type
/// carries the requests the UI sends and the responses the shell sends back.
#[derive(Debug, Clone)]
pub enum IpcEvent {
    /// Handshake: the UI announces itself; the shell answers with `Init`.
    Init,
    /// The UI is ready to receive media to open.
    Ready,
    /// Request (or report) of the fullscreen state.
    Fullscreen(bool),
    /// Whether media is paused.
    MediaStatus(bool),
    /// Title, artist and artwork of what is playing.
    MediaMetadata(MediaMetadata),
    /// The UI asks the application to quit.
    Quit,
    /// Discord rich presence.
    Discord(DiscordEvent),
    /// The embedded mpv player.
    Mpv(MpvEvent),
    /// The shell asks the UI to open a deep link.
    OpenMedia(String),
    /// The shell reports whether its window is visible.
    Visibility(bool),
}

/// Discord rich-presence messages.
#[derive(Debug, Clone)]
pub enum DiscordEvent {
    Connect,
    Disconnect,
    /// The activity to show.
    SetActivity(Activity),
    ClearActivity,
    /// The shell reports whether the connection succeeded.
    Status(bool),
}

/// Messages for the mpv player; property values travel as JSON text.
#[derive(Debug, Clone)]
pub enum MpvEvent {
    /// Start observing a property.
    Observe(String),
    /// Run a command with its arguments.
    Command(MpvCommand),
    /// Set a property to a value.
    SetProperty(MpvProperty),
    /// The shell reports that an observed property changed.
    Change(MpvProperty),
    /// The shell reports that playback ended.
    Ended(PlaybackEnd),
}

/// What is playing, as the desktop media controls show it.
#[derive(Debug, Clone)]
pub struct MediaMetadata {
    pub title: String,
    pub artist: String,
    pub artwork: Option<String>,
}

/// A rich-presence activity as the web UI describes it.
#[derive(Debug, Clone)]
pub struct Activity {
    pub details: String,
    pub state: String,
    pub image: Option<String>,
}

/// An mpv command and its arguments.
#[derive(Debug, Clone)]
pub struct MpvCommand {
    pub name: String,
    pub args: Vec<String>,
}

/// An mpv property and its value as JSON text.
#[derive(Debug, Clone)]
pub struct MpvProperty {
    pub name: String,
    pub value: String,
}

/// Why playback ended, and the error if there was one.
#[derive(Debug, Clone)]
pub struct PlaybackEnd {
    pub reason: String,
    pub error: Option<String>,
}

} // verus!
