//! The decision logic of the Stremio desktop shell: data-URL payloads,
//! deep links, the IPC dispatch between the web UI and the native side,
//! and the small tables the shell is configured with.

pub mod ipc;
pub mod launch;
pub mod payload;
pub mod presence;
pub mod shell;
pub mod text;

pub use ipc::{Activity, DiscordEvent, IpcEvent, MediaMetadata, MpvCommand, MpvEvent, MpvProperty, PlaybackEnd};
pub use launch::{accelerators, is_desktop_kde, program_args, server_environment};
pub use payload::{decode_base64, decode_data_url, PayloadError};
pub use presence::{watching_activity, ActivityKind, PresenceActivity};
pub use shell::{is_deeplink_uri, playlist_file_name, AppAction, Effect, Shell, ShellEvent, UiSettings};
pub use text::{equals, starts_with, strip_prefix};
