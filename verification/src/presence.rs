use vstd::prelude::*;

use crate::ipc::Activity;

verus! {

/// The kind of activity shown on Discord.
#[derive(Debug, Clone, Copy, PartialEq, Eq)]
pub enum ActivityKind {
    Watching,
}

/// A rich-presence activity as it is handed to Discord.
#[derive(Debug, Clone)]
pub struct PresenceActivity {
    pub kind: ActivityKind,
    pub details: String,
    pub state: String,
    /// The tooltip of the large image.
    pub large_text: String,
    pub large_image: Option<String>,
}

/// The Discord activity shown for what the web UI describes: the user is
/// watching, with the given details and state, under the application's name,
/// and with the image where one is given.
pub fn watching_activity(activity: Activity) -> (p: PresenceActivity)
    ensures
        p.kind == ActivityKind::Watching,
        p.details == activity.details,
        p.state == activity.state,
        p.large_text@ == "Stremio"@,
        p.large_image == activity.image,
{
    PresenceActivity {
        kind: ActivityKind::Watching,
        details: activity.details,
        state: activity.state,
        large_text: String::from_str("Stremio"),
        large_image: activity.image,
    }
}

} // verus!
