use vstd::prelude::*;

use crate::ipc::{Activity, DiscordEvent, IpcEvent, MediaMetadata, MpvCommand, MpvEvent, MpvProperty, PlaybackEnd};
use crate::payload::{data_url_body, octet_stream_data_url_header};
use crate::text::{has_prefix, starts_with};

verus! {

/// What the shell reacts to: messages from the web UI, and what the window,
/// the player, the tray, the media controls and the desktop report.
#[derive(Debug)]
pub enum ShellEvent {
    /// A message the web UI sent, already parsed.
    Ipc(IpcEvent),
    /// The outcome of a `DiscordConnect` effect.
    DiscordConnected(bool),
    /// The player stopped, with the reason it gives.
    PlaybackEnded(String),
    /// An observed player property changed: its name and its value as JSON text.
    MpvPropertyChanged(MpvProperty),
    /// The web view itself asks to enter or leave fullscreen.
    WebViewFullscreen(bool),
    /// The web view asks to open something outside of it.
    OpenExternal(String),
    /// A download started by `DownloadPlaylist` finished: the path written, or why it failed.
    DownloadFinished(Result<String, String>),
    /// The window was shown or hidden.
    VisibilityChanged(bool),
    /// The tray menu's entries.
    TrayShow,
    TrayHide,
    TrayQuit,
    /// The desktop media controls ask to pause (`true`) or resume.
    MprisStatus(bool),
    /// The desktop media controls ask to raise the window.
    MprisRaise,
    /// The desktop asks the application to open a file or URI (the first one given).
    Open(Option<String>),
    /// The application is activated; whether it already has an active window.
    Activate(bool),
    /// One of the application's actions was triggered from a menu or a shortcut.
    MenuAction { action: AppAction, has_window: bool },
    /// The application shuts down.
    Shutdown,
}

/// What the shell asks the outside world to do, in order.
#[derive(Debug, Clone)]
pub enum Effect {
    /// Send a message to the web UI.
    Send(IpcEvent),
    SetFullscreen(bool),
    /// Tell the desktop media controls whether media is paused.
    SetMediaStatus(bool),
    SetMediaMetadata(MediaMetadata),
    /// Let the screen idle again.
    EnableIdling,
    /// Keep the screen from idling.
    DisableIdling,
    Quit,
    DiscordConnect,
    DiscordDisconnect,
    DiscordSetActivity(Activity),
    DiscordClearActivity,
    ObserveMpvProperty(String),
    SendMpvCommand(MpvCommand),
    SetMpvProperty(MpvProperty),
    /// Decode the data URL and save it in the download directory as the playlist file.
    DownloadPlaylist(String),
    /// Open a file with the desktop's default handler.
    OpenFile(String),
    /// Open a URI with the desktop's default handler.
    OpenUri(String),
    UpdateTray(bool),
    SetWindowVisible(bool),
    /// Bring the window to the front.
    ActivateWindow,
    /// Run the application's activation.
    Activate,
    /// Present the window that already exists.
    PresentWindow,
    /// Build the window, the player and the web view, wired to this shell,
    /// with the application's settings.
    BuildUi(UiSettings),
    /// Destroy the window, if there is one.
    DestroyWindow,
    /// Show the preferences dialog over the active window.
    ShowPreferences,
    /// Show the about dialog over the active window.
    ShowAbout,
}

/// The application's actions.
#[derive(Debug, Clone, Copy, PartialEq, Eq)]
pub enum AppAction {
    Quit,
    ShowPreferences,
    ShowAbout,
}

/// The application's settings the user interface is built with.
#[derive(Debug, Clone)]
pub struct UiSettings {
    /// The address the web view loads first.
    pub startup_url: String,
    /// Whether the web view runs in development mode.
    pub dev_mode: bool,
    /// Whether the window draws its own decorations.
    pub decorations: bool,
}

/// The state the shell keeps between events.
#[derive(Debug, Clone)]
pub struct Shell {
    /// The last deep link the desktop asked to open.
    pub deeplink: Option<String>,
    /// Whether the web view has been built.
    pub webview_ready: bool,
    /// The deep link as it was when the web view was last built: the IPC
    /// handler wired to that web view keeps this copy and answers `Ready` from it.
    pub ui_deeplink: Option<String>,
    /// The settings the user interface is built with.
    pub settings: UiSettings,
}

/// The scheme of Stremio deep links, `stremio://`: the URI scheme the Stremio
/// desktop clients register with the desktop for links into the application.
pub open spec fn uri_scheme() -> Seq<char> {
    "stremio://"@
}

/// The MIME type of data the web view hands over for download.
pub open spec fn octet_stream_type() -> Seq<char> {
    "application/octet-stream"@
}

/// Whether `uri` is a Stremio deep link.
pub open spec fn is_deeplink(uri: Seq<char>) -> bool {
    has_prefix(uri, uri_scheme())
}

/// What the shell does with a message from the web UI.
pub open spec fn ipc_effects(s: Shell, e: IpcEvent) -> Seq<Effect> {
    match e {
        IpcEvent::Init => seq![Effect::Send(IpcEvent::Init)],
        IpcEvent::Ready => match s.ui_deeplink {
            Some(uri) => seq![Effect::Send(IpcEvent::OpenMedia(uri))],
            None => seq![],
        },
        IpcEvent::Fullscreen(on) => seq![Effect::SetFullscreen(on), Effect::Send(IpcEvent::Fullscreen(on))],
        IpcEvent::MediaStatus(paused) => seq![
            Effect::SetMediaStatus(paused),
            if paused { Effect::EnableIdling } else { Effect::DisableIdling },
        ],
        IpcEvent::MediaMetadata(m) => seq![Effect::SetMediaMetadata(m)],
        IpcEvent::Quit => seq![Effect::Quit],
        IpcEvent::Discord(d) => match d {
            DiscordEvent::Connect => seq![Effect::DiscordConnect],
            DiscordEvent::Disconnect => seq![Effect::DiscordDisconnect],
            DiscordEvent::SetActivity(a) => seq![Effect::DiscordSetActivity(a)],
            DiscordEvent::ClearActivity => seq![Effect::DiscordClearActivity],
            DiscordEvent::Status(_) => seq![],
        },
        IpcEvent::Mpv(m) => match m {
            MpvEvent::Observe(name) => seq![Effect::ObserveMpvProperty(name)],
            MpvEvent::Command(c) => seq![Effect::SendMpvCommand(c)],
            MpvEvent::SetProperty(p) => seq![Effect::SetMpvProperty(p)],
            _ => seq![],
        },
        _ => seq![],
    }
}

/// What the shell does on an event.
pub open spec fn shell_effects(s: Shell, e: ShellEvent) -> Seq<Effect> {
    match e {
        ShellEvent::Ipc(m) => ipc_effects(s, m),
        ShellEvent::DiscordConnected(ok) => seq![Effect::Send(IpcEvent::Discord(DiscordEvent::Status(ok)))],
        ShellEvent::PlaybackEnded(reason) => seq![
            Effect::EnableIdling,
            Effect::Send(IpcEvent::Mpv(MpvEvent::Ended(PlaybackEnd { reason, error: None }))),
        ],
        ShellEvent::MpvPropertyChanged(p) => seq![Effect::Send(IpcEvent::Mpv(MpvEvent::Change(p)))],
        ShellEvent::WebViewFullscreen(on) => seq![Effect::SetFullscreen(on)],
        ShellEvent::OpenExternal(data) => if has_prefix(data@, octet_stream_type()) {
            seq![Effect::DownloadPlaylist(data)]
        } else {
            seq![Effect::OpenUri(data)]
        },
        ShellEvent::DownloadFinished(r) => match r {
            Ok(path) => seq![Effect::OpenFile(path)],
            Err(_) => seq![],
        },
        ShellEvent::VisibilityChanged(v) => seq![Effect::Send(IpcEvent::Visibility(v)), Effect::UpdateTray(v)],
        ShellEvent::TrayShow => seq![Effect::SetWindowVisible(true)],
        ShellEvent::TrayHide => seq![Effect::SetWindowVisible(false)],
        ShellEvent::TrayQuit => seq![Effect::Quit],
        ShellEvent::MprisStatus(paused) => seq![Effect::Send(IpcEvent::MediaStatus(paused))],
        ShellEvent::MprisRaise => seq![Effect::ActivateWindow],
        ShellEvent::Open(first) => match first {
            Some(uri) => if is_deeplink(uri@) && s.webview_ready {
                seq![Effect::Send(IpcEvent::OpenMedia(uri)), Effect::Activate]
            } else {
                seq![Effect::Activate]
            },
            None => seq![Effect::Activate],
        },
        ShellEvent::Activate(has_window) => if has_window {
            seq![Effect::PresentWindow]
        } else {
            seq![Effect::BuildUi(s.settings)]
        },
        ShellEvent::Shutdown => seq![Effect::DestroyWindow],
        ShellEvent::MenuAction { action, has_window } => match action {
            AppAction::Quit => seq![Effect::Quit],
            AppAction::ShowPreferences => if has_window { seq![Effect::ShowPreferences] } else { seq![] },
            AppAction::ShowAbout => if has_window { seq![Effect::ShowAbout] } else { seq![] },
        },
    }
}

/// The state after an event.
pub open spec fn shell_next(s: Shell, e: ShellEvent) -> Shell {
    match e {
        ShellEvent::Open(Some(uri)) => if is_deeplink(uri@) {
            Shell { deeplink: Some(uri), ..s }
        } else {
            s
        },
        ShellEvent::Activate(has_window) => if has_window {
            s
        } else {
            Shell { webview_ready: true, ui_deeplink: s.deeplink, ..s }
        },
        _ => s,
    }
}

/// The state after a sequence of events, taken in order.
pub open spec fn shell_run(s: Shell, events: Seq<ShellEvent>) -> Shell
    decreases events.len(),
{
    if events.len() == 0 {
        s
    } else {
        shell_run(shell_next(s, events[0]), events.drop_first())
    }
}

/// Whether the event asks the shell to open a Stremio deep link.
pub open spec fn opens_deeplink(e: ShellEvent) -> bool {
    e matches ShellEvent::Open(Some(uri)) && is_deeplink(uri@)
}

/// Only an `Open` of a deep link changes the remembered deep link: after any
/// events without one, the shell still holds the deep link it held before.
pub proof fn lemma_deeplink_kept(s: Shell, events: Seq<ShellEvent>)
    requires
        forall|i: int| 0 <= i < events.len() ==> !opens_deeplink(#[trigger] events[i]),
    ensures
        shell_run(s, events).deeplink == s.deeplink,
    decreases events.len(),
{
    if events.len() > 0 {
        assert(!opens_deeplink(events[0]));
        let rest = events.drop_first();
        assert forall|i: int| 0 <= i < rest.len() implies !opens_deeplink(#[trigger] rest[i]) by {
            assert(rest[i] == events[i + 1]);
        }
        lemma_deeplink_kept(shell_next(s, events[0]), rest);
    }
}

/// Whether the event builds the web view afresh.
pub open spec fn builds_ui(e: ShellEvent) -> bool {
    e matches ShellEvent::Activate(has_window) && !has_window
}

/// The answer to `Ready` is fixed when the web view is built: events that do
/// not build it again, deep links opened in the meantime among them, leave it
/// as it was.
pub proof fn lemma_ready_answer_fixed_at_build(s: Shell, events: Seq<ShellEvent>)
    requires
        forall|i: int| 0 <= i < events.len() ==> !builds_ui(#[trigger] events[i]),
    ensures
        shell_run(s, events).ui_deeplink == s.ui_deeplink,
        shell_effects(shell_run(s, events), ShellEvent::Ipc(IpcEvent::Ready))
            == shell_effects(s, ShellEvent::Ipc(IpcEvent::Ready)),
    decreases events.len(),
{
    if events.len() > 0 {
        assert(!builds_ui(events[0]));
        let rest = events.drop_first();
        assert forall|i: int| 0 <= i < rest.len() implies !builds_ui(#[trigger] rest[i]) by {
            assert(rest[i] == events[i + 1]);
        }
        lemma_ready_answer_fixed_at_build(shell_next(s, events[0]), rest);
    }
}

/// A deep link the desktop asks to open before the web view is built is
/// offered to the web UI each time it reports `Ready`: whatever happens
/// before the build, as long as no other deep link replaces it, and whatever
/// happens after it, as long as the web view is not built again.
pub proof fn lemma_deeplink_offered_when_ready(
    s: Shell,
    uri: String,
    before: Seq<ShellEvent>,
    after: Seq<ShellEvent>,
)
    requires
        is_deeplink(uri@),
        forall|i: int| 0 <= i < before.len() ==> !opens_deeplink(#[trigger] before[i]),
        forall|i: int| 0 <= i < after.len() ==> !builds_ui(#[trigger] after[i]),
    ensures
        shell_effects(
            shell_run(
                shell_next(shell_run(shell_next(s, ShellEvent::Open(Some(uri))), before), ShellEvent::Activate(false)),
                after,
            ),
            ShellEvent::Ipc(IpcEvent::Ready),
        ) == seq![Effect::Send(IpcEvent::OpenMedia(uri))],
{
    let opened = shell_next(s, ShellEvent::Open(Some(uri)));
    lemma_deeplink_kept(opened, before);
    let built = shell_next(shell_run(opened, before), ShellEvent::Activate(false));
    lemma_ready_answer_fixed_at_build(built, after);
}

/// The user interface is always built with the settings the shell was made
/// with: no event changes them.
pub proof fn lemma_ui_built_with_settings(s: Shell, events: Seq<ShellEvent>)
    ensures
        shell_run(s, events).settings == s.settings,
        shell_effects(shell_run(s, events), ShellEvent::Activate(false))
            == seq![Effect::BuildUi(s.settings)],
    decreases events.len(),
{
    if events.len() > 0 {
        lemma_ui_built_with_settings(shell_next(s, events[0]), events.drop_first());
    }
}

/// Once the web view is built it stays built, whatever events follow.
pub proof fn lemma_webview_stays_ready(s: Shell, events: Seq<ShellEvent>)
    requires
        s.webview_ready,
    ensures
        shell_run(s, events).webview_ready,
    decreases events.len(),
{
    if events.len() > 0 {
        lemma_webview_stays_ready(shell_next(s, events[0]), events.drop_first());
    }
}

/// Once the web view is built, a deep link is sent to it at once, and the
/// application is activated after it.
pub proof fn lemma_deeplink_sent_to_ready_ui(s: Shell, uri: String)
    requires
        s.webview_ready,
        is_deeplink(uri@),
    ensures
        shell_effects(s, ShellEvent::Open(Some(uri)))
            == seq![Effect::Send(IpcEvent::OpenMedia(uri)), Effect::Activate],
        shell_next(s, ShellEvent::Open(Some(uri))).deeplink == Some(uri),
{
}

/// Every request to open something activates the application, as its last effect.
pub proof fn lemma_open_activates(s: Shell, first: Option<String>)
    ensures
        shell_effects(s, ShellEvent::Open(first)).len() > 0,
        shell_effects(s, ShellEvent::Open(first)).last() == Effect::Activate,
{
}

/// Messages from the web UI never change the shell's state.
pub proof fn lemma_ipc_keeps_state(s: Shell, m: IpcEvent)
    ensures
        shell_next(s, ShellEvent::Ipc(m)) == s,
        shell_effects(s, ShellEvent::Ipc(m)) == ipc_effects(s, m),
{
}

/// The handshake is answered in kind, and a fullscreen request is carried
/// out and then confirmed back to the web UI with the same state.
pub proof fn lemma_requests_acknowledged(s: Shell, on: bool)
    ensures
        ipc_effects(s, IpcEvent::Init) == seq![Effect::Send(IpcEvent::Init)],
        ipc_effects(s, IpcEvent::Fullscreen(on))
            == seq![Effect::SetFullscreen(on), Effect::Send(IpcEvent::Fullscreen(on))],
{
}

/// The screen may idle exactly while the web UI reports media paused; the
/// media controls are told the status first.
pub proof fn lemma_idling_follows_media_status(s: Shell, paused: bool)
    ensures
        ipc_effects(s, IpcEvent::MediaStatus(paused)).len() == 2,
        ipc_effects(s, IpcEvent::MediaStatus(paused))[0] == Effect::SetMediaStatus(paused),
        ipc_effects(s, IpcEvent::MediaStatus(paused))[1]
            == (if paused { Effect::EnableIdling } else { Effect::DisableIdling }),
{
}

/// Whatever the web view hands over as an octet-stream data URL, the kind
/// that `decode_data_url` takes, is downloaded and never opened as a URI.
pub proof fn lemma_data_urls_downloaded(s: Shell, data: String)
    requires
        data_url_body(data@) is Some,
    ensures
        shell_effects(s, ShellEvent::OpenExternal(data)) == seq![Effect::DownloadPlaylist(data)],
{
    reveal_strlit("application/octet-stream;charset=utf-8;base64,");
    reveal_strlit("application/octet-stream");
    let header = octet_stream_data_url_header();
    let kind = octet_stream_type();
    assert(kind =~= header.subrange(0, kind.len() as int));
    assert(kind =~= data@.subrange(0, kind.len() as int)) by {
        assert forall|i: int| 0 <= i < kind.len() implies kind[i] == data@[i] by {
            assert(header =~= data@.subrange(0, header.len() as int));
            assert(header[i] == data@.subrange(0, header.len() as int)[i]);
        }
    }
}

/// Activation when a window exists presents that window and nothing else,
/// whatever the state; activation without one builds the user interface once
/// with the shell's settings and hands the web view a copy of the pending deep
/// link, which its `Ready` answer then offers.
pub proof fn lemma_activation(s: Shell)
    ensures
        shell_effects(s, ShellEvent::Activate(true)) == seq![Effect::PresentWindow],
        shell_next(s, ShellEvent::Activate(true)) == s,
        shell_effects(s, ShellEvent::Activate(false)) == seq![Effect::BuildUi(s.settings)],
        shell_next(s, ShellEvent::Activate(false)).webview_ready,
        shell_next(s, ShellEvent::Activate(false)).ui_deeplink == s.deeplink,
        shell_next(s, ShellEvent::Activate(false)).deeplink == s.deeplink,
        shell_next(s, ShellEvent::Activate(false)).settings == s.settings,
        shell_effects(shell_next(s, ShellEvent::Activate(false)), ShellEvent::Ipc(IpcEvent::Ready))
            == (match s.deeplink {
                Some(uri) => seq![Effect::Send(IpcEvent::OpenMedia(uri))],
                None => Seq::<Effect>::empty(),
            }),
{
}

/// The web UI's requests for the media controls, the application, Discord and
/// the player are passed on exactly as sent, payloads included, each as a
/// single effect; the handshake is answered in kind.
pub proof fn lemma_requests_passed_on(
    s: Shell,
    m: MediaMetadata,
    a: Activity,
    name: String,
    c: MpvCommand,
    p: MpvProperty,
)
    ensures
        ipc_effects(s, IpcEvent::MediaMetadata(m)) == seq![Effect::SetMediaMetadata(m)],
        ipc_effects(s, IpcEvent::Quit) == seq![Effect::Quit],
        ipc_effects(s, IpcEvent::Init) == seq![Effect::Send(IpcEvent::Init)],
        ipc_effects(s, IpcEvent::Discord(DiscordEvent::Connect)) == seq![Effect::DiscordConnect],
        ipc_effects(s, IpcEvent::Discord(DiscordEvent::Disconnect)) == seq![Effect::DiscordDisconnect],
        ipc_effects(s, IpcEvent::Discord(DiscordEvent::SetActivity(a))) == seq![Effect::DiscordSetActivity(a)],
        ipc_effects(s, IpcEvent::Discord(DiscordEvent::ClearActivity)) == seq![Effect::DiscordClearActivity],
        ipc_effects(s, IpcEvent::Mpv(MpvEvent::Observe(name))) == seq![Effect::ObserveMpvProperty(name)],
        ipc_effects(s, IpcEvent::Mpv(MpvEvent::Command(c))) == seq![Effect::SendMpvCommand(c)],
        ipc_effects(s, IpcEvent::Mpv(MpvEvent::SetProperty(p))) == seq![Effect::SetMpvProperty(p)],
{
}

/// What the player, the window, the tray, the desktop media controls and
/// Discord report is forwarded, for every value reported, and never changes
/// the shell's state.
pub proof fn lemma_reports_forwarded(s: Shell, paused: bool, visible: bool, on: bool, connected: bool, reason: String, p: MpvProperty)
    ensures
        shell_effects(s, ShellEvent::MprisStatus(paused)) == seq![Effect::Send(IpcEvent::MediaStatus(paused))],
        shell_next(s, ShellEvent::MprisStatus(paused)) == s,
        shell_effects(s, ShellEvent::MprisRaise) == seq![Effect::ActivateWindow],
        shell_effects(s, ShellEvent::VisibilityChanged(visible))
            == seq![Effect::Send(IpcEvent::Visibility(visible)), Effect::UpdateTray(visible)],
        shell_next(s, ShellEvent::VisibilityChanged(visible)) == s,
        shell_effects(s, ShellEvent::WebViewFullscreen(on)) == seq![Effect::SetFullscreen(on)],
        shell_effects(s, ShellEvent::PlaybackEnded(reason)) == seq![
            Effect::EnableIdling,
            Effect::Send(IpcEvent::Mpv(MpvEvent::Ended(PlaybackEnd { reason, error: None }))),
        ],
        shell_next(s, ShellEvent::PlaybackEnded(reason)) == s,
        shell_effects(s, ShellEvent::MpvPropertyChanged(p)) == seq![Effect::Send(IpcEvent::Mpv(MpvEvent::Change(p)))],
        shell_effects(s, ShellEvent::DiscordConnected(connected))
            == seq![Effect::Send(IpcEvent::Discord(DiscordEvent::Status(connected)))],
        shell_effects(s, ShellEvent::TrayShow) == seq![Effect::SetWindowVisible(true)],
        shell_effects(s, ShellEvent::TrayHide) == seq![Effect::SetWindowVisible(false)],
        shell_effects(s, ShellEvent::TrayQuit) == seq![Effect::Quit],
        shell_effects(s, ShellEvent::Shutdown) == seq![Effect::DestroyWindow],
        shell_next(s, ShellEvent::Shutdown) == s,
{
}

/// What the web view asks to open outside of it is either downloaded, when it
/// is octet-stream data, or opened as a URI, whatever else it is; a finished
/// download is opened, a failed one is not.
pub proof fn lemma_external_open(s: Shell, data: String, path: String, why: String)
    ensures
        has_prefix(data@, "application/octet-stream"@) ==>
            shell_effects(s, ShellEvent::OpenExternal(data)) == seq![Effect::DownloadPlaylist(data)],
        !has_prefix(data@, "application/octet-stream"@) ==>
            shell_effects(s, ShellEvent::OpenExternal(data)) == seq![Effect::OpenUri(data)],
        shell_next(s, ShellEvent::OpenExternal(data)) == s,
        shell_effects(s, ShellEvent::DownloadFinished(Ok(path))) == seq![Effect::OpenFile(path)],
        shell_effects(s, ShellEvent::DownloadFinished(Err(why))) == Seq::<Effect>::empty(),
{
}

/// Quitting from a menu or shortcut quits whether or not a window exists; the
/// preferences and about dialogs are shown exactly when there is a window to
/// show them over.
pub proof fn lemma_menu_actions(s: Shell, has_window: bool)
    ensures
        shell_effects(s, ShellEvent::MenuAction { action: AppAction::Quit, has_window })
            == seq![Effect::Quit],
        shell_effects(s, ShellEvent::MenuAction { action: AppAction::ShowPreferences, has_window })
            == (if has_window { seq![Effect::ShowPreferences] } else { Seq::<Effect>::empty() }),
        shell_effects(s, ShellEvent::MenuAction { action: AppAction::ShowAbout, has_window })
            == (if has_window { seq![Effect::ShowAbout] } else { Seq::<Effect>::empty() }),
        shell_next(s, ShellEvent::MenuAction { action: AppAction::Quit, has_window }) == s,
{
}

/// A request to open something stores it as the deep link exactly when it
/// starts with `stremio://`, sends it straight to a web view that already
/// exists, and otherwise only activates the application.
pub proof fn lemma_open(s: Shell, uri: String)
    ensures
        has_prefix(uri@, "stremio://"@) ==> shell_next(s, ShellEvent::Open(Some(uri))).deeplink == Some(uri),
        !has_prefix(uri@, "stremio://"@) ==> shell_next(s, ShellEvent::Open(Some(uri))) == s,
        shell_next(s, ShellEvent::Open(Some(uri))).webview_ready == s.webview_ready,
        shell_next(s, ShellEvent::Open(Some(uri))).ui_deeplink == s.ui_deeplink,
        (has_prefix(uri@, "stremio://"@) && s.webview_ready) ==>
            shell_effects(s, ShellEvent::Open(Some(uri))) == seq![Effect::Send(IpcEvent::OpenMedia(uri)), Effect::Activate],
        !(has_prefix(uri@, "stremio://"@) && s.webview_ready) ==>
            shell_effects(s, ShellEvent::Open(Some(uri))) == seq![Effect::Activate],
        shell_next(s, ShellEvent::Open(None)) == s,
        shell_effects(s, ShellEvent::Open(None)) == seq![Effect::Activate],
{
}

fn uri_scheme_str() -> (s: &'static str)
    ensures
        s@ == uri_scheme(),
{
    "stremio://"
}

fn octet_stream_type_str() -> (s: &'static str)
    ensures
        s@ == octet_stream_type(),
{
    "application/octet-stream"
}

/// Whether `uri` is a Stremio deep link.
pub fn is_deeplink_uri(uri: &str) -> (r: bool)
    ensures
        r == is_deeplink(uri@),
{
    starts_with(uri, uri_scheme_str())
}

/// The name under which a downloaded playlist is saved.
pub fn playlist_file_name() -> (s: &'static str)
    ensures
        s@ == "playlist.m3u8"@,
{
    "playlist.m3u8"
}

impl AppAction {
    /// The name the action is registered under.
    pub fn name(&self) -> (n: &'static str)
        ensures
            *self == AppAction::Quit ==> n@ == "quit"@,
            *self == AppAction::ShowPreferences ==> n@ == "show-preferences"@,
            *self == AppAction::ShowAbout ==> n@ == "show-about"@,
    {
        match self {
            AppAction::Quit => "quit",
            AppAction::ShowPreferences => "show-preferences",
            AppAction::ShowAbout => "show-about",
        }
    }
}

impl Shell {
    /// A shell with the given settings that has not been activated and holds no deep link.
    pub fn new(settings: UiSettings) -> (s: Shell)
        ensures
            s.deeplink is None,
            !s.webview_ready,
            s.ui_deeplink is None,
            s.settings == settings,
    {
        Shell { deeplink: None, webview_ready: false, ui_deeplink: None, settings }
    }

    /// What to do with a message from the web UI. The state is not changed.
    pub fn handle_ipc(&self, event: IpcEvent) -> (effects: Vec<Effect>)
        ensures
            effects@ == ipc_effects(*self, event),
    {
        match event {
            IpcEvent::Init => vec![Effect::Send(IpcEvent::Init)],
            IpcEvent::Ready => match &self.ui_deeplink {
                Some(uri) => vec![Effect::Send(IpcEvent::OpenMedia(uri.clone()))],
                None => Vec::new(),
            },
            IpcEvent::Fullscreen(on) => vec![Effect::SetFullscreen(on), Effect::Send(IpcEvent::Fullscreen(on))],
            IpcEvent::MediaStatus(paused) => {
                let idling = if paused { Effect::EnableIdling } else { Effect::DisableIdling };
                vec![Effect::SetMediaStatus(paused), idling]
            },
            IpcEvent::MediaMetadata(m) => vec![Effect::SetMediaMetadata(m)],
            IpcEvent::Quit => vec![Effect::Quit],
            IpcEvent::Discord(d) => match d {
                DiscordEvent::Connect => vec![Effect::DiscordConnect],
                DiscordEvent::Disconnect => vec![Effect::DiscordDisconnect],
                DiscordEvent::SetActivity(a) => vec![Effect::DiscordSetActivity(a)],
                DiscordEvent::ClearActivity => vec![Effect::DiscordClearActivity],
                DiscordEvent::Status(_) => Vec::new(),
            },
            IpcEvent::Mpv(m) => match m {
                MpvEvent::Observe(name) => vec![Effect::ObserveMpvProperty(name)],
                MpvEvent::Command(c) => vec![Effect::SendMpvCommand(c)],
                MpvEvent::SetProperty(p) => vec![Effect::SetMpvProperty(p)],
                _ => Vec::new(),
            },
            _ => Vec::new(),
        }
    }

    /// Takes one event: updates the state and returns the effects to perform, in order.
    pub fn step(&mut self, event: ShellEvent) -> (effects: Vec<Effect>)
        ensures
            *final(self) == shell_next(*old(self), event),
            effects@ == shell_effects(*old(self), event),
    {
        match event {
            ShellEvent::Ipc(m) => self.handle_ipc(m),
            ShellEvent::DiscordConnected(ok) => vec![Effect::Send(IpcEvent::Discord(DiscordEvent::Status(ok)))],
            ShellEvent::PlaybackEnded(reason) => vec![
                Effect::EnableIdling,
                Effect::Send(IpcEvent::Mpv(MpvEvent::Ended(PlaybackEnd { reason, error: None }))),
            ],
            ShellEvent::MpvPropertyChanged(p) => vec![Effect::Send(IpcEvent::Mpv(MpvEvent::Change(p)))],
            ShellEvent::WebViewFullscreen(on) => vec![Effect::SetFullscreen(on)],
            ShellEvent::OpenExternal(data) => {
                if starts_with(data.as_str(), octet_stream_type_str()) {
                    vec![Effect::DownloadPlaylist(data)]
                } else {
                    vec![Effect::OpenUri(data)]
                }
            },
            ShellEvent::DownloadFinished(r) => match r {
                Ok(path) => vec![Effect::OpenFile(path)],
                Err(_) => Vec::new(),
            },
            ShellEvent::VisibilityChanged(v) => vec![Effect::Send(IpcEvent::Visibility(v)), Effect::UpdateTray(v)],
            ShellEvent::TrayShow => vec![Effect::SetWindowVisible(true)],
            ShellEvent::TrayHide => vec![Effect::SetWindowVisible(false)],
            ShellEvent::TrayQuit => vec![Effect::Quit],
            ShellEvent::MprisStatus(paused) => vec![Effect::Send(IpcEvent::MediaStatus(paused))],
            ShellEvent::MprisRaise => vec![Effect::ActivateWindow],
            ShellEvent::Open(first) => match first {
                Some(uri) => {
                    if is_deeplink_uri(uri.as_str()) {
                        self.deeplink = Some(uri.clone());
                        if self.webview_ready {
                            vec![Effect::Send(IpcEvent::OpenMedia(uri)), Effect::Activate]
                        } else {
                            vec![Effect::Activate]
                        }
                    } else {
                        vec![Effect::Activate]
                    }
                },
                None => vec![Effect::Activate],
            },
            ShellEvent::Activate(has_window) => {
                if has_window {
                    vec![Effect::PresentWindow]
                } else {
                    self.webview_ready = true;
                    self.ui_deeplink = match &self.deeplink {
                        Some(uri) => Some(uri.clone()),
                        None => None,
                    };
                    let settings = UiSettings {
                        startup_url: self.settings.startup_url.clone(),
                        dev_mode: self.settings.dev_mode,
                        decorations: self.settings.decorations,
                    };
                    vec![Effect::BuildUi(settings)]
                }
            },
            ShellEvent::Shutdown => vec![Effect::DestroyWindow],
            ShellEvent::MenuAction { action, has_window } => match action {
                AppAction::Quit => vec![Effect::Quit],
                AppAction::ShowPreferences => {
                    if has_window { vec![Effect::ShowPreferences] } else { Vec::new() }
                },
                AppAction::ShowAbout => {
                    if has_window { vec![Effect::ShowAbout] } else { Vec::new() }
                },
            },
        }
    }
}

} // verus!
