use stremio_shell::{
    is_deeplink_uri, playlist_file_name, Activity, AppAction, DiscordEvent, Effect, IpcEvent,
    MediaMetadata, MpvCommand, MpvEvent, MpvProperty, Shell, ShellEvent, UiSettings,
};

fn settings() -> UiSettings {
    UiSettings { startup_url: "https://web.stremio.com/".to_string(), dev_mode: false, decorations: true }
}

fn new_shell() -> Shell {
    Shell::new(settings())
}

fn is_open_media(e: &Effect, uri: &str) -> bool {
    matches!(e, Effect::Send(IpcEvent::OpenMedia(u)) if u == uri)
}

#[test]
fn new_shell_is_empty() {
    let s = new_shell();
    assert!(s.deeplink.is_none());
    assert!(!s.webview_ready);
    assert!(s.ui_deeplink.is_none());
}

#[test]
fn deeplink_detection() {
    assert!(is_deeplink_uri("stremio://detail/movie/tt1"));
    assert!(!is_deeplink_uri("https://www.stremio.com"));
    assert!(!is_deeplink_uri("stremio:/x"));
    assert_eq!(playlist_file_name(), "playlist.m3u8");
}

#[test]
fn init_is_answered_with_init() {
    let mut s = new_shell();
    let e = s.step(ShellEvent::Ipc(IpcEvent::Init));
    assert_eq!(e.len(), 1);
    assert!(matches!(e[0], Effect::Send(IpcEvent::Init)));
}

#[test]
fn ready_without_deeplink_does_nothing() {
    let s = new_shell();
    assert!(s.handle_ipc(IpcEvent::Ready).is_empty());
}

#[test]
fn deeplink_opened_before_ui_is_offered_on_ready() {
    let mut s = new_shell();
    let e = s.step(ShellEvent::Open(Some("stremio://detail/series/tt2".to_string())));
    assert_eq!(e.len(), 1);
    assert!(matches!(e[0], Effect::Activate));
    assert_eq!(s.deeplink.as_deref(), Some("stremio://detail/series/tt2"));

    let e = s.step(ShellEvent::Activate(false));
    assert!(matches!(&e[..], [Effect::BuildUi(u)]
        if u.startup_url == "https://web.stremio.com/" && !u.dev_mode && u.decorations));
    assert!(s.webview_ready);

    // Unrelated events in between do not lose the deep link.
    s.step(ShellEvent::Ipc(IpcEvent::Init));
    s.step(ShellEvent::VisibilityChanged(true));
    s.step(ShellEvent::Open(Some("https://example.com".to_string())));

    let e = s.step(ShellEvent::Ipc(IpcEvent::Ready));
    assert_eq!(e.len(), 1);
    assert!(is_open_media(&e[0], "stremio://detail/series/tt2"));
    // It is offered again on every Ready.
    let e = s.step(ShellEvent::Ipc(IpcEvent::Ready));
    assert!(is_open_media(&e[0], "stremio://detail/series/tt2"));
}

#[test]
fn ready_answers_with_the_deeplink_copied_at_build() {
    let mut s = new_shell();
    s.step(ShellEvent::Activate(false));
    assert!(s.ui_deeplink.is_none());
    // Opened after the web view was built: sent at once, but not kept for Ready.
    let e = s.step(ShellEvent::Open(Some("stremio://detail/movie/tt3".to_string())));
    assert!(is_open_media(&e[0], "stremio://detail/movie/tt3"));
    assert_eq!(s.deeplink.as_deref(), Some("stremio://detail/movie/tt3"));
    assert!(s.step(ShellEvent::Ipc(IpcEvent::Ready)).is_empty());
    // Building the web view again takes a fresh copy.
    s.step(ShellEvent::Activate(false));
    let e = s.step(ShellEvent::Ipc(IpcEvent::Ready));
    assert_eq!(e.len(), 1);
    assert!(is_open_media(&e[0], "stremio://detail/movie/tt3"));
}

#[test]
fn deeplink_sent_at_once_to_a_ready_ui() {
    let mut s = Shell { deeplink: None, webview_ready: true, ui_deeplink: None, settings: settings() };
    let e = s.step(ShellEvent::Open(Some("stremio://search?q=x".to_string())));
    assert_eq!(e.len(), 2);
    assert!(is_open_media(&e[0], "stremio://search?q=x"));
    assert!(matches!(e[1], Effect::Activate));
}

#[test]
fn foreign_uri_or_no_file_only_activates() {
    let mut s = Shell {
        deeplink: Some("stremio://a".to_string()),
        webview_ready: true,
        ui_deeplink: Some("stremio://a".to_string()),
        settings: settings(),
    };
    let e = s.step(ShellEvent::Open(Some("file:///tmp/x.torrent".to_string())));
    assert!(matches!(e[..], [Effect::Activate]));
    assert_eq!(s.deeplink.as_deref(), Some("stremio://a"));
    let e = s.step(ShellEvent::Open(None));
    assert!(matches!(e[..], [Effect::Activate]));
}

#[test]
fn ui_is_built_with_the_settings() {
    let mut s = Shell::new(UiSettings {
        startup_url: "http://127.0.0.1:11470/".to_string(),
        dev_mode: true,
        decorations: false,
    });
    s.step(ShellEvent::Open(Some("stremio://x".to_string())));
    let e = s.step(ShellEvent::Activate(false));
    assert!(matches!(&e[..], [Effect::BuildUi(u)]
        if u.startup_url == "http://127.0.0.1:11470/" && u.dev_mode && !u.decorations));
    assert_eq!(s.settings.startup_url, "http://127.0.0.1:11470/");
}

#[test]
fn activate_with_a_window_presents_it() {
    let mut s = new_shell();
    let e = s.step(ShellEvent::Activate(true));
    assert!(matches!(e[..], [Effect::PresentWindow]));
    assert!(!s.webview_ready);
}

#[test]
fn fullscreen_is_applied_and_echoed() {
    let s = new_shell();
    for on in [true, false] {
        let e = s.handle_ipc(IpcEvent::Fullscreen(on));
        assert_eq!(e.len(), 2);
        assert!(matches!(e[0], Effect::SetFullscreen(x) if x == on));
        assert!(matches!(e[1], Effect::Send(IpcEvent::Fullscreen(x)) if x == on));
    }
    let mut s = new_shell();
    let e = s.step(ShellEvent::WebViewFullscreen(true));
    assert!(matches!(e[..], [Effect::SetFullscreen(true)]));
}

#[test]
fn idling_follows_pause_state() {
    let s = new_shell();
    let e = s.handle_ipc(IpcEvent::MediaStatus(true));
    assert!(matches!(e[..], [Effect::SetMediaStatus(true), Effect::EnableIdling]));
    let e = s.handle_ipc(IpcEvent::MediaStatus(false));
    assert!(matches!(e[..], [Effect::SetMediaStatus(false), Effect::DisableIdling]));
}

#[test]
fn metadata_and_quit() {
    let s = new_shell();
    let e = s.handle_ipc(IpcEvent::MediaMetadata(MediaMetadata {
        title: "T".to_string(),
        artist: "A".to_string(),
        artwork: None,
    }));
    assert!(matches!(&e[..], [Effect::SetMediaMetadata(m)] if m.title == "T" && m.artist == "A" && m.artwork.is_none()));
    let e = s.handle_ipc(IpcEvent::Quit);
    assert!(matches!(e[..], [Effect::Quit]));
}

#[test]
fn discord_requests() {
    let mut s = new_shell();
    let e = s.step(ShellEvent::Ipc(IpcEvent::Discord(DiscordEvent::Connect)));
    assert!(matches!(e[..], [Effect::DiscordConnect]));
    let e = s.step(ShellEvent::DiscordConnected(false));
    assert!(matches!(e[..], [Effect::Send(IpcEvent::Discord(DiscordEvent::Status(false)))]));
    let e = s.step(ShellEvent::DiscordConnected(true));
    assert!(matches!(e[..], [Effect::Send(IpcEvent::Discord(DiscordEvent::Status(true)))]));
    assert!(matches!(s.handle_ipc(IpcEvent::Discord(DiscordEvent::Disconnect))[..], [Effect::DiscordDisconnect]));
    assert!(matches!(s.handle_ipc(IpcEvent::Discord(DiscordEvent::ClearActivity))[..], [Effect::DiscordClearActivity]));
    let e = s.handle_ipc(IpcEvent::Discord(DiscordEvent::SetActivity(Activity {
        details: "d".to_string(),
        state: "s".to_string(),
        image: Some("i".to_string()),
    })));
    assert!(matches!(&e[..], [Effect::DiscordSetActivity(a)] if a.details == "d" && a.state == "s" && a.image.as_deref() == Some("i")));
    assert!(s.handle_ipc(IpcEvent::Discord(DiscordEvent::Status(true))).is_empty());
}

#[test]
fn mpv_requests() {
    let s = new_shell();
    let e = s.handle_ipc(IpcEvent::Mpv(MpvEvent::Observe("pause".to_string())));
    assert!(matches!(&e[..], [Effect::ObserveMpvProperty(n)] if n == "pause"));
    let e = s.handle_ipc(IpcEvent::Mpv(MpvEvent::Command(MpvCommand {
        name: "loadfile".to_string(),
        args: vec!["http://x/v.mkv".to_string()],
    })));
    assert!(matches!(&e[..], [Effect::SendMpvCommand(c)] if c.name == "loadfile" && c.args == vec!["http://x/v.mkv".to_string()]));
    let e = s.handle_ipc(IpcEvent::Mpv(MpvEvent::SetProperty(MpvProperty {
        name: "volume".to_string(),
        value: "50".to_string(),
    })));
    assert!(matches!(&e[..], [Effect::SetMpvProperty(p)] if p.name == "volume" && p.value == "50"));
    let e = s.handle_ipc(IpcEvent::Mpv(MpvEvent::Change(MpvProperty {
        name: "volume".to_string(),
        value: "50".to_string(),
    })));
    assert!(e.is_empty());
}

#[test]
fn responses_sent_by_the_ui_are_ignored() {
    let s = new_shell();
    assert!(s.handle_ipc(IpcEvent::OpenMedia("stremio://x".to_string())).is_empty());
    assert!(s.handle_ipc(IpcEvent::Visibility(true)).is_empty());
}

#[test]
fn player_reports_go_to_the_ui() {
    let mut s = new_shell();
    let e = s.step(ShellEvent::PlaybackEnded("eof".to_string()));
    assert_eq!(e.len(), 2);
    assert!(matches!(e[0], Effect::EnableIdling));
    assert!(matches!(&e[1], Effect::Send(IpcEvent::Mpv(MpvEvent::Ended(end))) if end.reason == "eof" && end.error.is_none()));
    let e = s.step(ShellEvent::MpvPropertyChanged(MpvProperty {
        name: "time-pos".to_string(),
        value: "12.5".to_string(),
    }));
    assert!(matches!(&e[..], [Effect::Send(IpcEvent::Mpv(MpvEvent::Change(p)))] if p.name == "time-pos" && p.value == "12.5"));
}

#[test]
fn open_external_downloads_octet_streams() {
    let mut s = new_shell();
    let data = "application/octet-stream;charset=utf-8;base64,I0VYVE0zVQo=".to_string();
    let e = s.step(ShellEvent::OpenExternal(data.clone()));
    assert!(matches!(&e[..], [Effect::DownloadPlaylist(d)] if *d == data));
    let e = s.step(ShellEvent::OpenExternal("https://www.stremio.com".to_string()));
    assert!(matches!(&e[..], [Effect::OpenUri(u)] if u == "https://www.stremio.com"));
    let e = s.step(ShellEvent::DownloadFinished(Ok("/home/u/Downloads/Stremio/playlist.m3u8".to_string())));
    assert!(matches!(&e[..], [Effect::OpenFile(p)] if p == "/home/u/Downloads/Stremio/playlist.m3u8"));
    assert!(s.step(ShellEvent::DownloadFinished(Err("no dir".to_string()))).is_empty());
}

#[test]
fn window_tray_and_media_controls() {
    let mut s = new_shell();
    let e = s.step(ShellEvent::VisibilityChanged(false));
    assert!(matches!(e[..], [Effect::Send(IpcEvent::Visibility(false)), Effect::UpdateTray(false)]));
    assert!(matches!(s.step(ShellEvent::TrayShow)[..], [Effect::SetWindowVisible(true)]));
    assert!(matches!(s.step(ShellEvent::TrayHide)[..], [Effect::SetWindowVisible(false)]));
    assert!(matches!(s.step(ShellEvent::TrayQuit)[..], [Effect::Quit]));
    assert!(matches!(s.step(ShellEvent::MprisStatus(true))[..], [Effect::Send(IpcEvent::MediaStatus(true))]));
    assert!(matches!(s.step(ShellEvent::MprisRaise)[..], [Effect::ActivateWindow]));
    assert!(matches!(s.step(ShellEvent::Shutdown)[..], [Effect::DestroyWindow]));
}

#[test]
fn menu_actions() {
    let mut s = new_shell();
    assert_eq!(AppAction::Quit.name(), "quit");
    assert_eq!(AppAction::ShowPreferences.name(), "show-preferences");
    assert_eq!(AppAction::ShowAbout.name(), "show-about");
    let e = s.step(ShellEvent::MenuAction { action: AppAction::Quit, has_window: false });
    assert!(matches!(e[..], [Effect::Quit]));
    let e = s.step(ShellEvent::MenuAction { action: AppAction::ShowPreferences, has_window: true });
    assert!(matches!(e[..], [Effect::ShowPreferences]));
    assert!(s.step(ShellEvent::MenuAction { action: AppAction::ShowPreferences, has_window: false }).is_empty());
    let e = s.step(ShellEvent::MenuAction { action: AppAction::ShowAbout, has_window: true });
    assert!(matches!(e[..], [Effect::ShowAbout]));
    assert!(s.step(ShellEvent::MenuAction { action: AppAction::ShowAbout, has_window: false }).is_empty());
}
