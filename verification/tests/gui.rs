use boosty_downloader::config::{AppConfig, ConfigInput};
use boosty_downloader::gui::{App, Message, Screen, Task};

fn ready() -> App {
    let mut app = App::initialize();
    assert_eq!(app.update(Message::ClientInitialized(Ok(AppConfig::default()))), Task::Idle);
    app
}

#[test]
fn window_opens_on_the_main_screen() {
    let app = App::initialize();
    assert_eq!(app.status, "Initializing...");
    assert_eq!(app.current_screen, Screen::Main);
    assert_eq!(Screen::default(), Screen::Main);
    assert!(!app.client_ready);
    assert_eq!(app.url_input, "");
    assert_eq!(app.config, AppConfig::default());
    assert_eq!(app.config_input, ConfigInput::new());
}

#[test]
fn initialization_fills_in_the_form() {
    let app = ready();
    assert!(app.client_ready);
    assert_eq!(app.status, "Initialization successful");
    assert_eq!(app.config_input, ConfigInput::from_config(&AppConfig::default()));
}

#[test]
fn failed_initialization_is_shown() {
    let mut app = App::initialize();
    let task = app.update(Message::ClientInitialized(Err("Failed to load config: x".to_string())));
    assert_eq!(task, Task::Idle);
    assert_eq!(app.status, "Failed to load config: x");
    assert!(!app.client_ready);
}

#[test]
fn screens_are_switched() {
    let mut app = ready();
    app.config_input.order = "edited".to_string();
    assert_eq!(app.update(Message::SwitchToConfig), Task::Idle);
    assert_eq!(app.current_screen, Screen::Config);
    assert_eq!(app.config_input.order, "bottom");
    assert_eq!(app.update(Message::SwitchToMain), Task::Idle);
    assert_eq!(app.current_screen, Screen::Main);
}

#[test]
fn address_is_typed_and_download_is_started() {
    let mut app = ready();
    assert_eq!(app.update(Message::UrlInputChanged("https://boosty.to/b".to_string())), Task::Idle);
    assert_eq!(app.url_input, "https://boosty.to/b");
    assert_eq!(
        app.update(Message::DownloadPressed),
        Task::Download { url: "https://boosty.to/b".to_string() }
    );
    assert_eq!(app.status, "Downloading from URL: https://boosty.to/b");
    assert_eq!(app.url_input, "https://boosty.to/b");
}

#[test]
fn readable_form_is_saved() {
    let mut app = ready();
    let task = app.update(Message::ConfigPostsLimitChanged("7".to_string()));
    let mut expected = AppConfig::default();
    expected.posts_limit = 7;
    assert_eq!(app.config, expected);
    assert_eq!(task, Task::SaveConfig { config: expected });
    let task = app.update(Message::ConfigOrderChanged(String::new()));
    match task {
        Task::SaveConfig { config } => assert_eq!(config.comments.order, None),
        other => panic!("unexpected {other:?}"),
    }
    for (message, check) in [
        (Message::ConfigAccessTokenChanged("a".to_string()), "a"),
        (Message::ConfigRefreshTokenChanged("r".to_string()), "r"),
        (Message::ConfigDeviceIdChanged("d".to_string()), "d"),
    ] {
        match app.update(message) {
            Task::SaveConfig { config } => {
                assert!([&config.access_token, &config.refresh_token, &config.device_id]
                    .iter()
                    .any(|v| v.as_str() == check))
            }
            other => panic!("unexpected {other:?}"),
        }
    }
    assert_eq!(app.config.access_token, "a");
    assert_eq!(app.config.refresh_token, "r");
    assert_eq!(app.config.device_id, "d");
}

#[test]
fn unreadable_form_is_reported_and_settings_stay() {
    let mut app = ready();
    let task = app.update(Message::ConfigReplyLimitChanged("0".to_string()));
    assert_eq!(task, Task::Report { line: "Invalid config: Invalid reply limit".to_string() });
    assert_eq!(app.config, AppConfig::default());
    assert_eq!(app.config_input.reply_limit, "0");
    let task = app.update(Message::ConfigLimitChanged("x".to_string()));
    assert_eq!(task, Task::Report { line: "Invalid config: Invalid reply limit".to_string() });
    let task = app.update(Message::ConfigReplyLimitChanged("2".to_string()));
    assert_eq!(task, Task::Report { line: "Invalid config: Invalid limit".to_string() });
}

#[test]
fn nothing_is_saved_before_the_client_is_ready() {
    let mut app = App::initialize();
    app.update(Message::SwitchToConfig);
    let task = app.update(Message::ConfigPostsLimitChanged("5".to_string()));
    assert_eq!(task, Task::Idle);
    assert_eq!(app.config.posts_limit, 5);
}

#[test]
fn saving_is_answered_in_the_status_line() {
    let mut app = ready();
    assert_eq!(app.update(Message::ConfigSaved(Ok(()))), Task::Idle);
    assert_eq!(app.status, "Config saved");
    assert_eq!(app.update(Message::ConfigSaved(Err("disk full".to_string()))), Task::Idle);
    assert_eq!(app.status, "Failed to save config: disk full");
}
