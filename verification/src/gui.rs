//! The window of the program as a state machine: what each message does to
//! the state, and which task it starts.

use crate::config::{
    config_of, default_config, empty_input, input_of, AppConfig, AppConfigView, ConfigInput,
    ConfigInputView,
};
use crate::text::owned;
use vstd::prelude::*;
use vstd::string::StringExecFns;

verus! {

/// The screens of the window.
#[derive(Clone, Copy, Debug, PartialEq, Eq, Structural)]
pub enum Screen {
    Main,
    Config,
}

impl Default for Screen {
    fn default() -> (screen: Self)
        ensures
            screen == Screen::Main,
    {
        Screen::Main
    }
}

/// What can happen to the window.
#[derive(Debug, PartialEq, Eq)]
pub enum Message {
    /// The client was set up and the settings were loaded, or not.
    ClientInitialized(Result<AppConfig, String>),
    SwitchToMain,
    SwitchToConfig,
    UrlInputChanged(String),
    DownloadPressed,
    ConfigPostsLimitChanged(String),
    ConfigAccessTokenChanged(String),
    ConfigRefreshTokenChanged(String),
    ConfigDeviceIdChanged(String),
    ConfigReplyLimitChanged(String),
    ConfigLimitChanged(String),
    ConfigOrderChanged(String),
    /// The settings were saved, or not.
    ConfigSaved(Result<(), String>),
}

/// The mathematical form of `Message`.
pub enum MessageView {
    ClientInitialized(Result<AppConfigView, Seq<char>>),
    SwitchToMain,
    SwitchToConfig,
    UrlInputChanged(Seq<char>),
    DownloadPressed,
    ConfigPostsLimitChanged(Seq<char>),
    ConfigAccessTokenChanged(Seq<char>),
    ConfigRefreshTokenChanged(Seq<char>),
    ConfigDeviceIdChanged(Seq<char>),
    ConfigReplyLimitChanged(Seq<char>),
    ConfigLimitChanged(Seq<char>),
    ConfigOrderChanged(Seq<char>),
    ConfigSaved(Result<(), Seq<char>>),
}

impl View for Message {
    type V = MessageView;

    open spec fn view(&self) -> MessageView {
        match *self {
            Message::ClientInitialized(result) => MessageView::ClientInitialized(
                match result {
                    Ok(config) => Ok(config@),
                    Err(e) => Err(e@),
                },
            ),
            Message::SwitchToMain => MessageView::SwitchToMain,
            Message::SwitchToConfig => MessageView::SwitchToConfig,
            Message::UrlInputChanged(v) => MessageView::UrlInputChanged(v@),
            Message::DownloadPressed => MessageView::DownloadPressed,
            Message::ConfigPostsLimitChanged(v) => MessageView::ConfigPostsLimitChanged(v@),
            Message::ConfigAccessTokenChanged(v) => MessageView::ConfigAccessTokenChanged(v@),
            Message::ConfigRefreshTokenChanged(v) => MessageView::ConfigRefreshTokenChanged(v@),
            Message::ConfigDeviceIdChanged(v) => MessageView::ConfigDeviceIdChanged(v@),
            Message::ConfigReplyLimitChanged(v) => MessageView::ConfigReplyLimitChanged(v@),
            Message::ConfigLimitChanged(v) => MessageView::ConfigLimitChanged(v@),
            Message::ConfigOrderChanged(v) => MessageView::ConfigOrderChanged(v@),
            Message::ConfigSaved(result) => MessageView::ConfigSaved(
                match result {
                    Ok(()) => Ok(()),
                    Err(e) => Err(e@),
                },
            ),
        }
    }
}

/// The state of the window.
#[derive(Debug, PartialEq, Eq)]
pub struct App {
    /// Whether the client is set up.
    pub client_ready: bool,
    /// The status line.
    pub status: String,
    pub current_screen: Screen,
    /// The address typed on the main screen.
    pub url_input: String,
    /// The settings in force.
    pub config: AppConfig,
    /// The settings as they stand on the settings screen.
    pub config_input: ConfigInput,
}

/// The mathematical form of `App`.
pub struct AppView {
    pub client_ready: bool,
    pub status: Seq<char>,
    pub current_screen: Screen,
    pub url_input: Seq<char>,
    pub config: AppConfigView,
    pub config_input: ConfigInputView,
}

impl View for App {
    type V = AppView;

    open spec fn view(&self) -> AppView {
        AppView {
            client_ready: self.client_ready,
            status: self.status@,
            current_screen: self.current_screen,
            url_input: self.url_input@,
            config: self.config@,
            config_input: self.config_input@,
        }
    }
}

/// What the window asks its surroundings to do.
#[derive(Debug, PartialEq, Eq)]
pub enum Task {
    /// Nothing.
    Idle,
    /// Print this line.
    Report { line: String },
    /// Apply these settings to the client and save them; answer with
    /// `Message::ConfigSaved`.
    SaveConfig { config: AppConfig },
    /// Archive what this address points to.
    Download { url: String },
}

/// The mathematical form of `Task`.
pub enum TaskView {
    Idle,
    Report { line: Seq<char> },
    SaveConfig { config: AppConfigView },
    Download { url: Seq<char> },
}

impl View for Task {
    type V = TaskView;

    open spec fn view(&self) -> TaskView {
        match *self {
            Task::Idle => TaskView::Idle,
            Task::Report { line } => TaskView::Report { line: line@ },
            Task::SaveConfig { config } => TaskView::SaveConfig { config: config@ },
            Task::Download { url } => TaskView::Download { url: url@ },
        }
    }
}

/// The window as it opens.
pub open spec fn initial_app() -> AppView {
    AppView {
        client_ready: false,
        status: "Initializing..."@,
        current_screen: Screen::Main,
        url_input: Seq::empty(),
        config: default_config(),
        config_input: empty_input(),
    }
}

/// The state after a field of the settings screen changed: the settings in
/// force follow the form as soon as the form can be read.
pub open spec fn after_edit(app: AppView, input: ConfigInputView) -> AppView {
    match config_of(input) {
        Ok(config) => AppView { config_input: input, config: config, ..app },
        Err(_) => AppView { config_input: input, ..app },
    }
}

/// The task after a field of the settings screen changed: a form that
/// cannot be read is reported; settings that can be read are saved once the
/// client is set up.
pub open spec fn task_after_edit(app: AppView, input: ConfigInputView) -> TaskView {
    match config_of(input) {
        Ok(config) => if app.client_ready {
            TaskView::SaveConfig { config: config }
        } else {
            TaskView::Idle
        },
        Err(e) => TaskView::Report { line: "Invalid config: "@ + e },
    }
}

/// The form after a message, where the message changes a field of it.
pub open spec fn edited_input(input: ConfigInputView, message: MessageView) -> Option<
    ConfigInputView,
> {
    match message {
        MessageView::ConfigPostsLimitChanged(v) => Some(
            ConfigInputView { posts_limit: v, ..input },
        ),
        MessageView::ConfigAccessTokenChanged(v) => Some(
            ConfigInputView { access_token: v, ..input },
        ),
        MessageView::ConfigRefreshTokenChanged(v) => Some(
            ConfigInputView { refresh_token: v, ..input },
        ),
        MessageView::ConfigDeviceIdChanged(v) => Some(ConfigInputView { device_id: v, ..input }),
        MessageView::ConfigReplyLimitChanged(v) => Some(
            ConfigInputView { reply_limit: v, ..input },
        ),
        MessageView::ConfigLimitChanged(v) => Some(ConfigInputView { limit: v, ..input }),
        MessageView::ConfigOrderChanged(v) => Some(ConfigInputView { order: v, ..input }),
        _ => None,
    }
}

/// The state of the window after a message.
pub open spec fn next_app(app: AppView, message: MessageView) -> AppView {
    match message {
        MessageView::ClientInitialized(Ok(config)) => AppView {
            client_ready: true,
            config: config,
            config_input: input_of(config),
            status: "Initialization successful"@,
            ..app
        },
        MessageView::ClientInitialized(Err(e)) => AppView { status: e, ..app },
        MessageView::SwitchToMain => AppView { current_screen: Screen::Main, ..app },
        MessageView::SwitchToConfig => AppView {
            current_screen: Screen::Config,
            config_input: input_of(app.config),
            ..app
        },
        MessageView::UrlInputChanged(v) => AppView { url_input: v, ..app },
        MessageView::DownloadPressed => AppView {
            status: "Downloading from URL: "@ + app.url_input,
            ..app
        },
        MessageView::ConfigSaved(Ok(())) => AppView { status: "Config saved"@, ..app },
        MessageView::ConfigSaved(Err(e)) => AppView {
            status: "Failed to save config: "@ + e,
            ..app
        },
        _ => match edited_input(app.config_input, message) {
            Some(input) => after_edit(app, input),
            None => app,
        },
    }
}

/// The task that a message starts: a change of the form saves the settings
/// or reports the form; the download button starts the download of the
/// address that stands on the main screen; nothing else starts a task.
pub open spec fn next_task(app: AppView, message: MessageView) -> TaskView {
    match message {
        MessageView::DownloadPressed => TaskView::Download { url: app.url_input },
        _ => match edited_input(app.config_input, message) {
            Some(input) => task_after_edit(app, input),
            None => TaskView::Idle,
        },
    }
}

impl App {
    /// The window as it opens. Its surroundings set up the client, load the
    /// settings and answer with `Message::ClientInitialized`.
    pub fn initialize() -> (app: Self)
        ensures
            app@ == initial_app(),
    {
        App {
            client_ready: false,
            status: owned("Initializing..."),
            current_screen: Screen::Main,
            url_input: String::new(),
            config: AppConfig::default(),
            config_input: ConfigInput::new(),
        }
    }

    /// Takes the form as it stands now for the settings, where it can be
    /// read.
    fn save_config_task(&mut self) -> (task: Task)
        ensures
            final(self)@ == after_edit(old(self)@, old(self)@.config_input),
            task@ == task_after_edit(old(self)@, old(self)@.config_input),
    {
        match self.config_input.to_config() {
            Ok(config) => {
                self.config = config.copy();
                if self.client_ready {
                    Task::SaveConfig { config }
                } else {
                    Task::Idle
                }
            },
            Err(e) => {
                let mut line = owned("Invalid config: ");
                line.append(e.as_str());
                Task::Report { line }
            },
        }
    }

    /// Takes a message: changes the state and says which task is to be
    /// started.
    pub fn update(&mut self, message: Message) -> (task: Task)
        ensures
            final(self)@ == next_app(old(self)@, message@),
            task@ == next_task(old(self)@, message@),
    {
        match message {
            Message::ClientInitialized(result) => {
                match result {
                    Ok(config) => {
                        self.client_ready = true;
                        self.config_input = ConfigInput::from_config(&config);
                        self.config = config;
                        self.status = owned("Initialization successful");
                    },
                    Err(e) => {
                        self.status = e;
                    },
                }
                Task::Idle
            },
            Message::SwitchToMain => {
                self.current_screen = Screen::Main;
                Task::Idle
            },
            Message::SwitchToConfig => {
                self.current_screen = Screen::Config;
                self.config_input = ConfigInput::from_config(&self.config);
                Task::Idle
            },
            Message::UrlInputChanged(value) => {
                self.url_input = value;
                Task::Idle
            },
            Message::DownloadPressed => {
                let mut status = owned("Downloading from URL: ");
                status.append(self.url_input.as_str());
                self.status = status;
                Task::Download { url: self.url_input.clone() }
            },
            Message::ConfigPostsLimitChanged(value) => {
                self.config_input.posts_limit = value;
                self.save_config_task()
            },
            Message::ConfigAccessTokenChanged(value) => {
                self.config_input.access_token = value;
                self.save_config_task()
            },
            Message::ConfigRefreshTokenChanged(value) => {
                self.config_input.refresh_token = value;
                self.save_config_task()
            },
            Message::ConfigDeviceIdChanged(value) => {
                self.config_input.device_id = value;
                self.save_config_task()
            },
            Message::ConfigReplyLimitChanged(value) => {
                self.config_input.reply_limit = value;
                self.save_config_task()
            },
            Message::ConfigLimitChanged(value) => {
                self.config_input.limit = value;
                self.save_config_task()
            },
            Message::ConfigOrderChanged(value) => {
                self.config_input.order = value;
                self.save_config_task()
            },
            Message::ConfigSaved(result) => {
                match result {
                    Ok(()) => {
                        self.status = owned("Config saved");
                    },
                    Err(e) => {
                        let mut status = owned("Failed to save config: ");
                        status.append(e.as_str());
                        self.status = status;
                    },
                }
                Task::Idle
            },
        }
    }
}

} // verus!
