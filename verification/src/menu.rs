//! The console menu: what it shows, what it accepts, and what each choice
//! does to the settings.

use crate::config::{AppConfig, AppConfigView};
use crate::numbers::{decimal, decimal_text, parse_decimal, parse_number};
use crate::report::{masked, masked_str};
use crate::text::{owned, texts, trim, trimmed};
use vstd::prelude::*;
use vstd::string::StringExecFns;

verus! {

/// The lines of the menu.
pub open spec fn menu_text() -> Seq<Seq<char>> {
    seq![
        "1. Download content"@,
        "2. Enter access token"@,
        "3. Enter refresh token and client id"@,
        "4. Clear tokens and client id"@,
        "5. Change posts limit"@,
        "6. Show API client headers"@,
        "7. Show config"@,
        "8. Exit"@,
    ]
}

/// The lines of the menu, in the order in which they are shown.
pub fn show_menu() -> (lines: Vec<String>)
    ensures
        texts(lines@) == menu_text(),
{
    let mut lines: Vec<String> = Vec::new();
    lines.push(owned("1. Download content"));
    lines.push(owned("2. Enter access token"));
    lines.push(owned("3. Enter refresh token and client id"));
    lines.push(owned("4. Clear tokens and client id"));
    lines.push(owned("5. Change posts limit"));
    lines.push(owned("6. Show API client headers"));
    lines.push(owned("7. Show config"));
    lines.push(owned("8. Exit"));
    assert(texts(lines@) =~= menu_text());
    lines
}

/// The choice that a line of input stands for: the number it writes, white
/// space around it set aside, where that number is one of `1` to `8`.
pub open spec fn menu_choice(input: Seq<char>) -> Option<u8> {
    match parse_number(trim(input), 8) {
        Some(n) => if n >= 1 {
            Some(n as u8)
        } else {
            None
        },
        None => None,
    }
}

/// Reads a choice of the menu from a line of input; `None` where the line
/// is no number between 1 and 8.
pub fn read_input_menu(input: &str) -> (choice: Option<u8>)
    ensures
        choice == menu_choice(input@),
{
    match parse_decimal(trimmed(input).as_str(), 8) {
        Some(n) => if n >= 1 {
            Some(n as u8)
        } else {
            None
        },
        None => None,
    }
}

/// What the lines of the menu stand for.
#[derive(Clone, Copy, Debug, PartialEq, Eq, Structural)]
pub enum MenuChoice {
    Download,
    AccessToken,
    RefreshToken,
    ClearTokens,
    PostsLimit,
    ShowHeaders,
    ShowConfig,
    Exit,
}

/// The entry of the menu with the number `n`.
pub open spec fn menu_entry(n: u8) -> Option<MenuChoice> {
    if n == 1 {
        Some(MenuChoice::Download)
    } else if n == 2 {
        Some(MenuChoice::AccessToken)
    } else if n == 3 {
        Some(MenuChoice::RefreshToken)
    } else if n == 4 {
        Some(MenuChoice::ClearTokens)
    } else if n == 5 {
        Some(MenuChoice::PostsLimit)
    } else if n == 6 {
        Some(MenuChoice::ShowHeaders)
    } else if n == 7 {
        Some(MenuChoice::ShowConfig)
    } else if n == 8 {
        Some(MenuChoice::Exit)
    } else {
        None
    }
}

/// The entry of the menu that a line of input chooses; `None` where the
/// line is no number between 1 and 8.
pub fn read_menu_choice(input: &str) -> (choice: Option<MenuChoice>)
    ensures
        choice == match menu_choice(input@) {
            Some(n) => menu_entry(n),
            None => None,
        },
        choice is Some == menu_choice(input@) is Some,
{
    match read_input_menu(input) {
        Some(n) => {
            if n == 1 {
                Some(MenuChoice::Download)
            } else if n == 2 {
                Some(MenuChoice::AccessToken)
            } else if n == 3 {
                Some(MenuChoice::RefreshToken)
            } else if n == 4 {
                Some(MenuChoice::ClearTokens)
            } else if n == 5 {
                Some(MenuChoice::PostsLimit)
            } else if n == 6 {
                Some(MenuChoice::ShowHeaders)
            } else if n == 7 {
                Some(MenuChoice::ShowConfig)
            } else {
                Some(MenuChoice::Exit)
            }
        },
        None => None,
    }
}

/// What a line of input holds: the line without the white space around it;
/// `None` where nothing is left, so that the question is asked again.
pub fn read_user_input(input: &str) -> (r: Option<String>)
    ensures
        match r {
            Some(text) => text@ == trim(input@) && trim(input@).len() > 0,
            None => trim(input@).len() == 0,
        },
{
    let text = trimmed(input);
    if text.as_str().is_empty() {
        None
    } else {
        Some(text)
    }
}

/// The question for a new posts limit, naming the limit in force.
pub fn posts_limit_prompt(current: usize) -> (r: String)
    ensures
        r@ == "Enter posts limit: (current: "@ + decimal(current as nat) + "):"@,
{
    let mut r = owned("Enter posts limit: (current: ");
    r.append(decimal_text(current as u64).as_str());
    r.append("):");
    r
}

/// The posts limit that a line of input stands for, where it stands for one.
pub fn read_posts_limit(input: &str) -> (r: Option<usize>)
    ensures
        match r {
            Some(n) => parse_number(trim(input@), usize::MAX as nat) == Some(n as nat),
            None => parse_number(trim(input@), usize::MAX as nat) is None,
        },
{
    match parse_decimal(trimmed(input).as_str(), usize::MAX as u64) {
        Some(n) => Some(n as usize),
        None => None,
    }
}

/// The lines that show the settings, secrets masked.
pub open spec fn config_text(config: AppConfigView) -> Seq<Seq<char>> {
    seq![
        "Config:"@,
        "  Access token: "@ + masked(config.access_token),
        "  Refresh token: "@ + masked(config.refresh_token),
        "  Client id: "@ + config.device_id,
        "  Posts limit: "@ + decimal(config.posts_limit as nat),
    ]
}

/// Shows the settings.
pub fn show_config(config: &AppConfig) -> (lines: Vec<String>)
    ensures
        texts(lines@) == config_text(config@),
{
    let mut lines: Vec<String> = Vec::new();
    lines.push(owned("Config:"));
    let mut access = owned("  Access token: ");
    access.append(masked_str(config.access_token.as_str()).as_str());
    lines.push(access);
    let mut refresh = owned("  Refresh token: ");
    refresh.append(masked_str(config.refresh_token.as_str()).as_str());
    lines.push(refresh);
    let mut id = owned("  Client id: ");
    id.append(config.device_id.as_str());
    lines.push(id);
    let mut limit = owned("  Posts limit: ");
    limit.append(decimal_text(config.posts_limit as u64).as_str());
    lines.push(limit);
    assert(texts(lines@) =~= config_text(config@));
    lines
}

/// The lines that show the headers of the API client.
pub open spec fn headers_text(headers: Seq<(Seq<char>, Seq<char>)>) -> Seq<Seq<char>> {
    seq!["Current API client headers:"@] + headers.map_values(
        |h: (Seq<char>, Seq<char>)| "  "@ + h.0 + ": "@ + h.1,
    )
}

/// Shows the headers of the API client, in the order in which they are
/// given.
pub fn show_api_client_headers(headers: &Vec<(String, String)>) -> (lines: Vec<String>)
    ensures
        texts(lines@) == headers_text(headers@.map_values(|h: (String, String)| (h.0@, h.1@))),
{
    let mut lines: Vec<String> = Vec::new();
    lines.push(owned("Current API client headers:"));
    let mut i: usize = 0;
    while i < headers.len()
        invariant
            i <= headers.len(),
            lines@.len() == i + 1,
            lines@[0]@ == "Current API client headers:"@,
            forall|j: int|
                0 <= j < i ==> (#[trigger] lines@[j + 1])@ == "  "@ + headers@[j].0@ + ": "@
                    + headers@[j].1@,
        decreases headers.len() - i,
    {
        let mut line = owned("  ");
        line.append(headers[i].0.as_str());
        line.append(": ");
        line.append(headers[i].1.as_str());
        lines.push(line);
        i = i + 1;
    }
    proof {
        let want = headers_text(headers@.map_values(|h: (String, String)| (h.0@, h.1@)));
        assert(texts(lines@).len() == want.len());
        assert forall|k: int| 0 <= k < want.len() implies texts(lines@)[k] == want[k] by {
            if k > 0 {
                assert(lines@[(k - 1) + 1]@ == "  "@ + headers@[k - 1].0@ + ": "@ + headers@[k
                    - 1].1@);
            }
        }
        assert(texts(lines@) =~= want);
    }
    lines
}

/// The settings after an access token was entered: the token is kept, the
/// refresh token and the client id are forgotten.
pub open spec fn with_access_token(config: AppConfigView, token: Seq<char>) -> AppConfigView {
    AppConfigView {
        access_token: token,
        refresh_token: Seq::empty(),
        device_id: Seq::empty(),
        ..config
    }
}

/// The settings after a refresh token and a client id were entered: both are
/// kept, the access token is forgotten.
pub open spec fn with_refresh_token(
    config: AppConfigView,
    token: Seq<char>,
    device_id: Seq<char>,
) -> AppConfigView {
    AppConfigView {
        access_token: Seq::empty(),
        refresh_token: token,
        device_id: device_id,
        ..config
    }
}

/// The settings after the tokens and the client id were cleared.
pub open spec fn without_tokens(config: AppConfigView) -> AppConfigView {
    AppConfigView {
        access_token: Seq::empty(),
        refresh_token: Seq::empty(),
        device_id: Seq::empty(),
        ..config
    }
}

/// The settings with another posts limit.
pub open spec fn with_posts_limit(config: AppConfigView, limit: usize) -> AppConfigView {
    AppConfigView { posts_limit: limit, ..config }
}

impl AppConfig {
    /// Takes an access token into the settings.
    pub fn set_access_token(&mut self, token: String)
        ensures
            final(self)@ == with_access_token(old(self)@, token@),
    {
        self.access_token = token;
        self.refresh_token = String::new();
        self.device_id = String::new();
    }

    /// Takes a refresh token and a client id into the settings.
    pub fn set_refresh_token(&mut self, token: String, device_id: String)
        ensures
            final(self)@ == with_refresh_token(old(self)@, token@, device_id@),
    {
        self.access_token = String::new();
        self.refresh_token = token;
        self.device_id = device_id;
    }

    /// Clears the tokens and the client id.
    pub fn clear_tokens(&mut self)
        ensures
            final(self)@ == without_tokens(old(self)@),
    {
        self.access_token = String::new();
        self.refresh_token = String::new();
        self.device_id = String::new();
    }

    /// Changes the posts limit.
    pub fn set_posts_limit(&mut self, limit: usize)
        ensures
            final(self)@ == with_posts_limit(old(self)@, limit),
    {
        self.posts_limit = limit;
    }
}

} // verus!
