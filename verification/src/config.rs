//! The settings of the program, and the form in which a person edits them.

use crate::numbers::{
    decimal, decimal_text, lemma_decimal_is_read_back, parse_decimal, parse_number,
};
use crate::text::{opt_text, owned};
use vstd::prelude::*;

verus! {

/// How comments are fetched.
#[derive(Debug, PartialEq, Eq)]
pub struct CommentsConfig {
    /// How many replies are fetched for each comment.
    pub reply_limit: Option<u32>,
    /// How many comments are fetched at once.
    pub limit: Option<u32>,
    /// The order of the comments: `top` or `bottom`.
    pub order: Option<String>,
}

/// The settings of the program.
#[derive(Debug, PartialEq, Eq)]
pub struct AppConfig {
    pub posts_limit: usize,
    pub access_token: String,
    pub refresh_token: String,
    pub device_id: String,
    pub comments: CommentsConfig,
}

/// The mathematical form of `CommentsConfig`.
pub struct CommentsConfigView {
    pub reply_limit: Option<u32>,
    pub limit: Option<u32>,
    pub order: Option<Seq<char>>,
}

/// The mathematical form of `AppConfig`.
pub struct AppConfigView {
    pub posts_limit: usize,
    pub access_token: Seq<char>,
    pub refresh_token: Seq<char>,
    pub device_id: Seq<char>,
    pub comments: CommentsConfigView,
}

impl View for CommentsConfig {
    type V = CommentsConfigView;

    open spec fn view(&self) -> CommentsConfigView {
        CommentsConfigView {
            reply_limit: self.reply_limit,
            limit: self.limit,
            order: opt_text(self.order),
        }
    }
}

impl View for AppConfig {
    type V = AppConfigView;

    open spec fn view(&self) -> AppConfigView {
        AppConfigView {
            posts_limit: self.posts_limit,
            access_token: self.access_token@,
            refresh_token: self.refresh_token@,
            device_id: self.device_id@,
            comments: self.comments@,
        }
    }
}

/// The settings of a fresh installation.
pub open spec fn default_config() -> AppConfigView {
    AppConfigView {
        posts_limit: 100,
        access_token: Seq::empty(),
        refresh_token: Seq::empty(),
        device_id: Seq::empty(),
        comments: CommentsConfigView {
            reply_limit: Some(10u32),
            limit: Some(300u32),
            order: Some("bottom"@),
        },
    }
}

impl Default for AppConfig {
    fn default() -> (config: Self)
        ensures
            config@ == default_config(),
    {
        AppConfig {
            posts_limit: 100,
            access_token: String::new(),
            refresh_token: String::new(),
            device_id: String::new(),
            comments: CommentsConfig {
                reply_limit: Some(10),
                limit: Some(300),
                order: Some(owned("bottom")),
            },
        }
    }
}

/// The settings as a person types them: every field is text.
#[derive(Debug, PartialEq, Eq)]
pub struct ConfigInput {
    pub posts_limit: String,
    pub access_token: String,
    pub refresh_token: String,
    pub device_id: String,
    pub reply_limit: String,
    pub limit: String,
    pub order: String,
}

/// The mathematical form of `ConfigInput`.
pub struct ConfigInputView {
    pub posts_limit: Seq<char>,
    pub access_token: Seq<char>,
    pub refresh_token: Seq<char>,
    pub device_id: Seq<char>,
    pub reply_limit: Seq<char>,
    pub limit: Seq<char>,
    pub order: Seq<char>,
}

impl View for ConfigInput {
    type V = ConfigInputView;

    open spec fn view(&self) -> ConfigInputView {
        ConfigInputView {
            posts_limit: self.posts_limit@,
            access_token: self.access_token@,
            refresh_token: self.refresh_token@,
            device_id: self.device_id@,
            reply_limit: self.reply_limit@,
            limit: self.limit@,
            order: self.order@,
        }
    }
}

/// The form with nothing filled in.
pub open spec fn empty_input() -> ConfigInputView {
    ConfigInputView {
        posts_limit: Seq::empty(),
        access_token: Seq::empty(),
        refresh_token: Seq::empty(),
        device_id: Seq::empty(),
        reply_limit: Seq::empty(),
        limit: Seq::empty(),
        order: Seq::empty(),
    }
}

/// A limit as it is shown: its decimal notation, or nothing where no limit
/// is set.
pub open spec fn limit_text(limit: Option<u32>) -> Seq<char> {
    match limit {
        Some(n) => decimal(n as nat),
        None => Seq::empty(),
    }
}

/// The form filled in with the settings `config`.
pub open spec fn input_of(config: AppConfigView) -> ConfigInputView {
    ConfigInputView {
        posts_limit: decimal(config.posts_limit as nat),
        access_token: config.access_token,
        refresh_token: config.refresh_token,
        device_id: config.device_id,
        reply_limit: limit_text(config.comments.reply_limit),
        limit: limit_text(config.comments.limit),
        order: match config.comments.order {
            Some(order) => order,
            None => Seq::empty(),
        },
    }
}

/// A limit as it is read: a number between `1` and the largest `u32`.
pub open spec fn limit_of(text: Seq<char>) -> Option<u32> {
    match parse_number(text, u32::MAX as nat) {
        Some(n) => if n > 0 {
            Some(n as u32)
        } else {
            None
        },
        None => None,
    }
}

/// The settings that a form stands for, or the words for the first field
/// that cannot be read: the posts limit must be a number that a `usize`
/// holds, the two comment limits numbers above `0` that a `u32` holds. An
/// empty order stands for no order.
pub open spec fn config_of(input: ConfigInputView) -> Result<AppConfigView, Seq<char>> {
    match parse_number(input.posts_limit, usize::MAX as nat) {
        None => Err("Invalid posts limit"@),
        Some(posts_limit) => match limit_of(input.reply_limit) {
            None => Err("Invalid reply limit"@),
            Some(reply_limit) => match limit_of(input.limit) {
                None => Err("Invalid limit"@),
                Some(limit) => Ok(
                    AppConfigView {
                        posts_limit: posts_limit as usize,
                        access_token: input.access_token,
                        refresh_token: input.refresh_token,
                        device_id: input.device_id,
                        comments: CommentsConfigView {
                            reply_limit: Some(reply_limit),
                            limit: Some(limit),
                            order: if input.order.len() == 0 {
                                None
                            } else {
                                Some(input.order)
                            },
                        },
                    },
                ),
            },
        },
    }
}

/// Settings that a form can stand for: both comment limits are set and
/// above `0`, and the order, where one is set, is not empty.
pub open spec fn is_form_config(config: AppConfigView) -> bool {
    &&& config.comments.reply_limit matches Some(n) && n > 0
    &&& config.comments.limit matches Some(n) && n > 0
    &&& config.comments.order matches Some(order) ==> order.len() > 0
}

/// The form filled in with settings stands for those settings.
pub proof fn lemma_form_round_trip(config: AppConfigView)
    requires
        is_form_config(config),
    ensures
        config_of(input_of(config)) == Ok::<AppConfigView, Seq<char>>(config),
{
    lemma_decimal_is_read_back(config.posts_limit as nat, usize::MAX as nat);
    lemma_decimal_is_read_back(config.comments.reply_limit->0 as nat, u32::MAX as nat);
    lemma_decimal_is_read_back(config.comments.limit->0 as nat, u32::MAX as nat);
}

/// What a form stands for is in turn a form's settings.
pub proof fn lemma_read_config_is_form_config(input: ConfigInputView)
    requires
        config_of(input) is Ok,
    ensures
        is_form_config(config_of(input)->Ok_0),
{
}

/// The mathematical form of what reading a form gives.
pub open spec fn config_result_view(r: Result<AppConfig, String>) -> Result<
    AppConfigView,
    Seq<char>,
> {
    match r {
        Ok(config) => Ok(config@),
        Err(message) => Err(message@),
    }
}

fn limit_to_text(limit: Option<u32>) -> (r: String)
    ensures
        r@ == limit_text(limit),
{
    match limit {
        Some(n) => decimal_text(n as u64),
        None => String::new(),
    }
}

fn read_limit(text: &str) -> (r: Option<u32>)
    ensures
        r == limit_of(text@),
{
    match parse_decimal(text, 0xffff_ffff) {
        Some(n) => if n > 0 {
            Some(n as u32)
        } else {
            None
        },
        None => None,
    }
}

impl CommentsConfig {
    /// A copy of these settings.
    pub fn copy(&self) -> (r: Self)
        ensures
            r@ == self@,
    {
        CommentsConfig {
            reply_limit: self.reply_limit,
            limit: self.limit,
            order: match &self.order {
                Some(order) => Some(order.clone()),
                None => None,
            },
        }
    }
}

impl AppConfig {
    /// A copy of these settings.
    pub fn copy(&self) -> (r: Self)
        ensures
            r@ == self@,
    {
        AppConfig {
            posts_limit: self.posts_limit,
            access_token: self.access_token.clone(),
            refresh_token: self.refresh_token.clone(),
            device_id: self.device_id.clone(),
            comments: self.comments.copy(),
        }
    }
}

impl ConfigInput {
    /// The empty form.
    pub fn new() -> (input: Self)
        ensures
            input@ == empty_input(),
    {
        ConfigInput {
            posts_limit: String::new(),
            access_token: String::new(),
            refresh_token: String::new(),
            device_id: String::new(),
            reply_limit: String::new(),
            limit: String::new(),
            order: String::new(),
        }
    }

    /// Fills in the form with the settings `config`.
    pub fn from_config(config: &AppConfig) -> (input: Self)
        ensures
            input@ == input_of(config@),
    {
        ConfigInput {
            posts_limit: decimal_text(config.posts_limit as u64),
            access_token: config.access_token.clone(),
            refresh_token: config.refresh_token.clone(),
            device_id: config.device_id.clone(),
            reply_limit: limit_to_text(config.comments.reply_limit),
            limit: limit_to_text(config.comments.limit),
            order: match &config.comments.order {
                Some(order) => order.clone(),
                None => String::new(),
            },
        }
    }

    /// Reads the settings that the form stands for.
    pub fn to_config(&self) -> (r: Result<AppConfig, String>)
        ensures
            config_result_view(r) == config_of(self@),
    {
        let posts_limit = match parse_decimal(self.posts_limit.as_str(), usize::MAX as u64) {
            Some(n) => n as usize,
            None => {
                return Err(owned("Invalid posts limit"));
            },
        };
        let reply_limit = match read_limit(self.reply_limit.as_str()) {
            Some(n) => n,
            None => {
                return Err(owned("Invalid reply limit"));
            },
        };
        let limit = match read_limit(self.limit.as_str()) {
            Some(n) => n,
            None => {
                return Err(owned("Invalid limit"));
            },
        };
        let order = if self.order.as_str().is_empty() {
            None
        } else {
            Some(self.order.clone())
        };
        Ok(
            AppConfig {
                posts_limit,
                access_token: self.access_token.clone(),
                refresh_token: self.refresh_token.clone(),
                device_id: self.device_id.clone(),
                comments: CommentsConfig {
                    reply_limit: Some(reply_limit),
                    limit: Some(limit),
                    order,
                },
            },
        )
    }
}

/// What is to be set on the API client for given settings.
#[derive(Debug, PartialEq, Eq)]
pub struct AuthPlan {
    /// The access token to set; `None`: clear the access token.
    pub bearer: Option<String>,
    /// The refresh token and the client id to set; `None`: leave them.
    pub refresh: Option<(String, String)>,
}

/// The mathematical form of `AuthPlan`.
pub struct AuthPlanView {
    pub bearer: Option<Seq<char>>,
    pub refresh: Option<(Seq<char>, Seq<char>)>,
}

impl View for AuthPlan {
    type V = AuthPlanView;

    open spec fn view(&self) -> AuthPlanView {
        AuthPlanView {
            bearer: opt_text(self.bearer),
            refresh: match self.refresh {
                Some((token, device_id)) => Some((token@, device_id@)),
                None => None,
            },
        }
    }
}

/// An access token that is not empty is set, an empty one is cleared. A
/// refresh token is set together with the client id where neither is empty.
pub open spec fn auth_plan(config: AppConfigView) -> AuthPlanView {
    AuthPlanView {
        bearer: if config.access_token.len() > 0 {
            Some(config.access_token)
        } else {
            None
        },
        refresh: if config.refresh_token.len() > 0 && config.device_id.len() > 0 {
            Some((config.refresh_token, config.device_id))
        } else {
            None
        },
    }
}

/// Decides what is to be set on the API client for the settings `config`.
pub fn sync_auth(config: &AppConfig) -> (plan: AuthPlan)
    ensures
        plan@ == auth_plan(config@),
{
    let bearer = if !config.access_token.as_str().is_empty() {
        Some(config.access_token.clone())
    } else {
        None
    };
    let refresh = if !config.refresh_token.as_str().is_empty()
        && !config.device_id.as_str().is_empty() {
        Some((config.refresh_token.clone(), config.device_id.clone()))
    } else {
        None
    };
    AuthPlan { bearer, refresh }
}

} // verus!
