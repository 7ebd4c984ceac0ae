use boosty_downloader::config::{AppConfig, CommentsConfig, ConfigInput};

fn input(posts_limit: &str, reply_limit: &str, limit: &str, order: &str) -> ConfigInput {
    ConfigInput {
        posts_limit: posts_limit.to_string(),
        access_token: "at".to_string(),
        refresh_token: "rt".to_string(),
        device_id: "id".to_string(),
        reply_limit: reply_limit.to_string(),
        limit: limit.to_string(),
        order: order.to_string(),
    }
}

#[test]
fn default_config() {
    assert_eq!(
        AppConfig::default(),
        AppConfig {
            posts_limit: 100,
            access_token: String::new(),
            refresh_token: String::new(),
            device_id: String::new(),
            comments: CommentsConfig {
                reply_limit: Some(10),
                limit: Some(300),
                order: Some("bottom".to_string()),
            },
        }
    );
}

#[test]
fn form_of_the_default_config() {
    assert_eq!(
        ConfigInput::from_config(&AppConfig::default()),
        ConfigInput {
            posts_limit: "100".to_string(),
            access_token: String::new(),
            refresh_token: String::new(),
            device_id: String::new(),
            reply_limit: "10".to_string(),
            limit: "300".to_string(),
            order: "bottom".to_string(),
        }
    );
}

#[test]
fn form_of_a_config_without_limits() {
    let config = AppConfig {
        posts_limit: 0,
        access_token: "a".to_string(),
        refresh_token: "b".to_string(),
        device_id: "c".to_string(),
        comments: CommentsConfig { reply_limit: None, limit: Some(u32::MAX), order: None },
    };
    assert_eq!(
        ConfigInput::from_config(&config),
        ConfigInput {
            posts_limit: "0".to_string(),
            access_token: "a".to_string(),
            refresh_token: "b".to_string(),
            device_id: "c".to_string(),
            reply_limit: String::new(),
            limit: "4294967295".to_string(),
            order: String::new(),
        }
    );
}

#[test]
fn config_of_a_form() {
    assert_eq!(
        input("25", "3", "50", "top").to_config(),
        Ok(AppConfig {
            posts_limit: 25,
            access_token: "at".to_string(),
            refresh_token: "rt".to_string(),
            device_id: "id".to_string(),
            comments: CommentsConfig {
                reply_limit: Some(3),
                limit: Some(50),
                order: Some("top".to_string()),
            },
        })
    );
}

#[test]
fn empty_order_stands_for_no_order() {
    assert_eq!(input("0", "1", "1", "").to_config().unwrap().comments.order, None);
    assert_eq!(input("+7", "1", "1", "").to_config().unwrap().posts_limit, 7);
}

#[test]
fn first_unreadable_field_is_named() {
    assert_eq!(input("x", "y", "z", "").to_config(), Err("Invalid posts limit".to_string()));
    assert_eq!(input("", "1", "1", "").to_config(), Err("Invalid posts limit".to_string()));
    assert_eq!(input("-1", "1", "1", "").to_config(), Err("Invalid posts limit".to_string()));
    assert_eq!(
        input("99999999999999999999999", "1", "1", "").to_config(),
        Err("Invalid posts limit".to_string())
    );
    assert_eq!(input("1", "0", "z", "").to_config(), Err("Invalid reply limit".to_string()));
    assert_eq!(input("1", "", "1", "").to_config(), Err("Invalid reply limit".to_string()));
    assert_eq!(
        input("1", "4294967296", "1", "").to_config(),
        Err("Invalid reply limit".to_string())
    );
    assert_eq!(input("1", "1", "0", "").to_config(), Err("Invalid limit".to_string()));
    assert_eq!(input("1", "1", " 5", "").to_config(), Err("Invalid limit".to_string()));
}

#[test]
fn form_and_config_round_trip() {
    let config = input("12", "4294967295", "1", "bottom").to_config().unwrap();
    assert_eq!(ConfigInput::from_config(&config).to_config(), Ok(config));
}
