use cthulhu_bot::config::{log_file_error, BotConfig, BotConfigError};

fn config(token: &str) -> BotConfig {
    BotConfig {
        discord_token: token.to_string(),
        log_path: "bot.log".to_string(),
        status_message: "CoC".to_string(),
        database_url: None,
    }
}

#[test]
fn config_error_message() {
    assert_eq!(BotConfigError::new("boom").to_string(), "boom");
    assert_eq!(log_file_error("bot.log").to_string(), "Cannot open or create the log file \"bot.log\".");
}

#[test]
fn missing_file_is_an_error() {
    let e = BotConfig::load_from_file(None).err().unwrap();
    assert_eq!(
        e.to_string(),
        "No configuration file is provided. Create a new \"config.json\" in the directory where this bot is placed."
    );
    assert_eq!(BotConfig::load_from_file(Some(config("t"))).ok().unwrap().discord_token, "t");
}

#[test]
fn config_loaded_once() {
    let mut cache = None;
    let first = BotConfig::get(&mut cache, Ok(config("first")));
    assert_eq!(first.discord_token, "first");
    let second = BotConfig::get(&mut cache, Ok(config("second")));
    assert_eq!(second.discord_token, "first");
    let third = BotConfig::get(&mut cache, Err(BotConfigError::new("no file")));
    assert_eq!(third.discord_token, "first");
}
