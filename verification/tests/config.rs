use feed_courier::config::{Config, ConfigurationError, Setting, SUBSCRIPTIONS_FILE};

fn some(text: &str) -> Option<String> {
    Some(text.to_string())
}

#[test]
fn config_is_built_when_all_settings_are_present() {
    let config = Config::from_values(some("token"), some("@channel"), some("postgres://db"), some("key"));
    assert_eq!(
        config,
        Ok(Config {
            bot_token: "token".to_string(),
            channel_id: "@channel".to_string(),
            database_url: "postgres://db".to_string(),
            enrichment_key: "key".to_string(),
        })
    );
}

#[test]
fn config_names_the_missing_setting() {
    assert_eq!(
        Config::from_values(None, some("c"), some("d"), some("k")),
        Err(ConfigurationError::Missing(Setting::BotToken))
    );
    assert_eq!(
        Config::from_values(some("t"), None, some("d"), some("k")),
        Err(ConfigurationError::Missing(Setting::ChannelId))
    );
    assert_eq!(
        Config::from_values(some("t"), some("c"), None, some("k")),
        Err(ConfigurationError::Missing(Setting::DatabaseUrl))
    );
    assert_eq!(
        Config::from_values(some("t"), some("c"), some("d"), None),
        Err(ConfigurationError::Missing(Setting::EnrichmentKey))
    );
}

#[test]
fn config_names_the_first_of_several_missing_settings() {
    assert_eq!(
        Config::from_values(None, None, None, None),
        Err(ConfigurationError::Missing(Setting::BotToken))
    );
    assert_eq!(
        Config::from_values(some("t"), None, some("d"), None),
        Err(ConfigurationError::Missing(Setting::ChannelId))
    );
    assert_eq!(
        Config::from_values(some("t"), some("c"), None, None),
        Err(ConfigurationError::Missing(Setting::DatabaseUrl))
    );
}

#[test]
fn config_accepts_empty_values() {
    assert!(Config::from_values(some(""), some(""), some(""), some("")).is_ok());
}

#[test]
fn settings_are_read_from_their_variables() {
    assert_eq!(Setting::BotToken.variable(), "TG_BOT_TOKEN");
    assert_eq!(Setting::ChannelId.variable(), "TG_CHAT_ID");
    assert_eq!(Setting::DatabaseUrl.variable(), "DATABASE_URL");
    assert_eq!(Setting::EnrichmentKey.variable(), "OPENAI");
    assert_eq!(SUBSCRIPTIONS_FILE, "feeds.opml");
}
