//! What the process needs to know before it can start: four settings taken
//! from its environment, all of them required.

use vstd::prelude::*;

verus! {

/// The file that holds the subscription list.
pub const SUBSCRIPTIONS_FILE: &'static str = "feeds.opml";

/// One of the required settings.
#[derive(Clone, Copy, Debug, PartialEq, Eq, Structural)]
pub enum Setting {
    /// The credential of the messaging bot.
    BotToken,
    /// The identifier of the channel that messages go to.
    ChannelId,
    /// The connection string of the store.
    DatabaseUrl,
    /// The credential of the summarizer.
    EnrichmentKey,
}

impl Setting {
    /// The name of the environment variable that holds the setting.
    pub fn variable(self) -> (name: &'static str)
        ensures
            name@ == match self {
                Setting::BotToken => "TG_BOT_TOKEN"@,
                Setting::ChannelId => "TG_CHAT_ID"@,
                Setting::DatabaseUrl => "DATABASE_URL"@,
                Setting::EnrichmentKey => "OPENAI"@,
            },
    {
        match self {
            Setting::BotToken => "TG_BOT_TOKEN",
            Setting::ChannelId => "TG_CHAT_ID",
            Setting::DatabaseUrl => "DATABASE_URL",
            Setting::EnrichmentKey => "OPENAI",
        }
    }
}

/// Why the process cannot start.
#[derive(Clone, Copy, Debug, PartialEq, Eq, Structural)]
pub enum ConfigurationError {
    /// A required setting is absent.
    Missing(Setting),
    /// The subscription list is not a document that can be read.
    MalformedSubscriptions,
}

/// The settings of a running process.
#[derive(Clone, Debug, PartialEq, Eq)]
pub struct Config {
    pub bot_token: String,
    pub channel_id: String,
    pub database_url: String,
    pub enrichment_key: String,
}

/// The first setting that is absent, in the order in which they are needed:
/// bot credential, channel, store, summarizer credential.
pub open spec fn first_missing(
    bot_token: bool,
    channel_id: bool,
    database_url: bool,
    enrichment_key: bool,
) -> Option<Setting> {
    if !bot_token {
        Some(Setting::BotToken)
    } else if !channel_id {
        Some(Setting::ChannelId)
    } else if !database_url {
        Some(Setting::DatabaseUrl)
    } else if !enrichment_key {
        Some(Setting::EnrichmentKey)
    } else {
        None
    }
}

impl Config {
    /// Builds the configuration from the values found in the environment.
    /// It succeeds exactly when all four are present, and keeps them as they
    /// are; otherwise the error names the first one that is absent.
    pub fn from_values(
        bot_token: Option<String>,
        channel_id: Option<String>,
        database_url: Option<String>,
        enrichment_key: Option<String>,
    ) -> (built: Result<Config, ConfigurationError>)
        ensures
            match built {
                Ok(config) => {
                    &&& bot_token == Some(config.bot_token)
                    &&& channel_id == Some(config.channel_id)
                    &&& database_url == Some(config.database_url)
                    &&& enrichment_key == Some(config.enrichment_key)
                },
                Err(error) => first_missing(
                    bot_token is Some,
                    channel_id is Some,
                    database_url is Some,
                    enrichment_key is Some,
                ) matches Some(setting) && error == ConfigurationError::Missing(setting),
            },
    {
        let bot_token = match bot_token {
            Some(value) => value,
            None => return Err(ConfigurationError::Missing(Setting::BotToken)),
        };
        let channel_id = match channel_id {
            Some(value) => value,
            None => return Err(ConfigurationError::Missing(Setting::ChannelId)),
        };
        let database_url = match database_url {
            Some(value) => value,
            None => return Err(ConfigurationError::Missing(Setting::DatabaseUrl)),
        };
        let enrichment_key = match enrichment_key {
            Some(value) => value,
            None => return Err(ConfigurationError::Missing(Setting::EnrichmentKey)),
        };
        Ok(Config { bot_token, channel_id, database_url, enrichment_key })
    }
}

} // verus!
