//! Destination configuration: where payloads are posted and under what
//! identity. Reading the environment is an outside collaborator's job; this
//! module only validates the values it was handed.

use vstd::prelude::*;

verus! {

/// Configuration of the notification destination.
pub struct SlackConfig {
    pub webhook_url: String,
    pub channel_name: String,
    pub username: String,
    pub icon_emoji: Option<String>,
}

/// Why a configuration could not be assembled: one of the required values
/// was absent.
#[derive(Clone, Copy, PartialEq, Eq, Structural, Debug)]
pub enum ConfigError {
    MissingWebhookUrl,
    MissingChannelName,
    MissingUsername,
}

impl SlackConfig {
    /// Assemble a configuration from values looked up in the environment,
    /// handed in as they were found. Fails on the first required value that
    /// is absent: the webhook URL, then the channel name, then the
    /// username. The icon is optional.
    pub fn from_env_values(
        webhook_url: Option<String>,
        channel_name: Option<String>,
        username: Option<String>,
        icon_emoji: Option<String>,
    ) -> (r: Result<SlackConfig, ConfigError>)
        ensures
            r is Ok <==> (webhook_url is Some && channel_name is Some && username is Some),
            webhook_url is None ==> r == Result::<SlackConfig, ConfigError>::Err(
                ConfigError::MissingWebhookUrl,
            ),
            webhook_url is Some && channel_name is None ==> r == Result::<
                SlackConfig,
                ConfigError,
            >::Err(ConfigError::MissingChannelName),
            webhook_url is Some && channel_name is Some && username is None ==> r == Result::<
                SlackConfig,
                ConfigError,
            >::Err(ConfigError::MissingUsername),
            r is Ok ==> {
                let c = r->Ok_0;
                &&& Some(c.webhook_url) == webhook_url
                &&& Some(c.channel_name) == channel_name
                &&& Some(c.username) == username
                &&& c.icon_emoji == icon_emoji
            },
    {
        let webhook_url = match webhook_url {
            Some(u) => u,
            None => {
                return Err(ConfigError::MissingWebhookUrl);
            },
        };
        let channel_name = match channel_name {
            Some(c) => c,
            None => {
                return Err(ConfigError::MissingChannelName);
            },
        };
        let username = match username {
            Some(u) => u,
            None => {
                return Err(ConfigError::MissingUsername);
            },
        };
        Ok(SlackConfig { webhook_url, channel_name, username, icon_emoji })
    }
}

} // verus!
