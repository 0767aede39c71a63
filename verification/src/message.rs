//! The fully rendered payload handed to the delivery worker: the message
//! body plus its destination routing data. Immutable, and owned exclusively
//! by the queue entry until delivered.

use vstd::prelude::*;

verus! {

/// One rendered notification, ready for delivery.
pub struct SlackPayload {
    pub channel: String,
    pub username: String,
    pub text: String,
    pub webhook_url: String,
    pub icon_emoji: Option<String>,
}

impl SlackPayload {
    /// Build a payload from its parts.
    pub fn new(
        channel: String,
        username: String,
        text: String,
        webhook_url: String,
        icon_emoji: Option<String>,
    ) -> (r: SlackPayload)
        ensures
            r.channel == channel,
            r.username == username,
            r.text == text,
            r.webhook_url == webhook_url,
            r.icon_emoji == icon_emoji,
    {
        SlackPayload { channel, username, text, webhook_url, icon_emoji }
    }
}

} // verus!
