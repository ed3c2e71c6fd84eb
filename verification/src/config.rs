//! What a subscriber is set up with.

use crate::status::Code;
use vstd::prelude::*;

verus! {

/// How a failed call is retried: an exponential backoff that starts at
/// `from_millis`, grows by `factor`, is capped at `max_delay_millis` and
/// gives up after `take` tries; and the status codes that are worth a retry.
#[derive(Clone, Debug, PartialEq, Eq)]
pub struct RetrySetting {
    pub from_millis: u64,
    pub max_delay_millis: Option<u64>,
    pub factor: u64,
    pub take: usize,
    pub codes: Vec<Code>,
}

/// The status codes that are retried where nothing else is configured.
pub open spec fn default_retryable_codes() -> Seq<Code> {
    seq![Code::Unavailable, Code::Unknown, Code::Aborted]
}

/// The retry setting that is used where none is configured.
pub fn default_retry_setting() -> (setting: RetrySetting)
    ensures
        setting.from_millis == 10,
        setting.max_delay_millis == Some(1000u64),
        setting.factor == 1,
        setting.take == 5,
        setting.codes@ == default_retryable_codes(),
{
    let mut codes: Vec<Code> = Vec::new();
    codes.push(Code::Unavailable);
    codes.push(Code::Unknown);
    codes.push(Code::Aborted);
    RetrySetting { from_millis: 10, max_delay_millis: Some(1000), factor: 1, take: 5, codes }
}

/// The configuration of one subscriber.
#[derive(Clone, Debug, PartialEq, Eq)]
pub struct SubscriberConfig {
    /// The time between two keepalive pings on the outgoing half of the
    /// stream, in milliseconds.
    pub ping_interval_millis: u64,
    /// How opening the stream is retried, and which status codes reconnect
    /// it. `None` stands for the default setting.
    pub retry_setting: Option<RetrySetting>,
    /// The acknowledgment deadline of the stream, sent with the first request
    /// of every stream. The broker accepts 10 to 600 seconds.
    pub stream_ack_deadline_seconds: i32,
    /// The number of messages that may be outstanding before the broker stops
    /// sending; zero or less lifts the limit. Sent with the first request of
    /// every stream, and only there.
    pub max_outstanding_messages: i64,
    /// The number of bytes that may be outstanding before the broker stops
    /// sending; zero or less lifts the limit.
    pub max_outstanding_bytes: i64,
}

impl SubscriberConfig {
    /// The status codes on which the stream is opened again.
    pub open spec fn retryable_codes(self) -> Seq<Code> {
        match self.retry_setting {
            Some(setting) => setting.codes@,
            None => default_retryable_codes(),
        }
    }
}

impl Default for SubscriberConfig {
    /// A ping every ten seconds, the default retry setting, a stream deadline
    /// of a minute, and at most 50 messages and a billion bytes outstanding.
    fn default() -> (config: Self)
        ensures
            config.ping_interval_millis == 10_000,
            config.retry_setting matches Some(setting) && setting.from_millis == 10
                && setting.max_delay_millis == Some(1000u64) && setting.factor == 1 && setting.take
                == 5,
            config.retryable_codes() == default_retryable_codes(),
            config.stream_ack_deadline_seconds == 60,
            config.max_outstanding_messages == 50,
            config.max_outstanding_bytes == 1_000_000_000,
    {
        Self {
            ping_interval_millis: 10_000,
            retry_setting: Some(default_retry_setting()),
            stream_ack_deadline_seconds: 60,
            max_outstanding_messages: 50,
            max_outstanding_bytes: 1000 * 1000 * 1000,
        }
    }
}

} // verus!
