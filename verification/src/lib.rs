//! Forwarding of structured telemetry events to a chat-notification sink.
//!
//! Events carry a target name, a message, key/value fields and an optional
//! enclosing span. A chain of regular-expression filters decides which events
//! are interesting; accepted events are rendered to a text payload and handed
//! to a background delivery worker over an unbounded queue, so that the
//! thread that produced the event never blocks.

pub mod config;
pub mod fields;
pub mod filter;
pub mod format;
pub mod layer;
pub mod message;
pub mod worker;

pub use config::ConfigError;
pub use config::SlackConfig;
pub use fields::Field;
pub use fields::FieldExclusionSet;
pub use fields::FieldValue;
pub use fields::apply_exclusions;
pub use fields::apply_key_chain;
pub use fields::dedup_fields;
pub use fields::remove_key;
pub use filter::Filter;
pub use format::Level;
pub use format::SpanPhase;
pub use format::format_span_context;
pub use format::i64_to_dec;
pub use format::level_text;
pub use format::render;
pub use format::resolve_message;
pub use format::u64_to_dec;
pub use format::value_text;
pub use filter::FilterChain;
pub use filter::Polarity;
pub use filter::Rejected;
pub use layer::handle_event;
pub use layer::BuildError;
pub use layer::EventFilters;
pub use layer::EventOutcome;
pub use layer::EventRecord;
pub use layer::SlackForwardingLayer;
pub use layer::SpanInfo;
pub use message::SlackPayload;
pub use worker::ChannelReceiver;
pub use worker::ChannelSender;
pub use worker::QueueClosed;
pub use worker::WorkerMessage;
pub use worker::WorkerStep;
pub use worker::drain;
pub use worker::send_shutdown;
pub use worker::worker_step;
