//! The dispatcher: the synchronous entry point that takes one observed
//! event, runs it through the filter chains and the field policies, renders
//! accepted events, and enqueues the payload for the background delivery
//! worker. It never awaits the network call and never panics; a rejection or
//! a closed queue is at worst a missing notification.

use vstd::prelude::*;

use crate::config::ConfigError;
use crate::config::SlackConfig;
use crate::fields::Field;
use crate::fields::FieldExclusionSet;
use crate::fields::apply_exclusions;
use crate::fields::apply_key_chain;
use crate::fields::dedup_fields;
use crate::fields::dedup_keys;
use crate::fields::drop_chain_rejected;
use crate::fields::drop_excluded;
use crate::fields::drop_key;
use crate::fields::remove_key;
use crate::filter::Filter;
use crate::filter::FilterChain;
use crate::filter::Polarity;
use crate::filter::Rejected;
use crate::filter::regex_valid;
use crate::format::Level;
use crate::format::opt_str_view;
use crate::format::render;
use crate::format::render_label;
use crate::format::resolve_message;
use crate::format::resolved_message;
use crate::message::SlackPayload;
use crate::worker::ChannelReceiver;
use crate::worker::ChannelSender;
use crate::worker::WorkerMessage;
use crate::worker::clone_sender;
use crate::worker::new_channel;
use crate::worker::send_message;

verus! {

/// A span that was active when an event occurred: its name and its own
/// accumulated fields. Span fields are considered already vetted and are not
/// subject to the event-level field filters.
pub struct SpanInfo {
    pub name: String,
    pub fields: Vec<Field>,
}

/// One observed telemetry event, as the inbound collaborator hands it over:
/// severity, target name, free-form fields, the enclosing span if any, and
/// the source location if known.
pub struct EventRecord {
    pub level: Level,
    pub target: String,
    pub fields: Vec<Field>,
    pub span: Option<SpanInfo>,
    pub file: Option<String>,
    pub line: Option<u32>,
}

/// The filter policies an event must pass: the target chain (required at
/// construction — a catch-all layer would flood the sink), an optional chain
/// over the resolved message text, an optional chain over each surviving
/// field key, and the flat exclusion set applied to field keys before that
/// chain. An absent optional chain accepts everything.
pub struct EventFilters {
    pub target: FilterChain,
    pub message: Option<FilterChain>,
    pub field_keys: Option<FilterChain>,
    pub field_exclusions: FieldExclusionSet,
}

/// Whether an optional chain accepts `s`: an absent chain accepts
/// everything.
pub open spec fn chain_accepts_opt(c: Option<FilterChain>, s: Seq<char>) -> bool {
    match c {
        Some(ch) => ch.wf() && !ch.rejects(s),
        None => true,
    }
}

/// The message text an event resolves to, after its fields' duplicate keys
/// have collapsed.
pub open spec fn event_message(ev: EventRecord) -> Seq<char> {
    resolved_message(dedup_keys(ev.fields@))
}

/// Whether the filters accept an event: the target chain accepts its
/// target, and the message chain, if present, accepts its resolved message.
pub open spec fn accepts(filters: EventFilters, ev: EventRecord) -> bool {
    &&& filters.target.wf()
    &&& !filters.target.rejects(ev.target@)
    &&& chain_accepts_opt(filters.message, event_message(ev))
}

/// The event's own fields that survive to rendering: duplicate keys
/// collapsed, the consumed "message" field removed, then the exclusion set
/// and, if present, the field-key chain applied.
pub open spec fn own_surviving_fields(filters: EventFilters, ev: EventRecord) -> Seq<Field> {
    let deduped = dedup_keys(ev.fields@);
    let own = drop_key(deduped, "message"@);
    let kept = drop_excluded(own, filters.field_exclusions);
    match filters.field_keys {
        Some(c) => drop_chain_rejected(kept, c),
        None => kept,
    }
}

/// The fields that are rendered: the event's surviving fields, then the
/// enclosing span's fields appended unfiltered, with duplicate keys
/// collapsed once more so that keys stay unique.
pub open spec fn rendered_fields(filters: EventFilters, ev: EventRecord) -> Seq<Field> {
    match ev.span {
        Some(sp) => dedup_keys(own_surviving_fields(filters, ev) + sp.fields@),
        None => dedup_keys(own_surviving_fields(filters, ev)),
    }
}

/// The unique-keys law: whatever duplicate keys the producer emitted, and
/// whatever the span contributes, the rendered fields block holds each key
/// once.
pub proof fn lemma_rendered_keys_unique(filters: EventFilters, ev: EventRecord)
    ensures
        forall|i: int, j: int|
            0 <= i < j < rendered_fields(filters, ev).len() ==> (#[trigger] rendered_fields(
                filters,
                ev,
            )[i]).key@ != (#[trigger] rendered_fields(filters, ev)[j]).key@,
{
    match ev.span {
        Some(sp) => {
            crate::fields::lemma_dedup_keys_unique(own_surviving_fields(filters, ev) + sp.fields@);
        },
        None => {
            crate::fields::lemma_dedup_keys_unique(own_surviving_fields(filters, ev));
        },
    }
}

/// The enclosing span's name, if any.
pub open spec fn span_name_view(ev: EventRecord) -> Option<Seq<char>> {
    match ev.span {
        Some(sp) => Some(sp.name@),
        None => None,
    }
}

/// The body an accepted event renders to.
pub open spec fn rendered_body(filters: EventFilters, ev: EventRecord) -> Seq<char> {
    render_label(
        ev.level,
        event_message(ev),
        span_name_view(ev),
        ev.target@,
        opt_str_view(ev.file),
        ev.line,
        rendered_fields(filters, ev),
    )
}

/// Run one event through the filters and, if every chain accepts it, render
/// it into a payload addressed per `config`. Returns a payload exactly for
/// accepted events; rendering itself cannot fail.
pub fn handle_event(filters: &EventFilters, config: &SlackConfig, ev: EventRecord) -> (r: Option<
    SlackPayload,
>)
    ensures
        r is Some <==> accepts(*filters, ev),
        r is Some ==> {
            let p = r->Some_0;
            &&& p.channel@ == config.channel_name@
            &&& p.username@ == config.username@
            &&& p.text@ == rendered_body(*filters, ev)
            &&& p.webhook_url@ == config.webhook_url@
            &&& opt_str_view(p.icon_emoji) == opt_str_view(config.icon_emoji)
        },
{
    let EventRecord { level, target, fields, span, file, line } = ev;
    if filters.target.process(target.as_str()).is_err() {
        return None;
    }
    let deduped = dedup_fields(fields);
    let msg = resolve_message(&deduped);
    match &filters.message {
        Some(c) => {
            if c.process(msg.as_str()).is_err() {
                return None;
            }
        },
        None => {},
    }
    let message_key = String::from_str("message");
    let own = remove_key(deduped, &message_key);
    let kept = apply_exclusions(own, &filters.field_exclusions);
    let kept = match &filters.field_keys {
        Some(c) => apply_key_chain(kept, c),
        None => kept,
    };
    let (span_name, combined) = match span {
        Some(sp) => {
            let mut combined = kept;
            let mut span_fields = sp.fields;
            combined.append(&mut span_fields);
            (Some(sp.name), combined)
        },
        None => (None, kept),
    };
    let all = dedup_fields(combined);
    let body = render(level, msg.as_str(), &span_name, target.as_str(), &file, &line, &all);
    let icon = match &config.icon_emoji {
        Some(s) => Some(s.clone()),
        None => None,
    };
    Some(
        SlackPayload::new(
            config.channel_name.clone(),
            config.username.clone(),
            body,
            config.webhook_url.clone(),
            icon,
        ),
    )
}

/// The field-exclusion law, end to end: among the event's own fields, one
/// whose key the exclusion set excludes never survives to rendering,
/// whatever its value. (The enclosing span's fields are appended after this
/// stage, deliberately unfiltered.)
pub proof fn lemma_excluded_key_never_survives(filters: EventFilters, ev: EventRecord)
    ensures
        forall|i: int|
            0 <= i < own_surviving_fields(filters, ev).len()
                ==> !filters.field_exclusions.spec_excludes(
                (#[trigger] own_surviving_fields(filters, ev)[i]).key@,
            ),
        ev.span is None ==> forall|i: int|
            0 <= i < rendered_fields(filters, ev).len()
                ==> !filters.field_exclusions.spec_excludes(
                (#[trigger] rendered_fields(filters, ev)[i]).key@,
            ),
{
    let deduped = dedup_keys(ev.fields@);
    let own = drop_key(deduped, "message"@);
    let kept = drop_excluded(own, filters.field_exclusions);
    crate::fields::lemma_field_exclusion(own, filters.field_exclusions);
    match filters.field_keys {
        Some(c) => {
            crate::fields::lemma_drop_chain_rejected_preserves(
                kept,
                c,
                (|f: Field| !filters.field_exclusions.spec_excludes(f.key@)),
            );
        },
        None => {},
    }
    if ev.span is None {
        crate::fields::lemma_dedup_keys_preserves(
            own_surviving_fields(filters, ev),
            (|f: Field| !filters.field_exclusions.spec_excludes(f.key@)),
        );
    }
}

/// What became of one observed event: rejected by a filter, enqueued for
/// delivery, or dropped because the worker's half of the queue is gone.
/// Nothing is ever surfaced to the event producer as a panic.
#[derive(Clone, Copy, PartialEq, Eq, Structural, Debug)]
pub enum EventOutcome {
    Dispatched,
    Filtered,
    QueueClosed,
}

/// Why a layer could not be built: a required configuration value was
/// absent, or the target filter pattern does not compile.
#[derive(Clone, Copy, PartialEq, Eq, Structural, Debug)]
pub enum BuildError {
    MissingWebhookUrl,
    MissingChannelName,
    MissingUsername,
    InvalidTargetFilter,
}

/// Layer for forwarding observed events to the notification sink.
pub struct SlackForwardingLayer {
    filters: EventFilters,
    config: SlackConfig,
    msg_tx: ChannelSender,
}

impl SlackForwardingLayer {
    /// The filter policies this layer applies.
    pub closed spec fn spec_filters(self) -> EventFilters {
        self.filters
    }

    /// The destination configuration this layer addresses payloads with.
    pub closed spec fn spec_config(self) -> SlackConfig {
        self.config
    }

    /// Create a new layer from full filter policies and a configuration,
    /// together with the queue's producer half (cloneable, shareable across
    /// threads) and its consumer half, which the background worker owns.
    pub fn with_filters(filters: EventFilters, config: SlackConfig) -> (r: (
        SlackForwardingLayer,
        ChannelSender,
        ChannelReceiver,
    ))
        ensures
            r.0.spec_filters() == filters,
            r.0.spec_config() == config,
    {
        let (tx, rx) = new_channel();
        let layer_tx = clone_sender(&tx);
        (SlackForwardingLayer { filters, config, msg_tx: layer_tx }, tx, rx)
    }

    /// Create a new layer for forwarding messages, using a specified
    /// configuration. The target chain is one `Subtractive` filter: only
    /// events whose target matches `target_regex_filter` proceed. Fails
    /// exactly when that pattern does not compile.
    pub fn new(target_regex_filter: String, config: SlackConfig) -> (r: Result<
        (SlackForwardingLayer, ChannelSender, ChannelReceiver),
        Rejected,
    >)
        ensures
            r is Ok <==> regex_valid(target_regex_filter@),
            r is Ok ==> {
                let layer = r->Ok_0.0;
                &&& layer.spec_filters().target.wf()
                &&& layer.spec_filters().target.spec_filters().len() == 1
                &&& layer.spec_filters().target.spec_filters()[0].spec_pattern()
                    == target_regex_filter@
                &&& layer.spec_filters().target.spec_filters()[0].spec_polarity()
                    == Polarity::Subtractive
                &&& layer.spec_filters().message is None
                &&& layer.spec_filters().field_keys is None
                &&& forall|k: Seq<char>| !layer.spec_filters().field_exclusions.spec_excludes(k)
                &&& layer.spec_config() == config
            },
    {
        let f = match Filter::new(target_regex_filter, Polarity::Subtractive) {
            Ok(f) => f,
            Err(e) => {
                return Err(e);
            },
        };
        let chain = FilterChain::single(f);
        let filters = EventFilters {
            target: chain,
            message: None,
            field_keys: None,
            field_exclusions: FieldExclusionSet::new(),
        };
        let (layer, tx, rx) = Self::with_filters(filters, config);
        Ok((layer, tx, rx))
    }

    /// Create a new layer for forwarding messages, using configuration
    /// values looked up in the environment by the caller and handed in as
    /// they were found: the webhook URL, the channel name and the username
    /// are required, the icon is optional. Fails on the first required value
    /// that is absent, and on a target pattern that does not compile.
    pub fn new_from_env(
        target_filter: String,
        webhook_url: Option<String>,
        channel_name: Option<String>,
        username: Option<String>,
        icon_emoji: Option<String>,
    ) -> (r: Result<(SlackForwardingLayer, ChannelSender, ChannelReceiver), BuildError>)
        ensures
            r is Ok <==> (webhook_url is Some && channel_name is Some && username is Some
                && regex_valid(target_filter@)),
            webhook_url is None ==> r is Err && r->Err_0 == BuildError::MissingWebhookUrl,
            webhook_url is Some && channel_name is None ==> r is Err && r->Err_0
                == BuildError::MissingChannelName,
            webhook_url is Some && channel_name is Some && username is None ==> r is Err
                && r->Err_0 == BuildError::MissingUsername,
            webhook_url is Some && channel_name is Some && username is Some && !regex_valid(
                target_filter@,
            ) ==> r is Err && r->Err_0 == BuildError::InvalidTargetFilter,
            r is Ok ==> {
                let layer = r->Ok_0.0;
                &&& layer.spec_filters().target.wf()
                &&& layer.spec_filters().target.spec_filters().len() == 1
                &&& layer.spec_filters().target.spec_filters()[0].spec_pattern()
                    == target_filter@
                &&& layer.spec_filters().target.spec_filters()[0].spec_polarity()
                    == Polarity::Subtractive
                &&& layer.spec_config().webhook_url == webhook_url->Some_0
                &&& layer.spec_config().channel_name == channel_name->Some_0
                &&& layer.spec_config().username == username->Some_0
                &&& layer.spec_config().icon_emoji == icon_emoji
            },
    {
        let config = match SlackConfig::from_env_values(
            webhook_url,
            channel_name,
            username,
            icon_emoji,
        ) {
            Ok(c) => c,
            Err(ConfigError::MissingWebhookUrl) => {
                return Err(BuildError::MissingWebhookUrl);
            },
            Err(ConfigError::MissingChannelName) => {
                return Err(BuildError::MissingChannelName);
            },
            Err(ConfigError::MissingUsername) => {
                return Err(BuildError::MissingUsername);
            },
        };
        match Self::new(target_filter, config) {
            Ok(t) => Ok(t),
            Err(_) => Err(BuildError::InvalidTargetFilter),
        }
    }

    /// Take one observed event: filter it, render it if accepted, and
    /// enqueue the payload for the delivery worker. Enqueueing never
    /// suspends this thread. Returns `Filtered` exactly for rejected events;
    /// an accepted event is `Dispatched`, or reported `QueueClosed` when the
    /// worker's half of the queue is gone — logged by the caller, never a
    /// panic.
    pub fn on_event(&self, ev: EventRecord) -> (r: EventOutcome)
        ensures
            r == EventOutcome::Filtered <==> !accepts(self.spec_filters(), ev),
    {
        match handle_event(&self.filters, &self.config, ev) {
            None => EventOutcome::Filtered,
            Some(p) => {
                match send_message(&self.msg_tx, WorkerMessage::Data(p)) {
                    Ok(()) => EventOutcome::Dispatched,
                    Err(_) => EventOutcome::QueueClosed,
                }
            },
        }
    }
}

} // verus!
