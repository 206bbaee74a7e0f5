//! The broker side of the service: what is published for a mutation, and
//! how a command read from the inbound topic becomes a service call.
//!
//! Nothing here opens a connection. [`EventBus`] describes the records to
//! produce, [`run_command_consumer`] says what the consumer does with each
//! thing that happens to it, and the settings functions list what a client
//! of the broker is configured with.

use vstd::prelude::*;
use crate::models::kafka::{KafkaCommand, KafkaCommandView, KafkaEvent, KafkaEventView};
use crate::models::sample::Sample;
use crate::services::sample::{ServiceCall, ServiceCallView, ServiceResult};

verus! {

/// Broker address used when none is configured.
pub open spec fn default_brokers() -> Seq<char> {
    "127.0.0.1:19092"@
}

/// Outbound topic used when none is configured.
pub open spec fn default_events_topic() -> Seq<char> {
    "sample-events"@
}

/// Inbound topic used when none is configured.
pub open spec fn default_commands_topic() -> Seq<char> {
    "sample-commands"@
}

/// Key under which every event is produced.
pub open spec fn record_key() -> Seq<char> {
    "sample"@
}

/// Seconds a record may wait for delivery before the send is given up.
pub const SEND_TIMEOUT_SECS: u64 = 5;

/// Mathematical value of a list of settings.
pub open spec fn settings_view(v: Seq<(String, String)>) -> Seq<(Seq<char>, Seq<char>)> {
    Seq::new(v.len(), |i: int| (v[i].0@, v[i].1@))
}

/// One record to produce.
#[derive(Debug, PartialEq, Eq)]
pub struct Publication {
    pub topic: String,
    pub key: String,
    pub event: KafkaEvent,
    pub timeout_secs: u64,
}

/// Mathematical value of a [`Publication`].
pub ghost struct PublicationView {
    pub topic: Seq<char>,
    pub key: Seq<char>,
    pub event: KafkaEventView,
    pub timeout_secs: int,
}

impl View for Publication {
    type V = PublicationView;

    open spec fn view(&self) -> PublicationView {
        PublicationView {
            topic: self.topic@,
            key: self.key@,
            event: self.event@,
            timeout_secs: self.timeout_secs as int,
        }
    }
}

/// Publisher bound to one outbound topic.
#[derive(Debug, PartialEq, Eq)]
pub struct EventBus {
    brokers: String,
    topic: String,
}

/// Mathematical value of an [`EventBus`].
pub ghost struct EventBusView {
    pub brokers: Seq<char>,
    pub topic: Seq<char>,
}

impl View for EventBus {
    type V = EventBusView;

    closed spec fn view(&self) -> EventBusView {
        EventBusView { brokers: self.brokers@, topic: self.topic@ }
    }
}

impl Clone for EventBus {
    fn clone(&self) -> (r: Self)
        ensures
            r@ == self@,
    {
        EventBus { brokers: self.brokers.clone(), topic: self.topic.clone() }
    }
}

impl EventBusView {
    /// The record that announces `event` on this bus.
    pub open spec fn publication(self, event: KafkaEventView) -> PublicationView {
        PublicationView {
            topic: self.topic,
            key: record_key(),
            event,
            timeout_secs: SEND_TIMEOUT_SECS as int,
        }
    }
}

impl EventBus {
    /// A publisher for `topic` on the broker at `brokers`.
    pub fn new(brokers: &str, topic: &str) -> (bus: EventBus)
        ensures
            bus@ == (EventBusView { brokers: brokers@, topic: topic@ }),
    {
        EventBus { brokers: brokers.to_owned(), topic: topic.to_owned() }
    }

    /// The topic that this bus publishes to.
    pub fn topic(&self) -> (t: &String)
        ensures
            t@ == self@.topic,
    {
        &self.topic
    }

    /// What the producer behind this bus is configured with: the broker
    /// address, and five seconds for a message to be delivered.
    pub fn producer_settings(&self) -> (settings: Vec<(String, String)>)
        ensures
            settings_view(settings@) == seq![
                ("bootstrap.servers"@, self@.brokers),
                ("message.timeout.ms"@, "5000"@),
            ],
    {
        let mut settings: Vec<(String, String)> = Vec::new();
        settings.push(("bootstrap.servers".to_owned(), self.brokers.clone()));
        settings.push(("message.timeout.ms".to_owned(), "5000".to_owned()));
        assert(settings_view(settings@) =~= seq![
            ("bootstrap.servers"@, self@.brokers),
            ("message.timeout.ms"@, "5000"@),
        ]);
        settings
    }

    /// The record announcing that `s` was created.
    pub fn sample_created(&self, s: Sample) -> (p: Publication)
        ensures
            p@ == self@.publication(KafkaEventView::SampleCreated { sample: s@ }),
    {
        self.send(KafkaEvent::SampleCreated { sample: s })
    }

    /// The record announcing that `s` was updated.
    pub fn sample_updated(&self, s: Sample) -> (p: Publication)
        ensures
            p@ == self@.publication(KafkaEventView::SampleUpdated { sample: s@ }),
    {
        self.send(KafkaEvent::SampleUpdated { sample: s })
    }

    /// The record announcing that the sample `id` was deleted.
    pub fn sample_deleted(&self, id: i64) -> (p: Publication)
        ensures
            p@ == self@.publication(KafkaEventView::SampleDeleted { id: id as int }),
    {
        self.send(KafkaEvent::SampleDeleted { id })
    }

    /// The record for `ev`: on this bus's topic, under the fixed key, with
    /// the fixed delivery timeout.
    pub fn send(&self, ev: KafkaEvent) -> (p: Publication)
        ensures
            p@ == self@.publication(ev@),
    {
        Publication {
            topic: self.topic.clone(),
            key: "sample".to_owned(),
            event: ev,
            timeout_secs: SEND_TIMEOUT_SECS,
        }
    }
}

/// The service call that a command stands for.
pub open spec fn command_call(cmd: KafkaCommandView) -> ServiceCallView {
    match cmd {
        KafkaCommandView::CreateSample { input, user_id } => ServiceCallView::Create { input, uid: user_id },
        KafkaCommandView::UpdateSample { id, input, user_id } => ServiceCallView::Update { input, id },
        KafkaCommandView::DeleteSample { id } => ServiceCallView::Delete { id },
    }
}

/// Translates a command into the service call that carries it out. The
/// user named in an update is not consulted.
pub fn handle_command(cmd: KafkaCommand) -> (call: ServiceCall)
    ensures
        call@ == command_call(cmd@),
{
    match cmd {
        KafkaCommand::CreateSample { input, user_id } => ServiceCall::Create { input, uid: user_id },
        KafkaCommand::UpdateSample { id, input, .. } => ServiceCall::Update { input, id },
        KafkaCommand::DeleteSample { id } => ServiceCall::Delete { id },
    }
}

/// Something that happened to the command consumer.
#[derive(Debug, PartialEq, Eq)]
pub enum ConsumerEvent {
    /// The consumer task was started.
    Started,
    /// A message arrived; `None` where it could not be read or decoded.
    Message(Option<KafkaCommand>),
    /// The service call of the last command returned.
    Handled(ServiceResult),
    /// The message stream ended.
    Closed,
}

/// What the command consumer does next.
#[derive(Debug, PartialEq, Eq)]
pub enum ConsumerAction {
    /// Create the consumer with these settings and subscribe to the topic.
    Subscribe { settings: Vec<(String, String)>, topic: String },
    /// Wait for the next message.
    Poll,
    /// Run the call through the service, then report [`ConsumerEvent::Handled`].
    Call(ServiceCall),
    /// Return without error.
    Stop,
}

/// Mathematical value of a [`ConsumerAction`].
pub ghost enum ConsumerActionView {
    Subscribe { settings: Seq<(Seq<char>, Seq<char>)>, topic: Seq<char> },
    Poll,
    Call(ServiceCallView),
    Stop,
}

impl View for ConsumerAction {
    type V = ConsumerActionView;

    open spec fn view(&self) -> ConsumerActionView {
        match self {
            ConsumerAction::Subscribe { settings, topic } => ConsumerActionView::Subscribe {
                settings: settings_view(settings@),
                topic: topic@,
            },
            ConsumerAction::Poll => ConsumerActionView::Poll,
            ConsumerAction::Call(c) => ConsumerActionView::Call(c@),
            ConsumerAction::Stop => ConsumerActionView::Stop,
        }
    }
}

/// What the consumer of the inbound topic is configured with: its group,
/// the broker address, automatic commits, and reading from the earliest
/// retained offset where the group has none.
pub open spec fn consumer_settings_for(brokers: Seq<char>) -> Seq<(Seq<char>, Seq<char>)> {
    seq![
        ("group.id"@, "sample-app"@),
        ("bootstrap.servers"@, brokers),
        ("enable.auto.commit"@, "true"@),
        ("auto.offset.reset"@, "earliest"@),
        ("debug"@, "broker,protocol,topic,metadata"@),
    ]
}

/// The settings of the command consumer for the broker at `brokers`.
pub fn consumer_settings(brokers: &str) -> (settings: Vec<(String, String)>)
    ensures
        settings_view(settings@) == consumer_settings_for(brokers@),
{
    let mut settings: Vec<(String, String)> = Vec::new();
    settings.push(("group.id".to_owned(), "sample-app".to_owned()));
    settings.push(("bootstrap.servers".to_owned(), brokers.to_owned()));
    settings.push(("enable.auto.commit".to_owned(), "true".to_owned()));
    settings.push(("auto.offset.reset".to_owned(), "earliest".to_owned()));
    settings.push(("debug".to_owned(), "broker,protocol,topic,metadata".to_owned()));
    assert(settings_view(settings@) =~= consumer_settings_for(brokers@));
    settings
}

/// One decision of the command consumer.
///
/// On start it subscribes to `topic`. A message that carries a command is
/// run through the service; one that does not is skipped. Whatever the
/// service returns, failure included, the consumer goes on to the next
/// message. It stops only when the stream ends.
pub fn run_command_consumer(brokers: String, topic: String, event: ConsumerEvent) -> (action: ConsumerAction)
    ensures
        action@ == match event {
            ConsumerEvent::Started => ConsumerActionView::Subscribe {
                settings: consumer_settings_for(brokers@),
                topic: topic@,
            },
            ConsumerEvent::Message(Some(cmd)) => ConsumerActionView::Call(command_call(cmd@)),
            ConsumerEvent::Message(None) => ConsumerActionView::Poll,
            ConsumerEvent::Handled(_) => ConsumerActionView::Poll,
            ConsumerEvent::Closed => ConsumerActionView::Stop,
        },
{
    match event {
        ConsumerEvent::Started => ConsumerAction::Subscribe {
            settings: consumer_settings(brokers.as_str()),
            topic,
        },
        ConsumerEvent::Message(Some(cmd)) => ConsumerAction::Call(handle_command(cmd)),
        ConsumerEvent::Message(None) => ConsumerAction::Poll,
        ConsumerEvent::Handled(_) => ConsumerAction::Poll,
        ConsumerEvent::Closed => ConsumerAction::Stop,
    }
}

/// What is set up at startup: the publisher, and where the command
/// consumer reads from.
#[derive(Debug, PartialEq, Eq)]
pub struct KafkaSetup {
    pub event_bus: EventBus,
    pub brokers: String,
    pub commands_topic: String,
}

/// The configured text, or `fallback` where nothing is configured.
pub open spec fn or_default(configured: Option<String>, fallback: Seq<char>) -> Seq<char> {
    match configured {
        Some(s) => s@,
        None => fallback,
    }
}

/// Resolves the broker configuration: each of the three values is taken as
/// configured, or from its default where it is not set.
pub fn setup_kafka(
    brokers: Option<String>,
    events_topic: Option<String>,
    commands_topic: Option<String>,
) -> (setup: KafkaSetup)
    ensures
        setup.brokers@ == or_default(brokers, default_brokers()),
        setup.commands_topic@ == or_default(commands_topic, default_commands_topic()),
        setup.event_bus@ == (EventBusView {
            brokers: or_default(brokers, default_brokers()),
            topic: or_default(events_topic, default_events_topic()),
        }),
{
    let brokers = match brokers {
        Some(b) => b,
        None => "127.0.0.1:19092".to_owned(),
    };
    let events_topic = match events_topic {
        Some(t) => t,
        None => "sample-events".to_owned(),
    };
    let commands_topic = match commands_topic {
        Some(t) => t,
        None => "sample-commands".to_owned(),
    };
    let event_bus = EventBus::new(brokers.as_str(), events_topic.as_str());
    KafkaSetup { event_bus, brokers, commands_topic }
}

} // verus!
