use sample_app::kafka::{
    consumer_settings, handle_command, run_command_consumer, setup_kafka, ConsumerAction,
    ConsumerEvent, EventBus, Publication, SEND_TIMEOUT_SECS,
};
use sample_app::models::kafka::{KafkaCommand, KafkaEvent};
use sample_app::models::sample::{Sample, SampleInput};
use sample_app::models::state::WebState;
use sample_app::api::sample::{api_create_sample, api_delete_sample, api_update_sample};
use sample_app::middleware::AuthedUser;
use sample_app::services::sample::{Delivery, ServiceCall, ServiceError, ServiceResult};

fn input(name: &str) -> SampleInput {
    SampleInput { name: name.to_string(), description: Some("d".to_string()), status: "open".to_string() }
}

fn sample(id: i64) -> Sample {
    Sample {
        id,
        name: "n".to_string(),
        description: None,
        status: "open".to_string(),
        created_at: "t".to_string(),
        updated_at: None,
        created_by: 3,
    }
}

fn pair(k: &str, v: &str) -> (String, String) {
    (k.to_string(), v.to_string())
}

fn state() -> WebState {
    WebState::new(EventBus::new("b:1", "sample-events"))
}

#[test]
fn events_are_produced_on_the_bus_topic_under_the_fixed_key() {
    let bus = EventBus::new("broker:9092", "events");
    assert_eq!(bus.topic(), "events");
    assert_eq!(SEND_TIMEOUT_SECS, 5);
    assert_eq!(
        bus.sample_created(sample(1)),
        Publication {
            topic: "events".to_string(),
            key: "sample".to_string(),
            event: KafkaEvent::SampleCreated { sample: sample(1) },
            timeout_secs: 5,
        }
    );
    assert_eq!(bus.sample_updated(sample(2)).event, KafkaEvent::SampleUpdated { sample: sample(2) });
    assert_eq!(bus.sample_deleted(3).event, KafkaEvent::SampleDeleted { id: 3 });
    assert_eq!(bus.send(KafkaEvent::SampleDeleted { id: 4 }).topic, "events");
    assert_eq!(bus.clone(), bus);
}

#[test]
fn producer_settings_name_broker_and_timeout() {
    let bus = EventBus::new("broker:9092", "events");
    assert_eq!(
        bus.producer_settings(),
        vec![pair("bootstrap.servers", "broker:9092"), pair("message.timeout.ms", "5000")]
    );
}

#[test]
fn consumer_settings_name_group_broker_and_offsets() {
    assert_eq!(
        consumer_settings("broker:9092"),
        vec![
            pair("group.id", "sample-app"),
            pair("bootstrap.servers", "broker:9092"),
            pair("enable.auto.commit", "true"),
            pair("auto.offset.reset", "earliest"),
            pair("debug", "broker,protocol,topic,metadata"),
        ]
    );
}

#[test]
fn event_resource_is_the_sample_it_is_about() {
    assert_eq!(KafkaEvent::SampleCreated { sample: sample(7) }.resource_id(), 7);
    assert_eq!(KafkaEvent::SampleUpdated { sample: sample(8) }.resource_id(), 8);
    assert_eq!(KafkaEvent::SampleDeleted { id: 9 }.resource_id(), 9);
}

#[test]
fn commands_become_the_calls_of_the_http_interface() {
    assert_eq!(
        handle_command(KafkaCommand::CreateSample { input: input("a"), user_id: 5 }),
        api_create_sample(AuthedUser(5), input("a"))
    );
    assert_eq!(
        handle_command(KafkaCommand::UpdateSample { id: 2, input: input("b"), user_id: 5 }),
        api_update_sample(AuthedUser(5), 2, input("b"))
    );
    assert_eq!(handle_command(KafkaCommand::DeleteSample { id: 2 }), api_delete_sample(AuthedUser(5), 2));
    assert_eq!(
        handle_command(KafkaCommand::UpdateSample { id: 2, input: input("b"), user_id: 99 }),
        ServiceCall::Update { input: input("b"), id: 2 }
    );
}

#[test]
fn command_and_http_request_leave_the_same_store() {
    let mut by_command = state();
    let mut by_http = state();
    let commands = vec![
        KafkaCommand::CreateSample { input: input("a"), user_id: 5 },
        KafkaCommand::CreateSample { input: input("b"), user_id: 6 },
        KafkaCommand::UpdateSample { id: 1, input: input("c"), user_id: 5 },
        KafkaCommand::DeleteSample { id: 2 },
    ];
    let requests = vec![
        api_create_sample(AuthedUser(5), input("a")),
        api_create_sample(AuthedUser(6), input("b")),
        api_update_sample(AuthedUser(5), 1, input("c")),
        api_delete_sample(AuthedUser(5), 2),
    ];
    for (command, request) in commands.into_iter().zip(requests) {
        let left = by_command.run(handle_command(command), "t", Delivery::Delivered);
        let right = by_http.run(request, "t", Delivery::Delivered);
        assert_eq!(left, right);
    }
    let left = by_command.run(ServiceCall::List, "t", Delivery::Delivered);
    let right = by_http.run(ServiceCall::List, "t", Delivery::Delivered);
    assert_eq!(left, right);
    match left.result {
        ServiceResult::Listed(rows) => {
            assert_eq!(rows.len(), 1);
            assert_eq!(rows[0].name, "c");
            assert_eq!(rows[0].created_by, 5);
        }
        other => panic!("list returned {:?}", other),
    }
}

#[test]
fn consumer_subscribes_then_runs_commands_and_skips_the_rest() {
    let brokers = "b:1".to_string();
    let topic = "sample-commands".to_string();
    assert_eq!(
        run_command_consumer(brokers.clone(), topic.clone(), ConsumerEvent::Started),
        ConsumerAction::Subscribe { settings: consumer_settings("b:1"), topic: "sample-commands".to_string() }
    );
    assert_eq!(
        run_command_consumer(brokers.clone(), topic.clone(), ConsumerEvent::Message(None)),
        ConsumerAction::Poll
    );
    assert_eq!(
        run_command_consumer(
            brokers.clone(),
            topic.clone(),
            ConsumerEvent::Message(Some(KafkaCommand::DeleteSample { id: 3 }))
        ),
        ConsumerAction::Call(ServiceCall::Delete { id: 3 })
    );
    assert_eq!(
        run_command_consumer(
            brokers.clone(),
            topic.clone(),
            ConsumerEvent::Handled(ServiceResult::Failed(ServiceError::Storage("x".to_string())))
        ),
        ConsumerAction::Poll
    );
    assert_eq!(
        run_command_consumer(brokers.clone(), topic.clone(), ConsumerEvent::Handled(ServiceResult::Deleted)),
        ConsumerAction::Poll
    );
    assert_eq!(run_command_consumer(brokers, topic, ConsumerEvent::Closed), ConsumerAction::Stop);
}

#[test]
fn kafka_setup_falls_back_to_defaults() {
    let setup = setup_kafka(None, None, None);
    assert_eq!(setup.brokers, "127.0.0.1:19092");
    assert_eq!(setup.commands_topic, "sample-commands");
    assert_eq!(setup.event_bus, EventBus::new("127.0.0.1:19092", "sample-events"));
}

#[test]
fn kafka_setup_takes_what_is_configured() {
    let setup = setup_kafka(Some("k:9".to_string()), Some("ev".to_string()), Some("cmd".to_string()));
    assert_eq!(setup.brokers, "k:9");
    assert_eq!(setup.commands_topic, "cmd");
    assert_eq!(setup.event_bus, EventBus::new("k:9", "ev"));
    let setup = setup_kafka(None, Some("ev".to_string()), None);
    assert_eq!(setup.event_bus, EventBus::new("127.0.0.1:19092", "ev"));
    assert_eq!(setup.commands_topic, "sample-commands");
}
