use std::sync::atomic::AtomicUsize;
use std::sync::atomic::Ordering;
use voip_common::errors::VoipError;
use voip_common::events::subjects;
use voip_common::events::BusCommand;
use voip_common::events::Envelope;
use voip_common::events::EventBus;
use voip_common::events::EventHandler;
use voip_common::events::EventProcessor;
use voip_common::events::StreamState;
use voip_common::events::Subscription;
use voip_common::events::TransportError;
use voip_common::init_service;
use voip_common::types::ServiceConfig;
use voip_common::StartupStep;

fn envelope(subject: &str, payload: &[u8]) -> Envelope {
    Envelope { subject: subject.to_string(), payload: payload.to_vec(), reply_to: None }
}

fn bus() -> EventBus {
    EventBus::connect(Ok(())).unwrap().with_service_name("tests".to_string())
}

static CALLS_OF_A: AtomicUsize = AtomicUsize::new(0);
static CALLS_OF_B: AtomicUsize = AtomicUsize::new(0);
static CALLS_OF_C: AtomicUsize = AtomicUsize::new(0);

struct Counting {
    calls: Option<&'static AtomicUsize>,
    fails: bool,
}

impl Counting {
    fn new(fails: bool) -> Counting {
        Counting { calls: None, fails }
    }

    fn counted(calls: &'static AtomicUsize, fails: bool) -> Counting {
        Counting { calls: Some(calls), fails }
    }
}

impl EventHandler for Counting {
    fn handle(&self, event: &Envelope) -> Result<(), VoipError> {
        if let Some(calls) = self.calls {
            calls.fetch_add(1, Ordering::SeqCst);
        }
        if self.fails {
            Err(VoipError::Internal(format!("cannot handle {}", event.payload[0])))
        } else {
            Ok(())
        }
    }
}

#[test]
fn test_event_subjects() {
    assert_eq!(subjects::CALL_STARTED, "voip.call.started");
    assert_eq!(subjects::SERVICE_HEALTH, "voip.service.health");
}

#[test]
fn every_subject_starts_with_the_prefix() {
    let all = [
        subjects::CALL_STARTED,
        subjects::CALL_ENDED,
        subjects::CALL_FAILED,
        subjects::REGISTRATION_SUCCESS,
        subjects::REGISTRATION_FAILED,
        subjects::SERVICE_HEALTH,
        subjects::SERVICE_STARTED,
        subjects::SERVICE_STOPPED,
        subjects::MEDIA_STARTED,
        subjects::MEDIA_STOPPED,
    ];
    for subject in all {
        assert!(subject.starts_with("voip."));
    }
    assert_eq!(subjects::CALL_ENDED, "voip.call.ended");
    assert_eq!(subjects::CALL_FAILED, "voip.call.failed");
    assert_eq!(subjects::REGISTRATION_SUCCESS, "voip.registration.success");
    assert_eq!(subjects::REGISTRATION_FAILED, "voip.registration.failed");
    assert_eq!(subjects::SERVICE_STARTED, "voip.service.started");
    assert_eq!(subjects::SERVICE_STOPPED, "voip.service.stopped");
    assert_eq!(subjects::MEDIA_STARTED, "voip.media.started");
    assert_eq!(subjects::MEDIA_STOPPED, "voip.media.stopped");
}

#[test]
fn connect_reports_an_unreachable_broker() {
    let bus = EventBus::connect(Ok(())).unwrap();
    assert_eq!(bus.service_name(), "");
    assert_eq!(bus.with_service_name("api".to_string()).service_name(), "api");
    let refused = EventBus::connect(Err(TransportError::Unreachable("refused".into())));
    assert_eq!(refused.err(), Some(VoipError::Nats("refused".into())));
    let slow = EventBus::connect(Err(TransportError::TimedOut("slow".into())));
    assert_eq!(slow.err(), Some(VoipError::Nats("slow".into())));
}

#[test]
fn publish_hands_the_payload_to_the_transport() {
    let command = bus().publish("voip.call.started", Ok(vec![1, 2, 3]));
    assert_eq!(
        command,
        Ok(BusCommand::Publish { subject: "voip.call.started".into(), payload: vec![1, 2, 3] })
    );
    let typed = bus().publish_proto("voip.call.ended", vec![8, 1]);
    assert_eq!(typed, BusCommand::Publish { subject: "voip.call.ended".into(), payload: vec![8, 1] });
}

#[test]
fn a_value_that_cannot_be_encoded_is_not_sent() {
    let r = bus().publish("s", Err("sequence has no length".into()));
    assert_eq!(
        r,
        Err(VoipError::Internal("Failed to serialize event: sequence has no length".into()))
    );
    let r = bus().request("s", Err("too big".into()));
    assert_eq!(r, Err(VoipError::Internal("Failed to serialize request: too big".into())));
}

#[test]
fn subscriptions_name_subject_and_group() {
    assert_eq!(
        bus().subscribe("a.b"),
        BusCommand::Subscribe { subject: "a.b".into(), queue: None }
    );
    assert_eq!(
        bus().queue_subscribe("a.b", "workers"),
        BusCommand::Subscribe { subject: "a.b".into(), queue: Some("workers".into()) }
    );
    assert_eq!(bus().responder("rpc"), bus().subscribe("rpc"));
    assert_eq!(bus().ping(), BusCommand::Flush);
    assert_eq!(
        bus().request("rpc", Ok(vec![9])),
        Ok(BusCommand::Request { subject: "rpc".into(), payload: vec![9] })
    );
}

#[test]
fn request_without_responder_times_out() {
    let b = bus();
    let command = b.request("nobody.home", Ok(vec![1])).unwrap();
    let outcome = Err(TransportError::TimedOut("no reply within 50 ms".into()));
    assert_eq!(b.reply(outcome), Err(VoipError::Timeout("no reply within 50 ms".into())));
    let outcome = Err(TransportError::TimedOut("no reply within 50 ms".into()));
    assert_eq!(
        b.complete(&command, outcome),
        Err(VoipError::Timeout("no reply within 50 ms".into()))
    );
    let nobody = Err(TransportError::NoResponders("no responders".into()));
    assert_eq!(b.reply(nobody), Err(VoipError::Timeout("no responders".into())));
    assert_eq!(
        b.failure(&command, TransportError::NoResponders("no responders".into())),
        VoipError::Timeout("no responders".into())
    );
    assert_eq!(
        b.failure(&b.subscribe("s"), TransportError::NoResponders("odd".into())),
        VoipError::Nats("odd".into())
    );
    assert_eq!(
        EventBus::connect(Err(TransportError::NoResponders("odd".into()))).err(),
        Some(VoipError::Nats("odd".into()))
    );
}

#[test]
fn failures_are_reported_by_kind_of_command() {
    let b = bus();
    let publish = b.publish("s", Ok(vec![])).unwrap();
    let subscribe = b.subscribe("s");
    let request = b.request("s", Ok(vec![])).unwrap();
    let ping = b.ping();
    let timed_out = || Err(TransportError::TimedOut("late".into()));
    let dropped = || Err(TransportError::Unreachable("gone".into()));
    assert_eq!(b.complete(&publish, timed_out()), Err(VoipError::Nats("late".into())));
    assert_eq!(b.complete(&subscribe, timed_out()), Err(VoipError::Nats("late".into())));
    assert_eq!(b.complete(&request, timed_out()), Err(VoipError::Timeout("late".into())));
    assert_eq!(b.complete(&ping, timed_out()), Err(VoipError::Timeout("late".into())));
    for command in [&publish, &subscribe, &request, &ping] {
        assert_eq!(b.complete(command, dropped()), Err(VoipError::Nats("gone".into())));
        assert_eq!(b.complete(command, Ok(())), Ok(()));
    }
    assert_eq!(
        b.reply(Err(TransportError::Unreachable("gone".into()))),
        Err(VoipError::Nats("gone".into()))
    );
}

#[test]
fn reply_is_the_payload_of_the_answer() {
    let b = bus();
    let answer = Envelope { subject: "_INBOX.1".into(), payload: vec![4, 5], reply_to: None };
    assert_eq!(b.reply(Ok(answer)), Ok(vec![4, 5]));
    assert_eq!(b.decode_reply(Ok(17u32)), Ok(17u32));
    let broken: Result<u32, String> = Err("unexpected end of input".into());
    assert_eq!(
        b.decode_reply(broken),
        Err(VoipError::Internal("Failed to deserialize response: unexpected end of input".into()))
    );
}

#[test]
fn subscription_yields_messages_in_order() {
    let mut sub = Subscription::new("numbers".to_string(), None);
    assert_eq!(sub.subject(), "numbers");
    for n in 1..=10u8 {
        assert!(sub.deliver(envelope("numbers", &[n])));
    }
    assert_eq!(sub.pending(), 10);
    for n in 1..=10u8 {
        assert_eq!(sub.next(), Some(envelope("numbers", &[n])));
    }
    assert_eq!(sub.next(), None);
    assert_eq!(sub.pending(), 0);
}

#[test]
fn subscription_takes_only_its_subject_and_nothing_once_closed() {
    let mut sub = Subscription::new("a".to_string(), Some("workers".to_string()));
    assert_eq!(sub.queue(), &Some("workers".to_string()));
    assert_eq!(Subscription::new("a".to_string(), None).queue(), &None);
    assert!(!sub.deliver(envelope("b", &[1])));
    assert!(sub.deliver(envelope("a", &[2])));
    assert!(!sub.is_closed());
    sub.close();
    assert!(sub.is_closed());
    assert!(!sub.deliver(envelope("a", &[3])));
    assert_eq!(sub.pending(), 1);
    assert_eq!(sub.next(), Some(envelope("a", &[2])));
    assert_eq!(sub.next(), None);
}

#[test]
fn handler_isolation() {
    let mut processor = EventProcessor::new();
    processor
        .add_handler(Counting::new(false))
        .add_handler(Counting::new(true))
        .add_handler(Counting::new(false));
    assert_eq!(processor.handler_count(), 3);
    let mut sub = Subscription::new("s".to_string(), None);
    let k = 5u8;
    for n in 1..=k {
        sub.deliver(envelope("s", &[n]));
    }
    sub.close();
    let report = processor.process(sub);
    assert_eq!(report.outcome, Ok(()));
    assert_eq!(report.dispatches.len(), k as usize);
    for (j, dispatch) in report.dispatches.iter().enumerate() {
        assert_eq!(dispatch.subject, "s");
        assert_eq!(dispatch.outcomes.len(), 3);
        assert_eq!(dispatch.outcomes[0], Ok(()));
        assert_eq!(
            dispatch.outcomes[1],
            Err(VoipError::Internal(format!("cannot handle {}", j + 1)))
        );
        assert_eq!(dispatch.outcomes[2], Ok(()));
    }
    let probe = envelope("s", &[77]);
    let after = processor.dispatch(&probe);
    assert_eq!(after.outcomes.len(), 3);
    assert!(after.outcomes[1].is_err());
}

#[test]
fn a_failing_handler_suppresses_no_invocation() {
    let mut processor = EventProcessor::new();
    processor
        .add_handler(Counting::counted(&CALLS_OF_A, false))
        .add_handler(Counting::counted(&CALLS_OF_B, true))
        .add_handler(Counting::counted(&CALLS_OF_C, false));
    let mut sub = Subscription::new("s".to_string(), None);
    let k = 9usize;
    for n in 0..k {
        sub.deliver(envelope("s", &[n as u8]));
    }
    sub.close();
    let report = processor.process(sub);
    assert_eq!(report.outcome, Ok(()));
    assert_eq!(CALLS_OF_A.load(Ordering::SeqCst), k);
    assert_eq!(CALLS_OF_B.load(Ordering::SeqCst), k);
    assert_eq!(CALLS_OF_C.load(Ordering::SeqCst), k);
}

#[test]
fn every_handler_is_invoked_once_for_each_message() {
    let mut processor = EventProcessor::new();
    processor.add_handler(Counting::new(true));
    processor.add_handler(Counting::new(false));
    let mut sub = Subscription::new("s".to_string(), None);
    for n in 1..=7u8 {
        sub.deliver(envelope("s", &[n]));
    }
    let report = processor.process(sub);
    let invoked_first = report.dispatches.iter().filter(|d| d.outcomes.len() > 0).count();
    let invoked_second = report.dispatches.iter().filter(|d| d.outcomes.len() > 1).count();
    assert_eq!(invoked_first, 7);
    assert_eq!(invoked_second, 7);
    assert!(report.dispatches.iter().all(|d| d.outcomes[0].is_err() && d.outcomes[1].is_ok()));
}

#[test]
fn handlers_see_the_message_that_was_dispatched() {
    let first = Counting::new(false);
    let mut processor = EventProcessor::new();
    processor.add_handler(first);
    let report = processor.dispatch(&envelope("voip.call.started", &[42]));
    assert_eq!(report.subject, "voip.call.started");
    assert_eq!(report.outcomes, vec![Ok(())]);
    let failing = Counting::new(true);
    let mut other = EventProcessor::new();
    other.add_handler(failing);
    let report = other.dispatch(&envelope("x", &[42]));
    assert_eq!(report.outcomes, vec![Err(VoipError::Internal("cannot handle 42".into()))]);
}

#[test]
fn a_processor_without_handlers_still_consumes() {
    let processor: EventProcessor<Counting> = EventProcessor::new();
    let mut sub = Subscription::new("s".to_string(), None);
    sub.deliver(envelope("s", &[1]));
    sub.deliver(envelope("s", &[2]));
    let report = processor.process(sub);
    assert_eq!(report.dispatches.len(), 2);
    assert!(report.dispatches.iter().all(|d| d.outcomes.is_empty()));
    assert_eq!(report.outcome, Ok(()));
}

#[test]
fn a_lost_connection_ends_the_run_in_an_error() {
    let mut processor = EventProcessor::new();
    processor.add_handler(Counting::new(false));
    let mut sub = Subscription::new("s".to_string(), None);
    sub.deliver(envelope("s", &[1]));
    assert_eq!(sub.state(), &StreamState::Open);
    sub.fail("connection reset".to_string());
    sub.fail("again".to_string());
    sub.close();
    assert_eq!(sub.state(), &StreamState::Lost("connection reset".into()));
    assert!(sub.is_closed());
    assert!(!sub.deliver(envelope("s", &[2])));
    let report = processor.process(sub);
    assert_eq!(report.dispatches.len(), 1);
    assert_eq!(report.outcome, Err(VoipError::Nats("connection reset".into())));
    let mut closed = Subscription::new("s".to_string(), None);
    closed.close();
    closed.fail("late".to_string());
    assert_eq!(closed.state(), &StreamState::Closed);
    assert_eq!(processor.process(closed).outcome, Ok(()));
}

#[test]
fn startup_plan_registers_only_where_configured() {
    let mut config = ServiceConfig::default();
    config.log_level = "debug".to_string();
    let plan = init_service("api", &config);
    assert_eq!(
        plan,
        vec![
            StartupStep::InitTelemetry { service: "api".into(), log_level: "debug".into() },
            StartupStep::DescribeService { name: "api".into(), version: "0.1.0".into() },
            StartupStep::ConnectBus { url: "nats://localhost:4222".into() },
        ]
    );
    config.consul_addr = Some("consul:8500".to_string());
    let plan = init_service("api", &config);
    assert_eq!(plan.len(), 4);
    assert_eq!(plan[3], StartupStep::RegisterService { consul_addr: "consul:8500".into() });
}

#[test]
fn generic_codec_round_trip_through_the_bus() {
    let b = bus();
    let value = ("call-1".to_string(), 42u64, vec![1u8, 2, 3], Some(-7i32));
    let encoded = bincode::serialize(&value).map_err(|e| e.to_string());
    let command = b.publish("voip.call.started", encoded).unwrap();
    let payload = match command {
        BusCommand::Publish { payload, .. } => payload,
        other => panic!("unexpected {:?}", other),
    };
    let answer = Envelope { subject: "_INBOX.7".into(), payload, reply_to: None };
    let bytes = b.reply(Ok(answer)).unwrap();
    let decoded: Result<(String, u64, Vec<u8>, Option<i32>), String> =
        bincode::deserialize(&bytes).map_err(|e| e.to_string());
    assert_eq!(b.decode_reply(decoded), Ok(value));
    let truncated: Result<u64, String> = bincode::deserialize(&[1u8, 2]).map_err(|e| e.to_string());
    match b.decode_reply(truncated) {
        Err(VoipError::Internal(text)) => {
            assert!(text.starts_with("Failed to deserialize response: "))
        }
        other => panic!("unexpected {:?}", other),
    }
}

#[test]
fn failure_names_the_error_of_a_command() {
    let b = bus();
    let request = b.request("s", Ok(vec![])).unwrap();
    assert_eq!(
        b.failure(&request, TransportError::TimedOut("late".into())),
        VoipError::Timeout("late".into())
    );
    assert_eq!(
        b.failure(&b.subscribe("s"), TransportError::TimedOut("late".into())),
        VoipError::Nats("late".into())
    );
}

#[test]
fn fan_out_reaches_every_plain_subscription() {
    let mut first = Subscription::new("news".to_string(), None);
    let mut second = Subscription::new("news".to_string(), None);
    for n in 1..=20u8 {
        let message = envelope("news", &[n]);
        assert!(first.deliver(message.clone()));
        assert!(second.deliver(message));
    }
    assert_eq!(first.pending(), 20);
    assert_eq!(second.pending(), 20);
    for n in 1..=20u8 {
        assert_eq!(first.next(), Some(envelope("news", &[n])));
        assert_eq!(second.next(), Some(envelope("news", &[n])));
    }
}

#[test]
fn queue_group_members_share_the_messages() {
    let mut members: Vec<Subscription> = (0..3)
        .map(|_| Subscription::new("jobs".to_string(), Some("workers".to_string())))
        .collect();
    for n in 0..100usize {
        assert!(members[n % 3].deliver(envelope("jobs", &[n as u8])));
    }
    let received: usize = members.iter().map(|m| m.pending()).sum();
    assert_eq!(received, 100);
    members[0].close();
    assert!(!members[0].deliver(envelope("jobs", &[0])));
    let received: usize = members.iter().map(|m| m.pending()).sum();
    assert_eq!(received, 100);
}

#[test]
fn only_a_lost_connection_is_an_error_at_the_end_of_a_stream() {
    assert_eq!(StreamState::Open.into_outcome(), Ok(()));
    assert_eq!(StreamState::Closed.into_outcome(), Ok(()));
    assert_eq!(
        StreamState::Lost("reset".into()).into_outcome(),
        Err(VoipError::Nats("reset".into()))
    );
}
