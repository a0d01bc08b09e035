use voip_common::errors::VoipError;
use voip_common::media::MediaRelay;
use voip_common::media::MediaSession;
use voip_common::signalling::SignallingService;
use voip_common::signalling::SipEvent;
use voip_common::supervision::LoopAction;
use voip_common::supervision::SupervisedLoop;
use voip_common::supervision::Wake;

#[test]
fn heartbeat_ticks_and_shutdown() {
    let mut service = SignallingService::new();
    // Allow the loop to tick at least once.
    assert_eq!(service.on_wake(Wake::Tick), (LoopAction::Heartbeat, Some(SipEvent::Heartbeat)));
    service.shutdown();
    let out = service.run(&vec![Wake::Notified { stop: true }]);
    assert!(out);
    assert!(service.has_exited());
    assert_eq!(service.heartbeats(), 1);
}

#[test]
fn supervisor_stops_when_requested() {
    let mut relay = MediaRelay::new();
    relay.stop();
    assert!(relay.supervise(&vec![Wake::Notified { stop: true }]));
    assert!(relay.has_exited());
}

#[test]
fn shutdown_before_start_is_not_missed() {
    let mut service = SignallingService::new();
    service.shutdown();
    assert!(service.run(&vec![Wake::Tick, Wake::Tick, Wake::Tick]));
    assert_eq!(service.heartbeats(), 0);
    let mut idle = SignallingService::new();
    idle.shutdown();
    assert!(idle.run(&vec![]));
    assert_eq!(idle.heartbeats(), 0);
    let mut relay = MediaRelay::new();
    relay.stop();
    assert_eq!(relay.on_wake(Wake::Tick), LoopAction::Exit);
    assert_eq!(relay.heartbeats(), 0);
}

#[test]
fn shutdown_twice_is_shutdown_once() {
    let mut once = SignallingService::new();
    once.shutdown();
    let mut twice = SignallingService::new();
    twice.shutdown();
    twice.shutdown();
    assert_eq!(once.shutdown_requested(), twice.shutdown_requested());
    let wakes = vec![Wake::Tick, Wake::Notified { stop: false }, Wake::Tick];
    assert_eq!(once.run(&wakes), twice.run(&wakes));
    assert_eq!(once.heartbeats(), twice.heartbeats());
    assert_eq!(once.has_exited(), twice.has_exited());
}

#[test]
fn loop_beats_on_every_tick_until_stopped() {
    let mut l = SupervisedLoop::new();
    assert!(!l.stop_requested());
    assert!(!l.has_exited());
    let wakes = vec![Wake::Tick, Wake::Tick, Wake::Notified { stop: false }, Wake::Tick];
    assert!(!l.run(&wakes));
    assert_eq!(l.heartbeats(), 3);
    assert!(!l.has_exited());
    let more = vec![Wake::Tick, Wake::Notified { stop: true }, Wake::Tick, Wake::Tick];
    assert!(l.run(&more));
    assert_eq!(l.heartbeats(), 4);
    assert!(l.has_exited());
    assert!(!l.stop_requested());
    assert!(l.run(&vec![Wake::Tick]));
    assert_eq!(l.heartbeats(), 4);
    assert_eq!(l.on_wake(Wake::Tick), LoopAction::Exit);
}

#[test]
fn decisions_of_one_wake() {
    let mut l = SupervisedLoop::new();
    assert_eq!(l.on_wake(Wake::Notified { stop: false }), LoopAction::Continue);
    assert_eq!(l.on_wake(Wake::Tick), LoopAction::Heartbeat);
    assert!(!l.settle());
    l.request_stop();
    assert!(l.stop_requested());
    assert!(!l.has_exited());
    assert!(l.settle());
    assert!(l.has_exited());
    let mut dropped = SupervisedLoop::new();
    assert_eq!(dropped.on_wake(Wake::SenderDropped), LoopAction::Exit);
    assert!(dropped.has_exited());
    assert_eq!(dropped.heartbeats(), 0);
    let mut told = SupervisedLoop::new();
    assert_eq!(told.on_wake(Wake::Notified { stop: true }), LoopAction::Exit);
}

#[test]
fn signalling_reads_every_notification_as_a_stop() {
    let mut service = SignallingService::new();
    assert_eq!(service.on_wake(Wake::Notified { stop: false }), (LoopAction::Exit, None));
    assert!(service.has_exited());
    let mut other = SignallingService::new();
    assert!(other.run(&vec![Wake::Tick, Wake::Notified { stop: false }, Wake::Tick]));
    assert_eq!(other.heartbeats(), 1);
    let mut gone = SignallingService::new();
    assert_eq!(gone.on_wake(Wake::SenderDropped), (LoopAction::Exit, None));
}

#[test]
fn media_relay_stops_on_true_or_lost_sender_only() {
    let mut relay = MediaRelay::new();
    assert!(!relay.stop_requested());
    assert_eq!(relay.on_wake(Wake::Notified { stop: false }), LoopAction::Continue);
    assert_eq!(relay.on_wake(Wake::Tick), LoopAction::Heartbeat);
    assert!(!relay.supervise(&vec![Wake::Tick, Wake::Notified { stop: false }]));
    assert_eq!(relay.heartbeats(), 2);
    assert!(relay.supervise(&vec![Wake::SenderDropped, Wake::Tick]));
    assert_eq!(relay.heartbeats(), 2);
    let session = MediaSession { session_id: "s1".to_string(), codec: "opus".to_string() };
    assert_eq!(session.clone().codec, "opus");
}

#[test]
fn completion_surfaces_only_the_death_of_the_loop() {
    assert_eq!(SignallingService::completion(Ok(Ok(()))), Ok(()));
    assert_eq!(
        SignallingService::completion(Err("task panicked".into())),
        Err(VoipError::Internal("joining signalling task failed: task panicked".into()))
    );
    assert_eq!(
        SignallingService::completion(Ok(Err(VoipError::Io("x".into())))),
        Err(VoipError::Io("x".into()))
    );
}

#[test]
fn settle_leaves_only_after_a_stop_request() {
    let mut service = SignallingService::new();
    assert!(!service.settle());
    service.shutdown();
    assert!(service.settle());
    let mut relay = MediaRelay::new();
    assert!(!relay.settle());
    relay.stop();
    relay.stop();
    assert!(relay.settle());
    assert!(relay.stop_requested());
}
