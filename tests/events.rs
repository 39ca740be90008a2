use mpv_player::{EventListeners, MpvEvent, MpvEventId, PollStep};

fn event(id: MpvEventId) -> MpvEvent {
    MpvEvent { event_id: id.code(), error: 0, reply_userdata: 0 }
}

fn delivered(step: PollStep) -> (Vec<usize>, bool) {
    match step {
        PollStep::Deliver { listeners, last } => (listeners, last),
        PollStep::Wait => panic!("got Wait"),
        PollStep::Stop => panic!("got Stop"),
    }
}

#[test]
fn file_loaded_listener_fires_once_per_event() {
    let mut l: EventListeners<&str> = EventListeners::new();
    l.register(MpvEventId::FileLoaded, "loaded");
    for _ in 0..3 {
        let (reached, last) = delivered(l.poll(Some(event(MpvEventId::FileLoaded))));
        assert_eq!(reached, vec![0]);
        assert!(!last);
        assert_eq!(*l.listener(reached[0]), "loaded");
    }
    let (reached, _) = delivered(l.poll(Some(event(MpvEventId::Seek))));
    assert!(reached.is_empty());
    let (reached, _) = delivered(l.poll(Some(event(MpvEventId::StartFile))));
    assert!(reached.is_empty());
}

#[test]
fn listeners_run_in_registration_order() {
    let mut l: EventListeners<u32> = EventListeners::new();
    l.register(MpvEventId::Seek, 10);
    l.register(MpvEventId::EndFile, 11);
    l.register(MpvEventId::Seek, 12);
    assert_eq!(l.len(), 3);
    let (reached, _) = delivered(l.poll(Some(event(MpvEventId::Seek))));
    assert_eq!(reached, vec![0, 2]);
    assert_eq!(l.listeners_for(MpvEventId::EndFile.code()), vec![1]);
}

#[test]
fn timeout_waits_and_null_stops() {
    let mut l: EventListeners<u8> = EventListeners::new();
    l.register(MpvEventId::NoEvent, 1);
    assert!(matches!(l.poll(Some(event(MpvEventId::NoEvent))), PollStep::Wait));
    assert!(matches!(l.poll(None), PollStep::Stop));
}

#[test]
fn shutdown_is_the_last_event() {
    let mut l: EventListeners<u8> = EventListeners::new();
    l.register(MpvEventId::Shutdown, 1);
    let (reached, last) = delivered(l.poll(Some(event(MpvEventId::Shutdown))));
    assert_eq!(reached, vec![0]);
    assert!(last);
}

#[test]
fn event_codes_round_trip() {
    let all = [
        (MpvEventId::NoEvent, 0), (MpvEventId::Shutdown, 1), (MpvEventId::LogMessage, 2),
        (MpvEventId::GetPropertyReply, 3), (MpvEventId::SetPropertyReply, 4), (MpvEventId::CommandReply, 5),
        (MpvEventId::StartFile, 6), (MpvEventId::EndFile, 7), (MpvEventId::FileLoaded, 8),
        (MpvEventId::ClientMessage, 16), (MpvEventId::VideoReconfig, 17), (MpvEventId::AudioReconfig, 18),
        (MpvEventId::Seek, 20), (MpvEventId::PlaybackRestart, 21), (MpvEventId::PropertyChange, 22),
        (MpvEventId::QueueOverflow, 24), (MpvEventId::Hook, 25),
    ];
    for (e, c) in all {
        assert_eq!(e.code(), c);
        assert_eq!(MpvEventId::from_code(c), Some(e));
    }
    assert_eq!(MpvEventId::from_code(9), None);
    assert_eq!(MpvEventId::from_code(-1), None);
}

#[test]
fn unregistered_kind_reaches_nobody() {
    let l: EventListeners<u8> = EventListeners::new();
    let (reached, last) = delivered(l.poll(Some(MpvEvent { event_id: 99, error: 0, reply_userdata: 5 })));
    assert!(reached.is_empty());
    assert!(!last);
}
