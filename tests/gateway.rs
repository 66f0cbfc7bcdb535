use dis_gateway::gateway::{
    handle_unknown_pdu, restart_action, CodecStats, DropOldestQueue, RestartAction, SocketStats,
    SseStat, TaskEvent, TaskState, UnknownPduPolicy,
};
use dis_gateway::model::EntityId;
use dis_gateway::other::Other;

#[test]
fn queue_drops_oldest_when_full() {
    let mut q: DropOldestQueue<u32> = DropOldestQueue::new(3);
    for i in 0..10u32 {
        let before = q.rejected_count();
        q.push(i);
        assert!(q.len() <= q.capacity());
        assert!(q.rejected_count() >= before);
    }
    assert_eq!(q.len(), 3);
    assert_eq!(q.rejected_count(), 7);
    assert_eq!(q.pop(), Some(7));
    assert_eq!(q.pop(), Some(8));
    assert_eq!(q.pop(), Some(9));
    assert_eq!(q.pop(), None);
}

#[test]
fn task_state_machine() {
    let s = TaskState::Idle.next(TaskEvent::Start);
    assert_eq!(s, TaskState::Running);
    assert_eq!(s.next(TaskEvent::InputEmpty), TaskState::Running);
    let s = s.next(TaskEvent::Quit);
    assert_eq!(s, TaskState::Draining);
    let s = s.next(TaskEvent::InputEmpty);
    assert_eq!(s, TaskState::Stopped);
    assert_eq!(s.next(TaskEvent::Start), TaskState::Stopped);
    assert_eq!(TaskState::Running.next(TaskEvent::ChannelClosed), TaskState::Draining);
}

#[test]
fn restart_backoff() {
    assert_eq!(restart_action(0), RestartAction::Restart { delay_ms: 100 });
    assert_eq!(restart_action(1), RestartAction::Restart { delay_ms: 400 });
    assert_eq!(restart_action(2), RestartAction::Restart { delay_ms: 1600 });
    assert_eq!(restart_action(3), RestartAction::Shutdown);
}

#[test]
fn unknown_pdu_passthrough_and_drop() {
    let payload = vec![0xAA, 0xBB, 0xCC];
    let mut stats = CodecStats::new();
    let forwarded = handle_unknown_pdu(
        UnknownPduPolicy::Passthrough,
        Other::new(payload.clone()).with_origin(Some(EntityId::new(1, 2, 3))),
        &mut stats,
    )
    .unwrap();
    assert_eq!(forwarded.body, payload);
    assert_eq!(forwarded.originating_entity_id, Some(EntityId::new(1, 2, 3)));
    assert_eq!(stats.rejected_count, 0);
    let dropped = handle_unknown_pdu(UnknownPduPolicy::Drop, Other::new(payload), &mut stats);
    assert!(dropped.is_none());
    assert_eq!(stats.rejected_count, 1);
}

#[test]
fn stats_events() {
    let mut socket = SocketStats { packets_received: 0, bytes_received: 0 };
    socket.received_packet(100);
    socket.received_packet(50);
    assert_eq!(socket, SocketStats { packets_received: 2, bytes_received: 150 });
    assert_eq!(SseStat::DisSocket(socket).event_name(), "dis_socket");
    assert_eq!(SseStat::CdisSocket(socket).event_name(), "cdis_socket");
    assert_eq!(SseStat::Encoder(CodecStats::new()).event_name(), "encoder");
    assert_eq!(SseStat::Decoder(CodecStats::new()).event_name(), "decoder");
}

#[test]
fn encode_counts_by_pdu_type() {
    let mut stats = CodecStats::new();
    assert_eq!(stats.pdu_types_seen(), 0);
    stats.record_encoded(dis_gateway::model::PduType::Fire);
    stats.record_encoded(dis_gateway::model::PduType::Fire);
    stats.record_encoded(dis_gateway::model::PduType::Comment);
    assert_eq!(stats.received_count(dis_gateway::model::PduType::Fire), 2);
    assert_eq!(stats.received_count(dis_gateway::model::PduType::Comment), 1);
    assert_eq!(stats.received_count(dis_gateway::model::PduType::Signal), 0);
    assert_eq!(stats.pdu_types_seen(), 2);
    assert_eq!(stats.encoded_count, 3);
    assert_eq!(stats.rejected_count, 0);
}
