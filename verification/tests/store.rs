use xplane_udp::dataref_handler::DataRefHandler;
use xplane_udp::dataref_handler::MessageStatus;
use xplane_udp::dataref_type::DataRefType;
use xplane_udp::dataref_type::DataRefValueType;
use xplane_udp::errors::XpError;

fn update_frame(pairs: &[(i32, f32)]) -> Vec<u8> {
    let mut buf: Vec<u8> = Vec::new();
    buf.extend_from_slice(b"RREF");
    buf.push(0);
    for (index, value) in pairs {
        buf.extend_from_slice(&index.to_le_bytes());
        buf.extend_from_slice(&value.to_le_bytes());
    }
    buf
}

#[test]
fn should_process_counts_pairs() {
    let frame = update_frame(&[(1, 1.0), (2, 2.0), (3, 3.0)]);
    assert_eq!(frame.len(), 5 + 8 * 3);
    assert!(matches!(DataRefHandler::should_process(&frame), MessageStatus::Decoded(3)));
    assert!(matches!(DataRefHandler::should_process(&update_frame(&[])), MessageStatus::Decoded(0)));
}

#[test]
fn should_process_rejects_broken_length() {
    let mut frame = update_frame(&[(1, 1.0)]);
    frame.push(0);
    assert!(matches!(DataRefHandler::should_process(&frame), MessageStatus::InvalidLength));
    assert!(matches!(DataRefHandler::should_process(b"RREF"), MessageStatus::InvalidLength));
}

#[test]
fn should_process_rejects_other_tags() {
    assert!(matches!(DataRefHandler::should_process(b"BECN\0rest"), MessageStatus::WrongPrefix));
    assert!(matches!(DataRefHandler::should_process(b"RR"), MessageStatus::WrongPrefix));
}

#[test]
fn updates_are_applied_in_wire_order() {
    let mut handler = DataRefHandler::new();
    handler.new_subscribe("sim/a", 10, DataRefType::Float).unwrap();
    let mut map = handler.id_datarefs.clone();
    // The same index twice in one datagram: the later pair wins.
    let frame = update_frame(&[(1, 1.5), (1, 2.5)]);
    assert!(matches!(DataRefHandler::process_message(&mut map, &frame), MessageStatus::Decoded(2)));
    assert_eq!(handler.get_dataref("sim/a"), Some(DataRefValueType::Float(2.5f32.to_bits())));
}

#[test]
fn updates_for_unregistered_indices_are_dropped() {
    let mut handler = DataRefHandler::new();
    handler.new_subscribe("sim/a", 10, DataRefType::Float).unwrap();
    let mut map = handler.id_datarefs.clone();
    let frame = update_frame(&[(99, 4.0), (1, 8.0)]);
    assert!(matches!(DataRefHandler::process_message(&mut map, &frame), MessageStatus::Decoded(2)));
    assert_eq!(handler.get_dataref("sim/a"), Some(DataRefValueType::Float(8.0f32.to_bits())));
}

#[test]
fn malformed_datagram_changes_nothing() {
    let mut handler = DataRefHandler::new();
    handler.new_subscribe("sim/a", 10, DataRefType::Float).unwrap();
    let mut map = handler.id_datarefs.clone();
    let mut frame = update_frame(&[(1, 4.0)]);
    frame.push(7);
    assert!(matches!(
        DataRefHandler::process_message(&mut map, &frame),
        MessageStatus::InvalidLength
    ));
    assert_eq!(handler.get_dataref("sim/a"), Some(DataRefValueType::Unknown));
}

#[test]
fn value_is_unknown_before_first_update() {
    let mut handler = DataRefHandler::new();
    handler.new_subscribe("sim/a", 10, DataRefType::Int).unwrap();
    assert_eq!(handler.get_dataref("sim/a"), Some(DataRefValueType::Unknown));
    assert_eq!(handler.get_dataref("sim/never"), None);
}

#[test]
fn declared_type_tags_the_raw_bits() {
    let mut handler = DataRefHandler::new();
    handler.new_subscribe("sim/f", 1, DataRefType::Float).unwrap();
    handler.new_subscribe("sim/i", 1, DataRefType::Int).unwrap();
    handler.new_subscribe("sim/c", 1, DataRefType::Char).unwrap();
    let mut map = handler.id_datarefs.clone();
    let frame = update_frame(&[(1, 1.25), (2, 7.75), (3, 65.0)]);
    assert!(matches!(DataRefHandler::process_message(&mut map, &frame), MessageStatus::Decoded(3)));
    assert_eq!(handler.get_dataref("sim/f"), Some(DataRefValueType::Float(1.25f32.to_bits())));
    assert_eq!(handler.get_dataref("sim/i"), Some(DataRefValueType::Int(7.75f32.to_bits())));
    assert_eq!(handler.get_dataref("sim/c"), Some(DataRefValueType::Char(65.0f32.to_bits())));
}

#[test]
fn indices_are_sequential_and_never_reused() {
    let mut handler = DataRefHandler::new();
    let first = handler.new_subscribe("sim/a", 1, DataRefType::Float).unwrap();
    let second = handler.new_subscribe("sim/b", 1, DataRefType::Float).unwrap();
    assert_eq!(&first[9..13], &1i32.to_le_bytes());
    assert_eq!(&second[9..13], &2i32.to_le_bytes());
    handler.unsubscribe("sim/a").unwrap();
    let third = handler.new_subscribe("sim/c", 1, DataRefType::Float).unwrap();
    assert_eq!(&third[9..13], &3i32.to_le_bytes());
}

#[test]
fn unsubscribe_twice_reports_not_found_the_second_time() {
    let mut handler = DataRefHandler::new();
    handler.new_subscribe("sim/a", 5, DataRefType::Float).unwrap();
    assert!(handler.unsubscribe("sim/a").is_ok());
    assert_eq!(handler.unsubscribe("sim/a").unwrap_err(), XpError::NotFound);
}

#[test]
fn unsubscribe_unknown_name_reports_not_found() {
    let mut handler = DataRefHandler::new();
    assert_eq!(handler.unsubscribe("sim/ghost").unwrap_err(), XpError::NotFound);
}

#[test]
fn subscribe_then_unsubscribe_leaves_name_absent() {
    let mut handler = DataRefHandler::new();
    handler.new_subscribe("sim/a", 5, DataRefType::Float).unwrap();
    let stop = handler.unsubscribe("sim/a").unwrap();
    // The stop-streaming request carries frequency zero and the old index.
    assert_eq!(&stop[5..9], &0i32.to_le_bytes());
    assert_eq!(&stop[9..13], &1i32.to_le_bytes());
    assert_eq!(handler.get_dataref("sim/a"), None);
}

#[test]
fn subscribe_rejects_names_beyond_capacity() {
    let mut handler = DataRefHandler::new();
    let long = "x".repeat(401);
    assert_eq!(
        handler.new_subscribe(&long, 1, DataRefType::Float).unwrap_err(),
        XpError::InvalidInput
    );
    let edge = "y".repeat(400);
    assert!(handler.new_subscribe(&edge, 1, DataRefType::Float).is_ok());
}

#[test]
fn resubscribing_a_name_replaces_the_old_entry() {
    let mut handler = DataRefHandler::new();
    handler.new_subscribe("sim/a", 5, DataRefType::Float).unwrap();
    handler.new_subscribe("sim/a", 9, DataRefType::Float).unwrap();
    let mut map = handler.id_datarefs.clone();
    // Only the fresh index 2 is still registered; index 1 is gone.
    let frame = update_frame(&[(1, 3.0), (2, 6.0)]);
    assert!(matches!(DataRefHandler::process_message(&mut map, &frame), MessageStatus::Decoded(2)));
    assert_eq!(handler.get_dataref("sim/a"), Some(DataRefValueType::Float(6.0f32.to_bits())));
    assert!(handler.unsubscribe("sim/a").is_ok());
    assert_eq!(handler.get_dataref("sim/a"), None);
}

#[test]
fn unsubscribe_steps_stop_every_subscription() {
    let mut handler = DataRefHandler::new();
    handler.new_subscribe("sim/a", 1, DataRefType::Float).unwrap();
    handler.new_subscribe("sim/b", 2, DataRefType::Int).unwrap();
    handler.new_subscribe("sim/c", 3, DataRefType::Char).unwrap();
    let mut pairs: Vec<(Vec<u8>, Vec<u8>)> = Vec::new();
    while let Some(pair) = handler.unsubscribe_next() {
        pairs.push(pair);
    }
    assert_eq!(pairs.len(), 3);
    let mut names: Vec<Vec<u8>> = pairs.iter().map(|p| p.0.clone()).collect();
    names.sort();
    assert_eq!(names, vec![b"sim/a".to_vec(), b"sim/b".to_vec(), b"sim/c".to_vec()]);
    for (_, msg) in &pairs {
        assert_eq!(&msg[5..9], &0i32.to_le_bytes());
    }
    assert_eq!(handler.get_dataref("sim/a"), None);
    assert_eq!(handler.get_dataref("sim/b"), None);
    assert_eq!(handler.get_dataref("sim/c"), None);
    assert!(handler.unsubscribe_next().is_none());
}

#[test]
fn aborted_teardown_leaves_remaining_names_registered() {
    let mut handler = DataRefHandler::new();
    handler.new_subscribe("sim/a", 1, DataRefType::Float).unwrap();
    handler.new_subscribe("sim/b", 1, DataRefType::Float).unwrap();
    handler.new_subscribe("sim/c", 1, DataRefType::Float).unwrap();
    // One step succeeds, then the caller stops, as it would after a
    // failed send: exactly the names not yet reached stay registered.
    let (name, _msg) = handler.unsubscribe_next().unwrap();
    assert_eq!(handler.get_dataref(std::str::from_utf8(&name).unwrap()), None);
    let mut registered = 0;
    for n in ["sim/a", "sim/b", "sim/c"] {
        if handler.get_dataref(n).is_some() {
            registered += 1;
        }
    }
    assert_eq!(registered, 2);
}

#[test]
fn hundred_subscriptions_each_observe_their_own_value() {
    let mut handler = DataRefHandler::new();
    let names: Vec<String> = (0..100).map(|i| format!("sim/var/{i}")).collect();
    for name in &names {
        handler.new_subscribe(name, 10, DataRefType::Float).unwrap();
    }
    // Feed one datagram per index through the background path, interleaved
    // with foreground reads.
    let mut map = handler.id_datarefs.clone();
    for i in 0..100i32 {
        let value = i as f32 * 0.5;
        let frame = update_frame(&[(i + 1, value)]);
        assert!(matches!(
            DataRefHandler::process_message(&mut map, &frame),
            MessageStatus::Decoded(1)
        ));
        let read = handler.get_dataref(&names[i as usize]);
        assert_eq!(read, Some(DataRefValueType::Float(value.to_bits())));
    }
    // Every read observes the value fed for its own index, never another's.
    for i in 0..100usize {
        let expected = (i as f32) * 0.5;
        assert_eq!(
            handler.get_dataref(&names[i]),
            Some(DataRefValueType::Float(expected.to_bits()))
        );
    }
}
