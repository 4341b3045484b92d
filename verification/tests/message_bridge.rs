use leptos_bevy_canvas::messages::{message_duplex, LeptosChannelMessageSender};
use leptos_bevy_canvas::stream::{MessageId, Messages};
use leptos_bevy_canvas::systems::{
    import_and_send_leptos_messages, import_messages, read_and_export_leptos_messages,
    select_exports, ImportedMessageIds,
};
use leptos_bevy_canvas::traits::HasReceiver;

#[test]
fn identities_are_positions_on_the_stream() {
    let mut stream = Messages::new();
    assert_eq!(stream.write('x'), MessageId { id: 0 });
    assert_eq!(stream.write('y'), MessageId { id: 1 });
    assert_eq!(stream.len(), 2);
    assert_eq!(stream.get(MessageId { id: 1 }), Some(&'y'));
    assert_eq!(stream.get(MessageId { id: 2 }), None);
    stream.update();
    assert!(stream.is_empty());
    assert_eq!(stream.write('z'), MessageId { id: 0 });
}

#[test]
fn the_ledger_holds_what_import_raised() {
    let mut ledger = ImportedMessageIds::default();
    let mut stream = Messages::new();
    stream.write(10);
    import_messages(vec![11, 12], &mut ledger, &mut stream);
    assert_eq!(stream.len(), 3);
    assert_eq!(ledger.len(), 2);
    assert!(!ledger.contains(&MessageId { id: 0 }));
    assert!(ledger.contains(&MessageId { id: 1 }));
    assert!(ledger.contains(&MessageId { id: 2 }));
    assert!(!ledger.contains(&MessageId { id: 3 }));
}

#[test]
fn the_ledger_is_cleared_by_every_import() {
    let mut ledger = ImportedMessageIds::default();
    let mut stream = Messages::new();
    import_messages(vec![1, 2, 3], &mut ledger, &mut stream);
    assert_eq!(ledger.len(), 3);
    stream.update();
    import_messages(Vec::new(), &mut ledger, &mut stream);
    assert_eq!(ledger.len(), 0);
    ledger.push(MessageId { id: 4 });
    ledger.clear();
    assert!(!ledger.contains(&MessageId { id: 4 }));
}

#[test]
fn export_selects_what_the_ledger_does_not_hold() {
    let mut ledger = ImportedMessageIds::default();
    let mut stream = Messages::new();
    stream.write("before");
    import_messages(vec!["in1", "in2"], &mut ledger, &mut stream);
    stream.write("after1");
    stream.write("after2");
    assert_eq!(select_exports(&ledger, &stream), vec!["before", "after1", "after2"]);
}

#[test]
fn an_imported_item_is_not_echoed() {
    let (mut leptos, bevy) = message_duplex::<String>();
    let mut ledger = ImportedMessageIds::default();
    let mut stream = Messages::new();

    leptos.send("from the reactive side".to_string()).unwrap();

    stream.update();
    import_and_send_leptos_messages(&bevy, &mut ledger, &mut stream);
    assert_eq!(stream.len(), 1);
    read_and_export_leptos_messages(&bevy, &ledger, &stream).unwrap();

    assert!(!leptos.poll());
    assert_eq!(leptos.get(), &None);
    assert!(bevy.rx().is_empty());
}

#[test]
fn what_the_simulation_raises_itself_is_exported() {
    let (mut leptos, bevy) = message_duplex::<String>();
    let mut ledger = ImportedMessageIds::default();
    let mut stream = Messages::new();

    leptos.send("ping".to_string()).unwrap();

    stream.update();
    import_and_send_leptos_messages(&bevy, &mut ledger, &mut stream);
    stream.write("pong".to_string());
    read_and_export_leptos_messages(&bevy, &ledger, &stream).unwrap();

    assert!(leptos.poll());
    assert_eq!(leptos.get(), &Some("pong".to_string()));
    assert!(!leptos.poll());
}

#[test]
fn a_fresh_copy_raised_by_the_simulation_is_a_new_item() {
    let (mut leptos, bevy) = message_duplex::<u8>();
    let mut ledger = ImportedMessageIds::default();
    let mut stream = Messages::new();

    leptos.send(5).unwrap();
    stream.update();
    import_and_send_leptos_messages(&bevy, &mut ledger, &mut stream);
    let copy = *stream.get(MessageId { id: 0 }).unwrap();
    stream.write(copy);
    assert_eq!(select_exports(&ledger, &stream), vec![5]);
    read_and_export_leptos_messages(&bevy, &ledger, &stream).unwrap();
    assert!(leptos.poll());
    assert_eq!(leptos.get(), &Some(5));
}

#[test]
fn the_echo_stays_away_over_several_ticks() {
    let (mut leptos, bevy) = message_duplex::<u32>();
    let mut ledger = ImportedMessageIds::default();
    let mut stream = Messages::new();
    for tick in 0..5u32 {
        leptos.send(tick).unwrap();
        leptos.send(tick + 100).unwrap();
        stream.update();
        import_and_send_leptos_messages(&bevy, &mut ledger, &mut stream);
        assert_eq!(stream.len(), 2);
        assert_eq!(ledger.len(), 2);
        stream.write(tick + 1000);
        read_and_export_leptos_messages(&bevy, &ledger, &stream).unwrap();
        assert!(leptos.poll());
        assert_eq!(leptos.get(), &Some(tick + 1000));
        assert!(!leptos.poll());
    }
}
