use crossbeam_channel::bounded;
use leptos_bevy_canvas::channel::{Disconnected, CHANNEL_CAPACITY};
use leptos_bevy_canvas::events::{
    event_b2l, event_l2b, BevyEventReceiver, BevyEventSender, LeptosChannelEventSender,
    LeptosEventDuplex, LeptosEventReceiver, LeptosEventSender,
};
use leptos_bevy_canvas::messages::{
    message_b2l, message_duplex, message_l2b, BevyMessageReceiver, LeptosChannelMessageSender,
    LeptosMessageReceiver, LeptosMessageSender,
};
use leptos_bevy_canvas::stream::{MessageId, Messages};
use leptos_bevy_canvas::systems::{
    import_and_send_leptos_messages, read_and_export_leptos_messages, send_all, ImportedMessageIds,
};
use leptos_bevy_canvas::traits::{HasReceiver, HasSender};

fn raised<M: Clone>(stream: &Messages<M>) -> Vec<M> {
    (0..stream.len()).map(|id| stream.get(MessageId { id }).unwrap().clone()).collect()
}

#[test]
fn items_arrive_in_send_order() {
    let (sender, receiver) = message_l2b::<u32>();
    for n in 0..20u32 {
        assert!(sender.send(n).is_ok());
    }
    let mut ledger = ImportedMessageIds::default();
    let mut stream = Messages::new();
    import_and_send_leptos_messages(&receiver, &mut ledger, &mut stream);
    assert_eq!(raised(&stream), (0..20u32).collect::<Vec<_>>());
}

#[test]
fn a_channel_holds_fifty_items() {
    assert_eq!(CHANNEL_CAPACITY, 50);
    let (sender, receiver) = message_l2b::<usize>();
    for n in 0..CHANNEL_CAPACITY {
        assert!(sender.send(n).is_ok());
    }
    assert!(receiver.rx().is_full());
    let mut ledger = ImportedMessageIds::default();
    let mut stream = Messages::new();
    import_and_send_leptos_messages(&receiver, &mut ledger, &mut stream);
    assert_eq!(raised(&stream), (0..50usize).collect::<Vec<_>>());
    assert!(receiver.rx().is_empty());
}

#[test]
fn draining_an_empty_channel_yields_nothing() {
    let (_sender, receiver) = message_l2b::<u8>();
    let mut ledger = ImportedMessageIds::default();
    ledger.push(MessageId { id: 3 });
    let mut stream = Messages::new();
    import_and_send_leptos_messages(&receiver, &mut ledger, &mut stream);
    assert!(stream.is_empty());
    assert_eq!(ledger.len(), 0);
}

#[test]
fn send_fails_once_every_receiver_is_gone() {
    let (sender, receiver) = message_l2b::<String>();
    assert_eq!(sender.send("kept".to_string()), Ok(()));
    drop(receiver);
    assert_eq!(
        sender.send("lost".to_string()),
        Err(Disconnected { message: "lost".to_string() })
    );
}

#[test]
fn cloned_senders_feed_one_stream() {
    let (sender, receiver) = message_l2b::<u8>();
    let other = sender.clone();
    sender.send(1).unwrap();
    other.send(2).unwrap();
    sender.send(3).unwrap();
    let mut ledger = ImportedMessageIds::default();
    let mut stream = Messages::new();
    import_and_send_leptos_messages(&receiver, &mut ledger, &mut stream);
    assert_eq!(raised(&stream), vec![1, 2, 3]);
}

#[test]
fn cloned_receivers_share_what_is_buffered() {
    let (sender, receiver) = message_l2b::<u8>();
    let other = receiver.clone();
    sender.send(1).unwrap();
    sender.send(2).unwrap();
    let mut ledger = ImportedMessageIds::default();
    let mut first = Messages::new();
    import_and_send_leptos_messages(&receiver, &mut ledger, &mut first);
    sender.send(3).unwrap();
    let mut second = Messages::new();
    import_and_send_leptos_messages(&other, &mut ledger, &mut second);
    assert_eq!(raised(&first), vec![1, 2]);
    assert_eq!(raised(&second), vec![3]);
}

#[test]
fn handles_wrap_the_channel_ends_they_are_given() {
    let (tx, rx) = bounded::<u8>(4);
    let sender = LeptosMessageSender::new(tx);
    let receiver = BevyMessageReceiver::new(rx.clone());
    sender.send(9).unwrap();
    assert_eq!(receiver.rx().len(), 1);
    assert_eq!(rx.try_recv(), Ok(9));
}

#[test]
fn send_all_stops_at_the_first_refusal() {
    let (tx, rx) = bounded::<u8>(4);
    assert_eq!(send_all(&tx, vec![1, 2, 3]), Ok(()));
    assert_eq!(rx.try_iter().collect::<Vec<_>>(), vec![1, 2, 3]);
    drop(rx);
    assert_eq!(send_all(&tx, vec![4, 5]), Err(Disconnected { message: 4 }));
    assert_eq!(send_all(&tx, Vec::new()), Ok(()));
}

#[test]
fn export_reaches_the_reactive_side() {
    let (mut receiver, sender) = message_b2l::<String>();
    assert_eq!(receiver.get(), &None);
    let ledger = ImportedMessageIds::default();
    let mut stream = Messages::new();
    stream.write("first".to_string());
    stream.write("second".to_string());
    assert!(read_and_export_leptos_messages(&sender, &ledger, &stream).is_ok());
    assert_eq!(sender.tx().len(), 2);
    assert!(receiver.poll());
    assert_eq!(receiver.get(), &Some("second".to_string()));
}

#[test]
fn export_on_a_disconnected_channel_is_surfaced() {
    let (receiver, sender) = message_b2l::<u8>();
    drop(receiver);
    let ledger = ImportedMessageIds::default();
    let mut stream = Messages::new();
    assert_eq!(read_and_export_leptos_messages(&sender, &ledger, &stream), Ok(()));
    stream.write(7);
    stream.write(8);
    assert_eq!(
        read_and_export_leptos_messages(&sender, &ledger, &stream),
        Err(Disconnected { message: 7 })
    );
}

#[test]
fn three_buffered_items_give_one_notification() {
    let (mut receiver, sender) = message_b2l::<String>();
    let tx = sender.tx();
    tx.send("a".to_string()).unwrap();
    tx.send("ab".to_string()).unwrap();
    tx.send("abc".to_string()).unwrap();
    let mut notifications = 0;
    if receiver.poll() {
        notifications += 1;
    }
    assert_eq!(notifications, 1);
    assert_eq!(receiver.get(), &Some("abc".to_string()));
    if receiver.poll() {
        notifications += 1;
    }
    assert_eq!(notifications, 1);
    assert_eq!(receiver.get(), &Some("abc".to_string()));
}

#[test]
fn a_receiver_starts_with_the_cell_it_is_given() {
    let (tx, rx) = bounded::<u8>(2);
    let mut receiver = LeptosMessageReceiver::new(rx, Some(5));
    assert_eq!(receiver.get(), &Some(5));
    assert!(!receiver.poll());
    assert_eq!(receiver.get(), &Some(5));
    tx.send(6).unwrap();
    assert!(receiver.poll());
    assert_eq!(receiver.get(), &Some(6));
}

#[test]
fn a_duplex_pair_carries_both_directions() {
    let (mut leptos, bevy) = message_duplex::<u8>();
    assert_eq!(leptos.get(), &None);
    leptos.send(1).unwrap();
    bevy.tx().send(2).unwrap();
    assert_eq!(bevy.rx().try_iter().collect::<Vec<_>>(), vec![1]);
    assert!(leptos.poll());
    assert_eq!(leptos.get(), &Some(2));
}

#[test]
fn event_handles_carry_events_as_message_handles_carry_messages() {
    let (sender, receiver) = event_l2b::<u8>();
    sender.send(1).unwrap();
    sender.clone().send(2).unwrap();
    assert_eq!(receiver.clone().rx().try_iter().collect::<Vec<_>>(), vec![1, 2]);
    drop(receiver);
    assert_eq!(sender.send(3), Err(Disconnected { message: 3 }));

    let (mut receiver, sender) = event_b2l::<u8>();
    assert_eq!(receiver.get(), &None);
    sender.tx().send(4).unwrap();
    sender.clone().tx().send(5).unwrap();
    assert!(receiver.poll());
    assert_eq!(receiver.get(), &Some(5));
    assert!(!receiver.poll());
}

#[test]
fn event_handles_wrap_the_channel_ends_they_are_given() {
    let (tx_l2b, rx_l2b) = bounded::<u8>(2);
    let (tx_b2l, rx_b2l) = bounded::<u8>(2);
    let sender = LeptosEventSender::new(tx_l2b.clone());
    let receiver = BevyEventReceiver::new(rx_l2b.clone());
    sender.send(1).unwrap();
    assert_eq!(receiver.rx().try_recv(), Ok(1));

    let bevy = BevyEventSender::new(tx_b2l.clone());
    let mut leptos = LeptosEventReceiver::new(rx_b2l.clone(), None);
    bevy.tx().send(2).unwrap();
    assert!(leptos.poll());
    assert_eq!(leptos.get(), &Some(2));

    let mut duplex = LeptosEventDuplex::new(rx_b2l, Some(7), tx_l2b);
    assert_eq!(duplex.get(), &Some(7));
    duplex.send(3).unwrap();
    assert_eq!(rx_l2b.try_recv(), Ok(3));
    tx_b2l.send(4).unwrap();
    assert!(duplex.poll());
    assert_eq!(duplex.get(), &Some(4));
}
