use crossbeam_channel::bounded;
use leptos_bevy_canvas::app_extension::{
    insert_resource, insert_resources, sync_leptos_signal_with_resource,
    sync_leptos_signal_with_state,
};
use leptos_bevy_canvas::change::Watched;
use leptos_bevy_canvas::channel::Disconnected;
use leptos_bevy_canvas::events::{event_duplex, BevyEventDuplex, LeptosChannelEventSender};
use leptos_bevy_canvas::resources::signal_resource;
use leptos_bevy_canvas::signal_synced::signal_synced;
use leptos_bevy_canvas::systems::{
    apply_to_resource, resource_push, sync_signal_resource, sync_signal_state,
};
use leptos_bevy_canvas::traits::{HasReceiver, HasSender};
use leptos_bevy_canvas::utils::{apply_drained, apply_drained_some};

#[derive(Debug, Clone, Copy, PartialEq, Eq)]
enum Mode {
    Idle,
    Running,
    Paused,
}

#[test]
fn a_watched_value_reports_its_writes() {
    let mut value = Watched::new(1);
    assert!(value.is_changed());
    assert!(value.is_added());
    value.end_tick();
    assert!(!value.is_changed());
    assert!(!value.is_added());
    assert_eq!(value.get(), &1);
    value.overwrite(2);
    assert_eq!(value.get(), &2);
    assert!(!value.is_changed());
    value.set(3);
    assert_eq!(value.get(), &3);
    assert!(value.is_changed());
    assert!(!value.is_added());
}

#[test]
fn the_last_drained_value_wins() {
    let mut cell = "old".to_string();
    assert!(apply_drained(&mut cell, vec!["a".to_string(), "ab".to_string(), "abc".to_string()]));
    assert_eq!(cell, "abc");
    assert!(!apply_drained(&mut cell, Vec::new()));
    assert_eq!(cell, "abc");

    let mut cell = None;
    assert!(!apply_drained_some(&mut cell, Vec::<u8>::new()));
    assert_eq!(cell, None);
    assert!(apply_drained_some(&mut cell, vec![4, 5]));
    assert_eq!(cell, Some(5));
}

#[test]
fn a_mirror_is_pushed_only_when_it_changed_and_was_not_just_added() {
    let mut mirror = Watched::new(Mode::Idle);
    assert_eq!(resource_push(&mirror), None);
    mirror.end_tick();
    assert_eq!(resource_push(&mirror), None);
    mirror.set(Mode::Running);
    assert_eq!(resource_push(&mirror), Some(Mode::Running));
}

#[test]
fn inbound_values_are_applied_in_arrival_order() {
    let mut mirror = Watched::new(Mode::Idle);
    mirror.end_tick();
    apply_to_resource(&mut mirror, vec![Mode::Running, Mode::Paused]);
    assert_eq!(mirror.get(), &Mode::Paused);
    assert!(!mirror.is_changed());
    apply_to_resource(&mut mirror, Vec::new());
    assert_eq!(mirror.get(), &Mode::Paused);
}

#[test]
fn a_synced_cell_shows_its_initial_value_and_sends_it() {
    let (signal, duplex) = signal_synced(7u8);
    assert_eq!(signal.get(), &7);
    assert_eq!(duplex.rx().try_iter().collect::<Vec<_>>(), vec![7]);

    let (signal, duplex) = signal_resource(Mode::Idle);
    assert_eq!(signal.get(), &Mode::Idle);
    assert_eq!(duplex.rx().try_iter().collect::<Vec<_>>(), vec![Mode::Idle]);
}

#[test]
fn a_reactive_write_is_pushed_at_once() {
    let (mut signal, duplex) = signal_resource(Mode::Idle);
    assert_eq!(signal.set(Mode::Running), Ok(()));
    assert_eq!(signal.get(), &Mode::Running);
    assert_eq!(signal.set(Mode::Paused), Ok(()));
    assert_eq!(
        duplex.rx().try_iter().collect::<Vec<_>>(),
        vec![Mode::Idle, Mode::Running, Mode::Paused]
    );
}

#[test]
fn a_reactive_write_to_a_gone_simulation_is_surfaced() {
    let (mut signal, duplex) = signal_synced("x".to_string());
    drop(duplex);
    assert_eq!(
        signal.set("y".to_string()),
        Err(Disconnected { message: "y".to_string() })
    );
    assert_eq!(signal.get(), "y");
}

#[test]
fn registration_takes_the_initial_value_as_the_resource() {
    let (_signal, duplex) = signal_resource(Mode::Paused);
    let mut resource = None;
    sync_leptos_signal_with_resource(&mut resource, &duplex);
    let resource = resource.unwrap();
    assert_eq!(resource.get(), &Mode::Paused);
    assert!(resource.is_added());
    assert!(resource.is_changed());
}

#[test]
fn registration_with_nothing_sent_leaves_the_resource_alone() {
    let (_leptos, bevy) = event_duplex::<u8>();
    let mut resource: Option<Watched<u8>> = None;
    sync_leptos_signal_with_resource(&mut resource, &bevy);
    assert!(resource.is_none());

    let mut state = Some(Watched::new(3u8));
    state.as_mut().unwrap().end_tick();
    sync_leptos_signal_with_state(&mut state, &bevy);
    let state = state.unwrap();
    assert_eq!(state.get(), &3);
    assert!(!state.is_changed());
}

#[test]
fn inserting_into_a_present_resource_changes_but_does_not_add_it() {
    let mut resource = Some(Watched::new(1u8));
    resource.as_mut().unwrap().end_tick();
    insert_resource(&mut resource, 2);
    {
        let present = resource.as_ref().unwrap();
        assert_eq!(present.get(), &2);
        assert!(present.is_changed());
        assert!(!present.is_added());
    }
    insert_resources(&mut resource, vec![3, 4]);
    assert_eq!(resource.as_ref().unwrap().get(), &4);

    let mut empty: Option<Watched<u8>> = None;
    insert_resources(&mut empty, Vec::new());
    assert!(empty.is_none());
    insert_resources(&mut empty, vec![8, 9]);
    let added = empty.unwrap();
    assert_eq!(added.get(), &9);
    assert!(added.is_added());
}

#[test]
fn a_just_added_mirror_is_not_pushed() {
    let (mut signal, duplex) = signal_resource(Mode::Idle);
    let mut resource = None;
    sync_leptos_signal_with_resource(&mut resource, &duplex);
    let mut mirror = resource.unwrap();
    assert_eq!(sync_signal_resource(&mut mirror, &duplex), Ok(()));
    assert!(!signal.poll());
    assert_eq!(signal.get(), &Mode::Idle);
    assert_eq!(mirror.get(), &Mode::Idle);
}

#[test]
fn a_reactive_write_reaches_the_mirror_in_the_next_tick() {
    let (mut signal, duplex) = signal_resource(Mode::Idle);
    let mut resource = None;
    sync_leptos_signal_with_resource(&mut resource, &duplex);
    let mut mirror = resource.unwrap();
    mirror.end_tick();

    signal.set(Mode::Running).unwrap();
    assert_eq!(sync_signal_resource(&mut mirror, &duplex), Ok(()));
    mirror.end_tick();
    assert_eq!(mirror.get(), &Mode::Running);
    assert_eq!(signal.get(), mirror.get());

    assert_eq!(sync_signal_resource(&mut mirror, &duplex), Ok(()));
    assert!(!signal.poll());
    assert_eq!(signal.get(), mirror.get());
}

#[test]
fn a_simulation_change_reaches_the_cell_at_the_next_poll() {
    let (mut signal, duplex) = signal_resource(Mode::Idle);
    let mut resource = None;
    sync_leptos_signal_with_resource(&mut resource, &duplex);
    let mut mirror = resource.unwrap();
    mirror.end_tick();

    mirror.set(Mode::Paused);
    mirror.set(Mode::Running);
    assert_eq!(sync_signal_resource(&mut mirror, &duplex), Ok(()));
    mirror.end_tick();
    assert_eq!(duplex.tx().len(), 1);
    assert!(signal.poll());
    assert_eq!(signal.get(), &Mode::Running);
    assert_eq!(signal.get(), mirror.get());

    assert_eq!(sync_signal_resource(&mut mirror, &duplex), Ok(()));
    assert!(!signal.poll());
    assert_eq!(signal.get(), mirror.get());
}

#[test]
fn divergent_sides_converge_once_one_of_them_writes() {
    let (leptos, bevy) = event_duplex::<Mode>();
    let mut mirror = Watched::new(Mode::Idle);
    mirror.end_tick();
    let mut cell = Mode::Paused;

    assert_eq!(sync_signal_resource(&mut mirror, &bevy), Ok(()));
    assert_eq!(mirror.get(), &Mode::Idle);
    assert_eq!(cell, Mode::Paused);

    cell = Mode::Running;
    leptos.send(cell).unwrap();
    assert_eq!(sync_signal_resource(&mut mirror, &bevy), Ok(()));
    assert_eq!(mirror.get(), &cell);
}

#[test]
fn every_inbound_value_is_taken_in_one_tick() {
    let (mut signal, duplex) = signal_synced(0u32);
    let mut mirror = Watched::new(99u32);
    mirror.end_tick();
    for n in 1..=10u32 {
        signal.set(n).unwrap();
    }
    assert_eq!(sync_signal_state(&mut mirror, &duplex), Ok(()));
    assert_eq!(mirror.get(), &10);
    assert!(duplex.rx().is_empty());
}

#[test]
fn a_push_to_a_gone_reactive_side_is_surfaced_before_anything_is_applied() {
    let (tx_l2b, rx_l2b) = bounded::<u8>(50);
    let (tx_b2l, rx_b2l) = bounded::<u8>(50);
    let bevy = BevyEventDuplex::new(rx_l2b, tx_b2l);
    let mut mirror = Watched::new(1u8);
    mirror.end_tick();
    tx_l2b.send(5).unwrap();
    drop(rx_b2l);
    mirror.set(2);
    assert_eq!(sync_signal_resource(&mut mirror, &bevy), Err(Disconnected { message: 2 }));
    assert_eq!(mirror.get(), &2);
    assert_eq!(bevy.rx().len(), 1);
}
