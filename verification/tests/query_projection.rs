use leptos_bevy_canvas::change::Watched;
use leptos_bevy_canvas::channel::Disconnected;
use leptos_bevy_canvas::queries::{single_query_signal, BevyQueryDuplex, QueryDataOwned};
use leptos_bevy_canvas::systems::{apply_projections, query_push, sync_query};
use leptos_bevy_canvas::traits::{HasReceiver, HasSender};

#[derive(Debug, Clone, Copy, PartialEq, Eq)]
struct Position(i32, i32);

#[derive(Debug, Clone, PartialEq, Eq)]
struct Name(String);

struct Selected;

type Fields = (Position, Name);
type Live = (Watched<Position>, Watched<Name>);

fn entity(x: i32, y: i32, name: &str) -> Live {
    let mut live = (Watched::new(Position(x, y)), Watched::new(Name(name.to_string())));
    live.0.end_tick();
    live.1.end_tick();
    live
}

fn settle(matches: &mut Vec<Live>) {
    for live in matches.iter_mut() {
        live.0.end_tick();
        live.1.end_tick();
    }
}

#[test]
fn a_projection_is_a_snapshot_of_every_field() {
    let live = entity(1, 2, "cube");
    let projection = <Fields as QueryDataOwned>::from_query_data(&live);
    assert_eq!(projection, (Position(1, 2), Name("cube".to_string())));

    let one = (Watched::new(5u8),);
    assert_eq!(<(u8,) as QueryDataOwned>::from_query_data(&one), (5,));
    let three = (Watched::new(1u8), Watched::new('c'), Watched::new(true));
    assert_eq!(<(u8, char, bool) as QueryDataOwned>::from_query_data(&three), (1, 'c', true));
}

#[test]
fn a_projection_is_changed_when_any_field_is() {
    let mut live = entity(0, 0, "cube");
    assert!(!<Fields as QueryDataOwned>::is_changed(&live));
    live.1.set(Name("ball".to_string()));
    assert!(<Fields as QueryDataOwned>::is_changed(&live));
    live.1.end_tick();
    live.0.set(Position(1, 1));
    assert!(<Fields as QueryDataOwned>::is_changed(&live));

    let mut three = (Watched::new(1u8), Watched::new('c'), Watched::new(true));
    three.0.end_tick();
    three.1.end_tick();
    assert!(<(u8, char, bool) as QueryDataOwned>::is_changed(&three));
    three.2.end_tick();
    assert!(!<(u8, char, bool) as QueryDataOwned>::is_changed(&three));
}

#[test]
fn writing_a_projection_sets_every_field_without_reporting_a_change() {
    let mut live = entity(0, 0, "cube");
    let projection: Fields = (Position(3, 4), Name("ball".to_string()));
    projection.set_query_data(&mut live);
    assert_eq!(live.0.get(), &Position(3, 4));
    assert_eq!(live.1.get(), &Name("ball".to_string()));
    assert!(!<Fields as QueryDataOwned>::is_changed(&live));

    let mut one = (Watched::new(5u8),);
    (6u8,).set_query_data(&mut one);
    assert_eq!(one.0.get(), &6);
    let mut three = (Watched::new(1u8), Watched::new('c'), Watched::new(true));
    (2u8, 'd', false).set_query_data(&mut three);
    assert_eq!((three.0.get(), three.1.get(), three.2.get()), (&2, &'d', &false));
}

#[test]
fn projections_are_written_in_arrival_order_and_absences_are_skipped() {
    let mut live = entity(0, 0, "cube");
    let drained: Vec<Option<Fields>> = vec![
        Some((Position(1, 1), Name("a".to_string()))),
        None,
        Some((Position(2, 2), Name("b".to_string()))),
        None,
    ];
    apply_projections(drained, &mut live);
    assert_eq!(live.0.get(), &Position(2, 2));
    assert_eq!(live.1.get(), &Name("b".to_string()));

    apply_projections(Vec::<Option<Fields>>::new(), &mut live);
    assert_eq!(live.0.get(), &Position(2, 2));
    apply_projections(vec![None::<Fields>], &mut live);
    assert_eq!(live.1.get(), &Name("b".to_string()));
}

#[test]
fn the_authority_follows_presence_and_change() {
    let mut prev_some = false;
    let mut matches: Vec<Live> = Vec::new();
    assert_eq!(query_push::<Fields>(&matches, &mut prev_some), None);
    assert!(!prev_some);

    matches.push(entity(1, 2, "cube"));
    assert_eq!(
        query_push::<Fields>(&matches, &mut prev_some),
        Some(Some((Position(1, 2), Name("cube".to_string()))))
    );
    assert!(prev_some);

    assert_eq!(query_push::<Fields>(&matches, &mut prev_some), None);
    assert!(prev_some);

    matches[0].0.set(Position(5, 5));
    assert_eq!(
        query_push::<Fields>(&matches, &mut prev_some),
        Some(Some((Position(5, 5), Name("cube".to_string()))))
    );

    matches.clear();
    assert_eq!(query_push::<Fields>(&matches, &mut prev_some), Some(None));
    assert!(!prev_some);
    assert_eq!(query_push::<Fields>(&matches, &mut prev_some), None);
}

#[test]
fn the_query_cell_starts_without_an_entity() {
    let (signal, duplex): (_, BevyQueryDuplex<Fields, Selected>) = single_query_signal();
    assert_eq!(signal.get(), &None);
    let copy = duplex.clone();
    assert_eq!(copy.duplex().rx().try_iter().collect::<Vec<_>>(), vec![None]);
    assert!(duplex.duplex().rx().is_empty());
}

#[test]
fn an_appearing_entity_is_reported() {
    let (mut signal, duplex) = single_query_signal::<Fields, Selected>();
    let duplex = duplex.duplex();
    let mut prev_some = false;
    let mut matches: Vec<Live> = Vec::new();

    assert_eq!(sync_query(duplex, &mut matches, &mut prev_some), Ok(()));
    assert!(!signal.poll());

    matches.push(entity(1, 2, "cube"));
    assert_eq!(sync_query(duplex, &mut matches, &mut prev_some), Ok(()));
    assert!(prev_some);
    assert!(signal.poll());
    assert_eq!(signal.get(), &Some((Position(1, 2), Name("cube".to_string()))));

    matches.clear();
    assert_eq!(sync_query(duplex, &mut matches, &mut prev_some), Ok(()));
    assert!(!prev_some);
    assert!(signal.poll());
    assert_eq!(signal.get(), &None);

    assert_eq!(sync_query(duplex, &mut matches, &mut prev_some), Ok(()));
    assert!(!signal.poll());
}

#[test]
fn the_simulation_wins_the_tick_in_which_it_changed_a_field() {
    let (mut signal, duplex) = single_query_signal::<Fields, Selected>();
    let duplex = duplex.duplex();
    let mut prev_some = false;
    let mut matches = vec![entity(0, 0, "cube")];
    sync_query(duplex, &mut matches, &mut prev_some).unwrap();
    settle(&mut matches);
    signal.poll();
    assert!(duplex.rx().try_iter().count() > 0);

    signal.set(Some((Position(9, 9), Name("from the reactive side".to_string())))).unwrap();
    matches[0].0.set(Position(1, 0));

    sync_query(duplex, &mut matches, &mut prev_some).unwrap();
    settle(&mut matches);
    assert_eq!(matches[0].0.get(), &Position(1, 0));
    assert_eq!(matches[0].1.get(), &Name("cube".to_string()));
    assert_eq!(duplex.rx().len(), 1);
    assert!(signal.poll());
    assert_eq!(signal.get(), &Some((Position(1, 0), Name("cube".to_string()))));
}

#[test]
fn a_pending_reactive_write_is_applied_in_a_tick_without_change() {
    let (mut signal, duplex) = single_query_signal::<Fields, Selected>();
    let duplex = duplex.duplex();
    let mut prev_some = false;
    let mut matches = vec![entity(0, 0, "cube")];
    sync_query(duplex, &mut matches, &mut prev_some).unwrap();
    settle(&mut matches);
    signal.poll();
    assert!(duplex.rx().try_iter().count() > 0);

    signal.set(Some((Position(9, 9), Name("ball".to_string())))).unwrap();
    signal.set(Some((Position(7, 7), Name("cone".to_string())))).unwrap();

    sync_query(duplex, &mut matches, &mut prev_some).unwrap();
    assert_eq!(matches[0].0.get(), &Position(7, 7));
    assert_eq!(matches[0].1.get(), &Name("cone".to_string()));
    assert!(duplex.rx().is_empty());
    assert_eq!(duplex.tx().len(), 0);

    settle(&mut matches);
    sync_query(duplex, &mut matches, &mut prev_some).unwrap();
    assert!(!signal.poll());
    assert_eq!(matches[0].0.get(), &Position(7, 7));
}

#[test]
fn the_first_match_is_the_selected_entity() {
    let (mut signal, duplex) = single_query_signal::<Fields, Selected>();
    let duplex = duplex.duplex();
    let mut prev_some = false;
    let mut matches = vec![entity(1, 1, "first"), entity(2, 2, "second")];
    sync_query(duplex, &mut matches, &mut prev_some).unwrap();
    settle(&mut matches);
    signal.poll();
    assert_eq!(signal.get(), &Some((Position(1, 1), Name("first".to_string()))));
    assert!(duplex.rx().try_iter().count() > 0);

    matches[1].0.set(Position(3, 3));
    signal.set(Some((Position(8, 8), Name("written".to_string())))).unwrap();
    sync_query(duplex, &mut matches, &mut prev_some).unwrap();
    assert_eq!(matches.len(), 2);
    assert_eq!(matches[0].0.get(), &Position(8, 8));
    assert_eq!(matches[0].1.get(), &Name("written".to_string()));
    assert_eq!(matches[1].0.get(), &Position(3, 3));
    assert_eq!(matches[1].1.get(), &Name("second".to_string()));
}

#[test]
fn inbound_writes_are_dropped_while_no_entity_is_selected() {
    let (mut signal, duplex) = single_query_signal::<Fields, Selected>();
    let duplex = duplex.duplex();
    let mut prev_some = false;
    let mut matches: Vec<Live> = Vec::new();
    signal.set(Some((Position(9, 9), Name("nobody".to_string())))).unwrap();
    assert_eq!(duplex.rx().len(), 2);
    assert_eq!(sync_query(duplex, &mut matches, &mut prev_some), Ok(()));
    assert!(duplex.rx().is_empty());
    assert!(matches.is_empty());
    assert!(!prev_some);
    assert_eq!(duplex.tx().len(), 0);
}

#[test]
fn a_snapshot_for_a_gone_reactive_side_is_surfaced() {
    let (signal, duplex) = single_query_signal::<Fields, Selected>();
    let duplex = duplex.duplex();
    drop(signal);
    let mut prev_some = false;
    let mut matches = vec![entity(4, 2, "cube")];
    assert_eq!(
        sync_query(duplex, &mut matches, &mut prev_some),
        Err(Disconnected { message: Some((Position(4, 2), Name("cube".to_string()))) })
    );
    assert!(prev_some);
    matches.clear();
    assert_eq!(
        sync_query(duplex, &mut matches, &mut prev_some),
        Err(Disconnected { message: None })
    );
    assert_eq!(sync_query(duplex, &mut matches, &mut prev_some), Ok(()));
}

#[test]
fn a_tuple_of_fifteen_fields_is_a_projection() {
    let mut live = (
        Watched::new(0u8),
        Watched::new(1u8),
        Watched::new(2u8),
        Watched::new(3u8),
        Watched::new(4u8),
        Watched::new(5u8),
        Watched::new(6u8),
        Watched::new(7u8),
        Watched::new(8u8),
        Watched::new(9u8),
        Watched::new(10u8),
        Watched::new(11u8),
        Watched::new(12u8),
        Watched::new(13u8),
        Watched::new(14u8),
    );
    type Fifteen = (u8, u8, u8, u8, u8, u8, u8, u8, u8, u8, u8, u8, u8, u8, u8);
    assert!(<Fifteen as QueryDataOwned>::is_changed(&live));
    live.0.end_tick();
    live.1.end_tick();
    live.2.end_tick();
    live.3.end_tick();
    live.4.end_tick();
    live.5.end_tick();
    live.6.end_tick();
    live.7.end_tick();
    live.8.end_tick();
    live.9.end_tick();
    live.10.end_tick();
    live.11.end_tick();
    live.12.end_tick();
    live.13.end_tick();
    assert!(<Fifteen as QueryDataOwned>::is_changed(&live));
    live.14.end_tick();
    assert!(!<Fifteen as QueryDataOwned>::is_changed(&live));

    let snapshot = <Fifteen as QueryDataOwned>::from_query_data(&live);
    assert_eq!(snapshot.0, 0);
    assert_eq!(snapshot.7, 7);
    assert_eq!(snapshot.14, 14);

    let written: Fifteen = (20, 21, 22, 23, 24, 25, 26, 27, 28, 29, 30, 31, 32, 33, 34);
    written.set_query_data(&mut live);
    assert_eq!(live.0.get(), &20);
    assert_eq!(live.6.get(), &26);
    assert_eq!(live.13.get(), &33);
    assert_eq!(live.14.get(), &34);
    assert!(!<Fifteen as QueryDataOwned>::is_changed(&live));
}

#[test]
fn a_tuple_of_four_fields_is_a_projection() {
    let mut live = (Watched::new(1i64), Watched::new("b".to_string()), Watched::new('c'), Watched::new(4u8));
    live.0.end_tick();
    live.1.end_tick();
    live.2.end_tick();
    live.3.end_tick();
    type Four = (i64, String, char, u8);
    assert_eq!(
        <Four as QueryDataOwned>::from_query_data(&live),
        (1, "b".to_string(), 'c', 4)
    );
    live.2.set('d');
    assert!(<Four as QueryDataOwned>::is_changed(&live));
    let written: Four = (5, "f".to_string(), 'g', 8);
    written.set_query_data(&mut live);
    assert_eq!(live.1.get(), "f");
    assert_eq!(live.3.get(), &8);
}
