use duck_race::inputs::{
    drain, end_closed, home_closed, level_slot, spawn_input, Event, EventQueue, GoButton, Input,
    Levels, Slot, LONG_PRESS_MS, QUEUE_LEN,
};

#[test]
fn queue_gives_back_what_was_sent_in_order() {
    let mut q = EventQueue::new();
    assert_eq!(q.receive(), None);
    assert!(q.send(Event::Select(2)));
    assert!(q.send(Event::Go));
    assert!(q.send(Event::EndHit(1)));
    assert_eq!(q.receive(), Some(Event::Select(2)));
    assert!(q.send(Event::Up));
    assert_eq!(q.receive(), Some(Event::Go));
    assert_eq!(q.receive(), Some(Event::EndHit(1)));
    assert_eq!(q.receive(), Some(Event::Up));
    assert_eq!(q.receive(), None);
}

#[test]
fn a_full_queue_takes_no_more() {
    let mut q = EventQueue::new();
    for i in 0..QUEUE_LEN {
        assert!(q.send(Event::Select(i as u8)));
    }
    assert!(!q.send(Event::Go));
    for i in 0..QUEUE_LEN {
        assert_eq!(q.receive(), Some(Event::Select(i as u8)));
    }
    assert_eq!(q.receive(), None);
    assert!(q.send(Event::Go));
}

#[test]
fn drain_discards_every_stale_event() {
    let mut q = EventQueue::new();
    drain(&mut q);
    assert_eq!(q.receive(), None);
    for _ in 0..QUEUE_LEN {
        assert!(q.send(Event::EndHit(3)));
    }
    drain(&mut q);
    assert_eq!(q.receive(), None);
    assert!(q.send(Event::EndHit(0)));
    assert_eq!(q.receive(), Some(Event::EndHit(0)));
}

#[test]
fn only_limit_switches_have_a_level() {
    assert_eq!(level_slot(Event::StartHit(0)), Some(Slot::Home(0)));
    assert_eq!(level_slot(Event::EndHit(3)), Some(Slot::End(3)));
    assert_eq!(level_slot(Event::StartHit(4)), None);
    assert_eq!(level_slot(Event::EndHit(200)), None);
    assert_eq!(level_slot(Event::Select(0)), None);
    assert_eq!(level_slot(Event::Go), None);
    assert_eq!(level_slot(Event::GoLong), None);
    assert_eq!(level_slot(Event::Up), None);
    assert_eq!(level_slot(Event::Down), None);
}

#[test]
fn levels_start_open_and_lanes_that_do_not_exist_stay_open() {
    let levels = Levels::new();
    for l in 0..6 {
        assert!(!home_closed(&levels, l));
        assert!(!end_closed(&levels, l));
    }
    let all = Levels { home: [true; 4], end: [true; 4] };
    assert!(home_closed(&all, 3));
    assert!(!home_closed(&all, 4));
    assert!(end_closed(&all, 3));
    assert!(!end_closed(&all, usize::MAX));
}

#[test]
fn seeding_sets_one_slot() {
    let mut levels = Levels::new();
    spawn_input(&mut levels, Event::StartHit(1), true);
    assert_eq!(levels.home, [false, true, false, false]);
    assert_eq!(levels.end, [false; 4]);
    spawn_input(&mut levels, Event::EndHit(2), true);
    spawn_input(&mut levels, Event::Go, true);
    spawn_input(&mut levels, Event::StartHit(1), false);
    assert_eq!(levels.home, [false; 4]);
    assert_eq!(levels.end, [false, false, true, false]);
}

#[test]
fn a_switch_closed_at_boot_does_not_latch() {
    let mut levels = Levels::new();
    let mut input = Input::start(Event::StartHit(3), true, &mut levels);
    assert!(home_closed(&levels, 3));
    assert!(!input.waits_for_low());
    assert_eq!(input.settle(false, &mut levels), None);
    assert!(!home_closed(&levels, 3));
    assert!(input.waits_for_low());
    assert_eq!(input.settle(true, &mut levels), Some(Event::StartHit(3)));
    assert!(home_closed(&levels, 3));
}

#[test]
fn one_event_for_each_press() {
    let mut levels = Levels::new();
    let mut input = Input::start(Event::Select(1), false, &mut levels);
    let mut seen = 0;
    for low in [true, true, false, false, true, false, true, true] {
        if let Some(ev) = input.settle(low, &mut levels) {
            assert_eq!(ev, Event::Select(1));
            seen += 1;
        }
    }
    assert_eq!(seen, 3);
    assert_eq!(levels.home, [false; 4]);
    assert_eq!(levels.end, [false; 4]);
}

#[test]
fn a_bounce_changes_nothing() {
    let mut levels = Levels::new();
    let mut input = Input::start(Event::EndHit(0), false, &mut levels);
    assert_eq!(input.settle(false, &mut levels), None);
    assert_eq!(input, Input { ev: Event::EndHit(0), closed: false });
    assert!(!end_closed(&levels, 0));
}

#[test]
fn go_is_long_from_the_threshold_on() {
    let held = |us: u64| GoButton::debounced(true, 1_000).released(1_000 + us);
    assert_eq!(LONG_PRESS_MS, 800);
    assert_eq!(held(0), Some(Event::Go));
    assert_eq!(held(799_999), Some(Event::Go));
    assert_eq!(held(800_000), Some(Event::GoLong));
    assert_eq!(held(5_000_000), Some(Event::GoLong));
}

#[test]
fn go_is_timed_from_the_falling_edge() {
    // Down at 0, debounced at 25 ms, up at 810 ms.
    let go = GoButton::debounced(true, 0);
    assert_eq!(go.released(810_000), Some(Event::GoLong));
    assert_eq!(go.released(799_000), Some(Event::Go));
}

#[test]
fn a_go_bounce_is_no_press() {
    assert_eq!(GoButton::debounced(false, 7), GoButton::Up);
    assert_eq!(GoButton::Up.released(900_000), None);
}
