use osc_manager::config::{Config, OscConfig};
use osc_manager::supervisor::{Action, Event, Supervisor};

fn config_with_ports(send_port: u16, receive_port: u16) -> Config {
    Config { osc: OscConfig { send_port, receive_port } }
}

#[test]
fn running_without_group_starts_one() {
    let cfg = Config::default();
    let mut s = Supervisor::new(cfg);
    let a = s.step(Event::Activity(true));
    assert_eq!(a, Action::Start(cfg));
    assert!(s.group_present);
    assert!(s.status_running);
}

#[test]
fn running_with_group_is_a_no_op() {
    let cfg = Config::default();
    let mut s = Supervisor::new(cfg);
    assert_eq!(s.step(Event::Activity(true)), Action::Start(cfg));
    assert_eq!(s.step(Event::Activity(true)), Action::Idle);
    assert!(s.group_present);
}

#[test]
fn stopped_with_group_stops_it_and_clears_status() {
    let cfg = Config::default();
    let mut s = Supervisor::new(cfg);
    assert_eq!(s.step(Event::Activity(true)), Action::Start(cfg));
    assert_eq!(s.step(Event::Activity(false)), Action::Stop);
    assert!(!s.group_present);
    assert!(!s.status_running);
}

#[test]
fn stopped_without_group_is_a_no_op() {
    let cfg = Config::default();
    let mut s = Supervisor::new(cfg);
    assert_eq!(s.step(Event::Activity(false)), Action::Idle);
    assert!(!s.group_present);
}

#[test]
fn reload_without_group_only_updates_config() {
    let old_cfg = Config::default();
    let new_cfg = config_with_ports(7000, 7001);
    let mut s = Supervisor::new(old_cfg);
    assert_eq!(s.step(Event::Reload(new_cfg)), Action::Idle);
    assert!(!s.group_present);
    assert_eq!(s.config, new_cfg);
}

#[test]
fn start_after_reload_uses_the_new_config() {
    let old_cfg = Config::default();
    let new_cfg = config_with_ports(7000, 7001);
    let mut s = Supervisor::new(old_cfg);
    assert_eq!(s.step(Event::Reload(new_cfg)), Action::Idle);
    let a = s.step(Event::Activity(true));
    assert_eq!(a, Action::Start(new_cfg));
    assert_ne!(a, Action::Start(old_cfg));
}

#[test]
fn reload_with_group_restarts_even_on_identical_config() {
    let cfg = Config::default();
    let mut s = Supervisor::new(cfg);
    assert_eq!(s.step(Event::Activity(true)), Action::Start(cfg));
    // The reloaded snapshot is byte-identical; the lifecycle action is not
    // idempotent: a stop-then-start is still directed.
    assert_eq!(s.step(Event::Reload(cfg)), Action::Restart(cfg));
    assert!(s.group_present);
    assert!(s.status_running);
}

#[test]
fn reload_with_group_restarts_with_new_config() {
    let old_cfg = Config::default();
    let new_cfg = config_with_ports(8100, 8101);
    let mut s = Supervisor::new(old_cfg);
    assert_eq!(s.step(Event::Activity(true)), Action::Start(old_cfg));
    assert_eq!(s.step(Event::Reload(new_cfg)), Action::Restart(new_cfg));
    assert_eq!(s.config, new_cfg);
}

// Replays an arbitrary interleaving against a runtime that counts live
// groups under the strictly sequenced reading of each action, checking that
// no start ever overlaps a live group and that presence is tracked exactly.
fn replay_and_count(events: &[Event]) {
    let mut s = Supervisor::new(Config::default());
    let mut live: u32 = 0;
    for e in events {
        match s.step(*e) {
            Action::Idle => {}
            Action::Start(_) => {
                assert_eq!(live, 0, "a group was started while another was live");
                live += 1;
            }
            Action::Stop => {
                assert_eq!(live, 1);
                live -= 1;
            }
            Action::Restart(_) => {
                // stop, acknowledged, then start: the count passes through 0.
                assert_eq!(live, 1);
            }
        }
        assert!(live <= 1);
        assert_eq!(live == 1, s.group_present);
    }
}

#[test]
fn no_interleaving_overlaps_groups() {
    let cfg = config_with_ports(9100, 9101);
    let interleavings: Vec<Vec<Event>> = vec![
        vec![
            Event::Activity(true),
            Event::Reload(cfg),
            Event::Activity(true),
            Event::Activity(false),
            Event::Activity(true),
        ],
        vec![
            Event::Reload(cfg),
            Event::Reload(cfg),
            Event::Activity(false),
            Event::Activity(true),
            Event::Reload(cfg),
            Event::Activity(false),
        ],
        vec![
            Event::Activity(true),
            Event::Activity(true),
            Event::Reload(cfg),
            Event::Reload(cfg),
            Event::Activity(false),
            Event::Activity(false),
        ],
    ];
    for events in &interleavings {
        replay_and_count(events);
    }
}

#[test]
fn racing_reload_and_activity_commute() {
    let cfg0 = Config::default();
    let new_cfg = config_with_ports(7100, 7101);
    let mut activity_first = Supervisor::new(cfg0);
    activity_first.step(Event::Activity(true));
    activity_first.step(Event::Reload(new_cfg));
    let mut reload_first = Supervisor::new(cfg0);
    reload_first.step(Event::Reload(new_cfg));
    reload_first.step(Event::Activity(true));
    // Either resolution order of simultaneously ready events leaves the
    // supervisor with the new snapshot and the new activity state.
    assert_eq!(activity_first, reload_first);
    assert!(activity_first.group_present);
    assert_eq!(activity_first.config, new_cfg);
}

#[test]
fn without_stopped_events_no_stop_is_directed() {
    // The disabled-gating regime: one synthetic running event at startup,
    // afterwards only reloads; no activity-driven stop can ever occur.
    let cfg = Config::default();
    let mut s = Supervisor::new(cfg);
    let events = [
        Event::Activity(true),
        Event::Reload(cfg),
        Event::Reload(cfg),
        Event::Activity(true),
    ];
    for e in events {
        assert_ne!(s.step(e), Action::Stop);
    }
    assert!(s.group_present);
}
