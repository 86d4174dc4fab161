use osc_manager::bus::{Broadcast, Message};
use osc_manager::config::Config;
use osc_manager::group::{member_kinds, needs_inbound, PluginGroup, PluginKind};

fn msg(address: u64, payload: u64) -> Message {
    Message { address, payload }
}

#[test]
fn compiled_plugin_set_is_fixed() {
    let ks = member_kinds();
    assert_eq!(ks, vec![PluginKind::Watch, PluginKind::PiShock]);
}

#[test]
fn only_inbound_readers_subscribe() {
    assert!(!needs_inbound(PluginKind::Watch));
    assert!(needs_inbound(PluginKind::PiShock));

    let bus = Broadcast::new(8);
    let g = PluginGroup::start(Config::default(), member_kinds(), &bus);
    assert_eq!(g.members, vec![PluginKind::Watch, PluginKind::PiShock]);
    assert_eq!(g.subscriptions.len(), 1);
}

#[test]
fn group_subscriptions_are_fresh_at_start() {
    let mut bus = Broadcast::new(8);
    bus.publish(msg(1, 10));
    bus.publish(msg(2, 20));
    let g = PluginGroup::start(Config::default(), member_kinds(), &bus);
    let mut sub = g.subscriptions[0];
    // Nothing published before the group started is ever delivered to it.
    assert_eq!(bus.drain(&mut sub), Vec::<Message>::new());
    bus.publish(msg(3, 30));
    assert_eq!(bus.drain(&mut sub), vec![msg(3, 30)]);
}
