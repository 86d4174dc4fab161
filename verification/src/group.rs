use crate::bus::{Broadcast, Subscriber};
use crate::config::Config;
use vstd::prelude::*;

verus! {

/// The closed set of plugin kinds compiled into the manager. A kind is
/// selected by configuration, never loaded at runtime.
#[derive(Clone, Copy, Debug, PartialEq, Eq)]
pub enum PluginKind {
    Watch,
    PiShock,
}

/// Whether a plugin kind consumes inbound messages. Only such a kind takes a
/// broadcast subscription when its group starts; the watcher only produces.
pub open spec fn reads_inbound(k: PluginKind) -> bool {
    k matches PluginKind::PiShock
}

/// How many of the kinds consume inbound messages.
pub open spec fn inbound_count(ks: Seq<PluginKind>) -> int
    decreases ks.len(),
{
    if ks.len() == 0 {
        0
    } else {
        inbound_count(ks.drop_last()) + (if reads_inbound(ks.last()) {
            1int
        } else {
            0int
        })
    }
}

/// Executable twin of `reads_inbound`.
pub fn needs_inbound(k: PluginKind) -> (b: bool)
    ensures
        b == reads_inbound(k),
{
    match k {
        PluginKind::Watch => false,
        PluginKind::PiShock => true,
    }
}

/// The full compiled plugin set, in start order.
pub fn member_kinds() -> (ks: Vec<PluginKind>)
    ensures
        ks@ == seq![PluginKind::Watch, PluginKind::PiShock],
{
    let mut ks: Vec<PluginKind> = Vec::new();
    ks.push(PluginKind::Watch);
    ks.push(PluginKind::PiShock);
    proof {
        assert(ks@ =~= seq![PluginKind::Watch, PluginKind::PiShock]);
    }
    ks
}

/// One started plugin group: the configuration snapshot its members share,
/// the member kinds, and — for each member that reads inbound messages — the
/// broadcast subscription taken at the moment the group started.
pub struct PluginGroup {
    pub config: Config,
    pub members: Vec<PluginKind>,
    pub subscriptions: Vec<Subscriber>,
}

impl PluginGroup {
    /// Start a group: every inbound-reading member takes a fresh
    /// subscription at this very instant, so no member ever observes a
    /// message that was published before the group started.
    pub fn start(config: Config, members: Vec<PluginKind>, bus: &Broadcast) -> (g: PluginGroup)
        requires
            bus.wf(),
        ensures
            g.config == config,
            g.members == members,
            g.subscriptions.len() == inbound_count(members@),
            forall|i: int|
                0 <= i < g.subscriptions.len() ==> g.subscriptions[i].cursor == bus.published(),
    {
        let ghost all = members@;
        let mut subscriptions: Vec<Subscriber> = Vec::new();
        let mut i: usize = 0;
        while i < members.len()
            invariant
                bus.wf(),
                i <= members.len(),
                all == members@,
                subscriptions.len() == inbound_count(all.take(i as int)),
                forall|j: int|
                    0 <= j < subscriptions.len() ==> subscriptions[j].cursor == bus.published(),
            decreases members.len() - i,
        {
            proof {
                assert(all.take(i + 1).drop_last() =~= all.take(i as int));
                assert(all.take(i + 1).last() == all[i as int]);
            }
            if needs_inbound(members[i]) {
                subscriptions.push(bus.subscribe());
            }
            i = i + 1;
        }
        proof {
            assert(all.take(members@.len() as int) =~= all);
        }
        PluginGroup { config, members, subscriptions }
    }
}

} // verus!
