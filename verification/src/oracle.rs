use vstd::prelude::*;

verus! {

#[verifier::external_type_specification]
#[verifier::external_body]
pub struct ExSystem(sysinfo::System);

/// Relies on sysinfo::System::new: builds an empty process-table snapshot
/// holding no data until it is refreshed.
#[verifier::external_body]
fn new_system() -> sysinfo::System {
    sysinfo::System::new()
}

/// Relies on sysinfo::System::refresh_specifics: re-reads the operating
/// system's process list into the snapshot. What it reads depends on the
/// machine's state, so nothing is promised of the snapshot.
#[verifier::external_body]
fn refresh_processes(sys: &mut sysinfo::System) {
    sys.refresh_specifics(
        sysinfo::RefreshKind::nothing().with_processes(sysinfo::ProcessRefreshKind::nothing()),
    );
}

/// Relies on sysinfo::System::processes_by_name: yields the snapshot's
/// processes whose name contains the given string. The result depends on
/// what runs on the machine, so nothing is promised of it.
#[verifier::external_body]
fn any_process_named(sys: &sysinfo::System, name: &str) -> bool {
    sys.processes_by_name(name.as_ref()).next().is_some()
}

/// The boolean activity oracle: a process-table snapshot that can be polled
/// for whether a process with a given name currently runs.
pub struct ProcessProbe {
    sys: sysinfo::System,
}

impl ProcessProbe {
    pub fn new() -> (p: Self) {
        ProcessProbe { sys: new_system() }
    }

    /// One oracle sample: refresh the process table, then look the name up.
    /// Two samples may differ even on equal arguments — the outcome is the
    /// machine's state, so the caller's logic must hold for either answer.
    pub fn process_running(&mut self, name: &str) -> (b: bool) {
        refresh_processes(&mut self.sys);
        any_process_named(&self.sys, name)
    }
}

} // verus!
