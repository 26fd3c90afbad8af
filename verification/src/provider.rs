//! The OS-metrics provider boundary. The provider's calls go through small
//! trusted wrappers; everything its answers decide is done by verified
//! functions that take those answers as arguments.

use vstd::prelude::*;

use crate::errors::PeekError;
use crate::sampler::{Sample, Sampler};

verus! {

#[verifier::external_type_specification]
#[verifier::external_body]
pub struct ExSystem(sysinfo::System);

/// Relies on sysinfo::System::refresh_processes: brings the provider's
/// process table up to date, dropping dead processes.
#[verifier::external_body]
fn refresh_processes(sys: &mut sysinfo::System) {
    sys.refresh_processes(sysinfo::ProcessesToUpdate::All, true);
}

/// Relies on sysinfo::System::refresh_cpu_all: brings the provider's list of
/// logical CPUs up to date.
#[verifier::external_body]
fn refresh_cpus(sys: &mut sysinfo::System) {
    sys.refresh_cpu_all();
}

/// Relies on sysinfo::System::cpus: the logical CPUs known after a refresh;
/// the list may still be empty when nothing was refreshed.
#[verifier::external_body]
fn cpu_count(sys: &sysinfo::System) -> usize {
    sys.cpus().len()
}

/// Relies on sysinfo::System::process: `Some` exactly when the process table,
/// as last refreshed, holds the given identifier.
#[verifier::external_body]
fn process_exists(sys: &sysinfo::System, pid: u32) -> bool {
    sys.process(sysinfo::Pid::from_u32(pid)).is_some()
}

/// Relies on uuid::Uuid::new_v4: a freshly drawn random 128-bit identifier.
#[verifier::external_body]
fn random_run_id() -> u128 {
    uuid::Uuid::new_v4().as_u128()
}

/// Decides the attach outcome from the provider's answer: an existing process
/// is attached to under its own identifier, a missing one is refused.
pub fn attach_decision(pid: u32, exists: bool) -> (r: Result<u32, PeekError>)
    ensures
        exists ==> r == Ok::<u32, PeekError>(pid),
        !exists ==> r == Err::<u32, PeekError>(PeekError::NoSuchProcess),
{
    if exists {
        Ok(pid)
    } else {
        Err(PeekError::NoSuchProcess)
    }
}

/// Attaches to a pre-existing process: refreshes the provider and validates
/// that the identifier names a live process. Whatever the provider answers,
/// success returns the same identifier and the only failure is
/// `NoSuchProcess`.
pub fn attach(sys: &mut sysinfo::System, pid: u32) -> (r: Result<u32, PeekError>)
    ensures
        r is Ok ==> r->Ok_0 == pid,
        r is Err ==> r->Err_0 == PeekError::NoSuchProcess,
{
    refresh_processes(sys);
    let exists = process_exists(sys, pid);
    attach_decision(pid, exists)
}

/// The normalization divisor derived from a reported CPU count: the count
/// itself, floored at one so normalization never divides by zero.
pub fn effective_cpu_count(n: usize) -> (r: u64)
    ensures
        n == 0 ==> r == 1,
        n > 0 ==> r == n as u64,
        r >= 1,
{
    if n == 0 {
        1
    } else {
        n as u64
    }
}

/// The logical CPU count used to normalize CPU percentages: the provider's
/// figure after a refresh, floored at one.
pub fn provider_cpu_count(sys: &mut sysinfo::System) -> (r: u64)
    ensures
        r >= 1,
{
    refresh_cpus(sys);
    let n = cpu_count(sys);
    effective_cpu_count(n)
}

impl Sampler {
    /// Starts a run against the given target under a freshly drawn run
    /// identifier.
    pub fn start(pid: u32, owned: bool, cpus: u64) -> (s: Sampler)
        requires
            cpus >= 1,
        ensures
            s.wf(),
            s.pid == pid,
            s.owned == owned,
            s.cpus == cpus,
            s.state is Running,
            s.samples@ == Seq::<Sample>::empty(),
    {
        let run_id = random_run_id();
        Sampler::new(run_id, pid, owned, cpus)
    }
}

} // verus!
