//! The sampling loop as a state machine: one `step` per tick, driven from
//! outside with the three per-tick events (exit notification, metrics query
//! result, interrupt notification), so the loop's decisions can be checked
//! for every possible interleaving of those events.

use vstd::prelude::*;

verus! {

/// The failure that can end a run mid-loop: the metrics provider reports the
/// target process gone.
#[derive(Clone, Copy, Debug, PartialEq, Eq, Structural)]
pub enum LoopError {
    ProcessDisappeared,
}

/// The states of the sampling loop.
#[derive(Clone, Copy, Debug, PartialEq, Eq, Structural)]
pub enum RunState {
    Running,
    StoppedByExit,
    StoppedByInterrupt,
    StoppedByError(LoopError),
}

/// What the loop driver must do after a step.
#[derive(Clone, Copy, Debug, PartialEq, Eq, Structural)]
pub enum StepAction {
    /// Sleep for the sampling interval, then take the next step.
    Continue,
    /// The loop has ended; leave the target process alone.
    Stop,
    /// The loop has ended on an interrupt and the target was spawned by this
    /// tool; terminate the target, then stop.
    StopAndKill,
}

/// The cause with which a finished run stopped.
#[derive(Clone, Copy, Debug, PartialEq, Eq, Structural)]
pub enum StopCause {
    ProcessExited,
    Interrupted,
    ProcessDisappeared,
}

/// What one metrics query reports of the target process. CPU usage is carried
/// in hundredths of a percent, summed over all cores and not yet normalized.
#[derive(Debug, Clone, PartialEq)]
pub struct Metrics {
    pub name: String,
    pub cpu_total_centi: u64,
    pub mem: u64,
    pub virt_mem: u64,
    pub disk_read: u64,
    pub disk_write: u64,
}

/// One measurement of the target process. CPU usage is in hundredths of a
/// percent, normalized by the logical CPU count.
#[derive(Debug, Clone, PartialEq)]
pub struct Sample {
    pub run_id: u128,
    pub seq: u64,
    pub pid: u32,
    pub name: String,
    pub cpu_centi: u64,
    pub mem: u64,
    pub virt_mem: u64,
    pub disk_read: u64,
    pub disk_write: u64,
}

/// The sample buffer invariant: sequence numbers are exactly the indices, and
/// every sample carries the run's identifier and process identifier.
pub open spec fn samples_wf(samples: Seq<Sample>, run_id: u128, pid: u32) -> bool {
    forall|i: int|
        0 <= i < samples.len() ==> {
            let s = #[trigger] samples[i];
            &&& s.seq as int == i
            &&& s.run_id == run_id
            &&& s.pid == pid
        }
}

/// The sampling loop's state: the run identity, the target, and the samples
/// collected so far.
pub struct Sampler {
    pub run_id: u128,
    pub pid: u32,
    /// Whether this tool spawned the target (and so may terminate it), as
    /// opposed to having attached to a pre-existing process.
    pub owned: bool,
    /// The logical CPU count by which per-process CPU usage is normalized.
    pub cpus: u64,
    pub state: RunState,
    pub samples: Vec<Sample>,
}

impl Sampler {
    /// Well-formedness: at least one CPU, and the sample buffer invariant.
    pub open spec fn wf(self) -> bool {
        &&& self.cpus >= 1
        &&& samples_wf(self.samples@, self.run_id, self.pid)
    }

    /// The sample the next successful poll appends, built from the queried
    /// metrics: the next sequence number, the run's identity, and the CPU
    /// figure divided by the logical CPU count.
    pub open spec fn next_sample(self, m: Metrics) -> Sample {
        Sample {
            run_id: self.run_id,
            seq: self.samples@.len() as u64,
            pid: self.pid,
            name: m.name,
            cpu_centi: m.cpu_total_centi / self.cpus,
            mem: m.mem,
            virt_mem: m.virt_mem,
            disk_read: m.disk_read,
            disk_write: m.disk_write,
        }
    }

    /// Starts a run in the `Running` state with an empty sample buffer.
    pub fn new(run_id: u128, pid: u32, owned: bool, cpus: u64) -> (s: Sampler)
        requires
            cpus >= 1,
        ensures
            s.wf(),
            s.run_id == run_id,
            s.pid == pid,
            s.owned == owned,
            s.cpus == cpus,
            s.state is Running,
            s.samples@ == Seq::<Sample>::empty(),
    {
        let s = Sampler {
            run_id,
            pid,
            owned,
            cpus,
            state: RunState::Running,
            samples: Vec::new(),
        };
        s
    }

    /// One iteration of the sampling loop, in the fixed order: pending exit
    /// notification first, then the metrics query result, then the sample,
    /// then the pending interrupt. The returned action tells the driver what
    /// to do next; on an interrupt the target is terminated only when this
    /// tool spawned it.
    pub fn step(&mut self, exit_pending: bool, metrics: Option<Metrics>, interrupt_pending: bool)
        -> (action: StepAction)
        requires
            old(self).wf(),
            old(self).state is Running,
        ensures
            final(self).wf(),
            final(self).run_id == old(self).run_id,
            final(self).pid == old(self).pid,
            final(self).owned == old(self).owned,
            final(self).cpus == old(self).cpus,
            exit_pending ==> {
                &&& final(self).state is StoppedByExit
                &&& final(self).samples@ == old(self).samples@
                &&& action is Stop
            },
            !exit_pending && metrics is None ==> {
                &&& final(self).state == RunState::StoppedByError(LoopError::ProcessDisappeared)
                &&& final(self).samples@ == old(self).samples@
                &&& action is Stop
            },
            !exit_pending && metrics is Some ==> final(self).samples@ == old(self).samples@.push(
                old(self).next_sample(metrics->0),
            ),
            !exit_pending && metrics is Some && interrupt_pending ==> {
                &&& final(self).state is StoppedByInterrupt
                &&& action == (if old(self).owned {
                    StepAction::StopAndKill
                } else {
                    StepAction::Stop
                })
            },
            !exit_pending && metrics is Some && !interrupt_pending ==> {
                &&& final(self).state is Running
                &&& action is Continue
            },
    {
        if exit_pending {
            self.state = RunState::StoppedByExit;
            return StepAction::Stop;
        }
        match metrics {
            None => {
                self.state = RunState::StoppedByError(LoopError::ProcessDisappeared);
                StepAction::Stop
            },
            Some(m) => {
                let seq: u64 = self.samples.len() as u64;
                let sample = Sample {
                    run_id: self.run_id,
                    seq,
                    pid: self.pid,
                    name: m.name,
                    cpu_centi: m.cpu_total_centi / self.cpus,
                    mem: m.mem,
                    virt_mem: m.virt_mem,
                    disk_read: m.disk_read,
                    disk_write: m.disk_write,
                };
                self.samples.push(sample);
                if interrupt_pending {
                    self.state = RunState::StoppedByInterrupt;
                    if self.owned {
                        StepAction::StopAndKill
                    } else {
                        StepAction::Stop
                    }
                } else {
                    StepAction::Continue
                }
            },
        }
    }
}

/// A finished run: the samples and the cause with which the loop stopped,
/// handed to the output sink exactly once.
pub struct Run {
    pub run_id: u128,
    pub pid: u32,
    pub cause: StopCause,
    pub samples: Vec<Sample>,
}

impl Run {
    /// Well-formedness: the sample buffer invariant over the run's identity.
    pub open spec fn wf(self) -> bool {
        samples_wf(self.samples@, self.run_id, self.pid)
    }
}

impl Sampler {
    /// Consumes a stopped sampler into the finished run. The sink must never
    /// see a run that is still `Running`, so that state is ruled out here;
    /// already-collected samples are kept whatever the cause.
    pub fn into_run(self) -> (r: Run)
        requires
            self.wf(),
            !(self.state is Running),
        ensures
            r.wf(),
            r.run_id == self.run_id,
            r.pid == self.pid,
            r.samples@ == self.samples@,
            self.state is StoppedByExit ==> r.cause is ProcessExited,
            self.state is StoppedByInterrupt ==> r.cause is Interrupted,
            self.state is StoppedByError ==> r.cause is ProcessDisappeared,
    {
        let cause = match self.state {
            RunState::Running => unreached(),
            RunState::StoppedByExit => StopCause::ProcessExited,
            RunState::StoppedByInterrupt => StopCause::Interrupted,
            RunState::StoppedByError(LoopError::ProcessDisappeared) => StopCause::ProcessDisappeared,
        };
        Run { run_id: self.run_id, pid: self.pid, cause, samples: self.samples }
    }
}

/// The sequence numbers of a well-formed run's samples are exactly
/// `0, 1, ..., n - 1`: the number at each position is that position, so there
/// is no gap and no repeat.
pub proof fn lemma_sequence_numbers_contiguous(r: Run)
    requires
        r.wf(),
    ensures
        forall|i: int| 0 <= i < r.samples@.len() ==> (#[trigger] r.samples@[i]).seq as int == i,
{
}

/// Every sample of a well-formed run carries the run's identifier and the
/// run's process identifier.
pub proof fn lemma_samples_share_identity(r: Run)
    requires
        r.wf(),
    ensures
        forall|i: int|
            0 <= i < r.samples@.len() ==> (#[trigger] r.samples@[i]).run_id == r.run_id
                && r.samples@[i].pid == r.pid,
{
}

/// In a well-formed run with at least one sample, the last sample's sequence
/// number equals the sample count minus one.
pub proof fn lemma_last_sequence_number(r: Run)
    requires
        r.wf(),
        r.samples@.len() > 0,
    ensures
        r.samples@.last().seq as int == r.samples@.len() - 1,
{
    assert(r.samples@.last() == r.samples@[r.samples@.len() - 1]);
}

} // verus!
