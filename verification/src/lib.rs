//! Verified core of a process-sampling tool: it spawns or attaches to one
//! target process, polls its resource usage at a fixed cadence, and hands the
//! collected samples to an output sink when the run stops.

mod errors;
mod output;
mod program;
mod provider;
mod sampler;

pub use errors::PeekError;
pub use program::{is_space, tokens, tokens_from, split_tokens, spawn_candidates, resolve_target};
pub use program::{Program, TargetSpec};
pub use sampler::{
    samples_wf, lemma_sequence_numbers_contiguous, lemma_samples_share_identity,
    lemma_last_sequence_number,
};
pub use sampler::{LoopError, Metrics, Run, RunState, Sample, Sampler, StepAction, StopCause};
pub use provider::{attach, attach_decision, effective_cpu_count, provider_cpu_count};
pub use output::{output_path, Format};
