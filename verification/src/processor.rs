use vstd::prelude::*;

verus! {

/// The events processor: its configuration and the database pool it works with.
pub struct EventsProcessor<Config, Pool> {
    pub config: Config,
    pub db_pool: Pool,
}

/// What the end of the pipeline handed back: a batch, by its size and the range
/// of versions it covers.
#[derive(Debug, Clone, Copy, PartialEq, Eq, Structural)]
pub struct BatchSummary {
    pub item_count: usize,
    pub start_version: u64,
    pub end_version: u64,
}

/// What the processor does after the pipeline hands something back.
#[derive(Debug, Clone, Copy, PartialEq, Eq, Structural)]
pub enum PipelineStep {
    /// An empty batch: wait for the next one.
    Continue,
    /// A batch was processed: report the versions it covered, then wait.
    ReportFinished { start_version: u64, end_version: u64 },
    /// The channel is closed: stop, successfully.
    Stop,
}

/// The decision of the processor's receive loop, given what was received
/// (`None` when the channel is closed).
pub fn next_pipeline_step(received: Option<BatchSummary>) -> (step: PipelineStep)
    ensures
        step == (match received {
            None => PipelineStep::Stop,
            Some(b) => if b.item_count == 0 {
                PipelineStep::Continue
            } else {
                PipelineStep::ReportFinished {
                    start_version: b.start_version,
                    end_version: b.end_version,
                }
            },
        }),
{
    match received {
        None => PipelineStep::Stop,
        Some(b) => if b.item_count == 0 {
            PipelineStep::Continue
        } else {
            PipelineStep::ReportFinished { start_version: b.start_version, end_version: b.end_version }
        },
    }
}

/// The fewest worker threads the runtime is built with.
pub const MIN_WORKER_THREADS: usize = 16;

/// The number of worker threads for a machine with `cpus` processors: one per
/// processor, and never fewer than `MIN_WORKER_THREADS`.
pub fn worker_thread_count(cpus: usize) -> (threads: usize)
    ensures
        threads == (if cpus < MIN_WORKER_THREADS {
            MIN_WORKER_THREADS
        } else {
            cpus
        }),
{
    if cpus < MIN_WORKER_THREADS {
        MIN_WORKER_THREADS
    } else {
        cpus
    }
}

} // verus!
