use vstd::prelude::*;

verus! {

/// The step of the pipeline that writes the watched events of each batch into
/// the events table, through the connection pool it holds.
pub struct EventsStorer<Pool> {
    conn_pool: Pool,
}

/// What storing a batch came to, as the step reports it.
#[derive(Debug, PartialEq, Eq, Structural)]
pub enum StoreReport {
    /// The batch was written.
    Stored,
    /// Writing the batch failed; the failure is reported and the batch goes on.
    Failed,
}

impl<Pool> EventsStorer<Pool> {
    /// A storer that writes through `conn_pool`.
    pub fn new(conn_pool: Pool) -> (storer: Self)
        ensures
            storer.pool() == conn_pool,
    {
        Self { conn_pool }
    }

    /// The pool this storer writes through.
    pub closed spec fn pool(&self) -> Pool {
        self.conn_pool
    }

    /// The pool this storer writes through.
    pub fn conn_pool(&self) -> (pool: &Pool)
        ensures
            *pool == self.pool(),
    {
        &self.conn_pool
    }

    /// The name under which the step appears in the pipeline.
    pub fn name(&self) -> (name: String)
        ensures
            name@ == "EventsStorer"@,
    {
        "EventsStorer".to_owned()
    }

    /// Settles a batch once writing it has been tried: the batch is always
    /// handed on unchanged to the next step, and the outcome of the write is
    /// only reported.
    pub fn finish_batch<Batch, Error>(&self, batch: Batch, written: &Result<(), Error>) -> (out: (
        Option<Batch>,
        StoreReport,
    ))
        ensures
            out.0 == Some(batch),
            out.1 == (if written is Ok {
                StoreReport::Stored
            } else {
                StoreReport::Failed
            }),
    {
        let report = match written {
            Ok(_) => StoreReport::Stored,
            Err(_) => StoreReport::Failed,
        };
        (Some(batch), report)
    }
}

} // verus!
