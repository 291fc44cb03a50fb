//! What a sink and a stream relay are: the interfaces that the persistence
//! sink implements.

use vstd::prelude::*;
use crate::batch::{Accumulator, Phase};
use crate::consumer::StoredRow;
use crate::error::ProcessingError;

verus! {

/// A sink that writes rows to the storage cluster in batches.
pub trait CrateDBSink {
    /// The text of the insert statement.
    spec fn insert_statement(&self) -> Seq<char>;

    /// The text of the schema-initialization statement.
    spec fn init_statement(&self) -> Seq<char>;

    /// The statement that writes one batch.
    fn insert(&self) -> (statement: &str)
        ensures
            statement@ == self.insert_statement(),
    ;

    /// The statement that creates the schema. The consumer issues it once
    /// on entry; the schema may exist already, so its failure stops nothing.
    fn init(&self) -> (statement: &str)
        ensures
            statement@ == self.init_statement(),
    ;

    /// Starts the relay from the channel to the cluster, once the
    /// initialization statement was issued. Whether that succeeded or
    /// failed, the consumer awaits its first item with nothing waiting, and
    /// flushes a batch whenever `bulk_size` rows wait.
    fn relay(&self, initialized: bool, bulk_size: usize) -> (start: Accumulator<StoredRow>)
        ensures
            start.limit() == bulk_size,
            start.pending() == Seq::<StoredRow>::empty(),
            start.spec_phase() == Phase::AwaitingItem,
    ;
}

/// What a stream relay does with one turn of its loop.
pub enum Relayed<O> {
    /// Send the output on.
    Forward(O),
    /// The transform failed on the item: report it and go on.
    Failed(ProcessingError),
    /// Nothing arrived within the timeout: report it and go on.
    Idle,
}

/// What a turn of the relay comes to, given what the transform made of the
/// item that arrived, if one did.
pub open spec fn relayed<O>(processed: Option<Result<O, ProcessingError>>) -> Relayed<O> {
    match processed {
        Some(Ok(output)) => Relayed::Forward(output),
        Some(Err(e)) => Relayed::Failed(e),
        None => Relayed::Idle,
    }
}

/// A worker that receives items, transforms each and sends the result on.
pub trait StreamProcessor<I, O> {
    /// Whether `output` is what the transform makes of `input`.
    spec fn processes(&self, input: I, output: Result<O, ProcessingError>) -> bool;

    /// Transforms one item.
    fn process(&self, input: I) -> (output: Result<O, ProcessingError>)
        ensures
            self.processes(input, output),
    ;

    /// One turn of the relay loop, after the receive: `received` is the item
    /// that arrived, or nothing after the timeout. No turn ends the loop.
    fn relay(&self, received: Option<I>) -> (next: Relayed<O>)
        ensures
            match received {
                Some(input) => exists|output: Result<O, ProcessingError>|
                    self.processes(input, output) && next == relayed(Some(output)),
                None => next == relayed::<O>(None),
            },
    {
        match received {
            Some(input) => match self.process(input) {
                Ok(output) => Relayed::Forward(output),
                Err(e) => Relayed::Failed(e),
            },
            None => Relayed::Idle,
        }
    }
}

} // verus!
