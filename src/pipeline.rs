//! Per-file processing and the collection of its results.
//!
//! Reading files and running the work on a thread pool is left to the
//! caller: each worker hands back the outcome of `process_module`, and one
//! `Collector` takes the outcomes in whatever order they arrive.
use vstd::prelude::*;

use crate::links::parsed_url;
use crate::module::{extracted_module, file_url, items_view, ExtractError, Module, ModuleParser};

verus! {

/// The module extracted from one source file.
#[derive(Debug, Clone)]
pub struct Item {
    pub source_path: String,
    pub module: Module,
}

/// Why one source file yields no result.
#[derive(Debug, Clone, Copy, PartialEq, Eq, Structural)]
pub enum ProcessError {
    /// `file://<path>` is no URL to resolve the document's links against.
    NoLocation,
    /// The document could not be extracted.
    Extract(ExtractError),
    /// The file could not be read; reported by whoever reads it.
    Unreadable,
}

/// What processing the file at `path` with contents `content` yields: the
/// module's name and items.
pub open spec fn processed(path: Seq<char>, content: Seq<char>) -> Result<
    (Seq<char>, Seq<crate::module::ItemView>),
    ProcessError,
> {
    match parsed_url(file_url(path)) {
        None => Err(ProcessError::NoLocation),
        Some(base) => match extracted_module(base, content) {
            Ok(m) => Ok(m),
            Err(e) => Err(ProcessError::Extract(e)),
        },
    }
}

/// Extracts the module of the source file at `source_path`, whose contents
/// are `content`.
pub fn process_module(source_path: &str, content: &str) -> (r: Result<Item, ProcessError>)
    ensures
        r matches Ok(item) ==> item.source_path@ == source_path@ && processed(
            source_path@,
            content@,
        ) == Ok::<_, ProcessError>((item.module.name@, items_view(item.module.items@))),
        r matches Err(e) ==> processed(source_path@, content@) == Err::<
            (Seq<char>, Seq<crate::module::ItemView>),
            _,
        >(e),
{
    let parser = match ModuleParser::from_path(source_path) {
        Some(p) => p,
        None => return Err(ProcessError::NoLocation),
    };
    match parser.parse_module(content) {
        Ok(module) => Ok(Item { source_path: String::from_str(source_path), module }),
        Err(e) => Err(ProcessError::Extract(e)),
    }
}

/// The results among the outcomes, in the order of the outcomes.
pub open spec fn successes(outcomes: Seq<Result<Item, ProcessError>>) -> Seq<Item>
    decreases outcomes.len(),
{
    if outcomes.len() == 0 {
        Seq::empty()
    } else {
        let rest = successes(outcomes.drop_last());
        match outcomes.last() {
            Ok(item) => rest.push(item),
            Err(_) => rest,
        }
    }
}

/// The drained results of a run, each source file's at most once.
#[derive(Debug)]
pub struct Output {
    items: Vec<Item>,
}

impl Output {
    /// The results, in the order in which they arrived.
    pub fn into_items(self) -> (r: Vec<Item>)
        ensures
            r@ == self.items(),
    {
        self.items
    }

    pub closed spec fn items(&self) -> Seq<Item> {
        self.items@
    }

}

/// Counts the work handed out and gathers the outcomes that come back.
pub struct Collector {
    dispatched: usize,
    settled: usize,
    results: Vec<Item>,
    outcomes: Ghost<Seq<Result<Item, ProcessError>>>,
}

impl Collector {
    pub closed spec fn dispatched(&self) -> nat {
        self.dispatched as nat
    }

    /// The outcomes taken so far, in arrival order.
    pub closed spec fn outcomes(&self) -> Seq<Result<Item, ProcessError>> {
        self.outcomes@
    }

    /// The results gathered so far.
    pub closed spec fn results(&self) -> Seq<Item> {
        self.results@
    }

    pub closed spec fn wf(&self) -> bool {
        &&& self.settled as nat == self.outcomes@.len()
        &&& self.settled <= self.dispatched
        &&& self.results@ == successes(self.outcomes@)
    }

    /// A collector before any work is handed out.
    pub fn new() -> (r: Collector)
        ensures
            r.wf(),
            r.dispatched() == 0,
            r.outcomes() == Seq::<Result<Item, ProcessError>>::empty(),
    {
        Collector { dispatched: 0, settled: 0, results: Vec::new(), outcomes: Ghost(Seq::empty()) }
    }

    /// Records that one more unit of work was handed out.
    pub fn dispatch(&mut self)
        requires
            old(self).wf(),
            old(self).dispatched() < usize::MAX,
        ensures
            final(self).wf(),
            final(self).dispatched() == old(self).dispatched() + 1,
            final(self).outcomes() == old(self).outcomes(),
    {
        self.dispatched = self.dispatched + 1;
    }

    /// How many of the units handed out have not come back.
    pub fn pending(&self) -> (r: usize)
        requires
            self.wf(),
        ensures
            r == self.dispatched() - self.outcomes().len(),
    {
        self.dispatched - self.settled
    }

    /// Takes the outcome of one unit handed out: a result is kept, a failure
    /// is dropped.
    pub fn settle(&mut self, outcome: Result<Item, ProcessError>)
        requires
            old(self).wf(),
            old(self).outcomes().len() < old(self).dispatched(),
        ensures
            final(self).wf(),
            final(self).dispatched() == old(self).dispatched(),
            final(self).outcomes() == old(self).outcomes().push(outcome),
            final(self).results() == successes(final(self).outcomes()),
    {
        let ghost before = self.outcomes@;
        proof {
            assert(before.push(outcome).drop_last() =~= before);
        }
        match outcome {
            Ok(item) => self.results.push(item),
            Err(_) => {},
        }
        self.settled = self.settled + 1;
        self.outcomes = Ghost(before.push(outcome));
    }

    /// The results gathered, once every unit handed out has come back.
    pub fn finish(self) -> (r: Output)
        requires
            self.wf(),
            self.outcomes().len() == self.dispatched(),
        ensures
            r.items() == successes(self.outcomes()),
    {
        Output { items: self.results }
    }
}

/// A document that fails to process adds nothing to the results.
pub proof fn failure_is_not_collected(outcomes: Seq<Result<Item, ProcessError>>, e: ProcessError)
    ensures
        successes(outcomes.push(Err(e))) == successes(outcomes),
{
    assert(outcomes.push(Err(e)).drop_last() =~= outcomes);
}

/// Where every outcome is a result, every one of them is collected, in
/// whatever order they arrived.
pub proof fn every_result_is_collected(outcomes: Seq<Result<Item, ProcessError>>)
    requires
        forall|i: int| 0 <= i < outcomes.len() ==> outcomes[i] is Ok,
    ensures
        successes(outcomes).len() == outcomes.len(),
        forall|i: int| 0 <= i < outcomes.len() ==> outcomes[i] == Ok::<_, ProcessError>(successes(outcomes)[i]),
    decreases outcomes.len(),
{
    if outcomes.len() > 0 {
        let rest = outcomes.drop_last();
        assert forall|i: int| 0 <= i < rest.len() implies rest[i] is Ok by {
            assert(rest[i] == outcomes[i]);
        }
        every_result_is_collected(rest);
        assert(outcomes.last() is Ok);
        assert forall|i: int| 0 <= i < outcomes.len() implies outcomes[i] == Ok::<_, ProcessError>(successes(outcomes)[i]) by {
            if i < rest.len() {
                assert(outcomes[i] == rest[i]);
            }
        }
    }
}

} // verus!
