//! The decisions of writing a bundle, apart from the writing.
//!
//! `BundleWriter` hands out one action at a time; its caller performs it and
//! reports back what happened. The target is checked before anything is
//! written, rows go to the store inside one transaction that is committed
//! once at the end, and a failure stops the run with the transaction left
//! uncommitted.
use vstd::prelude::*;

use crate::docset::{
    entries_view, plist_text, stored_rows, DocsetError, DocsetOutput, IndexEntry, ModulePlan, Row,
    SearchIndex,
};
use crate::links::{file_name_of, joined_path};
use crate::pipeline::Item;

verus! {

/// What the caller is asked to do next.
#[derive(Debug)]
pub enum BundleAction {
    /// Report whether `path` exists.
    CheckTarget { path: String },
    /// Create `documents_dir` with its parents, write `metadata` to
    /// `plist_path` and the icon to `icon_path`, open the store at
    /// `index_path`, create its schema and begin a transaction.
    Prepare {
        documents_dir: String,
        plist_path: String,
        metadata: String,
        icon_path: String,
        index_path: String,
    },
    /// Copy the custom stylesheet from `from` to `to`, if there is one.
    CopyStylesheet { from: String, to: String },
    /// Hand over the next result, or report that there is none left.
    NextResult,
    /// Copy the document and insert the rows of the plan, which the store
    /// does not hold yet.
    Store { plan: ModulePlan },
    /// Commit the transaction.
    Commit,
    /// The run is over, with this outcome.
    Stop { outcome: Result<(), BundleError> },
}

/// What the caller reports back.
#[derive(Debug)]
pub enum BundleEvent {
    /// The answer to `CheckTarget`.
    TargetChecked { exists: bool },
    /// The action asked for succeeded.
    Done,
    /// The action asked for failed.
    Failed,
    /// The next result, as `NextResult` asks.
    Result { item: Item },
    /// There is no result left.
    NoMoreResults,
}

/// Why a run stopped without a bundle.
#[derive(Debug, Clone, Copy, PartialEq, Eq, Structural)]
pub enum BundleError {
    /// The bundle exists already; nothing was written.
    AlreadyExists,
    /// A source path has no file name.
    NoFileName,
    /// The caller could not perform an action.
    Failed,
    /// The caller reported something that does not answer the last action.
    Unexpected,
}

/// Where a run stands: which answer it waits for.
#[derive(Debug, Clone, Copy, PartialEq, Eq, Structural)]
pub enum Phase {
    Checking,
    Preparing,
    CopyingStylesheet,
    Indexing,
    Storing,
    Committing,
    Stopped,
}

/// The kind of an action, for the record of a run.
#[derive(Debug, Clone, Copy, PartialEq, Eq, Structural)]
pub enum ActionKind {
    CheckTarget,
    Prepare,
    CopyStylesheet,
    NextResult,
    Store,
    Commit,
    Stop,
}

pub open spec fn kind_of(a: BundleAction) -> ActionKind {
    match a {
        BundleAction::CheckTarget { .. } => ActionKind::CheckTarget,
        BundleAction::Prepare { .. } => ActionKind::Prepare,
        BundleAction::CopyStylesheet { .. } => ActionKind::CopyStylesheet,
        BundleAction::NextResult => ActionKind::NextResult,
        BundleAction::Store { .. } => ActionKind::Store,
        BundleAction::Commit => ActionKind::Commit,
        BundleAction::Stop { .. } => ActionKind::Stop,
    }
}

/// Whether an action changes anything on disk.
pub open spec fn writes(k: ActionKind) -> bool {
    k == ActionKind::Prepare || k == ActionKind::CopyStylesheet || k == ActionKind::Store || k
        == ActionKind::Commit
}

/// Writes one bundle.
pub struct BundleWriter {
    output: DocsetOutput,
    phase: Phase,
    index: SearchIndex,
    actions: Ghost<Seq<ActionKind>>,
}

impl BundleWriter {
    pub closed spec fn phase(&self) -> Phase {
        self.phase
    }

    pub closed spec fn output(&self) -> DocsetOutput {
        self.output
    }

    /// The kinds of the actions handed out so far, in order.
    pub closed spec fn actions(&self) -> Seq<ActionKind> {
        self.actions@
    }

    /// The rows handed out to be stored, in order.
    pub closed spec fn rows(&self) -> Seq<Row> {
        self.index.rows()
    }

    /// Every row of every result taken so far, in order.
    pub closed spec fn offered(&self) -> Seq<Row> {
        self.index.inserted()
    }

    pub closed spec fn wf(&self) -> bool {
        &&& self.index.wf()
        &&& self.actions@.len() > 0
        &&& (self.phase == Phase::Stopped <==> self.actions@.last() == ActionKind::Stop)
    }

    /// Starts a run for `output`; its first action checks the target.
    pub fn start(output: DocsetOutput) -> (r: (BundleWriter, BundleAction))
        ensures
            r.0.wf(),
            r.0.phase() == Phase::Checking,
            r.0.output() == output,
            r.0.actions() == seq![ActionKind::CheckTarget],
            r.0.rows() == Seq::<Row>::empty(),
            r.0.offered() == Seq::<Row>::empty(),
            r.1 matches BundleAction::CheckTarget { path } && path@ == output.docset_dir_spec(),
    {
        let path = output.docset_dir();
        let ghost first = seq![ActionKind::CheckTarget];
        let writer = BundleWriter {
            output,
            phase: Phase::Checking,
            index: SearchIndex::new(),
            actions: Ghost(first),
        };
        (writer, BundleAction::CheckTarget { path })
    }

    fn stop(&mut self, outcome: Result<(), BundleError>) -> (r: BundleAction)
        requires
            old(self).wf(),
        ensures
            final(self).wf(),
            final(self).phase() == Phase::Stopped,
            final(self).output() == old(self).output(),
            final(self).actions() == old(self).actions().push(ActionKind::Stop),
            final(self).rows() == old(self).rows(),
            final(self).offered() == old(self).offered(),
            r == (BundleAction::Stop { outcome }),
    {
        self.phase = Phase::Stopped;
        self.actions = Ghost(self.actions@.push(ActionKind::Stop));
        BundleAction::Stop { outcome }
    }

    /// Takes the answer to the last action and returns the next one.
    pub fn step(&mut self, event: BundleEvent) -> (r: BundleAction)
        requires
            old(self).wf(),
            old(self).phase() != Phase::Stopped,
        ensures
            final(self).wf(),
            final(self).output() == old(self).output(),
            final(self).actions() == old(self).actions().push(kind_of(r)),
            // the target exists: stop before anything is written
            old(self).phase() == Phase::Checking && event == (BundleEvent::TargetChecked {
                exists: true,
            }) ==> r == (BundleAction::Stop { outcome: Err(BundleError::AlreadyExists) }),
            // the target is free: lay out the bundle
            old(self).phase() == Phase::Checking && event == (BundleEvent::TargetChecked {
                exists: false,
            }) ==> final(self).phase() == Phase::Preparing && (r matches BundleAction::Prepare {
                documents_dir,
                plist_path,
                metadata,
                icon_path,
                index_path,
            } && documents_dir@ == old(self).output().documents_dir_spec() && plist_path@
                == joined_path(old(self).output().docset_dir_spec(), "Contents/Info.plist"@)
                && metadata@ == plist_text(old(self).output().name@, old(self).output().main_page@)
                && icon_path@ == joined_path(old(self).output().docset_dir_spec(), "icon.svg"@)
                && index_path@ == joined_path(
                old(self).output().docset_dir_spec(),
                "Contents/Resources/docSet.dsidx"@,
            )),
            old(self).phase() == Phase::Preparing && event is Done ==> final(self).phase()
                == Phase::CopyingStylesheet && (r matches BundleAction::CopyStylesheet { from, to }
                && from@ == joined_path(old(self).output().input_directory@, "Agda.css"@) && to@
                == joined_path(old(self).output().documents_dir_spec(), "Agda.css"@)),
            // the stylesheet is best effort
            old(self).phase() == Phase::CopyingStylesheet && (event is Done || event is Failed)
                ==> final(self).phase() == Phase::Indexing && r is NextResult,
            old(self).phase() == Phase::Indexing && event is Result ==> {
                let item = event->item;
                match file_name_of(item.source_path@) {
                    None => r == (BundleAction::Stop { outcome: Err(BundleError::NoFileName) }),
                    Some(file) => final(self).phase() == Phase::Storing && (r matches BundleAction::Store {
                        plan,
                    } && plan.copy_from@ == item.source_path@ && plan.copy_to@ == joined_path(
                        old(self).output().documents_dir_spec(),
                        file,
                    ) && final(self).offered() == old(self).offered()
                        + crate::docset::module_entries(
                        file,
                        item.module.name@,
                        crate::module::items_view(item.module.items@),
                    ) && entries_view(plan.entries@) == stored_rows(final(self).offered()).skip(
                        stored_rows(old(self).offered()).len() as int,
                    )),
                }
            },
            old(self).phase() == Phase::Storing && event is Done ==> final(self).phase()
                == Phase::Indexing && r is NextResult,
            // everything is stored: commit once
            old(self).phase() == Phase::Indexing && event is NoMoreResults ==> final(self).phase()
                == Phase::Committing && r is Commit,
            old(self).phase() == Phase::Committing && event is Done ==> r == (BundleAction::Stop {
                outcome: Ok(()),
            }),
            // a failure stops the run; the transaction stays uncommitted
            event is Failed && old(self).phase() != Phase::CopyingStylesheet ==> r
                == (BundleAction::Stop { outcome: Err(BundleError::Failed) }),
            final(self).phase() == Phase::Stopped <==> r is Stop,
            final(self).phase() != Phase::Storing ==> final(self).offered() == old(self).offered(),
            final(self).rows() == stored_rows(final(self).offered()),
    {
        match (self.phase, event) {
            (Phase::Checking, BundleEvent::TargetChecked { exists }) => {
                if self.output.check_exists(exists).is_err() {
                    self.stop(Err(BundleError::AlreadyExists))
                } else {
                    self.phase = Phase::Preparing;
                    self.actions = Ghost(self.actions@.push(ActionKind::Prepare));
                    BundleAction::Prepare {
                        documents_dir: self.output.documents_dir(),
                        plist_path: self.output.info_plist_path(),
                        metadata: self.output.metadata(),
                        icon_path: self.output.icon_path(),
                        index_path: self.output.index_database_path(),
                    }
                }
            },
            (Phase::Preparing, BundleEvent::Done) => {
                self.phase = Phase::CopyingStylesheet;
                self.actions = Ghost(self.actions@.push(ActionKind::CopyStylesheet));
                BundleAction::CopyStylesheet {
                    from: self.output.stylesheet_source(),
                    to: self.output.stylesheet_target(),
                }
            },
            (Phase::CopyingStylesheet, BundleEvent::Done)
            | (Phase::CopyingStylesheet, BundleEvent::Failed)
            | (Phase::Storing, BundleEvent::Done) => {
                self.phase = Phase::Indexing;
                self.actions = Ghost(self.actions@.push(ActionKind::NextResult));
                BundleAction::NextResult
            },
            (Phase::Indexing, BundleEvent::Result { item }) => {
                match self.output.plan_module(&item) {
                    Err(_) => self.stop(Err(BundleError::NoFileName)),
                    Ok(plan) => {
                        let fresh = self.keep_new_rows(plan.entries);
                        self.phase = Phase::Storing;
                        self.actions = Ghost(self.actions@.push(ActionKind::Store));
                        BundleAction::Store {
                            plan: ModulePlan {
                                copy_from: plan.copy_from,
                                copy_to: plan.copy_to,
                                entries: fresh,
                            },
                        }
                    },
                }
            },
            (Phase::Indexing, BundleEvent::NoMoreResults) => {
                self.phase = Phase::Committing;
                self.actions = Ghost(self.actions@.push(ActionKind::Commit));
                BundleAction::Commit
            },
            (Phase::Committing, BundleEvent::Done) => self.stop(Ok(())),
            (_, BundleEvent::Failed) => self.stop(Err(BundleError::Failed)),
            _ => self.stop(Err(BundleError::Unexpected)),
        }
    }

    /// Offers `entries` to the index in order and returns those it did not
    /// hold yet.
    fn keep_new_rows(&mut self, entries: Vec<IndexEntry>) -> (r: Vec<IndexEntry>)
        requires
            old(self).index.wf(),
        ensures
            final(self).index.wf(),
            final(self).output == old(self).output,
            final(self).phase == old(self).phase,
            final(self).actions == old(self).actions,
            final(self).index.inserted() == old(self).index.inserted() + entries_view(entries@),
            entries_view(r@) == final(self).index.rows().skip(old(self).index.rows().len() as int),
    {
        let ghost start_inserted = self.index.inserted();
        let ghost start_rows = self.index.rows();
        let mut fresh: Vec<IndexEntry> = Vec::new();
        let mut i: usize = 0;
        while i < entries.len()
            invariant
                i <= entries.len(),
                self.index.wf(),
                self.output == old(self).output,
                self.phase == old(self).phase,
                self.actions == old(self).actions,
                self.index.inserted() == start_inserted + entries_view(entries@.subrange(0, i as int)),
                start_rows.len() <= self.index.rows().len(),
                self.index.rows().subrange(0, start_rows.len() as int) == start_rows,
                entries_view(fresh@) == self.index.rows().skip(start_rows.len() as int),
            decreases entries.len() - i,
        {
            let entry = entries[i].clone_entry();
            let ghost rows_before = self.index.rows();
            let ghost fresh_before = fresh@;
            let added = self.index.insert_or_ignore(entry.clone_entry());
            if added {
                fresh.push(entry);
                assert(entries_view(fresh@) =~= entries_view(fresh_before).push(entry@));
                assert(self.index.rows().skip(start_rows.len() as int) =~= rows_before.skip(
                    start_rows.len() as int,
                ).push(entry@));
                assert(self.index.rows().subrange(0, start_rows.len() as int) =~= rows_before.subrange(
                    0,
                    start_rows.len() as int,
                ));
            }
            assert(entries_view(entries@.subrange(0, i + 1)) =~= entries_view(
                entries@.subrange(0, i as int),
            ).push(entries@[i as int]@));
            i += 1;
        }
        assert(entries@.subrange(0, entries.len() as int) =~= entries@);
        fresh
    }
}

/// Where the target exists, a run stops at once: of the actions handed out,
/// none writes anything.
pub proof fn existing_target_is_left_alone(w0: BundleWriter, w1: BundleWriter, r: BundleAction)
    requires
        w0.actions() == seq![ActionKind::CheckTarget],
        w1.actions() == w0.actions().push(kind_of(r)),
        r == (BundleAction::Stop { outcome: Err(BundleError::AlreadyExists) }),
    ensures
        forall|i: int| 0 <= i < w1.actions().len() ==> !writes(#[trigger] w1.actions()[i]),
{
    assert(w1.actions() =~= seq![ActionKind::CheckTarget, ActionKind::Stop]);
}

} // verus!
