//! One scan tick: the walk of the tree, the decision for each entry, and the
//! worker budget.
//!
//! The walk keeps a stack of directories still to list, seeded with the root.
//! Each entry of a listing is looked up in the local index: an indexed path is
//! skipped. A directory that is due is registered at once, and the walk waits
//! for the registration to end before it goes on. A file that is due is handed
//! to a worker when one is free; otherwise the walk waits for a worker to
//! finish. The tick ends once the stack and the last listing are used up and
//! every dispatched file has finished.
//!
//! The program around this type performs each step and reports back how it
//! went; the type decides what comes next.

use vstd::prelude::*;
use crate::index::LocalIndex;
use crate::schema::{FileResponse, FileType};

verus! {

/// An entry found while listing a directory.
#[derive(Clone, Debug)]
pub struct Listed {
    pub path: String,
    pub kind: FileType,
}

/// What the tick asks for next.
#[derive(Clone, Debug, PartialEq, Eq)]
pub enum Step {
    /// List the children of this directory, then report them with `listed`, or
    /// report the failure with `listing_failed`.
    List(String),
    /// This entry is already synchronised: nothing to do.
    Skip(String),
    /// Run the pipeline of this directory now, and report its outcome with
    /// `registered` before asking for the next step.
    Register(String),
    /// Run the pipeline of this file on a worker; a unit of the budget is taken
    /// until `finished` reports it.
    Dispatch(String),
    /// Wait for a dispatched file to finish and report it with `finished`.
    AwaitWorker,
    /// The tick is over: nothing is running any more.
    Done,
}

/// The paths that a tick hands to the pipeline: those it walks that were not
/// indexed when it began.
pub open spec fn due(indexed: Set<Seq<char>>, walked: Set<Seq<char>>) -> Set<Seq<char>> {
    walked.difference(indexed)
}

/// The paths indexed after a tick: those indexed before, and those due whose
/// pipeline succeeded.
pub open spec fn indexed_after(
    indexed: Set<Seq<char>>,
    walked: Set<Seq<char>>,
    succeeded: Set<Seq<char>>,
) -> Set<Seq<char>> {
    indexed.union(due(indexed, walked).intersect(succeeded))
}

/// A tick in which every pipeline succeeds leaves nothing due for a second
/// tick over the same tree: the second tick makes no remote call at all.
pub proof fn lemma_second_tick_is_silent(indexed: Set<Seq<char>>, walked: Set<Seq<char>>)
    ensures
        due(indexed_after(indexed, walked, due(indexed, walked)), walked) == Set::<
            Seq<char>,
        >::empty(),
{
    assert(due(indexed_after(indexed, walked, due(indexed, walked)), walked) =~= Set::<
        Seq<char>,
    >::empty());
}

/// A due path whose pipeline fails in a tick is not indexed after it, and the
/// next tick that walks it starts its pipeline again.
pub proof fn lemma_failed_path_is_retried(
    indexed: Set<Seq<char>>,
    walked: Set<Seq<char>>,
    succeeded: Set<Seq<char>>,
    next_walked: Set<Seq<char>>,
    p: Seq<char>,
)
    requires
        due(indexed, walked).contains(p),
        !succeeded.contains(p),
        next_walked.contains(p),
    ensures
        !indexed_after(indexed, walked, succeeded).contains(p),
        due(indexed_after(indexed, walked, succeeded), next_walked).contains(p),
{
}

/// How one step of the walk changes a tick from `t0` to `t1`, with `index` the
/// local index as the tick left it, and `r` the step asked for.
pub open spec fn step_spec(
    t0: ScanTick,
    t1: ScanTick,
    index: Map<Seq<char>, FileResponse>,
    r: Step,
) -> bool {
    &&& t1.root_spec() == t0.root_spec()
    &&& t1.budget_spec() == t0.budget_spec()
    &&& t1.start_spec() == t0.start_spec()
    &&& t1.succeeded_spec() == t0.succeeded_spec()
    &&& t1.walk_failed_spec() == t0.walk_failed_spec()
    &&& (t0.remaining_spec().len() > 0 ==> {
        let e = t0.remaining_spec()[0];
        let p = e.path@;
        if index.contains_key(p) {
            &&& r == Step::Skip(e.path)
            &&& t1.remaining_spec() == t0.remaining_spec().drop_first()
            &&& t1.walked_spec() == t0.walked_spec().insert(p)
            &&& t1.called_spec() == t0.called_spec()
            &&& t1.in_flight_spec() == t0.in_flight_spec()
            &&& t1.stack_spec() == if e.kind == FileType::DIRECTORY {
                t0.stack_spec().push(p)
            } else {
                t0.stack_spec()
            }
            &&& t1.awaiting_dir_spec() is None
            &&& !t1.awaiting_list_spec()
        } else if e.kind == FileType::DIRECTORY {
            &&& r == Step::Register(e.path)
            &&& t1.remaining_spec() == t0.remaining_spec().drop_first()
            &&& t1.walked_spec() == t0.walked_spec().insert(p)
            &&& t1.called_spec() == t0.called_spec().insert(p)
            &&& t1.in_flight_spec() == t0.in_flight_spec()
            &&& t1.stack_spec() == t0.stack_spec()
            &&& t1.awaiting_dir_spec() == Some(p)
            &&& !t1.awaiting_list_spec()
        } else if t0.in_flight_spec().len() < t0.budget_spec() {
            &&& r == Step::Dispatch(e.path)
            &&& t1.remaining_spec() == t0.remaining_spec().drop_first()
            &&& t1.walked_spec() == t0.walked_spec().insert(p)
            &&& t1.called_spec() == t0.called_spec().insert(p)
            &&& t1.in_flight_spec() == t0.in_flight_spec().push(p)
            &&& t1.stack_spec() == t0.stack_spec()
            &&& t1.awaiting_dir_spec() is None
            &&& !t1.awaiting_list_spec()
        } else {
            &&& r == Step::AwaitWorker
            &&& t1 == t0
        }
    })
    &&& (t0.remaining_spec().len() == 0 && t0.stack_spec().len() > 0 ==> {
        let d = t0.stack_spec().last();
        &&& r matches Step::List(dir) && dir@ == d
        &&& t1.stack_spec() == t0.stack_spec().drop_last()
        &&& t1.current_spec() == d
        &&& t1.awaiting_list_spec()
        &&& t1.awaiting_dir_spec() is None
        &&& t1.walked_spec() == t0.walked_spec()
        &&& t1.called_spec() == t0.called_spec()
        &&& t1.in_flight_spec() == t0.in_flight_spec()
    })
    &&& (t0.remaining_spec().len() == 0 && t0.stack_spec().len() == 0 ==> {
        &&& t1 == t0
        &&& r == if t0.in_flight_spec().len() > 0 {
            Step::AwaitWorker
        } else {
            Step::Done
        }
    })
}

/// The state of one scan tick.
pub struct ScanTick {
    stack: Vec<String>,
    listing: Vec<Listed>,
    cursor: usize,
    budget: usize,
    in_flight: Vec<String>,
    awaiting_list: bool,
    awaiting_dir: Option<String>,
    walk_failed: bool,
    root: Ghost<Seq<char>>,
    current: Ghost<Seq<char>>,
    start: Ghost<Set<Seq<char>>>,
    walked: Ghost<Set<Seq<char>>>,
    called: Ghost<Set<Seq<char>>>,
    succeeded: Ghost<Set<Seq<char>>>,
    settled: Ghost<Set<Seq<char>>>,
}

impl ScanTick {
    /// The directory the tick started from.
    pub closed spec fn root_spec(&self) -> Seq<char> {
        self.root@
    }

    /// The directory whose listing the walk is going through.
    pub closed spec fn current_spec(&self) -> Seq<char> {
        self.current@
    }

    /// The worker budget.
    pub closed spec fn budget_spec(&self) -> nat {
        self.budget as nat
    }

    /// The files dispatched and not yet reported finished.
    pub closed spec fn in_flight_spec(&self) -> Seq<Seq<char>> {
        self.in_flight@.map_values(|p: String| p@)
    }

    /// The directories still to list.
    pub closed spec fn stack_spec(&self) -> Seq<Seq<char>> {
        self.stack@.map_values(|p: String| p@)
    }

    /// The entries of the current listing not yet handled.
    pub closed spec fn remaining_spec(&self) -> Seq<Listed> {
        self.listing@.subrange(self.cursor as int, self.listing@.len() as int)
    }

    /// The paths indexed when the tick began.
    pub closed spec fn start_spec(&self) -> Set<Seq<char>> {
        self.start@
    }

    /// The entries the walk has handled.
    pub closed spec fn walked_spec(&self) -> Set<Seq<char>> {
        self.walked@
    }

    /// The entries whose pipeline the tick started.
    pub closed spec fn called_spec(&self) -> Set<Seq<char>> {
        self.called@
    }

    /// The entries whose pipeline succeeded in this tick.
    pub closed spec fn succeeded_spec(&self) -> Set<Seq<char>> {
        self.succeeded@
    }

    /// The directories whose registration is over, or that were already indexed.
    pub closed spec fn settled_spec(&self) -> Set<Seq<char>> {
        self.settled@
    }

    /// Whether a listing has been asked for and not reported.
    pub closed spec fn awaiting_list_spec(&self) -> bool {
        self.awaiting_list
    }

    /// The directory whose registration has been asked for and not reported.
    pub closed spec fn awaiting_dir_spec(&self) -> Option<Seq<char>> {
        match self.awaiting_dir {
            Some(d) => Some(d@),
            None => None,
        }
    }

    /// Whether a listing failed, which ends the walk.
    pub closed spec fn walk_failed_spec(&self) -> bool {
        self.walk_failed
    }

    pub closed spec fn wf(&self) -> bool {
        &&& self.budget > 0
        &&& self.in_flight@.len() <= self.budget
        &&& self.cursor <= self.listing@.len()
        &&& forall|i: int|
            0 <= i < self.stack@.len() ==> #[trigger] self.stack@[i]@ == self.root@
                || self.settled@.contains(self.stack@[i]@)
        &&& self.current@ == self.root@ || self.settled@.contains(self.current@)
        &&& self.called@ == self.walked@.difference(self.start@)
        &&& self.succeeded@.subset_of(self.called@)
        &&& forall|i: int|
            0 <= i < self.in_flight@.len() ==> self.called@.contains(
                #[trigger] self.in_flight@[i]@,
            )
        &&& self.awaiting_dir matches Some(d) ==> self.called@.contains(d@)
    }

    /// The local index is where this tick leaves it.
    pub open spec fn consistent(&self, index: Map<Seq<char>, FileResponse>) -> bool {
        index.dom() == self.start_spec().union(self.succeeded_spec())
    }

    /// What a tick has done so far: it started the pipeline of exactly the
    /// walked paths that were not indexed when it began, the index holds the
    /// paths indexed before and those whose pipeline succeeded, and no more
    /// files run than the budget allows.
    pub proof fn lemma_accounts(&self, index: Map<Seq<char>, FileResponse>)
        requires
            self.wf(),
            self.consistent(index),
        ensures
            self.called_spec() == due(self.start_spec(), self.walked_spec()),
            self.succeeded_spec().subset_of(self.called_spec()),
            index.dom() == indexed_after(
                self.start_spec(),
                self.walked_spec(),
                self.succeeded_spec(),
            ),
            self.in_flight_spec().len() <= self.budget_spec(),
    {
        assert(index.dom() =~= indexed_after(
            self.start_spec(),
            self.walked_spec(),
            self.succeeded_spec(),
        ));
    }

    /// When every pipeline a tick started has succeeded, each path it walked
    /// is in the index, and the next tick skips it.
    pub proof fn lemma_all_walked_indexed(&self, index: Map<Seq<char>, FileResponse>)
        requires
            self.wf(),
            self.consistent(index),
            self.succeeded_spec() == self.called_spec(),
        ensures
            forall|p: Seq<char>| #[trigger] self.walked_spec().contains(p) ==> index.contains_key(p),
    {
        assert forall|p: Seq<char>| #[trigger] self.walked_spec().contains(p) implies index.contains_key(
            p,
        ) by {
            if !self.start@.contains(p) {
                assert(self.called@.contains(p));
            }
        }
    }

    /// A tick over the tree under `root`, with a budget of `budget` workers.
    pub fn new(root: String, budget: usize, index: &LocalIndex) -> (r: ScanTick)
        requires
            budget > 0,
        ensures
            r.wf(),
            r.consistent(index@),
            r.root_spec() == root@,
            r.stack_spec() == seq![root@],
            r.remaining_spec().len() == 0,
            r.budget_spec() == budget,
            r.in_flight_spec().len() == 0,
            r.start_spec() == index@.dom(),
            r.walked_spec() == Set::<Seq<char>>::empty(),
            r.succeeded_spec() == Set::<Seq<char>>::empty(),
            !r.awaiting_list_spec(),
            r.awaiting_dir_spec() is None,
            !r.walk_failed_spec(),
    {
        let ghost root_view = root@;
        let mut stack = Vec::new();
        stack.push(root);
        let r = ScanTick {
            stack,
            listing: Vec::new(),
            cursor: 0,
            budget,
            in_flight: Vec::new(),
            awaiting_list: false,
            awaiting_dir: None,
            walk_failed: false,
            root: Ghost(root_view),
            current: Ghost(root_view),
            start: Ghost(index@.dom()),
            walked: Ghost(Set::empty()),
            called: Ghost(Set::empty()),
            succeeded: Ghost(Set::empty()),
            settled: Ghost(Set::empty()),
        };
        assert(r.called@ =~= r.walked@.difference(r.start@));
        assert(r.start@.union(r.succeeded@) =~= index@.dom());
        assert(r.stack_spec() =~= seq![root_view]);
        r
    }

    /// Whether a listing has been asked for and not reported.
    pub fn awaiting_list(&self) -> (r: bool)
        ensures
            r == self.awaiting_list_spec(),
    {
        self.awaiting_list
    }

    /// Whether a registration has been asked for and not reported.
    pub fn awaiting_dir(&self) -> (r: bool)
        ensures
            r == self.awaiting_dir_spec() is Some,
    {
        self.awaiting_dir.is_some()
    }

    /// Whether a listing failed, which ended the walk early.
    pub fn walk_failed(&self) -> (r: bool)
        ensures
            r == self.walk_failed_spec(),
    {
        self.walk_failed
    }

    /// Decides the next step of the walk. `index` is the local index as this
    /// tick left it.
    pub fn next_step(&mut self, index: &LocalIndex) -> (r: Step)
        requires
            old(self).wf(),
            old(self).consistent(index@),
            index.wf(),
            !old(self).awaiting_list_spec(),
            old(self).awaiting_dir_spec() is None,
        ensures
            final(self).wf(),
            final(self).consistent(index@),
            final(self).root_spec() == old(self).root_spec(),
            final(self).budget_spec() == old(self).budget_spec(),
            final(self).start_spec() == old(self).start_spec(),
            final(self).succeeded_spec() == old(self).succeeded_spec(),
            final(self).walk_failed_spec() == old(self).walk_failed_spec(),
            step_spec(*old(self), *final(self), index@, r),
            // a file is dispatched only while a worker is free
            r is Dispatch ==> old(self).in_flight_spec().len() < old(self).budget_spec(),
            // the directory being listed is the root, or its registration is over
            r is Dispatch ==> final(self).current_spec() == final(self).root_spec()
                || final(self).settled_spec().contains(final(self).current_spec()),
            // a tick ends only with no file running and nothing left to walk
            r is Done ==> final(self).in_flight_spec().len() == 0
                && final(self).stack_spec().len() == 0 && final(self).remaining_spec().len() == 0,
    {
        let ghost old_remaining = self.remaining_spec();
        let ghost old_stack = self.stack_spec();
        if self.cursor < self.listing.len() {
            let path = self.listing[self.cursor].path.clone();
            let kind = self.listing[self.cursor].kind;
            let ghost p = path@;
            assert(old_remaining[0] == self.listing@[self.cursor as int]);
            if index.has(&path) {
                self.cursor = self.cursor + 1;
                self.walked = Ghost(self.walked@.insert(p));
                if kind == FileType::DIRECTORY {
                    self.settled = Ghost(self.settled@.insert(p));
                    self.stack.push(path.clone());
                    assert(self.stack_spec() =~= old_stack.push(p));
                }
                assert(self.remaining_spec() =~= old_remaining.drop_first());
                assert(self.called@ =~= self.walked@.difference(self.start@));
                return Step::Skip(path);
            }
            if kind == FileType::DIRECTORY {
                self.cursor = self.cursor + 1;
                self.walked = Ghost(self.walked@.insert(p));
                self.called = Ghost(self.called@.insert(p));
                self.awaiting_dir = Some(path.clone());
                assert(self.remaining_spec() =~= old_remaining.drop_first());
                assert(self.called@ =~= self.walked@.difference(self.start@));
                return Step::Register(path);
            }
            if self.in_flight.len() < self.budget {
                let ghost old_flight = self.in_flight_spec();
                self.cursor = self.cursor + 1;
                self.walked = Ghost(self.walked@.insert(p));
                self.called = Ghost(self.called@.insert(p));
                self.in_flight.push(path.clone());
                assert(self.remaining_spec() =~= old_remaining.drop_first());
                assert(self.in_flight_spec() =~= old_flight.push(p));
                assert(self.called@ =~= self.walked@.difference(self.start@));
                return Step::Dispatch(path);
            }
            return Step::AwaitWorker;
        }
        if self.stack.len() > 0 {
            let dir = self.stack.pop().unwrap();
            assert(self.stack_spec() =~= old_stack.drop_last());
            assert(dir@ == old_stack.last());
            self.current = Ghost(dir@);
            self.listing = Vec::new();
            self.cursor = 0;
            self.awaiting_list = true;
            return Step::List(dir);
        }
        if self.in_flight.len() > 0 {
            Step::AwaitWorker
        } else {
            Step::Done
        }
    }

    /// Reports the children of the directory that `List` asked for.
    pub fn listed(&mut self, entries: Vec<Listed>)
        requires
            old(self).wf(),
            old(self).awaiting_list_spec(),
        ensures
            final(self).wf(),
            !final(self).awaiting_list_spec(),
            final(self).remaining_spec() == entries@,
            final(self).stack_spec() == old(self).stack_spec(),
            final(self).current_spec() == old(self).current_spec(),
            final(self).in_flight_spec() == old(self).in_flight_spec(),
            final(self).root_spec() == old(self).root_spec(),
            final(self).budget_spec() == old(self).budget_spec(),
            final(self).start_spec() == old(self).start_spec(),
            final(self).walked_spec() == old(self).walked_spec(),
            final(self).called_spec() == old(self).called_spec(),
            final(self).succeeded_spec() == old(self).succeeded_spec(),
            final(self).settled_spec() == old(self).settled_spec(),
            final(self).awaiting_dir_spec() == old(self).awaiting_dir_spec(),
            final(self).walk_failed_spec() == old(self).walk_failed_spec(),
    {
        self.listing = entries;
        self.cursor = 0;
        self.awaiting_list = false;
        assert(self.remaining_spec() =~= entries@);
    }

    /// Reports that the directory that `List` asked for could not be listed.
    /// The walk ends there; the files already dispatched are still awaited.
    pub fn listing_failed(&mut self)
        requires
            old(self).wf(),
            old(self).awaiting_list_spec(),
        ensures
            final(self).wf(),
            !final(self).awaiting_list_spec(),
            final(self).walk_failed_spec(),
            final(self).remaining_spec().len() == 0,
            final(self).stack_spec().len() == 0,
            final(self).in_flight_spec() == old(self).in_flight_spec(),
            final(self).root_spec() == old(self).root_spec(),
            final(self).budget_spec() == old(self).budget_spec(),
            final(self).start_spec() == old(self).start_spec(),
            final(self).walked_spec() == old(self).walked_spec(),
            final(self).called_spec() == old(self).called_spec(),
            final(self).succeeded_spec() == old(self).succeeded_spec(),
            final(self).awaiting_dir_spec() == old(self).awaiting_dir_spec(),
    {
        self.listing = Vec::new();
        self.cursor = 0;
        self.stack = Vec::new();
        self.awaiting_list = false;
        self.walk_failed = true;
        assert(self.remaining_spec() =~= Seq::<Listed>::empty());
        assert(self.stack_spec() =~= Seq::<Seq<char>>::empty());
    }

    /// Reports how the registration that `Register` asked for went: the record
    /// when it succeeded, `None` when it failed. On success the directory goes
    /// into the local index. Either way its children are walked later.
    pub fn registered(&mut self, index: &mut LocalIndex, outcome: Option<FileResponse>)
        requires
            old(self).wf(),
            old(self).consistent(old(index)@),
            old(index).wf(),
            old(self).awaiting_dir_spec() is Some,
        ensures
            final(self).wf(),
            final(self).consistent(final(index)@),
            final(index).wf(),
            ({
                let d = old(self).awaiting_dir_spec()->0;
                &&& final(self).awaiting_dir_spec() is None
                &&& final(self).stack_spec() == old(self).stack_spec().push(d)
                &&& final(self).settled_spec() == old(self).settled_spec().insert(d)
                &&& final(index)@ == match outcome {
                    Some(rec) => old(index)@.insert(d, rec),
                    None => old(index)@,
                }
                &&& final(self).succeeded_spec() == if outcome is Some {
                    old(self).succeeded_spec().insert(d)
                } else {
                    old(self).succeeded_spec()
                }
            }),
            final(self).remaining_spec() == old(self).remaining_spec(),
            final(self).current_spec() == old(self).current_spec(),
            final(self).in_flight_spec() == old(self).in_flight_spec(),
            final(self).root_spec() == old(self).root_spec(),
            final(self).budget_spec() == old(self).budget_spec(),
            final(self).start_spec() == old(self).start_spec(),
            final(self).walked_spec() == old(self).walked_spec(),
            final(self).called_spec() == old(self).called_spec(),
            final(self).awaiting_list_spec() == old(self).awaiting_list_spec(),
            final(self).walk_failed_spec() == old(self).walk_failed_spec(),
    {
        let ghost old_stack = self.stack_spec();
        let dir = self.awaiting_dir.take().unwrap();
        let ghost d = dir@;
        match outcome {
            Some(rec) => {
                index.put(dir.clone(), rec);
                self.succeeded = Ghost(self.succeeded@.insert(d));
            },
            None => {},
        }
        self.settled = Ghost(self.settled@.insert(d));
        self.stack.push(dir);
        assert(self.stack_spec() =~= old_stack.push(d));
        assert(index@.dom() =~= self.start@.union(self.succeeded@));
    }

    /// Reports that the file dispatched for `path` finished: with its record
    /// when every phase succeeded, with `None` otherwise. On success the path
    /// goes into the local index. The result is false, and nothing changes,
    /// when no dispatched file has that path.
    pub fn finished(
        &mut self,
        index: &mut LocalIndex,
        path: &String,
        outcome: Option<FileResponse>,
    ) -> (r: bool)
        requires
            old(self).wf(),
            old(self).consistent(old(index)@),
            old(index).wf(),
        ensures
            final(self).wf(),
            final(self).consistent(final(index)@),
            final(index).wf(),
            r == old(self).in_flight_spec().contains(path@),
            r ==> exists|i: int|
                0 <= i < old(self).in_flight_spec().len() && old(self).in_flight_spec()[i]
                    == path@ && final(self).in_flight_spec() == old(
                    self,
                ).in_flight_spec().remove(i),
            !r ==> final(self).in_flight_spec() == old(self).in_flight_spec(),
            final(index)@ == match outcome {
                Some(rec) if r => old(index)@.insert(path@, rec),
                _ => old(index)@,
            },
            final(self).succeeded_spec() == if r && outcome is Some {
                old(self).succeeded_spec().insert(path@)
            } else {
                old(self).succeeded_spec()
            },
            final(self).remaining_spec() == old(self).remaining_spec(),
            final(self).stack_spec() == old(self).stack_spec(),
            final(self).current_spec() == old(self).current_spec(),
            final(self).root_spec() == old(self).root_spec(),
            final(self).budget_spec() == old(self).budget_spec(),
            final(self).start_spec() == old(self).start_spec(),
            final(self).walked_spec() == old(self).walked_spec(),
            final(self).called_spec() == old(self).called_spec(),
            final(self).settled_spec() == old(self).settled_spec(),
            final(self).awaiting_list_spec() == old(self).awaiting_list_spec(),
            final(self).awaiting_dir_spec() == old(self).awaiting_dir_spec(),
            final(self).walk_failed_spec() == old(self).walk_failed_spec(),
    {
        let ghost old_flight = self.in_flight_spec();
        let mut i: usize = 0;
        while i < self.in_flight.len()
            invariant
                i <= self.in_flight@.len(),
                *self == *old(self),
                *index == *old(index),
                self.wf(),
                self.consistent(index@),
                index.wf(),
                old_flight == self.in_flight_spec(),
                forall|j: int| 0 <= j < i ==> old_flight[j] != path@,
            decreases self.in_flight@.len() - i,
        {
            if self.in_flight[i] == *path {
                let ghost before = self.in_flight@;
                assert(forall|j: int| 0 <= j < before.len() ==> self.called@.contains(
                    #[trigger] before[j]@));
                self.in_flight.remove(i);
                assert(self.in_flight_spec() =~= old_flight.remove(i as int)) by {
                    assert(self.in_flight@ =~= before.remove(i as int));
                }
                assert(old_flight[i as int] == path@);
                assert(old_flight.contains(path@));
                assert forall|j: int| 0 <= j < self.in_flight@.len() implies self.called@.contains(
                    #[trigger] self.in_flight@[j]@,
                ) by {
                    if j < i {
                        assert(self.in_flight@[j] == before[j]);
                    } else {
                        assert(self.in_flight@[j] == before[j + 1]);
                    }
                }
                match outcome {
                    Some(rec) => {
                        assert(self.called@.contains(before[i as int]@));
                        index.put(path.clone(), rec);
                        self.succeeded = Ghost(self.succeeded@.insert(path@));
                    },
                    None => {},
                }
                assert(index@.dom() =~= self.start@.union(self.succeeded@));
                return true;
            }
            i = i + 1;
        }
        assert(!old_flight.contains(path@));
        false
    }
}

} // verus!
