//! The agent: the local index, the tree it mirrors, the credential it calls
//! the service with, and at most one scan tick at a time. A new tick can only
//! begin once the last one is over, and a tick is over only when none of the
//! files it dispatched is still running.

use vstd::prelude::*;
use crate::index::LocalIndex;
use crate::scheduler::{step_spec, Listed, ScanTick, Step};
use crate::schema::{FileResponse, FileType};

verus! {

/// Seconds between two scan ticks.
pub const SCAN_INTERVAL: u64 = 5;

/// How many file pipelines may run at once.
pub const MAX_WORKERS: usize = 4;

/// The synchronisation agent.
pub struct Agent {
    token: String,
    scan_dir: String,
    scan_interval: u64,
    max_workers: usize,
    index: LocalIndex,
    tick: Option<ScanTick>,
}

impl Agent {
    pub closed spec fn token_spec(&self) -> Seq<char> {
        self.token@
    }

    pub closed spec fn root_spec(&self) -> Seq<char> {
        self.scan_dir@
    }

    pub closed spec fn scan_interval_spec(&self) -> u64 {
        self.scan_interval
    }

    pub closed spec fn max_workers_spec(&self) -> usize {
        self.max_workers
    }

    /// The local index.
    pub closed spec fn index_spec(&self) -> Map<Seq<char>, FileResponse> {
        self.index@
    }

    /// The tick under way, if any.
    pub closed spec fn tick_spec(&self) -> Option<ScanTick> {
        self.tick
    }

    pub closed spec fn wf(&self) -> bool {
        &&& self.index.wf()
        &&& self.max_workers > 0
        &&& self.tick matches Some(t) ==> {
            &&& t.wf()
            &&& t.consistent(self.index@)
            &&& t.root_spec() == self.scan_dir@
            &&& t.budget_spec() == self.max_workers
        }
    }

    /// Whether the tick under way waits for neither a listing nor a
    /// registration to be reported, so that its next step can be asked for.
    pub open spec fn ready_spec(&self) -> bool {
        self.tick_spec() matches Some(t) && !t.awaiting_list_spec() && t.awaiting_dir_spec() is None
    }

    /// At no time do more files run than the worker budget allows.
    pub proof fn lemma_bounded_concurrency(&self)
        requires
            self.wf(),
        ensures
            self.tick_spec() matches Some(t) ==> t.in_flight_spec().len() <= self.max_workers_spec(),
    {
        if let Some(t) = self.tick {
            t.lemma_accounts(self.index@);
        }
    }

    /// The index holds what the tick under way accounts for.
    pub proof fn lemma_index_matches_tick(&self)
        requires
            self.wf(),
        ensures
            self.tick_spec() matches Some(t) ==> t.consistent(self.index_spec()),
    {
    }

    /// An agent for the tree under `scan_dir`, with an empty index and no tick
    /// under way.
    pub fn new(token: String, scan_dir: String) -> (r: Agent)
        ensures
            r.wf(),
            r.token_spec() == token@,
            r.root_spec() == scan_dir@,
            r.scan_interval_spec() == SCAN_INTERVAL,
            r.max_workers_spec() == MAX_WORKERS,
            r.index_spec() == Map::<Seq<char>, FileResponse>::empty(),
            r.tick_spec() is None,
    {
        Agent {
            token,
            scan_dir,
            scan_interval: SCAN_INTERVAL,
            max_workers: MAX_WORKERS,
            index: LocalIndex::new(),
            tick: None,
        }
    }

    /// The credential sent with every call to the service.
    pub fn token(&self) -> (r: &String)
        ensures
            r@ == self.token_spec(),
    {
        &self.token
    }

    /// The root of the mirrored tree.
    pub fn root(&self) -> (r: &String)
        ensures
            r@ == self.root_spec(),
    {
        &self.scan_dir
    }

    /// Seconds between two ticks.
    pub fn scan_interval(&self) -> (r: u64)
        ensures
            r == self.scan_interval_spec(),
    {
        self.scan_interval
    }

    /// Sets the seconds between two ticks; a tick every zero seconds is refused,
    /// with false.
    pub fn set_scan_interval(&mut self, seconds: u64) -> (r: bool)
        requires
            old(self).wf(),
        ensures
            final(self).wf(),
            r == (seconds > 0),
            final(self).scan_interval_spec() == if r {
                seconds
            } else {
                old(self).scan_interval_spec()
            },
            final(self).index_spec() == old(self).index_spec(),
            final(self).tick_spec() == old(self).tick_spec(),
            final(self).root_spec() == old(self).root_spec(),
            final(self).token_spec() == old(self).token_spec(),
            final(self).max_workers_spec() == old(self).max_workers_spec(),
    {
        if seconds == 0 {
            return false;
        }
        self.scan_interval = seconds;
        true
    }

    /// The local index.
    pub fn index(&self) -> (r: &LocalIndex)
        requires
            self.wf(),
        ensures
            r.wf(),
            r@ == self.index_spec(),
            r@.dom().finite(),
    {
        proof {
            self.index.lemma_finite();
        }
        &self.index
    }

    /// Whether a tick is under way.
    pub fn scanning(&self) -> (r: bool)
        ensures
            r == self.tick_spec() is Some,
    {
        self.tick.is_some()
    }

    /// Whether the next step of the tick under way can be asked for.
    pub fn ready(&self) -> (r: bool)
        ensures
            r == self.ready_spec(),
    {
        match &self.tick {
            Some(t) => !t.awaiting_list() && !t.awaiting_dir(),
            None => false,
        }
    }

    /// Puts a record read back from persistent storage into the index. Refused,
    /// with false, while a tick is under way.
    pub fn restore(&mut self, path: String, record: FileResponse) -> (r: bool)
        requires
            old(self).wf(),
        ensures
            final(self).wf(),
            r == old(self).tick_spec() is None,
            final(self).index_spec() == if r {
                old(self).index_spec().insert(path@, record)
            } else {
                old(self).index_spec()
            },
            final(self).tick_spec() == old(self).tick_spec(),
            final(self).root_spec() == old(self).root_spec(),
            final(self).max_workers_spec() == old(self).max_workers_spec(),
    {
        if self.tick.is_some() {
            return false;
        }
        self.index.put(path, record);
        true
    }

    /// Begins a scan tick over the tree. Refused, with false, while the last
    /// tick is still under way.
    pub fn scan_dir(&mut self) -> (r: bool)
        requires
            old(self).wf(),
        ensures
            final(self).wf(),
            r == old(self).tick_spec() is None,
            final(self).index_spec() == old(self).index_spec(),
            r ==> (final(self).tick_spec() matches Some(t) && {
                &&& t.root_spec() == old(self).root_spec()
                &&& t.budget_spec() == old(self).max_workers_spec()
                &&& t.stack_spec() == seq![old(self).root_spec()]
                &&& t.remaining_spec().len() == 0
                &&& t.in_flight_spec().len() == 0
                &&& t.start_spec() == old(self).index_spec().dom()
                &&& t.walked_spec() == Set::<Seq<char>>::empty()
                &&& t.succeeded_spec() == Set::<Seq<char>>::empty()
                &&& !t.awaiting_list_spec()
                &&& t.awaiting_dir_spec() is None
                &&& !t.walk_failed_spec()
            }),
            !r ==> final(self).tick_spec() == old(self).tick_spec(),
            final(self).root_spec() == old(self).root_spec(),
            final(self).max_workers_spec() == old(self).max_workers_spec(),
    {
        if self.tick.is_some() {
            return false;
        }
        let t = ScanTick::new(self.scan_dir.clone(), self.max_workers, &self.index);
        self.tick = Some(t);
        true
    }

    /// The next step of the tick under way. When it is `Done` the tick is
    /// over and a new one may begin.
    pub fn next_step(&mut self) -> (r: Step)
        requires
            old(self).wf(),
            old(self).ready_spec(),
        ensures
            final(self).wf(),
            final(self).index_spec() == old(self).index_spec(),
            final(self).root_spec() == old(self).root_spec(),
            final(self).max_workers_spec() == old(self).max_workers_spec(),
            ({
                let t0 = old(self).tick_spec()->0;
                if r is Done {
                    &&& final(self).tick_spec() is None
                    &&& t0.in_flight_spec().len() == 0
                    &&& t0.stack_spec().len() == 0
                    &&& t0.remaining_spec().len() == 0
                } else {
                    &&& final(self).tick_spec() matches Some(t1)
                    &&& step_spec(t0, t1, old(self).index_spec(), r)
                    &&& t1.start_spec() == t0.start_spec()
                    &&& t1.succeeded_spec() == t0.succeeded_spec()
                    &&& r is Dispatch ==> t0.in_flight_spec().len() < t0.budget_spec()
                        && t1.in_flight_spec().len() == t0.in_flight_spec().len() + 1
                    &&& r is Dispatch ==> t1.current_spec() == t1.root_spec()
                        || t1.settled_spec().contains(t1.current_spec())
                    &&& r matches Step::Register(d) ==> t1.awaiting_dir_spec() == Some(d@)
                    &&& r is List ==> t1.awaiting_list_spec()
                    &&& r matches Step::Skip(p) ==> old(self).index_spec().contains_key(p@)
                    &&& r matches Step::Register(p) ==> !old(self).index_spec().contains_key(p@)
                    &&& r matches Step::Dispatch(p) ==> !old(self).index_spec().contains_key(p@)
                }
            }),
    {
        let mut t = self.tick.take().unwrap();
        let r = t.next_step(&self.index);
        match r {
            Step::Done => {},
            _ => {
                self.tick = Some(t);
            },
        }
        r
    }

    /// Reports the children of the directory that `List` asked for.
    pub fn listed(&mut self, entries: Vec<Listed>)
        requires
            old(self).wf(),
            old(self).tick_spec() matches Some(t) && t.awaiting_list_spec(),
        ensures
            final(self).wf(),
            final(self).index_spec() == old(self).index_spec(),
            final(self).root_spec() == old(self).root_spec(),
            final(self).max_workers_spec() == old(self).max_workers_spec(),
            final(self).tick_spec() matches Some(t) && t.remaining_spec() == entries@,
            final(self).ready_spec() == (old(self).tick_spec()->0.awaiting_dir_spec() is None),
            ({
                let t0 = old(self).tick_spec()->0;
                let t1 = final(self).tick_spec()->0;
                &&& !t1.awaiting_list_spec()
                &&& t1.stack_spec() == t0.stack_spec()
                &&& t1.current_spec() == t0.current_spec()
                &&& t1.in_flight_spec() == t0.in_flight_spec()
                &&& t1.awaiting_dir_spec() == t0.awaiting_dir_spec()
                &&& t1.root_spec() == t0.root_spec()
                &&& t1.budget_spec() == t0.budget_spec()
                &&& t1.start_spec() == t0.start_spec()
                &&& t1.walked_spec() == t0.walked_spec()
                &&& t1.called_spec() == t0.called_spec()
                &&& t1.succeeded_spec() == t0.succeeded_spec()
                &&& t1.settled_spec() == t0.settled_spec()
                &&& t1.walk_failed_spec() == t0.walk_failed_spec()
            }),
    {
        let mut t = self.tick.take().unwrap();
        t.listed(entries);
        self.tick = Some(t);
    }

    /// Reports that the directory that `List` asked for could not be listed:
    /// the walk of this tick ends.
    pub fn listing_failed(&mut self)
        requires
            old(self).wf(),
            old(self).tick_spec() matches Some(t) && t.awaiting_list_spec(),
        ensures
            final(self).wf(),
            final(self).index_spec() == old(self).index_spec(),
            final(self).root_spec() == old(self).root_spec(),
            final(self).max_workers_spec() == old(self).max_workers_spec(),
            final(self).tick_spec() matches Some(t) && t.walk_failed_spec()
                && t.stack_spec().len() == 0 && t.remaining_spec().len() == 0,
            final(self).ready_spec() == (old(self).tick_spec()->0.awaiting_dir_spec() is None),
            ({
                let t0 = old(self).tick_spec()->0;
                let t1 = final(self).tick_spec()->0;
                &&& !t1.awaiting_list_spec()
                &&& t1.in_flight_spec() == t0.in_flight_spec()
                &&& t1.awaiting_dir_spec() == t0.awaiting_dir_spec()
                &&& t1.root_spec() == t0.root_spec()
                &&& t1.budget_spec() == t0.budget_spec()
                &&& t1.start_spec() == t0.start_spec()
                &&& t1.walked_spec() == t0.walked_spec()
                &&& t1.called_spec() == t0.called_spec()
                &&& t1.succeeded_spec() == t0.succeeded_spec()
            }),
    {
        let mut t = self.tick.take().unwrap();
        t.listing_failed();
        self.tick = Some(t);
    }

    /// Reports how the registration that `Register` asked for went; on success
    /// the directory goes into the index.
    pub fn registered(&mut self, outcome: Option<FileResponse>)
        requires
            old(self).wf(),
            old(self).tick_spec() matches Some(t) && t.awaiting_dir_spec() is Some,
        ensures
            final(self).wf(),
            ({
                let d = old(self).tick_spec()->0.awaiting_dir_spec()->0;
                final(self).index_spec() == match outcome {
                    Some(rec) => old(self).index_spec().insert(d, rec),
                    None => old(self).index_spec(),
                }
            }),
            final(self).root_spec() == old(self).root_spec(),
            final(self).max_workers_spec() == old(self).max_workers_spec(),
            final(self).tick_spec() matches Some(t) && t.awaiting_dir_spec() is None,
            final(self).ready_spec() == !old(self).tick_spec()->0.awaiting_list_spec(),
            ({
                let t0 = old(self).tick_spec()->0;
                let t1 = final(self).tick_spec()->0;
                let d = t0.awaiting_dir_spec()->0;
                &&& t1.stack_spec() == t0.stack_spec().push(d)
                &&& t1.settled_spec() == t0.settled_spec().insert(d)
                &&& t1.remaining_spec() == t0.remaining_spec()
                &&& t1.current_spec() == t0.current_spec()
                &&& t1.in_flight_spec() == t0.in_flight_spec()
                &&& t1.awaiting_list_spec() == t0.awaiting_list_spec()
                &&& t1.root_spec() == t0.root_spec()
                &&& t1.budget_spec() == t0.budget_spec()
                &&& t1.start_spec() == t0.start_spec()
                &&& t1.walked_spec() == t0.walked_spec()
                &&& t1.called_spec() == t0.called_spec()
                &&& t1.succeeded_spec() == if outcome is Some {
                    t0.succeeded_spec().insert(d)
                } else {
                    t0.succeeded_spec()
                }
                &&& t1.walk_failed_spec() == t0.walk_failed_spec()
            }),
    {
        let mut t = self.tick.take().unwrap();
        t.registered(&mut self.index, outcome);
        self.tick = Some(t);
    }

    /// Reports that the file dispatched for `path` finished, with its record
    /// when every phase succeeded; on success the path goes into the index.
    /// False, with nothing changed, when no tick is under way or no dispatched
    /// file has that path.
    pub fn finished(&mut self, path: &String, outcome: Option<FileResponse>) -> (r: bool)
        requires
            old(self).wf(),
        ensures
            final(self).wf(),
            r == (old(self).tick_spec() matches Some(t) && t.in_flight_spec().contains(path@)),
            final(self).index_spec() == match outcome {
                Some(rec) if r => old(self).index_spec().insert(path@, rec),
                _ => old(self).index_spec(),
            },
            final(self).root_spec() == old(self).root_spec(),
            final(self).max_workers_spec() == old(self).max_workers_spec(),
            final(self).tick_spec() is Some == old(self).tick_spec() is Some,
            final(self).ready_spec() == old(self).ready_spec(),
            r ==> final(self).tick_spec()->0.in_flight_spec().len() + 1 == old(
                self,
            ).tick_spec()->0.in_flight_spec().len(),
            old(self).tick_spec() is Some ==> ({
                let t0 = old(self).tick_spec()->0;
                let t1 = final(self).tick_spec()->0;
                &&& r ==> exists|i: int|
                    0 <= i < t0.in_flight_spec().len() && t0.in_flight_spec()[i] == path@
                        && t1.in_flight_spec() == t0.in_flight_spec().remove(i)
                &&& !r ==> t1.in_flight_spec() == t0.in_flight_spec()
                &&& t1.remaining_spec() == t0.remaining_spec()
                &&& t1.stack_spec() == t0.stack_spec()
                &&& t1.current_spec() == t0.current_spec()
                &&& t1.awaiting_list_spec() == t0.awaiting_list_spec()
                &&& t1.awaiting_dir_spec() == t0.awaiting_dir_spec()
                &&& t1.root_spec() == t0.root_spec()
                &&& t1.budget_spec() == t0.budget_spec()
                &&& t1.start_spec() == t0.start_spec()
                &&& t1.walked_spec() == t0.walked_spec()
                &&& t1.called_spec() == t0.called_spec()
                &&& t1.settled_spec() == t0.settled_spec()
                &&& t1.succeeded_spec() == if r && outcome is Some {
                    t0.succeeded_spec().insert(path@)
                } else {
                    t0.succeeded_spec()
                }
                &&& t1.walk_failed_spec() == t0.walk_failed_spec()
            }),
            old(self).tick_spec() is None ==> final(self).tick_spec() is None,
    {
        match self.tick.take() {
            Some(t) => {
                let mut t = t;
                let r = t.finished(&mut self.index, path, outcome);
                self.tick = Some(t);
                r
            },
            None => false,
        }
    }
}

} // verus!
