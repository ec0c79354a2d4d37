//! Run mode: pairing vehicles with plans, one worker per pair, and the shared
//! state that the workers' events update and the dashboard reads.
//!
//! Progress is a ratio in millionths. The vehicle reports progress as
//! `current` of `total` steps; a report with no steps (`total <= 0`) counts
//! as no progress, and the ratio is clamped to `[0, 1]`.
use vstd::prelude::*;
use crate::app::{Key, TabState};

verus! {

/// A full progress bar, in millionths.
pub const PROGRESS_FULL: u32 = 1000000;

pub open spec fn progress_ratio_spec(current: int, total: int) -> int {
    if total <= 0 || current <= 0 {
        0
    } else if current >= total {
        PROGRESS_FULL as int
    } else {
        current * (PROGRESS_FULL as int) / total
    }
}

/// The ratio `current / total` in millionths, clamped to `[0, 1]`; zero when
/// there are no steps to count.
pub fn progress_ratio(current: i32, total: i32) -> (r: u32)
    ensures
        r == progress_ratio_spec(current as int, total as int),
        r <= PROGRESS_FULL,
{
    if total <= 0 || current <= 0 {
        0
    } else if current >= total {
        PROGRESS_FULL
    } else {
        let c = current as u64;
        let t = total as u64;
        assert(((c * 1000000) as int) / (t as int) < 1000000) by (nonlinear_arith)
            requires
                0 < c < t,
        ;
        (c * 1000000 / t) as u32
    }
}

/// Why a run cannot start, or a worker cannot fly its plan.
#[derive(Clone, Copy, Debug, PartialEq, Eq, Structural)]
pub enum RunError {
    CountMismatch { vehicles: usize, plans: usize },
    PlanNotFound { worker: usize },
}

/// Pairs the `i`-th vehicle with the `i`-th plan; fails when the counts differ.
pub fn pair_vehicles_with_plans(vehicles: Vec<String>, plans: Vec<String>) -> (r: Result<
    Vec<(String, String)>,
    RunError,
>)
    ensures
        vehicles@.len() != plans@.len() <==> r == Err::<Vec<(String, String)>, RunError>(
            RunError::CountMismatch { vehicles: vehicles@.len() as usize, plans: plans@.len() as usize },
        ),
        r is Ok ==> {
            &&& r->Ok_0@.len() == vehicles@.len()
            &&& forall|i: int|
                0 <= i < vehicles@.len() ==> #[trigger] r->Ok_0@[i] == (vehicles@[i], plans@[i])
        },
{
    if vehicles.len() != plans.len() {
        return Err(RunError::CountMismatch { vehicles: vehicles.len(), plans: plans.len() });
    }
    let mut pairs: Vec<(String, String)> = Vec::new();
    let mut i: usize = 0;
    while i < vehicles.len()
        invariant
            vehicles@.len() == plans@.len(),
            i <= vehicles@.len(),
            pairs@.len() == i,
            forall|j: int| 0 <= j < i ==> #[trigger] pairs@[j] == (vehicles@[j], plans@[j]),
        decreases vehicles@.len() - i,
    {
        pairs.push((vehicles[i].clone(), plans[i].clone()));
        i = i + 1;
    }
    Ok(pairs)
}

/// One vehicle flying one plan; `id` is its slot in the shared progress.
#[derive(Clone, Debug)]
pub struct Worker {
    pub id: usize,
    pub endpoint: String,
    pub plan_path: String,
}

impl Worker {
    /// Whether the worker may start, given whether its plan path names a regular file.
    pub fn check_plan(&self, plan_is_file: bool) -> (r: Result<(), RunError>)
        ensures
            r == if plan_is_file {
                Ok::<(), RunError>(())
            } else {
                Err(RunError::PlanNotFound { worker: self.id })
            },
    {
        if plan_is_file {
            Ok(())
        } else {
            Err(RunError::PlanNotFound { worker: self.id })
        }
    }
}

/// One worker per (vehicle endpoint, plan path) pair, with ids `0..n` in order.
pub fn start_workers(sets: &Vec<(String, String)>) -> (r: Vec<Worker>)
    ensures
        r@.len() == sets@.len(),
        forall|i: int|
            0 <= i < sets@.len() ==> #[trigger] r@[i] == (Worker {
                id: i as usize,
                endpoint: sets@[i].0,
                plan_path: sets@[i].1,
            }),
{
    let mut workers: Vec<Worker> = Vec::new();
    let mut i: usize = 0;
    while i < sets.len()
        invariant
            i <= sets@.len(),
            workers@.len() == i,
            forall|j: int|
                0 <= j < i ==> #[trigger] workers@[j] == (Worker {
                    id: j as usize,
                    endpoint: sets@[j].0,
                    plan_path: sets@[j].1,
                }),
        decreases sets@.len() - i,
    {
        let endpoint = sets[i].0.clone();
        let plan_path = sets[i].1.clone();
        workers.push(Worker { id: i, endpoint, plan_path });
        i = i + 1;
    }
    workers
}

/// What a vehicle reports while it flies: its position (1e-7 degree and
/// millimetres), its step counters, a log line, or the end of the plan.
#[derive(Clone, Debug)]
pub enum RunEvent {
    Position { lat: i64, lon: i64, alt_mm: i64 },
    Progress { current: i32, total: i32 },
    Log(String),
    Complete,
}

/// The state shared by the workers and the dashboard: one progress ratio per
/// worker, indexed by worker id, and the log lines tagged with their worker.
pub struct RunAppState {
    pub progress: Vec<u32>,
    pub logs: Vec<(usize, String)>,
}

/// The state after worker `id` reports `event`.
pub open spec fn after_event(
    progress: Seq<u32>,
    logs: Seq<(usize, String)>,
    id: usize,
    event: RunEvent,
) -> (Seq<u32>, Seq<(usize, String)>) {
    match event {
        RunEvent::Progress { current, total } => (
            progress.update(id as int, progress_ratio_spec(current as int, total as int) as u32),
            logs,
        ),
        RunEvent::Log(msg) => (progress, logs.push((id, msg))),
        _ => (progress, logs),
    }
}

impl RunAppState {
    /// Shared state for `workers` workers, all at zero progress, with one log line.
    pub fn new(workers: usize) -> (r: RunAppState)
        ensures
            r.progress@ == Seq::new(workers as nat, |i: int| 0u32),
            r.logs@.len() == 1,
            r.logs@[0].0 == 0,
            r.logs@[0].1@ == "Loading Mavsdk"@,
    {
        let mut progress: Vec<u32> = Vec::new();
        let mut i: usize = 0;
        while i < workers
            invariant
                i <= workers,
                progress@ == Seq::new(i as nat, |j: int| 0u32),
            decreases workers - i,
        {
            progress.push(0);
            i = i + 1;
            assert(progress@ =~= Seq::new(i as nat, |j: int| 0u32));
        }
        let mut logs: Vec<(usize, String)> = Vec::new();
        logs.push((0, "Loading Mavsdk".to_string()));
        RunAppState { progress, logs }
    }

    /// Records worker `id`'s progress report.
    pub fn save_progress(&mut self, id: usize, current: i32, total: i32)
        requires
            id < old(self).progress@.len(),
        ensures
            final(self).progress@ == old(self).progress@.update(
                id as int,
                progress_ratio_spec(current as int, total as int) as u32,
            ),
            final(self).logs@ == old(self).logs@,
    {
        let ratio = progress_ratio(current, total);
        self.progress.set(id, ratio);
    }

    /// Appends a log line from worker `id`.
    pub fn log(&mut self, id: usize, msg: String)
        ensures
            final(self).logs@ == old(self).logs@.push((id, msg)),
            final(self).progress@ == old(self).progress@,
    {
        self.logs.push((id, msg));
    }

    /// Applies one event of worker `id`; returns whether the worker is done.
    pub fn apply(&mut self, id: usize, event: RunEvent) -> (done: bool)
        requires
            id < old(self).progress@.len(),
        ensures
            (final(self).progress@, final(self).logs@) == after_event(
                old(self).progress@,
                old(self).logs@,
                id,
                event,
            ),
            done == (event is Complete),
    {
        match event {
            RunEvent::Progress { current, total } => {
                self.save_progress(id, current, total);
                false
            },
            RunEvent::Log(msg) => {
                self.log(id, msg);
                false
            },
            RunEvent::Position { .. } => false,
            RunEvent::Complete => true,
        }
    }
}

/// The run-mode screen: its title, the tabs, and whether the user asked to quit.
pub struct RunApp<'a> {
    pub title: &'a str,
    pub should_quit: bool,
    pub tabs: TabState<'a>,
    pub enhanced_graphics: bool,
}

impl<'a> RunApp<'a> {
    pub open spec fn wf(&self) -> bool {
        self.tabs.wf()
    }

    /// The screen with the "Overview" and "Connections" tabs, the first selected.
    pub fn new(title: &'a str, enhanced_graphics: bool) -> (r: RunApp<'a>)
        ensures
            r.wf(),
            r.title == title,
            !r.should_quit,
            r.tabs.titles@ == seq!["Overview", "Connections"],
            r.tabs.index == 0,
            r.enhanced_graphics == enhanced_graphics,
    {
        let titles: Vec<&'a str> = vec!["Overview", "Connections"];
        RunApp { title, should_quit: false, tabs: TabState::new(titles), enhanced_graphics }
    }

    /// `q` asks to quit; other characters do nothing.
    pub fn on_key(&mut self, c: char)
        ensures
            final(self).should_quit == (old(self).should_quit || c == 'q'),
            final(self).tabs.titles@ == old(self).tabs.titles@,
            final(self).tabs.index == old(self).tabs.index,
            final(self).title == old(self).title,
    {
        if c == 'q' {
            self.should_quit = true;
        }
    }

    pub fn on_left(&mut self)
        requires
            old(self).wf(),
        ensures
            final(self).wf(),
            final(self).tabs.titles@ == old(self).tabs.titles@,
            final(self).tabs.index == if old(self).tabs.index > 0 {
                old(self).tabs.index - 1
            } else {
                old(self).tabs.titles@.len() - 1
            },
            final(self).should_quit == old(self).should_quit,
    {
        self.tabs.prev();
    }

    pub fn on_right(&mut self)
        requires
            old(self).wf(),
        ensures
            final(self).wf(),
            final(self).tabs.titles@ == old(self).tabs.titles@,
            final(self).tabs.index == (old(self).tabs.index + 1) % (
            old(self).tabs.titles@.len() as int),
            final(self).should_quit == old(self).should_quit,
    {
        self.tabs.next();
    }

    /// Dispatches one key: characters to `on_key`, arrows to the tabs.
    pub fn on_event(&mut self, key: Key)
        requires
            old(self).wf(),
        ensures
            final(self).wf(),
            final(self).tabs.titles@ == old(self).tabs.titles@,
            final(self).should_quit == (old(self).should_quit || key == Key::Char('q')),
            final(self).tabs.index == match key {
                Key::Left => if old(self).tabs.index > 0 {
                    old(self).tabs.index - 1
                } else {
                    old(self).tabs.titles@.len() - 1
                },
                Key::Right => (old(self).tabs.index + 1) % (old(self).tabs.titles@.len() as int),
                _ => old(self).tabs.index as int,
            },
    {
        match key {
            Key::Char(c) => self.on_key(c),
            Key::Left => self.on_left(),
            Key::Right => self.on_right(),
            _ => {},
        }
    }
}

} // verus!
