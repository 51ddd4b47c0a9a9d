//! The life of one query, from spawning its process to its final event.
//!
//! The supervising task performs the outside work (spawning, registering,
//! waiting) and reports what happened as a `TaskEvent`; `Supervision::step`
//! decides what to do next.

use vstd::prelude::*;
use crate::command::{BinaryRef, LaunchPlan, build_command, launch_program, plan_args, plan_stdin};
use crate::config::{QueryConfig, with_root_spec};
use crate::engine::{Engine, EngineNames, engine_selected_by, engine_tag, opt_text};
use crate::locator::{HostFacts, located_for, locate};
use crate::registry::{Registry, Slot, cancel_effect, removal};
use crate::relay::StreamEvent;
use crate::text::{join3, texts};

verus! {

/// The exit code reported when the process left none, as when it was killed.
pub const NO_EXIT_CODE: i32 = -1;

/// The exit code as captured: the process's own, or the sentinel.
pub open spec fn raw_exit(code: Option<i32>) -> i32 {
    match code {
        Some(c) => c,
        None => NO_EXIT_CODE,
    }
}

/// The benign-crash policy: the secondary engine may exit non-zero after
/// complete output; a harvested session identifier is taken as evidence of
/// success.
pub open spec fn benign_crash(e: Engine, raw: i32, session: Option<Seq<char>>) -> bool {
    e == Engine::Secondary && raw != 0 && session is Some
}

/// The exit code reported in the final event.
pub open spec fn reconciled_exit(e: Engine, code: Option<i32>, session: Option<Seq<char>>) -> i32 {
    if benign_crash(e, raw_exit(code), session) { 0 } else { raw_exit(code) }
}

/// Whether the benign-crash policy applies.
pub fn is_benign_crash(e: Engine, raw: i32, session: &Option<String>) -> (r: bool)
    ensures
        r == benign_crash(e, raw, opt_text(*session)),
{
    e == Engine::Secondary && raw != 0 && session.is_some()
}

/// Reconciles the exit status of a query's process.
pub fn reconcile_exit(e: Engine, code: Option<i32>, session: &Option<String>) -> (r: i32)
    ensures
        r == reconciled_exit(e, code, opt_text(*session)),
{
    let raw = match code {
        Some(c) => c,
        None => NO_EXIT_CODE,
    };
    if is_benign_crash(e, raw, session) { 0 } else { raw }
}

/// The failure reported when the process could not be spawned.
pub open spec fn spawn_failure_text(e: Engine, error: Seq<char>, program: Seq<char>) -> Seq<char> {
    "Failed to spawn "@ + engine_tag(e) + ": "@ + error + " (binary: "@ + program + ")"@
}

/// The failure returned to the submitter when the process could not be spawned.
pub fn spawn_failure_message(e: Engine, error: &str, program: &str) -> (r: String)
    ensures
        r@ == spawn_failure_text(e, error@, program@),
{
    let mut r = join3("Failed to spawn ", e.tag(), ": ");
    r.append(error);
    r.append(" (binary: ");
    r.append(program);
    r.append(")");
    r
}

/// Relies on `uuid::Uuid::new_v4` for a random identifier and on its
/// `Display` form, the hyphenated text of 36 characters.
#[verifier::external_body]
fn fresh_query_id() -> (r: String)
    ensures
        r@.len() == 36,
{
    uuid::Uuid::new_v4().to_string()
}

/// A query accepted for execution.
#[derive(Debug)]
pub struct Submission {
    pub query_id: String,
    pub config: QueryConfig,
}

/// Accepts a query under a given id: enrolls it in the registry as pending
/// so that it can be cancelled from now on and, when the caller named no
/// working directory, gives it the active project's root. An id that
/// already has an entry is refused and nothing changes.
pub fn submit_with_id<H>(
    registry: &mut Registry<H>,
    query_id: String,
    config: QueryConfig,
    project_root: Option<String>,
) -> (r: Option<Submission>)
    requires
        old(registry).wf(),
    ensures
        final(registry).wf(),
        r is None <==> old(registry)@.contains_key(query_id@),
        r is None ==> final(registry)@ == old(registry)@,
        r is Some ==> r->0.query_id == query_id && r->0.config == with_root_spec(config, project_root)
            && final(registry)@ == old(registry)@.insert(query_id@, Slot::Pending),
{
    if registry.enroll(query_id.clone()) {
        Some(Submission { query_id, config: config.with_project_root(project_root) })
    } else {
        None
    }
}

/// Accepts a query under a fresh random id; see `submit_with_id`. In the
/// unlikely case that the drawn id is already registered, nothing changes
/// and that id is returned as the error.
pub fn submit<H>(registry: &mut Registry<H>, config: QueryConfig, project_root: Option<String>) -> (r: Result<Submission, String>)
    requires
        old(registry).wf(),
    ensures
        final(registry).wf(),
        match r {
            Ok(s) => {
                &&& s.query_id@.len() == 36
                &&& s.config == with_root_spec(config, project_root)
                &&& !old(registry)@.contains_key(s.query_id@)
                &&& final(registry)@ == old(registry)@.insert(s.query_id@, Slot::Pending)
            },
            Err(id) => {
                &&& id@.len() == 36
                &&& old(registry)@.contains_key(id@)
                &&& final(registry)@ == old(registry)@
            },
        },
{
    let query_id = fresh_query_id();
    let clash = query_id.clone();
    match submit_with_id(registry, query_id, config, project_root) {
        Some(s) => Ok(s),
        None => Err(clash),
    }
}

/// Where a query stands.
#[derive(Clone, Copy, Debug, PartialEq, Eq, Structural)]
pub enum Phase {
    /// The process is being spawned.
    Spawning,
    /// Spawned; its handle is being registered.
    Registering,
    /// Registered; its output is being relayed.
    Streaming,
    /// Output drained; its registry entry is being removed.
    Reaping,
    /// The entry was found; the process's exit is awaited.
    Waiting,
    /// The final event was emitted.
    Finished,
    /// The process never started.
    SpawnFailed,
}

/// What the supervising task observed.
#[derive(Clone, Debug, PartialEq, Eq)]
pub enum TaskEvent {
    /// The process was spawned.
    Spawned,
    /// Spawning failed with this operating-system error text.
    SpawnError(String),
    /// The registration of the handle: whether the query became live, or
    /// had been cancelled while spawning and was killed.
    Registered(bool),
    /// Both output readers reached the end of their streams; the session
    /// identifier harvested from standard output.
    Drained(Option<String>),
    /// The attempt to remove the query's registry entry: whether it was found.
    Reaped(bool),
    /// The process exited, with its exit code if it left one.
    Exited(Option<i32>),
}

/// What the supervising task is to do next.
#[derive(Clone, Debug, PartialEq, Eq)]
pub enum TaskAction {
    /// Insert the handle into the registry at once, before any suspension.
    Register,
    /// Start relaying the process's output.
    Relay,
    /// Withdraw the query's registry entry and return this failure to the
    /// submitter; no event follows.
    Fail(String),
    /// Remove the query's entry from the registry.
    Reap,
    /// Wait for the removed process to exit.
    Wait,
    /// Emit this event; it is the query's last.
    Emit(StreamEvent),
    /// The observation does not fit the phase; nothing to do.
    Ignore,
}

/// The phase after an observation.
pub open spec fn next_phase(p: Phase, ev: TaskEvent) -> Phase {
    match (p, ev) {
        (Phase::Spawning, TaskEvent::Spawned) => Phase::Registering,
        (Phase::Spawning, TaskEvent::SpawnError(_)) => Phase::SpawnFailed,
        (Phase::Registering, TaskEvent::Registered(live)) => if live { Phase::Streaming } else { Phase::Finished },
        (Phase::Streaming, TaskEvent::Drained(_)) => Phase::Reaping,
        (Phase::Reaping, TaskEvent::Reaped(found)) => if found { Phase::Waiting } else { Phase::Finished },
        (Phase::Waiting, TaskEvent::Exited(_)) => Phase::Finished,
        _ => p,
    }
}

/// Whether an observation makes the query emit its final event.
pub open spec fn emits_done(p: Phase, ev: TaskEvent) -> bool {
    next_phase(p, ev) == Phase::Finished && p != Phase::Finished
}

/// The exit code of the final event that an observation brings about. An
/// exit is reconciled; a query that was cancelled (its entry already gone,
/// or cancelled while spawning) reports the failure sentinel, never remapped.
pub open spec fn done_exit(e: Engine, ev: TaskEvent, session: Option<Seq<char>>) -> i32 {
    match ev {
        TaskEvent::Exited(code) => reconciled_exit(e, code, session),
        _ => NO_EXIT_CODE,
    }
}

/// The supervision of one query.
pub struct Supervision {
    pub query_id: String,
    pub engine: Engine,
    /// The executable that was located.
    pub binary: BinaryRef,
    pub phase: Phase,
    /// The session identifier harvested once output has drained.
    pub session: Option<String>,
}

impl Supervision {
    /// Starts supervising a query: selects the engine, locates its
    /// executable in the host snapshot and builds the command to spawn.
    pub fn start(query_id: String, config: &QueryConfig, names: &EngineNames, facts: &HostFacts) -> (r: (
        Supervision,
        LaunchPlan,
    ))
        ensures
            r.0.query_id == query_id,
            r.0.engine == engine_selected_by(opt_text(config.engine), names.secondary.command@),
            (r.0.binary.program@, texts(r.0.binary.pre_args@)) == located_for(
                r.0.engine,
                names.of(r.0.engine),
                *facts,
            ),
            r.0.phase == Phase::Spawning,
            r.0.session is None,
            r.1.program@ == launch_program(r.0.binary),
            texts(r.1.args@) == plan_args(*config, r.0.engine, r.0.binary),
            opt_text(r.1.stdin_message) == plan_stdin(*config, r.0.engine),
            r.1.cwd == config.cwd,
            texts(r.1.env_remove@) == texts(names.session_markers@),
    {
        let engine = Engine::from_selector(&config.engine, names);
        let binary = locate(engine, names.naming(engine), facts);
        let plan = build_command(config, engine, &binary, &names.session_markers);
        (Supervision { query_id, engine, binary, phase: Phase::Spawning, session: None }, plan)
    }

    /// Decides the next step after an observation.
    pub fn step(&mut self, ev: TaskEvent) -> (r: TaskAction)
        ensures
            final(self).query_id == old(self).query_id,
            final(self).engine == old(self).engine,
            final(self).binary == old(self).binary,
            final(self).phase == next_phase(old(self).phase, ev),
            (old(self).phase == Phase::Streaming && ev is Drained) ==> final(self).session == ev->Drained_0,
            !(old(self).phase == Phase::Streaming && ev is Drained) ==> final(self).session == old(self).session,
            (old(self).phase == Phase::Spawning && ev is Spawned) ==> r is Register,
            (old(self).phase == Phase::Registering && ev == TaskEvent::Registered(true)) ==> r is Relay,
            (old(self).phase == Phase::Spawning && ev is SpawnError) ==> r is Fail && r->Fail_0@
                == spawn_failure_text(old(self).engine, ev->SpawnError_0@, old(self).binary.program@),
            (old(self).phase == Phase::Streaming && ev is Drained) ==> r is Reap,
            (old(self).phase == Phase::Reaping && ev == TaskEvent::Reaped(true)) ==> r is Wait,
            emits_done(old(self).phase, ev) ==> r == TaskAction::Emit(
                StreamEvent::Done {
                    query_id: old(self).query_id,
                    exit_code: done_exit(old(self).engine, ev, opt_text(old(self).session)),
                    session_id: old(self).session,
                },
            ),
            next_phase(old(self).phase, ev) == old(self).phase ==> r is Ignore,
    {
        match (self.phase, ev) {
            (Phase::Spawning, TaskEvent::Spawned) => {
                self.phase = Phase::Registering;
                TaskAction::Register
            },
            (Phase::Registering, TaskEvent::Registered(live)) => {
                if live {
                    self.phase = Phase::Streaming;
                    TaskAction::Relay
                } else {
                    self.phase = Phase::Finished;
                    TaskAction::Emit(self.cancelled_event())
                }
            },
            (Phase::Spawning, TaskEvent::SpawnError(e)) => {
                self.phase = Phase::SpawnFailed;
                TaskAction::Fail(spawn_failure_message(self.engine, e.as_str(), self.binary.program.as_str()))
            },
            (Phase::Streaming, TaskEvent::Drained(session)) => {
                self.phase = Phase::Reaping;
                self.session = session;
                TaskAction::Reap
            },
            (Phase::Reaping, TaskEvent::Reaped(found)) => {
                if found {
                    self.phase = Phase::Waiting;
                    TaskAction::Wait
                } else {
                    self.phase = Phase::Finished;
                    TaskAction::Emit(self.cancelled_event())
                }
            },
            (Phase::Waiting, TaskEvent::Exited(code)) => {
                self.phase = Phase::Finished;
                TaskAction::Emit(self.done_event(code))
            },
            _ => TaskAction::Ignore,
        }
    }

    fn cancelled_event(&self) -> (r: StreamEvent)
        ensures
            r == (StreamEvent::Done {
                query_id: self.query_id,
                exit_code: NO_EXIT_CODE,
                session_id: self.session,
            }),
    {
        StreamEvent::Done {
            query_id: self.query_id.clone(),
            exit_code: NO_EXIT_CODE,
            session_id: self.session.clone(),
        }
    }

    fn done_event(&self, code: Option<i32>) -> (r: StreamEvent)
        ensures
            r == (StreamEvent::Done {
                query_id: self.query_id,
                exit_code: reconciled_exit(self.engine, code, opt_text(self.session)),
                session_id: self.session,
            }),
    {
        let exit_code = reconcile_exit(self.engine, code, &self.session);
        StreamEvent::Done { query_id: self.query_id.clone(), exit_code, session_id: self.session.clone() }
    }
}

/// The phase after a run of observations.
pub open spec fn run_phase(p: Phase, evs: Seq<TaskEvent>) -> Phase
    decreases evs.len(),
{
    if evs.len() == 0 {
        p
    } else {
        next_phase(run_phase(p, evs.drop_last()), evs.last())
    }
}

/// How many final events a run of observations emits.
pub open spec fn done_count(p: Phase, evs: Seq<TaskEvent>) -> nat
    decreases evs.len(),
{
    if evs.len() == 0 {
        0
    } else {
        done_count(p, evs.drop_last()) + if emits_done(run_phase(p, evs.drop_last()), evs.last()) {
            1nat
        } else {
            0nat
        }
    }
}

proof fn lemma_done_count_tracks_phase(p: Phase, evs: Seq<TaskEvent>)
    requires
        p != Phase::Finished,
    ensures
        done_count(p, evs) == if run_phase(p, evs) == Phase::Finished { 1nat } else { 0nat },
    decreases evs.len(),
{
    if evs.len() > 0 {
        lemma_done_count_tracks_phase(p, evs.drop_last());
    }
}

/// A registered query emits at most one final event, whatever it observes
/// afterwards, and exactly one once it has finished.
pub proof fn lemma_one_final_event(evs: Seq<TaskEvent>)
    ensures
        done_count(Phase::Streaming, evs) <= 1,
        done_count(Phase::Streaming, evs) == 1 <==> run_phase(Phase::Streaming, evs) == Phase::Finished,
{
    lemma_done_count_tracks_phase(Phase::Streaming, evs);
}

/// A registered query finishes with exactly one final event whether its
/// entry is found after the output drains (natural exit) or was already
/// removed (cancellation).
pub proof fn lemma_every_ending_finishes(session: Option<String>, found: bool, code: Option<i32>)
    ensures
        ({
            let evs = if found {
                seq![TaskEvent::Drained(session), TaskEvent::Reaped(true), TaskEvent::Exited(code)]
            } else {
                seq![TaskEvent::Drained(session), TaskEvent::Reaped(false)]
            };
            run_phase(Phase::Streaming, evs) == Phase::Finished && done_count(Phase::Streaming, evs) == 1
        }),
{
    let evs = if found {
        seq![TaskEvent::Drained(session), TaskEvent::Reaped(true), TaskEvent::Exited(code)]
    } else {
        seq![TaskEvent::Drained(session), TaskEvent::Reaped(false)]
    };
    let first = seq![TaskEvent::Drained(session)];
    assert(first.drop_last() =~= Seq::<TaskEvent>::empty());
    assert(run_phase(Phase::Streaming, first.drop_last()) == Phase::Streaming);
    assert(first.last() == TaskEvent::Drained(session));
    assert(run_phase(Phase::Streaming, first) == Phase::Reaping);
    let second = first.push(TaskEvent::Reaped(found));
    assert(second.drop_last() =~= first);
    assert(second.last() == TaskEvent::Reaped(found));
    if found {
        assert(run_phase(Phase::Streaming, second) == Phase::Waiting);
        assert(evs.drop_last() =~= second);
    } else {
        assert(evs =~= second);
    }
    lemma_done_count_tracks_phase(Phase::Streaming, evs);
}

/// When a cancellation removes a running query, the supervising task's own
/// removal then finds nothing, and the final event it emits carries a
/// failure code, whatever the engine and whatever session was harvested: a
/// query is never both cancelled and reported as a natural success.
pub proof fn lemma_cancel_excludes_success<H>(
    m: Map<Seq<char>, Slot<H>>,
    id: Seq<char>,
    e: Engine,
    session: Option<Seq<char>>,
)
    requires
        m.contains_key(id),
        m[id] is Live,
    ensures
        cancel_effect(m, id).1 is Kill,
        removal(cancel_effect(m, id).0, id).1 is None,
        emits_done(Phase::Reaping, TaskEvent::Reaped(false)),
        done_exit(e, TaskEvent::Reaped(false), session) != 0,
{
}

/// A query cancelled before its process was registered finishes at
/// registration with one final event that carries a failure code.
pub proof fn lemma_early_cancel_fails(e: Engine)
    ensures
        next_phase(Phase::Registering, TaskEvent::Registered(false)) == Phase::Finished,
        emits_done(Phase::Registering, TaskEvent::Registered(false)),
        done_exit(e, TaskEvent::Registered(false), None) != 0,
{
}

} // verus!
