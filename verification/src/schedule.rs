//! The render scheduler's decisions: one cycle blocks on the input-event
//! descriptor with a one-interval timeout, redraws when the wait timed out
//! with nothing pending, and otherwise drains the pending events one by
//! one — a window-manager close request ends the loop unconditionally, every
//! other event goes to the supplied handler, whose stop verdict also ends
//! the loop at once, pending events notwithstanding.
use vstd::prelude::*;

verus! {

/// What the multiplexed wait reported: the redraw interval ran out, the
/// event descriptor became ready, or the wait itself failed.
#[derive(Debug, Clone, Copy, PartialEq, Eq, Structural)]
pub enum WaitOutcome {
    TimedOut,
    Ready,
    Failed,
}

/// A redraw happens exactly when the wait ran the full interval.
pub fn should_redraw(w: WaitOutcome) -> (r: bool)
    ensures
        r == (w is TimedOut),
{
    match w {
        WaitOutcome::TimedOut => true,
        _ => false,
    }
}

/// How one drained event is treated: the close request ends the scheduler;
/// everything else is forwarded to the supplied handler.
#[derive(Debug, Clone, Copy, PartialEq, Eq, Structural)]
pub enum EventClass {
    CloseRequest,
    Forward,
}

/// An event is the window-manager close request exactly when it is a client
/// message carrying the window-protocol atom in 32-bit format whose first
/// datum is the delete-window atom.
pub open spec fn spec_classify(
    is_client_message: bool,
    message_type: u64,
    format: i32,
    data0: u64,
    wm_protocols: u64,
    wm_delete_window: u64,
) -> EventClass {
    if is_client_message && message_type == wm_protocols && format == 32 && data0
        == wm_delete_window {
        EventClass::CloseRequest
    } else {
        EventClass::Forward
    }
}

/// Classify one drained event from its plain fields.
pub fn classify_event(
    is_client_message: bool,
    message_type: u64,
    format: i32,
    data0: u64,
    wm_protocols: u64,
    wm_delete_window: u64,
) -> (c: EventClass)
    ensures
        c == spec_classify(
            is_client_message,
            message_type,
            format,
            data0,
            wm_protocols,
            wm_delete_window,
        ),
{
    if is_client_message && message_type == wm_protocols && format == 32 && data0
        == wm_delete_window {
        EventClass::CloseRequest
    } else {
        EventClass::Forward
    }
}

/// What to do with one drained event before any handler runs.
#[derive(Debug, Clone, Copy, PartialEq, Eq, Structural)]
pub enum DispatchAction {
    Stop,
    Dispatch,
}

/// The close request stops the scheduler with no dispatch; every other
/// event is handed to the supplied handler.
pub fn event_action(class: EventClass) -> (a: DispatchAction)
    ensures
        class is CloseRequest ==> a == DispatchAction::Stop,
        class is Forward ==> a == DispatchAction::Dispatch,
{
    match class {
        EventClass::CloseRequest => DispatchAction::Stop,
        EventClass::Forward => DispatchAction::Dispatch,
    }
}

/// One pending event of a simulated drain: its class, and the verdict the
/// supplied handler would give were it dispatched.
#[derive(Debug, Clone, Copy, PartialEq, Eq, Structural)]
pub struct BatchEvent {
    pub class: EventClass,
    pub handler_continue: bool,
}

/// Whether draining these pending events stops the scheduler: the first
/// close request or handler stop verdict ends the drain at once; events
/// after it are never examined.
pub open spec fn spec_batch_stops(evs: Seq<BatchEvent>) -> bool
    decreases evs.len(),
{
    if evs.len() == 0 {
        false
    } else if evs.first().class is CloseRequest {
        true
    } else if !evs.first().handler_continue {
        true
    } else {
        spec_batch_stops(evs.skip(1))
    }
}

/// Drain one batch of pending events, deciding each with [`event_action`];
/// returns whether the scheduler stops.
pub fn run_batch(pending: &Vec<BatchEvent>) -> (stopped: bool)
    ensures
        stopped == spec_batch_stops(pending@),
{
    let n = pending.len();
    let mut i: usize = 0;
    proof {
        assert(pending@.skip(0) =~= pending@);
    }
    while i < n
        invariant
            i <= n,
            n == pending@.len(),
            spec_batch_stops(pending@) == spec_batch_stops(pending@.skip(i as int)),
        decreases n - i,
    {
        proof {
            assert(pending@.skip(i as int).first() == pending@[i as int]);
            assert(pending@.skip(i as int).skip(1) =~= pending@.skip(i as int + 1));
        }
        let ev = pending[i];
        match event_action(ev.class) {
            DispatchAction::Stop => {
                return true;
            }
            DispatchAction::Dispatch => {
                if !ev.handler_continue {
                    return true;
                }
            }
        }
        i = i + 1;
    }
    proof {
        assert(pending@.skip(n as int) =~= Seq::<BatchEvent>::empty());
    }
    false
}

/// Ghost model of one scheduler cycle.
pub ghost struct CycleModel {
    pub wait: WaitOutcome,
    pub pending: Seq<BatchEvent>,
}

/// One scheduler cycle of a simulated run: what the wait reported, and the
/// events found pending afterwards.
#[derive(Debug, PartialEq)]
pub struct Cycle {
    pub wait: WaitOutcome,
    pub pending: Vec<BatchEvent>,
}

impl View for Cycle {
    type V = CycleModel;

    open spec fn view(&self) -> CycleModel {
        CycleModel { wait: self.wait, pending: self.pending@ }
    }
}

pub open spec fn cycle_models(cs: Seq<Cycle>) -> Seq<CycleModel> {
    cs.map_values(|c: Cycle| c@)
}

/// What a run over these cycles does: how many redraws happen, and whether
/// the scheduler stops before the cycles run out. A cycle's redraw (on
/// timeout) comes before its drain; a stopping drain ends the run at once.
pub open spec fn spec_run(cs: Seq<CycleModel>) -> (nat, bool)
    decreases cs.len(),
{
    if cs.len() == 0 {
        (0 as nat, false)
    } else {
        let drew: nat = if cs.first().wait is TimedOut {
            1 as nat
        } else {
            0 as nat
        };
        if spec_batch_stops(cs.first().pending) {
            (drew, true)
        } else {
            let rest = spec_run(cs.skip(1));
            ((drew + rest.0) as nat, rest.1)
        }
    }
}

/// The outcome of a simulated run: redraws performed, and whether the
/// scheduler stopped.
#[derive(Debug, PartialEq)]
pub struct RunOutcome {
    pub redraws: usize,
    pub stopped: bool,
}

/// Run the scheduler over a simulated sequence of cycles: redraw on each
/// timed-out wait, then drain that cycle's pending events; stop at the
/// first close request or handler stop verdict. The wait is re-entered
/// only once a cycle's redraw and drain have fully completed, so a redraw
/// never overlaps an event drain.
pub fn run_cycles(cycles: &Vec<Cycle>) -> (r: RunOutcome)
    ensures
        r.redraws as nat == spec_run(cycle_models(cycles@)).0,
        r.stopped == spec_run(cycle_models(cycles@)).1,
{
    let ghost ms = cycle_models(cycles@);
    let n = cycles.len();
    let mut redraws: usize = 0;
    let mut i: usize = 0;
    proof {
        assert(ms.skip(0) =~= ms);
    }
    while i < n
        invariant
            i <= n,
            n == cycles@.len(),
            ms == cycle_models(cycles@),
            redraws <= i,
            spec_run(ms).0 == redraws + spec_run(ms.skip(i as int)).0,
            spec_run(ms).1 == spec_run(ms.skip(i as int)).1,
        decreases n - i,
    {
        proof {
            assert(ms.skip(i as int).first() == ms[i as int]);
            assert(ms[i as int] == cycles@[i as int]@);
            assert(ms.skip(i as int).skip(1) =~= ms.skip(i as int + 1));
        }
        let c = &cycles[i];
        if should_redraw(c.wait) {
            redraws = redraws + 1;
        }
        let stopped = run_batch(&c.pending);
        if stopped {
            return RunOutcome { redraws, stopped: true };
        }
        i = i + 1;
    }
    proof {
        assert(ms.skip(n as int) =~= Seq::<CycleModel>::empty());
    }
    RunOutcome { redraws, stopped: false }
}

/// A batch with a close request somewhere in it stops the drain, whatever
/// the handler's verdicts on the events before it.
pub proof fn lemma_batch_close_stops(evs: Seq<BatchEvent>, j: int)
    requires
        0 <= j < evs.len(),
        evs[j].class is CloseRequest,
    ensures
        spec_batch_stops(evs),
    decreases j,
{
    if !(evs.first().class is CloseRequest) && evs.first().handler_continue {
        assert(evs.skip(1)[j - 1] == evs[j]);
        lemma_batch_close_stops(evs.skip(1), j - 1);
    }
}

/// Law: a cycle sequence containing a window-manager close request always
/// stops the scheduler — no cooperation from the supplied handler is
/// needed, so in particular a handler that answers continue for every
/// event cannot keep the loop alive.
pub proof fn lemma_close_terminates(cs: Seq<CycleModel>, i: int, j: int)
    requires
        0 <= i < cs.len(),
        0 <= j < cs[i].pending.len(),
        cs[i].pending[j].class is CloseRequest,
    ensures
        spec_run(cs).1 == true,
    decreases i,
{
    if i == 0 {
        lemma_batch_close_stops(cs.first().pending, j);
    } else if spec_batch_stops(cs.first().pending) {
    } else {
        assert(cs.skip(1)[i - 1] == cs[i]);
        lemma_close_terminates(cs.skip(1), i - 1, j);
    }
}

/// Law: with an idle event source — every wait times out and nothing is
/// ever pending — a run over N cycles performs exactly N redraws and never
/// stops; each redraw completes before the wait is re-entered, so no
/// redraw overlaps a drain.
pub proof fn lemma_idle_redraws(cs: Seq<CycleModel>)
    requires
        forall|i: int|
            0 <= i < cs.len() ==> (#[trigger] cs[i].wait) is TimedOut && cs[i].pending.len() == 0,
    ensures
        spec_run(cs).0 == cs.len(),
        spec_run(cs).1 == false,
    decreases cs.len(),
{
    if cs.len() > 0 {
        assert(cs[0].wait is TimedOut);
        assert forall|i: int|
            0 <= i < cs.skip(1).len() implies (#[trigger] cs.skip(1)[i].wait) is TimedOut && cs.skip(
            1,
        )[i].pending.len() == 0 by {
            assert(cs.skip(1)[i] == cs[i + 1]);
        }
        lemma_idle_redraws(cs.skip(1));
    }
}

} // verus!
