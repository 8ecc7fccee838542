//! The polling scheduler: owns at most one recurring timer and tells its host
//! when to start or cancel it.
use vstd::prelude::*;

verus! {

/// An order to the host that runs the timers.
#[derive(Debug, Clone, Copy, PartialEq, Eq, Structural)]
pub enum TimerCommand {
    /// Start a recurring timer with this period.
    Start { interval_ms: u32 },
    /// Cancel the running timer.
    Cancel,
}

/// The scheduler. It remembers which purpose (a job id) the timer runs for.
pub struct PollScheduler {
    armed_for: Option<String>,
}

impl View for PollScheduler {
    type V = Option<Seq<char>>;

    closed spec fn view(&self) -> Option<Seq<char>> {
        match self.armed_for {
            Some(p) => Some(p@),
            None => None,
        }
    }
}

/// The commands that arming for `purpose` issues when the scheduler is `armed`.
pub open spec fn arm_commands(armed: Option<Seq<char>>, purpose: Seq<char>, interval_ms: u32) -> Seq<
    TimerCommand,
> {
    match armed {
        Some(p) => if p == purpose {
            seq![]
        } else {
            seq![TimerCommand::Cancel, TimerCommand::Start { interval_ms }]
        },
        None => seq![TimerCommand::Start { interval_ms }],
    }
}

/// The commands that disarming issues when the scheduler is `armed`.
pub open spec fn disarm_commands(armed: Option<Seq<char>>) -> Seq<TimerCommand> {
    match armed {
        Some(_) => seq![TimerCommand::Cancel],
        None => seq![],
    }
}

/// How many timers a scheduler in this state keeps live.
pub open spec fn live_count(armed: Option<Seq<char>>) -> nat {
    if armed is Some {
        1
    } else {
        0
    }
}

/// The number of live timers after the host carries out `cmds` with `live`
/// timers running, or `None` if a timer would be started while another runs.
pub open spec fn live_after(live: nat, cmds: Seq<TimerCommand>) -> Option<nat>
    decreases cmds.len(),
{
    if cmds.len() == 0 {
        Some(live)
    } else {
        match cmds[0] {
            TimerCommand::Start { .. } => if live == 0 {
                live_after(1, cmds.drop_first())
            } else {
                None
            },
            TimerCommand::Cancel => live_after(0, cmds.drop_first()),
        }
    }
}

/// One call on the scheduler.
pub enum SchedulerOp {
    Arm { purpose: Seq<char>, interval_ms: u32 },
    Disarm,
}

/// The scheduler's state after one call.
pub open spec fn op_state(armed: Option<Seq<char>>, op: SchedulerOp) -> Option<Seq<char>> {
    match op {
        SchedulerOp::Arm { purpose, .. } => Some(purpose),
        SchedulerOp::Disarm => None,
    }
}

/// The commands that one call issues.
pub open spec fn op_commands(armed: Option<Seq<char>>, op: SchedulerOp) -> Seq<TimerCommand> {
    match op {
        SchedulerOp::Arm { purpose, interval_ms } => arm_commands(armed, purpose, interval_ms),
        SchedulerOp::Disarm => disarm_commands(armed),
    }
}

/// The scheduler's state after a sequence of calls.
pub open spec fn run_state(armed: Option<Seq<char>>, ops: Seq<SchedulerOp>) -> Option<Seq<char>>
    decreases ops.len(),
{
    if ops.len() == 0 {
        armed
    } else {
        run_state(op_state(armed, ops[0]), ops.drop_first())
    }
}

/// Every command issued by a sequence of calls, in order.
pub open spec fn run_commands(armed: Option<Seq<char>>, ops: Seq<SchedulerOp>) -> Seq<TimerCommand>
    decreases ops.len(),
{
    if ops.len() == 0 {
        seq![]
    } else {
        op_commands(armed, ops[0]) + run_commands(op_state(armed, ops[0]), ops.drop_first())
    }
}

/// Carrying out two command streams one after the other is carrying out
/// their concatenation.
pub proof fn lemma_live_after_concat(live: nat, a: Seq<TimerCommand>, b: Seq<TimerCommand>)
    ensures
        live_after(live, a + b) == match live_after(live, a) {
            Some(l) => live_after(l, b),
            None => None,
        },
    decreases a.len(),
{
    if a.len() == 0 {
        assert(a + b =~= b);
    } else {
        assert((a + b).drop_first() =~= a.drop_first() + b);
        let next: nat = match a[0] {
            TimerCommand::Start { .. } => 1,
            TimerCommand::Cancel => 0,
        };
        lemma_live_after_concat(next, a.drop_first(), b);
    }
}

/// Whatever calls are made, in whatever order, the host that carries out the
/// issued commands never has two timers live at once, and ends with exactly
/// the timers that the scheduler believes armed (one or none).
pub proof fn lemma_no_overlapping_timers(armed: Option<Seq<char>>, ops: Seq<SchedulerOp>)
    ensures
        live_after(live_count(armed), run_commands(armed, ops)) == Some(
            live_count(run_state(armed, ops)),
        ),
    decreases ops.len(),
{
    if ops.len() > 0 {
        let next = op_state(armed, ops[0]);
        let first = op_commands(armed, ops[0]);
        lemma_no_overlapping_timers(next, ops.drop_first());
        lemma_live_after_concat(live_count(armed), first, run_commands(next, ops.drop_first()));
        assert(live_after(live_count(armed), first) == Some(live_count(next))) by {
            reveal_with_fuel(live_after, 3);
        }
    }
}

impl PollScheduler {
    /// A scheduler with no timer.
    pub fn new() -> (r: Self)
        ensures
            r@ is None,
    {
        PollScheduler { armed_for: None }
    }

    /// The purpose the timer runs for, if armed.
    pub fn armed_for(&self) -> (r: Option<&String>)
        ensures
            r is Some <==> self@ is Some,
            r is Some ==> self@ == Some(r->0@),
    {
        match &self.armed_for {
            Some(p) => Some(p),
            None => None,
        }
    }

    /// Arms the timer for `purpose`: nothing happens if it already runs for that
    /// purpose; a timer for another purpose is cancelled first.
    pub fn arm(&mut self, purpose: &String, interval_ms: u32) -> (cmds: Vec<TimerCommand>)
        ensures
            final(self)@ == Some(purpose@),
            cmds@ == arm_commands(old(self)@, purpose@, interval_ms),
    {
        let mut cmds: Vec<TimerCommand> = Vec::new();
        match &self.armed_for {
            Some(p) => {
                if *p == *purpose {
                    return cmds;
                }
                cmds.push(TimerCommand::Cancel);
            },
            None => {},
        }
        cmds.push(TimerCommand::Start { interval_ms });
        self.armed_for = Some(purpose.clone());
        assert(cmds@ =~= arm_commands(old(self)@, purpose@, interval_ms));
        cmds
    }

    /// Cancels the timer, if one runs.
    pub fn disarm(&mut self) -> (cmds: Vec<TimerCommand>)
        ensures
            final(self)@ is None,
            cmds@ == disarm_commands(old(self)@),
    {
        let mut cmds: Vec<TimerCommand> = Vec::new();
        if self.armed_for.is_some() {
            cmds.push(TimerCommand::Cancel);
        }
        self.armed_for = None;
        assert(cmds@ =~= disarm_commands(old(self)@));
        cmds
    }
}

} // verus!
