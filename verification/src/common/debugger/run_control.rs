//! The actual logic of the debugger, free of all of the communication noise:
//! running, pausing and stepping, breakpoints, and the stack frames seen so
//! far.
use crate::cpu::opcodes;
use crate::cpu::{InspectedState, MachineInspector};
use bounded_vec_deque::BoundedVecDeque;
use vstd::prelude::*;

verus! {

#[verifier::external_type_specification]
#[verifier::external_body]
#[verifier::reject_recursive_types(T)]
pub struct ExBoundedVecDeque<T>(BoundedVecDeque<T>);

#[derive(Debug, PartialEq, Eq, Structural, Clone, Copy)]
pub struct StackFrame {
    pub entry: u16,
    pub pc: u16,
}

#[derive(Debug, PartialEq, Eq, Structural, Clone, Copy)]
pub enum StopReason {
    Entry,
    Pause,
    Step,
    Breakpoint,
}

/// What the debugged machine is doing, as far as the debugger is concerned.
#[derive(Debug, PartialEq, Eq, Structural, Clone, Copy)]
pub enum RunMode {
    Running,
    Stopped,
    SteppingIn,
    SteppingOut { target_stack_depth: usize },
}

/// The frames that a bounded deque of stack frames holds, front to back.
pub uninterp spec fn frames_held(frames: BoundedVecDeque<StackFrame>) -> Seq<StackFrame>;

/// The length limit that a bounded deque of stack frames was made with.
pub uninterp spec fn frames_limit(frames: BoundedVecDeque<StackFrame>) -> nat;

/// `BoundedVecDeque::new`: an empty deque that holds at most `max_len`
/// items.
#[verifier::external_body]
fn new_frames(max_len: usize) -> (r: BoundedVecDeque<StackFrame>)
    ensures
        frames_held(r) == Seq::<StackFrame>::empty(),
        frames_limit(r) == max_len,
{
    BoundedVecDeque::new(max_len)
}

/// What `BoundedVecDeque::push_back` does to the items: the item goes to the
/// back; when the deque is full, the front item is removed first; with a limit
/// of 0 nothing is kept.
pub open spec fn pushed_frames(held: Seq<StackFrame>, limit: nat, frame: StackFrame) -> Seq<StackFrame> {
    if limit == 0 {
        held
    } else if held.len() >= limit {
        held.drop_first().push(frame)
    } else {
        held.push(frame)
    }
}

/// `BoundedVecDeque::push_back`: see [`pushed_frames`]; the item displaced
/// (the front one, or the new one with a limit of 0) is returned.
#[verifier::external_body]
fn push_frame(frames: &mut BoundedVecDeque<StackFrame>, frame: StackFrame) -> (r: Option<StackFrame>)
    ensures
        frames_limit(*final(frames)) == frames_limit(*old(frames)),
        frames_held(*final(frames)) == pushed_frames(
            frames_held(*old(frames)),
            frames_limit(*old(frames)),
            frame,
        ),
        r == if frames_limit(*old(frames)) == 0 {
            Some(frame)
        } else if frames_held(*old(frames)).len() >= frames_limit(*old(frames)) {
            Some(frames_held(*old(frames))[0])
        } else {
            None
        },
{
    frames.push_back(frame)
}

/// `BoundedVecDeque::pop_back`: removes and returns the back item, if any.
#[verifier::external_body]
fn pop_frame(frames: &mut BoundedVecDeque<StackFrame>) -> (r: Option<StackFrame>)
    ensures
        frames_limit(*final(frames)) == frames_limit(*old(frames)),
        frames_held(*old(frames)).len() == 0 ==> r is None && frames_held(*final(frames))
            == frames_held(*old(frames)),
        frames_held(*old(frames)).len() > 0 ==> r == Some(frames_held(*old(frames)).last())
            && frames_held(*final(frames)) == frames_held(*old(frames)).drop_last(),
{
    frames.pop_back()
}

/// `BoundedVecDeque::back_mut`, used to set the program counter of the back
/// item, if there is one.
#[verifier::external_body]
fn set_back_frame_pc(frames: &mut BoundedVecDeque<StackFrame>, pc: u16)
    ensures
        frames_limit(*final(frames)) == frames_limit(*old(frames)),
        frames_held(*final(frames)) == if frames_held(*old(frames)).len() == 0 {
            frames_held(*old(frames))
        } else {
            frames_held(*old(frames)).update(
                frames_held(*old(frames)).len() - 1,
                StackFrame { pc, ..frames_held(*old(frames)).last() },
            )
        },
{
    if let Some(frame) = frames.back_mut() {
        frame.pc = pc;
    }
}

/// The number of items, by `VecDeque::len` through `Deref`.
#[verifier::external_body]
fn frames_len(frames: &BoundedVecDeque<StackFrame>) -> (r: usize)
    ensures
        r == frames_held(*frames).len(),
{
    frames.len()
}

/// The items front to back, by `BoundedVecDeque::iter`.
#[verifier::external_body]
fn frames_to_vec(frames: &BoundedVecDeque<StackFrame>) -> (r: Vec<StackFrame>)
    ensures
        r@ == frames_held(*frames),
{
    frames.iter().copied().collect()
}

/// The stack frames are captured by recognizing JSR/RTS instructions. They
/// are kept in a bounded deque, since we can't guarantee that the underlying
/// program is sane and won't overflow the stack: an edge case of consistently
/// overflowing stack would otherwise leak memory, and the stack entries would
/// be clobbered anyway.
pub const MAX_STACK_FRAMES: usize = 256;

/// The actual logic of the debugger, free of all of the communication noise.
pub struct DebuggerCore {
    run_mode: RunMode,
    last_stop_reason: Option<StopReason>,
    instruction_breakpoints: Vec<u16>,
    stack_frames: BoundedVecDeque<StackFrame>,
    will_enter_subroutine: bool,
    will_return_from_subroutine: bool,
}

/// What the debugger core holds.
pub struct DebuggerCoreView {
    pub run_mode: RunMode,
    pub last_stop_reason: Option<StopReason>,
    pub instruction_breakpoints: Seq<u16>,
    pub stack_frames: Seq<StackFrame>,
    pub frames_limit: nat,
    pub will_enter_subroutine: bool,
    pub will_return_from_subroutine: bool,
}

impl View for DebuggerCore {
    type V = DebuggerCoreView;

    closed spec fn view(&self) -> DebuggerCoreView {
        DebuggerCoreView {
            run_mode: self.run_mode,
            last_stop_reason: self.last_stop_reason,
            instruction_breakpoints: self.instruction_breakpoints@,
            stack_frames: frames_held(self.stack_frames),
            frames_limit: frames_limit(self.stack_frames),
            will_enter_subroutine: self.will_enter_subroutine,
            will_return_from_subroutine: self.will_return_from_subroutine,
        }
    }
}

/// A consistent core: the recorded frames stay within the limit that they
/// were made with.
pub open spec fn core_wf(c: DebuggerCoreView) -> bool {
    &&& c.frames_limit == MAX_STACK_FRAMES
    &&& c.stack_frames.len() <= MAX_STACK_FRAMES
}

/// Stopping: the machine is stopped, for `reason`.
pub open spec fn stopped_for(c: DebuggerCoreView, reason: StopReason) -> DebuggerCoreView {
    DebuggerCoreView { run_mode: RunMode::Stopped, last_stop_reason: Some(reason), ..c }
}

/// Running in `mode`: any stop reason not yet collected is dropped.
pub open spec fn running_as(c: DebuggerCoreView, mode: RunMode) -> DebuggerCoreView {
    DebuggerCoreView { run_mode: mode, last_stop_reason: None, ..c }
}

/// What the debugger learns from one look at the machine. At the start of
/// an instruction, a subroutine entered by the previous instruction gets a
/// frame, and one returned from loses its frame. A JSR about to run records
/// where the current frame calls from; an RTS marks its frame for removal.
/// Then running stops at a breakpoint, stepping in stops at once, and
/// stepping out stops when the stack is back to its target depth.
pub open spec fn update_spec(c: DebuggerCoreView, machine: InspectedState, opcode: u8) -> DebuggerCoreView {
    if !machine.at_instruction_start {
        c
    } else {
        let entered = if c.will_enter_subroutine {
            DebuggerCoreView {
                stack_frames: pushed_frames(
                    c.stack_frames,
                    c.frames_limit,
                    StackFrame { entry: machine.pc, pc: 0 },
                ),
                will_enter_subroutine: false,
                ..c
            }
        } else {
            c
        };
        let returned = if entered.will_return_from_subroutine {
            DebuggerCoreView {
                stack_frames: if entered.stack_frames.len() > 0 {
                    entered.stack_frames.drop_last()
                } else {
                    entered.stack_frames
                },
                will_return_from_subroutine: false,
                ..entered
            }
        } else {
            entered
        };
        let seen = if opcode == opcodes::JSR {
            DebuggerCoreView {
                will_enter_subroutine: true,
                stack_frames: if returned.stack_frames.len() > 0 {
                    returned.stack_frames.update(
                        returned.stack_frames.len() - 1,
                        StackFrame { pc: machine.pc, ..returned.stack_frames.last() },
                    )
                } else {
                    returned.stack_frames
                },
                ..returned
            }
        } else if opcode == opcodes::RTS {
            DebuggerCoreView { will_return_from_subroutine: true, ..returned }
        } else {
            returned
        };
        match seen.run_mode {
            RunMode::Running => if seen.instruction_breakpoints.contains(machine.pc) {
                stopped_for(seen, StopReason::Breakpoint)
            } else {
                seen
            },
            RunMode::SteppingIn => stopped_for(seen, StopReason::Step),
            RunMode::SteppingOut { target_stack_depth } => if seen.stack_frames.len()
                == target_stack_depth {
                stopped_for(seen, StopReason::Step)
            } else {
                seen
            },
            RunMode::Stopped => seen,
        }
    }
}

/// The stack trace: the frames from the innermost out, with the innermost
/// one at the current program counter.
pub open spec fn stack_trace_spec(frames: Seq<StackFrame>, pc: u16) -> Seq<StackFrame> {
    let reversed = frames.reverse();
    if reversed.len() > 0 {
        reversed.update(0, StackFrame { pc, ..reversed[0] })
    } else {
        reversed
    }
}

/// A new debugger core: stopped, with no breakpoints and no frames yet,
/// and about to record the frame of the code that runs first.
pub open spec fn initial_core() -> DebuggerCoreView {
    DebuggerCoreView {
        run_mode: RunMode::Stopped,
        last_stop_reason: None,
        instruction_breakpoints: Seq::empty(),
        stack_frames: Seq::empty(),
        frames_limit: MAX_STACK_FRAMES as nat,
        will_enter_subroutine: true,
        will_return_from_subroutine: false,
    }
}

impl DebuggerCore {
    pub fn new() -> (r: Self)
        ensures
            r@ == initial_core(),
    {
        DebuggerCore {
            run_mode: RunMode::Stopped,
            last_stop_reason: None,
            instruction_breakpoints: Vec::new(),
            stack_frames: new_frames(MAX_STACK_FRAMES),
            will_enter_subroutine: true,
            will_return_from_subroutine: false,
        }
    }

    pub fn set_instruction_breakpoints(&mut self, breakpoints: Vec<u16>)
        ensures
            final(self)@ == (DebuggerCoreView { instruction_breakpoints: breakpoints@, ..old(self)@ }),
    {
        self.instruction_breakpoints = breakpoints;
    }

    fn has_breakpoint_at(&self, pc: u16) -> (r: bool)
        ensures
            r == self@.instruction_breakpoints.contains(pc),
    {
        let mut i: usize = 0;
        while i < self.instruction_breakpoints.len()
            invariant
                i <= self.instruction_breakpoints@.len(),
                forall|j: int| 0 <= j < i ==> self.instruction_breakpoints@[j] != pc,
            decreases self.instruction_breakpoints.len() - i,
        {
            if self.instruction_breakpoints[i] == pc {
                return true;
            }
            i = i + 1;
        }
        false
    }

    /// Reads the machine state. Expected to be called after the CPU is
    /// initialized, and then after every single cycle.
    pub fn update<I: MachineInspector>(&mut self, inspector: &I)
        ensures
            final(self)@ == update_spec(
                old(self)@,
                inspector.inspected(),
                inspector.inspected_memory(inspector.inspected().pc),
            ),
    {
        if inspector.at_instruction_start() {
            if self.will_enter_subroutine {
                push_frame(&mut self.stack_frames, StackFrame { entry: inspector.reg_pc(), pc: 0 });
                self.will_enter_subroutine = false;
            }
            if self.will_return_from_subroutine {
                pop_frame(&mut self.stack_frames);
                self.will_return_from_subroutine = false;
            }
            let opcode = inspector.inspect_memory(inspector.reg_pc());
            if opcode == opcodes::JSR {
                self.will_enter_subroutine = true;
                set_back_frame_pc(&mut self.stack_frames, inspector.reg_pc());
            } else if opcode == opcodes::RTS {
                self.will_return_from_subroutine = true;
            }
            match self.run_mode {
                RunMode::Running => {
                    if self.has_breakpoint_at(inspector.reg_pc()) {
                        self.stop(StopReason::Breakpoint);
                    }
                },
                RunMode::SteppingIn => self.stop(StopReason::Step),
                RunMode::SteppingOut { target_stack_depth } => {
                    if frames_len(&self.stack_frames) == target_stack_depth {
                        self.stop(StopReason::Step);
                    }
                },
                RunMode::Stopped => {},
            }
        }
    }

    pub fn stopped(&self) -> (r: bool)
        ensures
            r == (self@.run_mode == RunMode::Stopped),
    {
        match self.run_mode {
            RunMode::Stopped => true,
            _ => false,
        }
    }

    /// Returns `Some(reason)` if the core has just stopped and resets the value
    /// to `None`. Note that this is a kludge that works here instead of
    /// introducing a proper observer or event emitter pattern; that's because
    /// we don't want to dispatch these events to the debugger client
    /// immediately anyway.
    pub fn last_stop_reason(&mut self) -> (r: Option<StopReason>)
        ensures
            r == old(self)@.last_stop_reason,
            final(self)@ == (DebuggerCoreView { last_stop_reason: None, ..old(self)@ }),
    {
        let reason = self.last_stop_reason;
        self.last_stop_reason = None;
        reason
    }

    pub fn stack_trace<I: MachineInspector>(&self, inspector: &I) -> (r: Vec<StackFrame>)
        ensures
            r@ == stack_trace_spec(self@.stack_frames, inspector.inspected().pc),
    {
        let frames = frames_to_vec(&self.stack_frames);
        let mut reversed: Vec<StackFrame> = Vec::new();
        let mut i = frames.len();
        while i > 0
            invariant
                i <= frames@.len(),
                reversed@ == frames@.subrange(i as int, frames@.len() as int).reverse(),
            decreases i,
        {
            i = i - 1;
            reversed.push(frames[i]);
            proof {
                assert(frames@.subrange(i as int, frames@.len() as int).reverse() =~= frames@.subrange(
                    i + 1,
                    frames@.len() as int,
                ).reverse().push(frames@[i as int]));
            }
        }
        proof {
            assert(frames@.subrange(0, frames@.len() as int) =~= frames@);
        }
        if reversed.len() > 0 {
            let top = reversed[0];
            reversed.set(0, StackFrame { pc: inspector.reg_pc(), ..top });
        }
        reversed
    }

    pub fn stack_depth(&self) -> (r: usize)
        ensures
            r == self@.stack_frames.len(),
    {
        frames_len(&self.stack_frames)
    }

    pub fn resume(&mut self)
        ensures
            final(self)@ == running_as(old(self)@, RunMode::Running),
    {
        self.run(RunMode::Running);
    }

    fn run(&mut self, mode: RunMode)
        ensures
            final(self)@ == running_as(old(self)@, mode),
    {
        self.run_mode = mode;
        self.last_stop_reason = None;
    }

    pub fn pause(&mut self)
        ensures
            final(self)@ == stopped_for(old(self)@, StopReason::Pause),
    {
        self.stop(StopReason::Pause);
    }

    fn stop(&mut self, reason: StopReason)
        ensures
            final(self)@ == stopped_for(old(self)@, reason),
    {
        self.run_mode = RunMode::Stopped;
        self.last_stop_reason = Some(reason);
    }

    pub fn step_into(&mut self)
        ensures
            final(self)@ == running_as(old(self)@, RunMode::SteppingIn),
    {
        self.run(RunMode::SteppingIn);
    }

    /// Stepping over is only "special" when we perform a jump into a
    /// subroutine: it runs until the stack is back to its current depth.
    /// Otherwise, it's the same as stepping in.
    pub fn step_over<I: MachineInspector>(&mut self, inspector: &I)
        ensures
            final(self)@ == running_as(
                old(self)@,
                if inspector.inspected_memory(inspector.inspected().pc) == opcodes::JSR {
                    RunMode::SteppingOut { target_stack_depth: old(self)@.stack_frames.len() as usize }
                } else {
                    RunMode::SteppingIn
                },
            ),
    {
        let pc = inspector.reg_pc();
        let opcode = inspector.inspect_memory(pc);
        if opcode == opcodes::JSR {
            let depth = frames_len(&self.stack_frames);
            self.run(RunMode::SteppingOut { target_stack_depth: depth });
        } else {
            self.run(RunMode::SteppingIn);
        }
    }

    /// Runs until the current subroutine returns.
    pub fn step_out(&mut self)
        requires
            old(self)@.stack_frames.len() > 0,
        ensures
            final(self)@ == running_as(
                old(self)@,
                RunMode::SteppingOut { target_stack_depth: (old(self)@.stack_frames.len() - 1) as usize },
            ),
    {
        let depth = frames_len(&self.stack_frames);
        self.run(RunMode::SteppingOut { target_stack_depth: depth - 1 });
    }
}

/// Stack bound law: looking at the machine never takes the recorded stack
/// frames beyond the limit that they were made with.
pub proof fn lemma_update_keeps_frames_bounded(c: DebuggerCoreView, machine: InspectedState, opcode: u8)
    requires
        c.stack_frames.len() <= c.frames_limit,
    ensures
        update_spec(c, machine, opcode).stack_frames.len() <= update_spec(c, machine, opcode).frames_limit,
        update_spec(c, machine, opcode).frames_limit == c.frames_limit,
{
}

/// Breakpoint law: a running machine that reaches the start of an
/// instruction at a breakpoint is stopped, for that breakpoint.
pub proof fn lemma_breakpoint_stops(c: DebuggerCoreView, machine: InspectedState, opcode: u8)
    requires
        c.run_mode == RunMode::Running,
        machine.at_instruction_start,
        c.instruction_breakpoints.contains(machine.pc),
    ensures
        update_spec(c, machine, opcode).run_mode == RunMode::Stopped,
        update_spec(c, machine, opcode).last_stop_reason == Some(StopReason::Breakpoint),
{
}

/// Stepping law: stepping in stops at the start of the very next
/// instruction, whatever it is.
pub proof fn lemma_step_in_stops_at_next_instruction(
    c: DebuggerCoreView,
    machine: InspectedState,
    opcode: u8,
)
    requires
        c.run_mode == RunMode::SteppingIn,
        machine.at_instruction_start,
    ensures
        update_spec(c, machine, opcode).run_mode == RunMode::Stopped,
        update_spec(c, machine, opcode).last_stop_reason == Some(StopReason::Step),
{
}

/// A stopped machine stays stopped, whatever it shows.
pub proof fn lemma_stopped_stays_stopped(c: DebuggerCoreView, machine: InspectedState, opcode: u8)
    requires
        c.run_mode == RunMode::Stopped,
    ensures
        update_spec(c, machine, opcode).run_mode == RunMode::Stopped,
        update_spec(c, machine, opcode).last_stop_reason == c.last_stop_reason,
{
}

} // verus!
