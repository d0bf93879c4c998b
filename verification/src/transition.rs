//! The transition engine: the two crossings over the machine/supervisor
//! privilege boundary, modeled on one hart.
//!
//! [`enter_supervisor`] saves the machine-mode callee-saved registers in a
//! [`MachineContext`] frame on the machine stack, stashes the resulting stack
//! pointer in the context, loads the guest's whole register file and the
//! `mstatus`/`mepc` pair from the context, and hands the hart to the guest.
//! [`return_to_machine`] is its mirror, run as the tail of the trap vector:
//! it writes every guest register and the trapping `mstatus`/`mepc` back into
//! the context, then restores the machine-mode call site from the frame the
//! matching entry saved.
//!
//! On hardware the trap path has no argument-passing mechanism; it finds the
//! context again through the `mscratch` register, written once at entry and
//! read back once at return.  The model threads the context through each
//! crossing as an explicit parameter instead, and the [`PrivilegeMode`] field
//! enforces the pairing discipline: no nested or re-entrant crossing on the
//! same hart.

use vstd::prelude::*;

use crate::context::{MachineContext, SupervisorContext, MACHINE_CONTEXT_BYTES};
use crate::hart::resumable_status;

verus! {

/// The privilege level a modeled hart is currently executing in.
#[derive(Clone, Copy, PartialEq, Eq, Structural, Debug)]
pub enum PrivilegeMode {
    Machine,
    Supervisor,
}

/// The live general-purpose register file of a hart: all 31 integer
/// registers except the hardwired zero register.
#[derive(Clone, Copy, PartialEq, Eq, Structural, Debug)]
pub struct RegisterFile {
    pub ra: usize,
    pub sp: usize,
    pub gp: usize,
    pub tp: usize,
    pub t0: usize,
    pub t1: usize,
    pub t2: usize,
    pub s0: usize,
    pub s1: usize,
    pub a0: usize,
    pub a1: usize,
    pub a2: usize,
    pub a3: usize,
    pub a4: usize,
    pub a5: usize,
    pub a6: usize,
    pub a7: usize,
    pub s2: usize,
    pub s3: usize,
    pub s4: usize,
    pub s5: usize,
    pub s6: usize,
    pub s7: usize,
    pub s8: usize,
    pub s9: usize,
    pub s10: usize,
    pub s11: usize,
    pub t3: usize,
    pub t4: usize,
    pub t5: usize,
    pub t6: usize,
}

impl RegisterFile {
    /// The all-zero register file.
    pub open spec fn spec_zeroed() -> RegisterFile {
        RegisterFile {
            ra: 0,
            sp: 0,
            gp: 0,
            tp: 0,
            t0: 0,
            t1: 0,
            t2: 0,
            s0: 0,
            s1: 0,
            a0: 0,
            a1: 0,
            a2: 0,
            a3: 0,
            a4: 0,
            a5: 0,
            a6: 0,
            a7: 0,
            s2: 0,
            s3: 0,
            s4: 0,
            s5: 0,
            s6: 0,
            s7: 0,
            s8: 0,
            s9: 0,
            s10: 0,
            s11: 0,
            t3: 0,
            t4: 0,
            t5: 0,
            t6: 0,
        }
    }

    /// Builds the all-zero register file.
    pub fn zeroed() -> (r: RegisterFile)
        ensures
            r == RegisterFile::spec_zeroed(),
    {
        RegisterFile {
            ra: 0,
            sp: 0,
            gp: 0,
            tp: 0,
            t0: 0,
            t1: 0,
            t2: 0,
            s0: 0,
            s1: 0,
            a0: 0,
            a1: 0,
            a2: 0,
            a3: 0,
            a4: 0,
            a5: 0,
            a6: 0,
            a7: 0,
            s2: 0,
            s3: 0,
            s4: 0,
            s5: 0,
            s6: 0,
            s7: 0,
            s8: 0,
            s9: 0,
            s10: 0,
            s11: 0,
            t3: 0,
            t4: 0,
            t5: 0,
            t6: 0,
        }
    }
}

/// One modeled hart: its live register file, the machine-level status,
/// exception-pc and mode the crossings touch, and the machine-mode stack
/// region holding the saved [`MachineContext`] frames (the last frame is the
/// one at the current machine stack pointer).
pub struct MachineState {
    pub regs: RegisterFile,
    pub mstatus: usize,
    pub mepc: usize,
    pub mode: PrivilegeMode,
    pub frames: Vec<MachineContext>,
}

/// The mathematical view of a [`MachineState`], with the frame stack as a
/// sequence.
#[verifier::ext_equal]
pub struct StateView {
    pub regs: RegisterFile,
    pub mstatus: usize,
    pub mepc: usize,
    pub mode: PrivilegeMode,
    pub frames: Seq<MachineContext>,
}

impl View for MachineState {
    type V = StateView;

    open spec fn view(&self) -> StateView {
        StateView {
            regs: self.regs,
            mstatus: self.mstatus,
            mepc: self.mepc,
            mode: self.mode,
            frames: self.frames@,
        }
    }
}

impl MachineState {
    /// A hart as the boot layer hands it to the lifecycle wrapper: running
    /// in machine mode on a fresh stack with live stack pointer `sp`, every
    /// other register and status word clear, and no saved frames.
    pub fn boot(sp: usize) -> (s: MachineState)
        ensures
            s@ == (StateView {
                regs: RegisterFile { sp: sp, ..RegisterFile::spec_zeroed() },
                mstatus: 0,
                mepc: 0,
                mode: PrivilegeMode::Machine,
                frames: Seq::empty(),
            }),
    {
        let mut regs = RegisterFile::zeroed();
        regs.sp = sp;
        let s = MachineState {
            regs: regs,
            mstatus: 0,
            mepc: 0,
            mode: PrivilegeMode::Machine,
            frames: Vec::new(),
        };
        proof {
            assert(s@ =~= (StateView {
                regs: RegisterFile { sp: sp, ..RegisterFile::spec_zeroed() },
                mstatus: 0,
                mepc: 0,
                mode: PrivilegeMode::Machine,
                frames: Seq::empty(),
            }));
        }
        s
    }
}

/// The register file a guest resumes with: every general-purpose register
/// loaded from its saved context.
pub open spec fn context_registers(c: SupervisorContext) -> RegisterFile {
    RegisterFile {
        ra: c.ra,
        sp: c.sp,
        gp: c.gp,
        tp: c.tp,
        t0: c.t0,
        t1: c.t1,
        t2: c.t2,
        s0: c.s0,
        s1: c.s1,
        a0: c.a0,
        a1: c.a1,
        a2: c.a2,
        a3: c.a3,
        a4: c.a4,
        a5: c.a5,
        a6: c.a6,
        a7: c.a7,
        s2: c.s2,
        s3: c.s3,
        s4: c.s4,
        s5: c.s5,
        s6: c.s6,
        s7: c.s7,
        s8: c.s8,
        s9: c.s9,
        s10: c.s10,
        s11: c.s11,
        t3: c.t3,
        t4: c.t4,
        t5: c.t5,
        t6: c.t6,
    }
}

/// The frame the machine-mode call site saves before handing off: only the
/// callee-saved registers and the return address are live across a crossing
/// on the machine side.
pub open spec fn callee_saved_frame(r: RegisterFile) -> MachineContext {
    MachineContext {
        ra: r.ra,
        gp: r.gp,
        tp: r.tp,
        s0: r.s0,
        s1: r.s1,
        s2: r.s2,
        s3: r.s3,
        s4: r.s4,
        s5: r.s5,
        s6: r.s6,
        s7: r.s7,
        s8: r.s8,
        s9: r.s9,
        s10: r.s10,
        s11: r.s11,
    }
}

/// The snapshot written into the context at a trap: every general-purpose
/// register as the guest last left it, and the status and faulting address
/// the hardware captured.  `machine_sp` keeps the value the matching entry
/// crossing stored.
pub open spec fn trap_snapshot(v: StateView, c: SupervisorContext) -> SupervisorContext {
    SupervisorContext {
        machine_sp: c.machine_sp,
        ra: v.regs.ra,
        sp: v.regs.sp,
        gp: v.regs.gp,
        tp: v.regs.tp,
        t0: v.regs.t0,
        t1: v.regs.t1,
        t2: v.regs.t2,
        s0: v.regs.s0,
        s1: v.regs.s1,
        a0: v.regs.a0,
        a1: v.regs.a1,
        a2: v.regs.a2,
        a3: v.regs.a3,
        a4: v.regs.a4,
        a5: v.regs.a5,
        a6: v.regs.a6,
        a7: v.regs.a7,
        s2: v.regs.s2,
        s3: v.regs.s3,
        s4: v.regs.s4,
        s5: v.regs.s5,
        s6: v.regs.s6,
        s7: v.regs.s7,
        s8: v.regs.s8,
        s9: v.regs.s9,
        s10: v.regs.s10,
        s11: v.regs.s11,
        t3: v.regs.t3,
        t4: v.regs.t4,
        t5: v.regs.t5,
        t6: v.regs.t6,
        mstatus: v.mstatus,
        mepc: v.mepc,
    }
}

/// The machine-side register file after the return crossing: callee-saved
/// registers and the return address restored from the saved frame, the stack
/// pointer back above the deallocated frame.  The temporaries hold what the
/// return path read last (`t0` the trapping status, `t1` the trapping
/// address, `t2` the guest's stack pointer) and the argument registers still
/// hold the guest's values; the machine-mode caller treats every
/// caller-saved register as dead across the crossing.
pub open spec fn machine_return_registers(v: StateView, c: SupervisorContext, f: MachineContext) -> RegisterFile {
    RegisterFile {
        ra: f.ra,
        sp: (c.machine_sp + MACHINE_CONTEXT_BYTES) as usize,
        gp: f.gp,
        tp: f.tp,
        t0: v.mstatus,
        t1: v.mepc,
        t2: v.regs.sp,
        s0: f.s0,
        s1: f.s1,
        a0: v.regs.a0,
        a1: v.regs.a1,
        a2: v.regs.a2,
        a3: v.regs.a3,
        a4: v.regs.a4,
        a5: v.regs.a5,
        a6: v.regs.a6,
        a7: v.regs.a7,
        s2: f.s2,
        s3: f.s3,
        s4: f.s4,
        s5: f.s5,
        s6: f.s6,
        s7: f.s7,
        s8: f.s8,
        s9: f.s9,
        s10: f.s10,
        s11: f.s11,
        t3: v.regs.t3,
        t4: v.regs.t4,
        t5: v.regs.t5,
        t6: v.regs.t6,
    }
}

/// One entry crossing as a mathematical function of the pre-state: the pair
/// (hart state handed to the guest, context with the machine stack pointer
/// stashed).
pub open spec fn enter_transition(v: StateView, c: SupervisorContext) -> (StateView, SupervisorContext) {
    (
        StateView {
            regs: context_registers(c),
            mstatus: c.mstatus,
            mepc: c.mepc,
            mode: PrivilegeMode::Supervisor,
            frames: v.frames.push(callee_saved_frame(v.regs)),
        },
        SupervisorContext { machine_sp: (v.regs.sp - MACHINE_CONTEXT_BYTES) as usize, ..c },
    )
}

/// One return crossing as a mathematical function of the pre-state: the pair
/// (hart state back at the machine-mode call site, saved guest snapshot).
pub open spec fn return_transition(v: StateView, c: SupervisorContext) -> (StateView, SupervisorContext) {
    let f = v.frames.last();
    (
        StateView {
            regs: machine_return_registers(v, c, f),
            mstatus: v.mstatus,
            mepc: v.mepc,
            mode: PrivilegeMode::Machine,
            frames: v.frames.drop_last(),
        },
        trap_snapshot(v, c),
    )
}

/// Crosses from machine mode into supervisor mode: allocates a
/// [`MachineContext`] frame on the machine stack and fills it with the
/// callee-saved registers, records the resulting machine stack pointer in
/// the context, installs the context's `mstatus`/`mepc`, and reloads the
/// whole register file from the context.  Control reaches the statement
/// after this call only through the matching [`return_to_machine`] run by a
/// later trap.  The caller must present a context whose `mstatus` encodes
/// "previous privilege = supervisor, previous interrupt-enable = 1": the
/// engine never validates it, and on hardware a malformed status faults on
/// the privilege-return instruction instead of failing gracefully.
pub fn enter_supervisor(state: &mut MachineState, ctx: &mut SupervisorContext)
    requires
        old(state).mode is Machine,
        old(state).regs.sp >= MACHINE_CONTEXT_BYTES,
        resumable_status(old(ctx).mstatus),
    ensures
        final(state)@ == enter_transition(old(state)@, *old(ctx)).0,
        *final(ctx) == enter_transition(old(state)@, *old(ctx)).1,
{
    let frame = MachineContext {
        ra: state.regs.ra,
        gp: state.regs.gp,
        tp: state.regs.tp,
        s0: state.regs.s0,
        s1: state.regs.s1,
        s2: state.regs.s2,
        s3: state.regs.s3,
        s4: state.regs.s4,
        s5: state.regs.s5,
        s6: state.regs.s6,
        s7: state.regs.s7,
        s8: state.regs.s8,
        s9: state.regs.s9,
        s10: state.regs.s10,
        s11: state.regs.s11,
    };
    ctx.machine_sp = state.regs.sp - MACHINE_CONTEXT_BYTES;
    state.frames.push(frame);
    state.mstatus = ctx.mstatus;
    state.mepc = ctx.mepc;
    state.regs = RegisterFile {
        ra: ctx.ra,
        sp: ctx.sp,
        gp: ctx.gp,
        tp: ctx.tp,
        t0: ctx.t0,
        t1: ctx.t1,
        t2: ctx.t2,
        s0: ctx.s0,
        s1: ctx.s1,
        a0: ctx.a0,
        a1: ctx.a1,
        a2: ctx.a2,
        a3: ctx.a3,
        a4: ctx.a4,
        a5: ctx.a5,
        a6: ctx.a6,
        a7: ctx.a7,
        s2: ctx.s2,
        s3: ctx.s3,
        s4: ctx.s4,
        s5: ctx.s5,
        s6: ctx.s6,
        s7: ctx.s7,
        s8: ctx.s8,
        s9: ctx.s9,
        s10: ctx.s10,
        s11: ctx.s11,
        t3: ctx.t3,
        t4: ctx.t4,
        t5: ctx.t5,
        t6: ctx.t6,
    };
    state.mode = PrivilegeMode::Supervisor;
    proof {
        assert(state@ =~= enter_transition(old(state)@, *old(ctx)).0);
    }
}

/// Crosses from supervisor mode back to machine mode, run as the tail of the
/// trap vector: writes every guest register and the trapping
/// `mstatus`/`mepc` into the context, then restores the machine-mode call
/// site from the frame the matching [`enter_supervisor`] saved, deallocating
/// it.  The context afterwards holds a complete, resumable snapshot of the
/// trapped hart.
pub fn return_to_machine(state: &mut MachineState, ctx: &mut SupervisorContext)
    requires
        old(state).mode is Supervisor,
        old(state).frames@.len() > 0,
        old(ctx).machine_sp + MACHINE_CONTEXT_BYTES <= usize::MAX,
    ensures
        final(state)@ == return_transition(old(state)@, *old(ctx)).0,
        *final(ctx) == return_transition(old(state)@, *old(ctx)).1,
{
    ctx.ra = state.regs.ra;
    ctx.sp = state.regs.sp;
    ctx.gp = state.regs.gp;
    ctx.tp = state.regs.tp;
    ctx.t0 = state.regs.t0;
    ctx.t1 = state.regs.t1;
    ctx.t2 = state.regs.t2;
    ctx.s0 = state.regs.s0;
    ctx.s1 = state.regs.s1;
    ctx.a0 = state.regs.a0;
    ctx.a1 = state.regs.a1;
    ctx.a2 = state.regs.a2;
    ctx.a3 = state.regs.a3;
    ctx.a4 = state.regs.a4;
    ctx.a5 = state.regs.a5;
    ctx.a6 = state.regs.a6;
    ctx.a7 = state.regs.a7;
    ctx.s2 = state.regs.s2;
    ctx.s3 = state.regs.s3;
    ctx.s4 = state.regs.s4;
    ctx.s5 = state.regs.s5;
    ctx.s6 = state.regs.s6;
    ctx.s7 = state.regs.s7;
    ctx.s8 = state.regs.s8;
    ctx.s9 = state.regs.s9;
    ctx.s10 = state.regs.s10;
    ctx.s11 = state.regs.s11;
    ctx.t3 = state.regs.t3;
    ctx.t4 = state.regs.t4;
    ctx.t5 = state.regs.t5;
    ctx.t6 = state.regs.t6;
    ctx.mstatus = state.mstatus;
    ctx.mepc = state.mepc;
    let frame = state.frames.pop().unwrap();
    state.regs = RegisterFile {
        ra: frame.ra,
        sp: ctx.machine_sp + MACHINE_CONTEXT_BYTES,
        gp: frame.gp,
        tp: frame.tp,
        t0: state.mstatus,
        t1: state.mepc,
        t2: ctx.sp,
        s0: frame.s0,
        s1: frame.s1,
        a0: state.regs.a0,
        a1: state.regs.a1,
        a2: state.regs.a2,
        a3: state.regs.a3,
        a4: state.regs.a4,
        a5: state.regs.a5,
        a6: state.regs.a6,
        a7: state.regs.a7,
        s2: frame.s2,
        s3: frame.s3,
        s4: frame.s4,
        s5: frame.s5,
        s6: frame.s6,
        s7: frame.s7,
        s8: frame.s8,
        s9: frame.s9,
        s10: frame.s10,
        s11: frame.s11,
        t3: state.regs.t3,
        t4: state.regs.t4,
        t5: state.regs.t5,
        t6: state.regs.t6,
    };
    state.mode = PrivilegeMode::Machine;
    proof {
        assert(state@ =~= return_transition(old(state)@, *old(ctx)).0);
    }
}

/// A trap writes the guest back exactly.  Entering supervisor mode from
/// context `c`, letting the guest leave the register file at `guest` and
/// trap at address `trap_pc` with status `trap_status`, the return crossing
/// produces a context that reproduces every general-purpose register of the
/// guest bit for bit and records the trap point; `machine_sp` keeps the
/// value the entry crossing stashed.  In particular, every register the
/// guest never touched comes back exactly as `c` held it.
pub proof fn lemma_trap_saves_guest_exactly(
    v: StateView,
    c: SupervisorContext,
    guest: RegisterFile,
    trap_status: usize,
    trap_pc: usize,
)
    ensures
        ({
            let (entered, handed) = enter_transition(v, c);
            let trapped = StateView { regs: guest, mstatus: trap_status, mepc: trap_pc, ..entered };
            let saved = return_transition(trapped, handed).1;
            saved == (SupervisorContext {
                machine_sp: handed.machine_sp,
                mstatus: trap_status,
                mepc: trap_pc,
                ..trap_snapshot(StateView { regs: guest, ..v }, c)
            }) && context_registers(saved) == guest
        }),
{
}

/// Round trip: a guest that traps without touching anything is saved back
/// bit for bit.  Entering supervisor mode from context `c` and running the
/// matching return crossing on an untouched hart reproduces every
/// general-purpose register of `c` exactly, with `mstatus` and `mepc` as the
/// entry installed them, so a further entry resumes the guest exactly where
/// it stood.
pub proof fn lemma_round_trip(v: StateView, c: SupervisorContext)
    requires
        resumable_status(c.mstatus),
    ensures
        ({
            let (entered, handed) = enter_transition(v, c);
            let saved = return_transition(entered, handed).1;
            saved == (SupervisorContext { machine_sp: handed.machine_sp, ..c })
        }),
{
}

/// Determinism of the crossing itself: what the guest observes on entry
/// depends on the saved context alone, never on the machine-mode caller's
/// state.  Re-entering an unchanged context therefore replays the guest from
/// the same registers, status and resume address, whatever the machine side
/// did in between.
pub proof fn lemma_reentry_deterministic(v1: StateView, v2: StateView, c: SupervisorContext)
    ensures
        enter_transition(v1, c).0.regs == enter_transition(v2, c).0.regs,
        enter_transition(v1, c).0.mstatus == enter_transition(v2, c).0.mstatus,
        enter_transition(v1, c).0.mepc == enter_transition(v2, c).0.mepc,
        enter_transition(v1, c).0.regs == context_registers(c),
        enter_transition(v1, c).0.mepc == c.mepc,
{
}

/// Companion to [`lemma_reentry_deterministic`]: two harts resuming the
/// same saved context from different machine-mode call sites and running
/// the same guest sequence to the same trap point produce saved snapshots
/// that agree on every register, the status word and the trap address —
/// only the machine stack slot belongs to each call site.
pub proof fn lemma_same_sequence_same_snapshot(
    v1: StateView,
    v2: StateView,
    c: SupervisorContext,
    guest: RegisterFile,
    trap_status: usize,
    trap_pc: usize,
)
    ensures
        ({
            let e1 = enter_transition(v1, c);
            let e2 = enter_transition(v2, c);
            let t1 = StateView { regs: guest, mstatus: trap_status, mepc: trap_pc, ..e1.0 };
            let t2 = StateView { regs: guest, mstatus: trap_status, mepc: trap_pc, ..e2.0 };
            let s1 = return_transition(t1, e1.1).1;
            let s2 = return_transition(t2, e2.1).1;
            s1 == (SupervisorContext { machine_sp: s1.machine_sp, ..s2 })
        }),
{
}

/// Field isolation: dispatch logic that edits only `a0` and `a1` in a saved
/// context changes only those two registers as the guest observes them on
/// resume; every other register, the status word and the resume address come
/// back exactly as the guest last left them.
pub proof fn lemma_field_isolation(v: StateView, c: SupervisorContext, ret0: usize, ret1: usize)
    ensures
        ({
            let patched = SupervisorContext { a0: ret0, a1: ret1, ..c };
            let resumed = enter_transition(v, patched).0;
            &&& resumed.regs == (RegisterFile { a0: ret0, a1: ret1, ..context_registers(c) })
            &&& resumed.mstatus == c.mstatus
            &&& resumed.mepc == c.mepc
        }),
{
}

/// `n` paired crossings with an idle guest, as one mathematical function:
/// each cycle enters supervisor mode, traps immediately, and returns.
pub open spec fn run_paired_cycles(v: StateView, c: SupervisorContext, n: nat) -> (StateView, SupervisorContext)
    decreases n,
{
    if n == 0 {
        (v, c)
    } else {
        let (v1, c1) = run_paired_cycles(v, c, (n - 1) as nat);
        let (entered, handed) = enter_transition(v1, c1);
        return_transition(entered, handed)
    }
}

/// Stack discipline: after any number of paired crossings the machine-mode
/// stack pointer stands exactly where it was before the first one and the
/// stack region holds exactly the frames it held then — no saved
/// machine-context frame leaks or drifts.  The callee-saved registers and
/// the return address of the machine-mode call site survive every cycle
/// unchanged as well: that is the calling-convention discipline that lets a
/// crossing pose as an ordinary function call.
pub proof fn lemma_stack_discipline(v: StateView, c: SupervisorContext, n: nat)
    requires
        v.mode is Machine,
        v.regs.sp >= MACHINE_CONTEXT_BYTES,
    ensures
        ({
            let after = run_paired_cycles(v, c, n).0;
            &&& after.mode is Machine
            &&& after.regs.sp == v.regs.sp
            &&& after.frames == v.frames
            &&& callee_saved_frame(after.regs) == callee_saved_frame(v.regs)
        }),
    decreases n,
{
    if n > 0 {
        lemma_stack_discipline(v, c, (n - 1) as nat);
        let (v1, c1) = run_paired_cycles(v, c, (n - 1) as nat);
        let (entered, handed) = enter_transition(v1, c1);
        let after = return_transition(entered, handed).0;
        assert(v1.frames.push(callee_saved_frame(v1.regs)).drop_last() =~= v1.frames);
        assert(after.frames =~= v.frames);
    }
}

} // verus!
