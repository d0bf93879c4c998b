//! Hart lifecycle wrapper.
//!
//! A [`Hart`] owns the single [`SupervisorContext`] of one hardware thread
//! for that thread's whole lifetime.  Construction is the only place a
//! context is built from scratch; every later mutation goes through the
//! transition engine during a crossing, or through dispatch logic between
//! crossings.  When the machine-mode call site finally chooses not to
//! re-enter supervisor mode, it reports one terminal [`Operation`].

use vstd::prelude::*;

use crate::context::SupervisorContext;

verus! {

/// The two ways a hart's tenancy of this firmware ends: park the hart, or
/// reset the whole system.
#[derive(Clone, Copy, PartialEq, Eq, Structural, Debug)]
pub enum Operation {
    Stop,
    SystemReset,
}

/// `mstatus.MPIE` (bit 7): the previous interrupt-enable bit that the
/// privilege-return instruction restores.
pub const MSTATUS_MPIE: usize = 0x80;

/// `mstatus.MPP` (bits 12:11): the previous privilege level that the
/// privilege-return instruction restores.
pub const MSTATUS_MPP_MASK: usize = 0x1800;

/// `MPP` encoding of the supervisor privilege level.
pub const MSTATUS_MPP_SUPERVISOR: usize = 0x800;

/// The status word a hart first enters supervisor mode with: the current
/// status with previous privilege forced to supervisor and previous
/// interrupt-enable forced on, every other bit kept.
pub open spec fn entry_status(current: usize) -> usize {
    (current & !MSTATUS_MPP_MASK) | MSTATUS_MPP_SUPERVISOR | MSTATUS_MPIE
}

/// A status word fit to hand to the entry crossing: previous privilege
/// encodes supervisor and the previous interrupt-enable bit is set, so the
/// privilege-return instruction lands the hart in supervisor mode with
/// interrupts back on.
pub open spec fn resumable_status(s: usize) -> bool {
    s & MSTATUS_MPP_MASK == MSTATUS_MPP_SUPERVISOR && s & MSTATUS_MPIE == MSTATUS_MPIE
}

/// Forces "previous privilege = supervisor" and "previous interrupt-enable =
/// 1" onto a status word, leaving every other bit as it was.
pub fn machine_status_for_entry(current: usize) -> (r: usize)
    ensures
        r == entry_status(current),
        resumable_status(r),
        r & !(MSTATUS_MPP_MASK | MSTATUS_MPIE) == current & !(MSTATUS_MPP_MASK | MSTATUS_MPIE),
{
    let r = (current & !MSTATUS_MPP_MASK) | MSTATUS_MPP_SUPERVISOR | MSTATUS_MPIE;
    proof {
        assert(r & 0x1800usize == 0x800usize) by (bit_vector)
            requires
                r == (current & !0x1800usize) | 0x800usize | 0x80usize,
        ;
        assert(r & 0x80usize == 0x80usize) by (bit_vector)
            requires
                r == (current & !0x1800usize) | 0x800usize | 0x80usize,
        ;
        assert(r & !(0x1800usize | 0x80usize) == current & !(0x1800usize | 0x80usize)) by (bit_vector)
            requires
                r == (current & !0x1800usize) | 0x800usize | 0x80usize,
        ;
    }
    r
}

/// The lifecycle wrapper of one hardware thread: the exclusive owner of that
/// thread's supervisor context.
pub struct Hart {
    pub context: SupervisorContext,
}

impl Hart {
    /// The context a hart starts from: zeroed registers except the two boot
    /// arguments in `a0`/`a1`, the guest entry point in `mepc`, and a status
    /// word forced to resume into supervisor mode with interrupts enabled.
    pub open spec fn initial_context(a0: usize, a1: usize, pc: usize, current_status: usize) -> SupervisorContext {
        SupervisorContext {
            mepc: pc,
            mstatus: entry_status(current_status),
            a0: a0,
            a1: a1,
            ..SupervisorContext::spec_zeroed()
        }
    }

    /// Builds a hart's first supervisor context from the machine's current
    /// status word: the hart will start at `pc` in supervisor mode with
    /// interrupts re-enabled, receiving `a0` and `a1` as the two
    /// architectural boot arguments.
    pub fn with_machine_status(a0: usize, a1: usize, pc: usize, current_status: usize) -> (h: Hart)
        ensures
            h.context == Hart::initial_context(a0, a1, pc, current_status),
            resumable_status(h.context.mstatus),
    {
        let mstatus = machine_status_for_entry(current_status);
        let mut context = SupervisorContext::zeroed();
        context.mepc = pc;
        context.mstatus = mstatus;
        context.a0 = a0;
        context.a1 = a1;
        Hart { context }
    }

    /// Builds a hart's first supervisor context, taking the machine's status
    /// register as all-clear before the privileged bits are forced.  A boot
    /// layer that holds the live status value uses
    /// [`Hart::with_machine_status`] instead.
    pub fn new(a0: usize, a1: usize, pc: usize) -> (h: Hart)
        ensures
            h.context == Hart::initial_context(a0, a1, pc, 0),
            resumable_status(h.context.mstatus),
    {
        Hart::with_machine_status(a0, a1, pc, 0)
    }
}

} // verus!
