//! Register-image records for one hart.
//!
//! [`SupervisorContext`] is the complete register file of the guest while it
//! runs (or last ran) in supervisor mode, together with the two privileged
//! status values needed to resume it and a slot for the machine-mode stack
//! pointer.  [`MachineContext`] is the callee-saved subset of the machine-mode
//! call site, materialized on the machine stack for the duration of one
//! crossing into supervisor mode.
//!
//! The transition engine addresses both records as raw words at fixed byte
//! offsets, with no bounds or type checking at the point of access.  The
//! offset constants here, the flat word images, and
//! [`lemma_supervisor_context_offsets`] / [`lemma_machine_context_offsets`]
//! pin that layout: a structural change that is not matched by the offsets
//! fails verification instead of corrupting a register at run time.

use vstd::prelude::*;

verus! {

/// Bytes per machine word: the records hold RV64 registers, one per word.
pub const WORD_BYTES: usize = 8;

/// Number of words in a [`SupervisorContext`] image.
pub const SUPERVISOR_CONTEXT_WORDS: usize = 34;

/// Size in bytes of a [`SupervisorContext`] image.
pub const SUPERVISOR_CONTEXT_BYTES: usize = 272;

/// Number of words in a [`MachineContext`] image.
pub const MACHINE_CONTEXT_WORDS: usize = 15;

/// Size in bytes of a [`MachineContext`] image: what one crossing allocates
/// on the machine-mode stack.
pub const MACHINE_CONTEXT_BYTES: usize = 120;

// Byte offset of each named field of `SupervisorContext` in its image.
pub const MACHINE_SP_OFFSET: usize = 0;
pub const RA_OFFSET: usize = 8;
pub const SP_OFFSET: usize = 16;
pub const GP_OFFSET: usize = 24;
pub const TP_OFFSET: usize = 32;
pub const T0_OFFSET: usize = 40;
pub const T1_OFFSET: usize = 48;
pub const T2_OFFSET: usize = 56;
pub const S0_OFFSET: usize = 64;
pub const S1_OFFSET: usize = 72;
pub const A0_OFFSET: usize = 80;
pub const A1_OFFSET: usize = 88;
pub const A2_OFFSET: usize = 96;
pub const A3_OFFSET: usize = 104;
pub const A4_OFFSET: usize = 112;
pub const A5_OFFSET: usize = 120;
pub const A6_OFFSET: usize = 128;
pub const A7_OFFSET: usize = 136;
pub const S2_OFFSET: usize = 144;
pub const S3_OFFSET: usize = 152;
pub const S4_OFFSET: usize = 160;
pub const S5_OFFSET: usize = 168;
pub const S6_OFFSET: usize = 176;
pub const S7_OFFSET: usize = 184;
pub const S8_OFFSET: usize = 192;
pub const S9_OFFSET: usize = 200;
pub const S10_OFFSET: usize = 208;
pub const S11_OFFSET: usize = 216;
pub const T3_OFFSET: usize = 224;
pub const T4_OFFSET: usize = 232;
pub const T5_OFFSET: usize = 240;
pub const T6_OFFSET: usize = 248;
pub const MSTATUS_OFFSET: usize = 256;
pub const MEPC_OFFSET: usize = 264;

// Byte offset of each named field of `MachineContext` in its image.
pub const FRAME_RA_OFFSET: usize = 0;
pub const FRAME_GP_OFFSET: usize = 8;
pub const FRAME_TP_OFFSET: usize = 16;
pub const FRAME_S0_OFFSET: usize = 24;
pub const FRAME_S1_OFFSET: usize = 32;
pub const FRAME_S2_OFFSET: usize = 40;
pub const FRAME_S3_OFFSET: usize = 48;
pub const FRAME_S4_OFFSET: usize = 56;
pub const FRAME_S5_OFFSET: usize = 64;
pub const FRAME_S6_OFFSET: usize = 72;
pub const FRAME_S7_OFFSET: usize = 80;
pub const FRAME_S8_OFFSET: usize = 88;
pub const FRAME_S9_OFFSET: usize = 96;
pub const FRAME_S10_OFFSET: usize = 104;
pub const FRAME_S11_OFFSET: usize = 112;

/// The complete register image of a hart while it is (or was) executing in
/// supervisor mode: all 31 general-purpose registers except the zero
/// register, the `mstatus` snapshot and the `mepc` resume address needed to
/// re-enter the guest, and `machine_sp`, scratch storage for the machine-mode
/// stack pointer while the guest runs.  `machine_sp` is owned exclusively by
/// the transition engine; it is not part of the supervisor register file.
#[derive(Clone, Copy, PartialEq, Eq, Structural, Debug)]
pub struct SupervisorContext {
    pub machine_sp: usize,
    pub ra: usize,
    pub sp: usize,
    pub gp: usize,
    pub tp: usize,
    pub t0: usize,
    pub t1: usize,
    pub t2: usize,
    pub s0: usize,
    pub s1: usize,
    pub a0: usize,
    pub a1: usize,
    pub a2: usize,
    pub a3: usize,
    pub a4: usize,
    pub a5: usize,
    pub a6: usize,
    pub a7: usize,
    pub s2: usize,
    pub s3: usize,
    pub s4: usize,
    pub s5: usize,
    pub s6: usize,
    pub s7: usize,
    pub s8: usize,
    pub s9: usize,
    pub s10: usize,
    pub s11: usize,
    pub t3: usize,
    pub t4: usize,
    pub t5: usize,
    pub t6: usize,
    pub mstatus: usize,
    pub mepc: usize,
}

/// The callee-saved registers of the machine-mode call site, saved on the
/// machine stack across one crossing into supervisor mode.  Caller-saved and
/// argument registers are deliberately absent: they are never live across the
/// crossing on the machine side.
#[derive(Clone, Copy, PartialEq, Eq, Structural, Debug)]
pub struct MachineContext {
    pub ra: usize,
    pub gp: usize,
    pub tp: usize,
    pub s0: usize,
    pub s1: usize,
    pub s2: usize,
    pub s3: usize,
    pub s4: usize,
    pub s5: usize,
    pub s6: usize,
    pub s7: usize,
    pub s8: usize,
    pub s9: usize,
    pub s10: usize,
    pub s11: usize,
}

impl SupervisorContext {
    /// The all-zero context, the construction state used before the first
    /// real register values are known.
    pub open spec fn spec_zeroed() -> SupervisorContext {
        SupervisorContext {
            machine_sp: 0,
            ra: 0,
            sp: 0,
            gp: 0,
            tp: 0,
            t0: 0,
            t1: 0,
            t2: 0,
            s0: 0,
            s1: 0,
            a0: 0,
            a1: 0,
            a2: 0,
            a3: 0,
            a4: 0,
            a5: 0,
            a6: 0,
            a7: 0,
            s2: 0,
            s3: 0,
            s4: 0,
            s5: 0,
            s6: 0,
            s7: 0,
            s8: 0,
            s9: 0,
            s10: 0,
            s11: 0,
            t3: 0,
            t4: 0,
            t5: 0,
            t6: 0,
            mstatus: 0,
            mepc: 0,
        }
    }

    /// Builds the all-zero context.
    pub fn zeroed() -> (c: SupervisorContext)
        ensures
            c == SupervisorContext::spec_zeroed(),
    {
        SupervisorContext {
            machine_sp: 0,
            ra: 0,
            sp: 0,
            gp: 0,
            tp: 0,
            t0: 0,
            t1: 0,
            t2: 0,
            s0: 0,
            s1: 0,
            a0: 0,
            a1: 0,
            a2: 0,
            a3: 0,
            a4: 0,
            a5: 0,
            a6: 0,
            a7: 0,
            s2: 0,
            s3: 0,
            s4: 0,
            s5: 0,
            s6: 0,
            s7: 0,
            s8: 0,
            s9: 0,
            s10: 0,
            s11: 0,
            t3: 0,
            t4: 0,
            t5: 0,
            t6: 0,
            mstatus: 0,
            mepc: 0,
        }
    }
}

impl Default for SupervisorContext {
    /// The default context is the all-zero context.
    fn default() -> (c: SupervisorContext)
        ensures
            c == SupervisorContext::spec_zeroed(),
    {
        SupervisorContext::zeroed()
    }
}

/// The flat word image of a supervisor context: field `f` stands at word
/// index `f_OFFSET / WORD_BYTES`, in layout order.
pub open spec fn supervisor_context_image(c: SupervisorContext) -> Seq<usize> {
    seq![
        c.machine_sp,
        c.ra,
        c.sp,
        c.gp,
        c.tp,
        c.t0,
        c.t1,
        c.t2,
        c.s0,
        c.s1,
        c.a0,
        c.a1,
        c.a2,
        c.a3,
        c.a4,
        c.a5,
        c.a6,
        c.a7,
        c.s2,
        c.s3,
        c.s4,
        c.s5,
        c.s6,
        c.s7,
        c.s8,
        c.s9,
        c.s10,
        c.s11,
        c.t3,
        c.t4,
        c.t5,
        c.t6,
        c.mstatus,
        c.mepc,
    ]
}

/// Reads a supervisor context back out of a flat word image, each field at
/// its published byte offset.
pub open spec fn supervisor_context_of_image(w: Seq<usize>) -> SupervisorContext {
    SupervisorContext {
        machine_sp: w[(MACHINE_SP_OFFSET / WORD_BYTES) as int],
        ra: w[(RA_OFFSET / WORD_BYTES) as int],
        sp: w[(SP_OFFSET / WORD_BYTES) as int],
        gp: w[(GP_OFFSET / WORD_BYTES) as int],
        tp: w[(TP_OFFSET / WORD_BYTES) as int],
        t0: w[(T0_OFFSET / WORD_BYTES) as int],
        t1: w[(T1_OFFSET / WORD_BYTES) as int],
        t2: w[(T2_OFFSET / WORD_BYTES) as int],
        s0: w[(S0_OFFSET / WORD_BYTES) as int],
        s1: w[(S1_OFFSET / WORD_BYTES) as int],
        a0: w[(A0_OFFSET / WORD_BYTES) as int],
        a1: w[(A1_OFFSET / WORD_BYTES) as int],
        a2: w[(A2_OFFSET / WORD_BYTES) as int],
        a3: w[(A3_OFFSET / WORD_BYTES) as int],
        a4: w[(A4_OFFSET / WORD_BYTES) as int],
        a5: w[(A5_OFFSET / WORD_BYTES) as int],
        a6: w[(A6_OFFSET / WORD_BYTES) as int],
        a7: w[(A7_OFFSET / WORD_BYTES) as int],
        s2: w[(S2_OFFSET / WORD_BYTES) as int],
        s3: w[(S3_OFFSET / WORD_BYTES) as int],
        s4: w[(S4_OFFSET / WORD_BYTES) as int],
        s5: w[(S5_OFFSET / WORD_BYTES) as int],
        s6: w[(S6_OFFSET / WORD_BYTES) as int],
        s7: w[(S7_OFFSET / WORD_BYTES) as int],
        s8: w[(S8_OFFSET / WORD_BYTES) as int],
        s9: w[(S9_OFFSET / WORD_BYTES) as int],
        s10: w[(S10_OFFSET / WORD_BYTES) as int],
        s11: w[(S11_OFFSET / WORD_BYTES) as int],
        t3: w[(T3_OFFSET / WORD_BYTES) as int],
        t4: w[(T4_OFFSET / WORD_BYTES) as int],
        t5: w[(T5_OFFSET / WORD_BYTES) as int],
        t6: w[(T6_OFFSET / WORD_BYTES) as int],
        mstatus: w[(MSTATUS_OFFSET / WORD_BYTES) as int],
        mepc: w[(MEPC_OFFSET / WORD_BYTES) as int],
    }
}

/// Writes a supervisor context into its flat word image, in layout order.
pub fn supervisor_context_store(c: &SupervisorContext) -> (image: Vec<usize>)
    ensures
        image@ == supervisor_context_image(*c),
{
    let mut image: Vec<usize> = Vec::new();
    image.push(c.machine_sp);
    image.push(c.ra);
    image.push(c.sp);
    image.push(c.gp);
    image.push(c.tp);
    image.push(c.t0);
    image.push(c.t1);
    image.push(c.t2);
    image.push(c.s0);
    image.push(c.s1);
    image.push(c.a0);
    image.push(c.a1);
    image.push(c.a2);
    image.push(c.a3);
    image.push(c.a4);
    image.push(c.a5);
    image.push(c.a6);
    image.push(c.a7);
    image.push(c.s2);
    image.push(c.s3);
    image.push(c.s4);
    image.push(c.s5);
    image.push(c.s6);
    image.push(c.s7);
    image.push(c.s8);
    image.push(c.s9);
    image.push(c.s10);
    image.push(c.s11);
    image.push(c.t3);
    image.push(c.t4);
    image.push(c.t5);
    image.push(c.t6);
    image.push(c.mstatus);
    image.push(c.mepc);
    proof {
        assert(image@ =~= supervisor_context_image(*c));
    }
    image
}

/// Reads a supervisor context out of a flat word image, each field loaded at
/// its published byte offset, exactly as the crossing code addresses memory.
pub fn supervisor_context_load(image: &Vec<usize>) -> (c: SupervisorContext)
    requires
        image@.len() == SUPERVISOR_CONTEXT_WORDS,
    ensures
        c == supervisor_context_of_image(image@),
{
    SupervisorContext {
        machine_sp: image[MACHINE_SP_OFFSET / WORD_BYTES],
        ra: image[RA_OFFSET / WORD_BYTES],
        sp: image[SP_OFFSET / WORD_BYTES],
        gp: image[GP_OFFSET / WORD_BYTES],
        tp: image[TP_OFFSET / WORD_BYTES],
        t0: image[T0_OFFSET / WORD_BYTES],
        t1: image[T1_OFFSET / WORD_BYTES],
        t2: image[T2_OFFSET / WORD_BYTES],
        s0: image[S0_OFFSET / WORD_BYTES],
        s1: image[S1_OFFSET / WORD_BYTES],
        a0: image[A0_OFFSET / WORD_BYTES],
        a1: image[A1_OFFSET / WORD_BYTES],
        a2: image[A2_OFFSET / WORD_BYTES],
        a3: image[A3_OFFSET / WORD_BYTES],
        a4: image[A4_OFFSET / WORD_BYTES],
        a5: image[A5_OFFSET / WORD_BYTES],
        a6: image[A6_OFFSET / WORD_BYTES],
        a7: image[A7_OFFSET / WORD_BYTES],
        s2: image[S2_OFFSET / WORD_BYTES],
        s3: image[S3_OFFSET / WORD_BYTES],
        s4: image[S4_OFFSET / WORD_BYTES],
        s5: image[S5_OFFSET / WORD_BYTES],
        s6: image[S6_OFFSET / WORD_BYTES],
        s7: image[S7_OFFSET / WORD_BYTES],
        s8: image[S8_OFFSET / WORD_BYTES],
        s9: image[S9_OFFSET / WORD_BYTES],
        s10: image[S10_OFFSET / WORD_BYTES],
        s11: image[S11_OFFSET / WORD_BYTES],
        t3: image[T3_OFFSET / WORD_BYTES],
        t4: image[T4_OFFSET / WORD_BYTES],
        t5: image[T5_OFFSET / WORD_BYTES],
        t6: image[T6_OFFSET / WORD_BYTES],
        mstatus: image[MSTATUS_OFFSET / WORD_BYTES],
        mepc: image[MEPC_OFFSET / WORD_BYTES],
    }
}

/// The flat word image of a machine-context stack frame, in layout order.
pub open spec fn machine_context_image(f: MachineContext) -> Seq<usize> {
    seq![
        f.ra,
        f.gp,
        f.tp,
        f.s0,
        f.s1,
        f.s2,
        f.s3,
        f.s4,
        f.s5,
        f.s6,
        f.s7,
        f.s8,
        f.s9,
        f.s10,
        f.s11,
    ]
}

/// Reads a machine-context frame back out of a flat word image.
pub open spec fn machine_context_of_image(w: Seq<usize>) -> MachineContext {
    MachineContext {
        ra: w[(FRAME_RA_OFFSET / WORD_BYTES) as int],
        gp: w[(FRAME_GP_OFFSET / WORD_BYTES) as int],
        tp: w[(FRAME_TP_OFFSET / WORD_BYTES) as int],
        s0: w[(FRAME_S0_OFFSET / WORD_BYTES) as int],
        s1: w[(FRAME_S1_OFFSET / WORD_BYTES) as int],
        s2: w[(FRAME_S2_OFFSET / WORD_BYTES) as int],
        s3: w[(FRAME_S3_OFFSET / WORD_BYTES) as int],
        s4: w[(FRAME_S4_OFFSET / WORD_BYTES) as int],
        s5: w[(FRAME_S5_OFFSET / WORD_BYTES) as int],
        s6: w[(FRAME_S6_OFFSET / WORD_BYTES) as int],
        s7: w[(FRAME_S7_OFFSET / WORD_BYTES) as int],
        s8: w[(FRAME_S8_OFFSET / WORD_BYTES) as int],
        s9: w[(FRAME_S9_OFFSET / WORD_BYTES) as int],
        s10: w[(FRAME_S10_OFFSET / WORD_BYTES) as int],
        s11: w[(FRAME_S11_OFFSET / WORD_BYTES) as int],
    }
}

/// Writes a machine-context frame into its flat word image, in layout
/// order: what one entry crossing pushes onto the machine stack.
pub fn machine_context_store(f: &MachineContext) -> (image: Vec<usize>)
    ensures
        image@ == machine_context_image(*f),
{
    let mut image: Vec<usize> = Vec::new();
    image.push(f.ra);
    image.push(f.gp);
    image.push(f.tp);
    image.push(f.s0);
    image.push(f.s1);
    image.push(f.s2);
    image.push(f.s3);
    image.push(f.s4);
    image.push(f.s5);
    image.push(f.s6);
    image.push(f.s7);
    image.push(f.s8);
    image.push(f.s9);
    image.push(f.s10);
    image.push(f.s11);
    proof {
        assert(image@ =~= machine_context_image(*f));
    }
    image
}

/// Reads a machine-context frame out of a flat word image, each field
/// loaded at its published byte offset, exactly as the return crossing
/// addresses the machine stack.
pub fn machine_context_load(image: &Vec<usize>) -> (f: MachineContext)
    requires
        image@.len() == MACHINE_CONTEXT_WORDS,
    ensures
        f == machine_context_of_image(image@),
{
    MachineContext {
        ra: image[FRAME_RA_OFFSET / WORD_BYTES],
        gp: image[FRAME_GP_OFFSET / WORD_BYTES],
        tp: image[FRAME_TP_OFFSET / WORD_BYTES],
        s0: image[FRAME_S0_OFFSET / WORD_BYTES],
        s1: image[FRAME_S1_OFFSET / WORD_BYTES],
        s2: image[FRAME_S2_OFFSET / WORD_BYTES],
        s3: image[FRAME_S3_OFFSET / WORD_BYTES],
        s4: image[FRAME_S4_OFFSET / WORD_BYTES],
        s5: image[FRAME_S5_OFFSET / WORD_BYTES],
        s6: image[FRAME_S6_OFFSET / WORD_BYTES],
        s7: image[FRAME_S7_OFFSET / WORD_BYTES],
        s8: image[FRAME_S8_OFFSET / WORD_BYTES],
        s9: image[FRAME_S9_OFFSET / WORD_BYTES],
        s10: image[FRAME_S10_OFFSET / WORD_BYTES],
        s11: image[FRAME_S11_OFFSET / WORD_BYTES],
    }
}

/// Offset stability for the supervisor context: its image is exactly
/// `SUPERVISOR_CONTEXT_WORDS` words; every named field stands in the image at
/// its published byte offset; and decoding the image at those same offsets
/// reproduces the context exactly.  A field added, removed or reordered
/// without regenerating the offsets makes this proof fail at build time.
pub proof fn lemma_supervisor_context_offsets(c: SupervisorContext)
    ensures
        supervisor_context_image(c).len() == SUPERVISOR_CONTEXT_WORDS,
        SUPERVISOR_CONTEXT_BYTES == WORD_BYTES * SUPERVISOR_CONTEXT_WORDS,
        supervisor_context_image(c)[(MACHINE_SP_OFFSET / WORD_BYTES) as int] == c.machine_sp,
        supervisor_context_image(c)[(RA_OFFSET / WORD_BYTES) as int] == c.ra,
        supervisor_context_image(c)[(SP_OFFSET / WORD_BYTES) as int] == c.sp,
        supervisor_context_image(c)[(GP_OFFSET / WORD_BYTES) as int] == c.gp,
        supervisor_context_image(c)[(TP_OFFSET / WORD_BYTES) as int] == c.tp,
        supervisor_context_image(c)[(T0_OFFSET / WORD_BYTES) as int] == c.t0,
        supervisor_context_image(c)[(T1_OFFSET / WORD_BYTES) as int] == c.t1,
        supervisor_context_image(c)[(T2_OFFSET / WORD_BYTES) as int] == c.t2,
        supervisor_context_image(c)[(S0_OFFSET / WORD_BYTES) as int] == c.s0,
        supervisor_context_image(c)[(S1_OFFSET / WORD_BYTES) as int] == c.s1,
        supervisor_context_image(c)[(A0_OFFSET / WORD_BYTES) as int] == c.a0,
        supervisor_context_image(c)[(A1_OFFSET / WORD_BYTES) as int] == c.a1,
        supervisor_context_image(c)[(A2_OFFSET / WORD_BYTES) as int] == c.a2,
        supervisor_context_image(c)[(A3_OFFSET / WORD_BYTES) as int] == c.a3,
        supervisor_context_image(c)[(A4_OFFSET / WORD_BYTES) as int] == c.a4,
        supervisor_context_image(c)[(A5_OFFSET / WORD_BYTES) as int] == c.a5,
        supervisor_context_image(c)[(A6_OFFSET / WORD_BYTES) as int] == c.a6,
        supervisor_context_image(c)[(A7_OFFSET / WORD_BYTES) as int] == c.a7,
        supervisor_context_image(c)[(S2_OFFSET / WORD_BYTES) as int] == c.s2,
        supervisor_context_image(c)[(S3_OFFSET / WORD_BYTES) as int] == c.s3,
        supervisor_context_image(c)[(S4_OFFSET / WORD_BYTES) as int] == c.s4,
        supervisor_context_image(c)[(S5_OFFSET / WORD_BYTES) as int] == c.s5,
        supervisor_context_image(c)[(S6_OFFSET / WORD_BYTES) as int] == c.s6,
        supervisor_context_image(c)[(S7_OFFSET / WORD_BYTES) as int] == c.s7,
        supervisor_context_image(c)[(S8_OFFSET / WORD_BYTES) as int] == c.s8,
        supervisor_context_image(c)[(S9_OFFSET / WORD_BYTES) as int] == c.s9,
        supervisor_context_image(c)[(S10_OFFSET / WORD_BYTES) as int] == c.s10,
        supervisor_context_image(c)[(S11_OFFSET / WORD_BYTES) as int] == c.s11,
        supervisor_context_image(c)[(T3_OFFSET / WORD_BYTES) as int] == c.t3,
        supervisor_context_image(c)[(T4_OFFSET / WORD_BYTES) as int] == c.t4,
        supervisor_context_image(c)[(T5_OFFSET / WORD_BYTES) as int] == c.t5,
        supervisor_context_image(c)[(T6_OFFSET / WORD_BYTES) as int] == c.t6,
        supervisor_context_image(c)[(MSTATUS_OFFSET / WORD_BYTES) as int] == c.mstatus,
        supervisor_context_image(c)[(MEPC_OFFSET / WORD_BYTES) as int] == c.mepc,
        supervisor_context_of_image(supervisor_context_image(c)) == c,
{
}

/// Offset stability for the machine-context frame: its image is exactly
/// `MACHINE_CONTEXT_WORDS` words; every named field stands at its published
/// byte offset; decoding reproduces the frame exactly.
pub proof fn lemma_machine_context_offsets(f: MachineContext)
    ensures
        machine_context_image(f).len() == MACHINE_CONTEXT_WORDS,
        MACHINE_CONTEXT_BYTES == WORD_BYTES * MACHINE_CONTEXT_WORDS,
        machine_context_image(f)[(FRAME_RA_OFFSET / WORD_BYTES) as int] == f.ra,
        machine_context_image(f)[(FRAME_GP_OFFSET / WORD_BYTES) as int] == f.gp,
        machine_context_image(f)[(FRAME_TP_OFFSET / WORD_BYTES) as int] == f.tp,
        machine_context_image(f)[(FRAME_S0_OFFSET / WORD_BYTES) as int] == f.s0,
        machine_context_image(f)[(FRAME_S1_OFFSET / WORD_BYTES) as int] == f.s1,
        machine_context_image(f)[(FRAME_S2_OFFSET / WORD_BYTES) as int] == f.s2,
        machine_context_image(f)[(FRAME_S3_OFFSET / WORD_BYTES) as int] == f.s3,
        machine_context_image(f)[(FRAME_S4_OFFSET / WORD_BYTES) as int] == f.s4,
        machine_context_image(f)[(FRAME_S5_OFFSET / WORD_BYTES) as int] == f.s5,
        machine_context_image(f)[(FRAME_S6_OFFSET / WORD_BYTES) as int] == f.s6,
        machine_context_image(f)[(FRAME_S7_OFFSET / WORD_BYTES) as int] == f.s7,
        machine_context_image(f)[(FRAME_S8_OFFSET / WORD_BYTES) as int] == f.s8,
        machine_context_image(f)[(FRAME_S9_OFFSET / WORD_BYTES) as int] == f.s9,
        machine_context_image(f)[(FRAME_S10_OFFSET / WORD_BYTES) as int] == f.s10,
        machine_context_image(f)[(FRAME_S11_OFFSET / WORD_BYTES) as int] == f.s11,
        machine_context_of_image(machine_context_image(f)) == f,
{
}

} // verus!
