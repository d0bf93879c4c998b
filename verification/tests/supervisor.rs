use supervisor::context::{
    machine_context_load, machine_context_store, supervisor_context_load,
    supervisor_context_store, MachineContext, SupervisorContext, A0_OFFSET, A1_OFFSET,
    FRAME_RA_OFFSET, FRAME_S11_OFFSET, FRAME_TP_OFFSET, MACHINE_CONTEXT_BYTES,
    MACHINE_CONTEXT_WORDS, MACHINE_SP_OFFSET, MEPC_OFFSET, MSTATUS_OFFSET, RA_OFFSET, SP_OFFSET,
    SUPERVISOR_CONTEXT_BYTES, SUPERVISOR_CONTEXT_WORDS, T6_OFFSET, WORD_BYTES,
};
use supervisor::hart::{
    machine_status_for_entry, Hart, Operation, MSTATUS_MPIE, MSTATUS_MPP_MASK,
    MSTATUS_MPP_SUPERVISOR,
};
use supervisor::transition::{
    enter_supervisor, return_to_machine, MachineState, PrivilegeMode, RegisterFile,
};

/// A context whose every register holds a distinct, recognizable value.
fn distinct_context() -> SupervisorContext {
    let mut c = SupervisorContext::zeroed();
    c.ra = 0x0101;
    c.sp = 0x0202;
    c.gp = 0x0303;
    c.tp = 0x0404;
    c.t0 = 0x0505;
    c.t1 = 0x0606;
    c.t2 = 0x0707;
    c.s0 = 0x0808;
    c.s1 = 0x0909;
    c.a0 = 0x0a0a;
    c.a1 = 0x0b0b;
    c.a2 = 0x0c0c;
    c.a3 = 0x0d0d;
    c.a4 = 0x0e0e;
    c.a5 = 0x0f0f;
    c.a6 = 0x1010;
    c.a7 = 0x1111;
    c.s2 = 0x1212;
    c.s3 = 0x1313;
    c.s4 = 0x1414;
    c.s5 = 0x1515;
    c.s6 = 0x1616;
    c.s7 = 0x1717;
    c.s8 = 0x1818;
    c.s9 = 0x1919;
    c.s10 = 0x1a1a;
    c.s11 = 0x1b1b;
    c.t3 = 0x1c1c;
    c.t4 = 0x1d1d;
    c.t5 = 0x1e1e;
    c.t6 = 0x1f1f;
    c.mstatus = 0x880;
    c.mepc = 0x8020_0000;
    c
}

#[test]
fn hart_new_boot_scenario() {
    let h = Hart::new(0, 0x1000_0000, 0x8020_0000);
    assert_eq!(h.context.mepc, 0x8020_0000);
    assert_eq!(h.context.a0, 0);
    assert_eq!(h.context.a1, 0x1000_0000);
    assert_eq!(h.context.mstatus & MSTATUS_MPP_MASK, MSTATUS_MPP_SUPERVISOR);
    assert_eq!(h.context.mstatus & MSTATUS_MPIE, MSTATUS_MPIE);
    // Every other register starts clear.
    assert_eq!(h.context.ra, 0);
    assert_eq!(h.context.sp, 0);
    assert_eq!(h.context.a2, 0);
    assert_eq!(h.context.machine_sp, 0);
}

#[test]
fn entry_status_forces_privileged_bits_only() {
    // Previous privilege forced from machine (0b11) down to supervisor, the
    // interrupt-enable bit forced on, every unrelated bit preserved.
    let dirty: usize = 0x0000_0000_000a_1802;
    let r = machine_status_for_entry(dirty);
    assert_eq!(r & MSTATUS_MPP_MASK, MSTATUS_MPP_SUPERVISOR);
    assert_eq!(r & MSTATUS_MPIE, MSTATUS_MPIE);
    assert_eq!(
        r & !(MSTATUS_MPP_MASK | MSTATUS_MPIE),
        dirty & !(MSTATUS_MPP_MASK | MSTATUS_MPIE)
    );
    assert_eq!(machine_status_for_entry(0), 0x880);
}

#[test]
fn round_trip_reproduces_every_register() {
    let original = distinct_context();
    let mut ctx = original;
    let mut state = MachineState::boot(0x9000);

    enter_supervisor(&mut state, &mut ctx);
    assert!(matches!(state.mode, PrivilegeMode::Supervisor));
    // The guest traps at once, touching nothing; the hardware captured the
    // entry status and address.
    return_to_machine(&mut state, &mut ctx);
    assert!(matches!(state.mode, PrivilegeMode::Machine));

    assert_eq!(ctx.ra, original.ra);
    assert_eq!(ctx.sp, original.sp);
    assert_eq!(ctx.gp, original.gp);
    assert_eq!(ctx.tp, original.tp);
    assert_eq!(ctx.t0, original.t0);
    assert_eq!(ctx.t1, original.t1);
    assert_eq!(ctx.t2, original.t2);
    assert_eq!(ctx.s0, original.s0);
    assert_eq!(ctx.s1, original.s1);
    assert_eq!(ctx.a0, original.a0);
    assert_eq!(ctx.a1, original.a1);
    assert_eq!(ctx.a2, original.a2);
    assert_eq!(ctx.a3, original.a3);
    assert_eq!(ctx.a4, original.a4);
    assert_eq!(ctx.a5, original.a5);
    assert_eq!(ctx.a6, original.a6);
    assert_eq!(ctx.a7, original.a7);
    assert_eq!(ctx.s2, original.s2);
    assert_eq!(ctx.s3, original.s3);
    assert_eq!(ctx.s4, original.s4);
    assert_eq!(ctx.s5, original.s5);
    assert_eq!(ctx.s6, original.s6);
    assert_eq!(ctx.s7, original.s7);
    assert_eq!(ctx.s8, original.s8);
    assert_eq!(ctx.s9, original.s9);
    assert_eq!(ctx.s10, original.s10);
    assert_eq!(ctx.s11, original.s11);
    assert_eq!(ctx.t3, original.t3);
    assert_eq!(ctx.t4, original.t4);
    assert_eq!(ctx.t5, original.t5);
    assert_eq!(ctx.t6, original.t6);
    assert_eq!(ctx.mstatus, original.mstatus);
    assert_eq!(ctx.mepc, original.mepc);
    assert_eq!(ctx.machine_sp, 0x9000 - MACHINE_CONTEXT_BYTES);
}

#[test]
fn entry_saves_machine_callee_saved_frame() {
    let mut ctx = distinct_context();
    let mut state = MachineState::boot(0x9000);
    state.regs.ra = 0xdead_0001;
    state.regs.gp = 0xdead_0002;
    state.regs.tp = 0xdead_0003;
    state.regs.s0 = 0xdead_0004;
    state.regs.s11 = 0xdead_000f;

    enter_supervisor(&mut state, &mut ctx);

    assert_eq!(state.frames.len(), 1);
    let frame: &MachineContext = &state.frames[0];
    assert_eq!(frame.ra, 0xdead_0001);
    assert_eq!(frame.gp, 0xdead_0002);
    assert_eq!(frame.tp, 0xdead_0003);
    assert_eq!(frame.s0, 0xdead_0004);
    assert_eq!(frame.s11, 0xdead_000f);
    // The guest now holds exactly the context's register file.
    assert_eq!(state.regs.ra, ctx.ra);
    assert_eq!(state.regs.sp, ctx.sp);
    assert_eq!(state.regs.a0, ctx.a0);
    assert_eq!(state.mstatus, ctx.mstatus);
    assert_eq!(state.mepc, ctx.mepc);

    return_to_machine(&mut state, &mut ctx);
    // The machine call site got its callee-saved registers and return
    // address back, and the frame is gone.
    assert_eq!(state.frames.len(), 0);
    assert_eq!(state.regs.ra, 0xdead_0001);
    assert_eq!(state.regs.gp, 0xdead_0002);
    assert_eq!(state.regs.tp, 0xdead_0003);
    assert_eq!(state.regs.s0, 0xdead_0004);
    assert_eq!(state.regs.s11, 0xdead_000f);
    assert_eq!(state.regs.sp, 0x9000);
}

#[test]
fn illegal_instruction_trap_and_resume() {
    // The guest starts at its entry point, runs to 0x8020_0010 and faults on
    // an illegal instruction there; dispatch advances mepc past it.
    let h = Hart::new(0, 0, 0x8020_0000);
    let mut ctx = h.context;
    let mut state = MachineState::boot(0x9000);

    enter_supervisor(&mut state, &mut ctx);
    assert_eq!(state.mepc, 0x8020_0000);
    // The guest computes something, then the trap hardware captures the
    // faulting address.
    state.regs.a0 = 77;
    state.mepc = 0x8020_0010;
    return_to_machine(&mut state, &mut ctx);
    assert_eq!(ctx.mepc, 0x8020_0010);
    assert_eq!(ctx.a0, 77);

    // Dispatch logic advances past the four-byte trapping instruction and
    // resumes; the guest continues at the following instruction.
    ctx.mepc += 4;
    enter_supervisor(&mut state, &mut ctx);
    assert_eq!(state.mepc, 0x8020_0014);
    assert_eq!(state.regs.a0, 77);
}

#[test]
fn field_isolation_a0_a1_only() {
    let mut ctx = distinct_context();
    let mut state = MachineState::boot(0x9000);

    enter_supervisor(&mut state, &mut ctx);
    // The guest leaves its own marks, then traps.
    state.regs.t3 = 0xfeed_0001;
    state.regs.s5 = 0xfeed_0002;
    state.mepc = 0x8020_0040;
    return_to_machine(&mut state, &mut ctx);

    // Dispatch writes a call's return values into a0/a1 and nothing else.
    ctx.a0 = 0xaaaa;
    ctx.a1 = 0xbbbb;
    enter_supervisor(&mut state, &mut ctx);

    assert_eq!(state.regs.a0, 0xaaaa);
    assert_eq!(state.regs.a1, 0xbbbb);
    // Every other register is as the guest last set it.
    assert_eq!(state.regs.t3, 0xfeed_0001);
    assert_eq!(state.regs.s5, 0xfeed_0002);
    assert_eq!(state.regs.ra, 0x0101);
    assert_eq!(state.regs.sp, 0x0202);
    assert_eq!(state.regs.a2, 0x0c0c);
    assert_eq!(state.mepc, 0x8020_0040);
}

#[test]
fn reentry_is_deterministic() {
    // The same saved context, resumed from two quite different machine-mode
    // call sites, puts the guest in exactly the same state; the same guest
    // sequence then produces the same saved snapshot both times.
    let saved = distinct_context();

    let mut ctx_a = saved;
    let mut state_a = MachineState::boot(0x9000);
    let mut ctx_b = saved;
    let mut state_b = MachineState::boot(0x4000);
    state_b.regs.s0 = 0x1234_5678;
    state_b.regs.ra = 0x9abc_def0;

    enter_supervisor(&mut state_a, &mut ctx_a);
    enter_supervisor(&mut state_b, &mut ctx_b);
    assert_eq!(state_a.regs, state_b.regs);
    assert_eq!(state_a.mstatus, state_b.mstatus);
    assert_eq!(state_a.mepc, state_b.mepc);

    // Identical guest sequence on both harts, trapping at the same address.
    state_a.regs.a3 = 9;
    state_a.mepc = 0x8020_0020;
    state_b.regs.a3 = 9;
    state_b.mepc = 0x8020_0020;
    return_to_machine(&mut state_a, &mut ctx_a);
    return_to_machine(&mut state_b, &mut ctx_b);

    // The two snapshots agree on everything but the machine stack slot,
    // which belongs to each call site.
    let mut b_like_a = ctx_b;
    b_like_a.machine_sp = ctx_a.machine_sp;
    assert_eq!(ctx_a, b_like_a);
}

#[test]
fn stack_discipline_over_many_cycles() {
    let mut ctx = distinct_context();
    let mut state = MachineState::boot(0x9000);
    state.regs.s3 = 0xcafe;
    state.regs.ra = 0xf00d;

    for round in 0..5usize {
        enter_supervisor(&mut state, &mut ctx);
        state.mepc = 0x8020_0000 + 4 * round;
        return_to_machine(&mut state, &mut ctx);
        // After every paired crossing the machine stack pointer is back
        // where it started and no frame has leaked.
        assert_eq!(state.regs.sp, 0x9000);
        assert_eq!(state.frames.len(), 0);
        assert_eq!(state.regs.s3, 0xcafe);
        assert_eq!(state.regs.ra, 0xf00d);
    }
}

#[test]
fn context_image_round_trip_and_offsets() {
    let c = distinct_context();
    let image = supervisor_context_store(&c);
    assert_eq!(image.len(), SUPERVISOR_CONTEXT_WORDS);
    assert_eq!(SUPERVISOR_CONTEXT_BYTES, WORD_BYTES * SUPERVISOR_CONTEXT_WORDS);
    assert_eq!(MACHINE_CONTEXT_BYTES, WORD_BYTES * MACHINE_CONTEXT_WORDS);
    // Each field stands at its published byte offset.
    assert_eq!(image[MACHINE_SP_OFFSET / WORD_BYTES], c.machine_sp);
    assert_eq!(image[RA_OFFSET / WORD_BYTES], c.ra);
    assert_eq!(image[SP_OFFSET / WORD_BYTES], c.sp);
    assert_eq!(image[A0_OFFSET / WORD_BYTES], c.a0);
    assert_eq!(image[A1_OFFSET / WORD_BYTES], c.a1);
    assert_eq!(image[T6_OFFSET / WORD_BYTES], c.t6);
    assert_eq!(image[MSTATUS_OFFSET / WORD_BYTES], c.mstatus);
    assert_eq!(image[MEPC_OFFSET / WORD_BYTES], c.mepc);
    // Decoding the image at those offsets reproduces the context exactly.
    let back = supervisor_context_load(&image);
    assert_eq!(back, c);
}

#[test]
fn context_load_reads_offsets_not_order() {
    // A handwritten image decodes field by field at the published offsets.
    let mut image = vec![0usize; SUPERVISOR_CONTEXT_WORDS];
    image[MEPC_OFFSET / WORD_BYTES] = 0x8020_0000;
    image[A0_OFFSET / WORD_BYTES] = 7;
    image[MACHINE_SP_OFFSET / WORD_BYTES] = 0x8000;
    let c = supervisor_context_load(&image);
    assert_eq!(c.mepc, 0x8020_0000);
    assert_eq!(c.a0, 7);
    assert_eq!(c.machine_sp, 0x8000);
    assert_eq!(c.ra, 0);
}

#[test]
fn machine_frame_image_round_trip_and_offsets() {
    let f = MachineContext {
        ra: 0x2101,
        gp: 0x2202,
        tp: 0x2303,
        s0: 0x2404,
        s1: 0x2505,
        s2: 0x2606,
        s3: 0x2707,
        s4: 0x2808,
        s5: 0x2909,
        s6: 0x2a0a,
        s7: 0x2b0b,
        s8: 0x2c0c,
        s9: 0x2d0d,
        s10: 0x2e0e,
        s11: 0x2f0f,
    };
    let image = machine_context_store(&f);
    assert_eq!(image.len(), MACHINE_CONTEXT_WORDS);
    assert_eq!(image[FRAME_RA_OFFSET / WORD_BYTES], f.ra);
    assert_eq!(image[FRAME_TP_OFFSET / WORD_BYTES], f.tp);
    assert_eq!(image[FRAME_S11_OFFSET / WORD_BYTES], f.s11);
    let back = machine_context_load(&image);
    assert_eq!(back, f);
}

#[test]
fn default_context_is_zeroed() {
    let d = SupervisorContext::default();
    assert_eq!(d, SupervisorContext::zeroed());
    assert_eq!(d.machine_sp, 0);
    assert_eq!(d.mstatus, 0);
    assert_eq!(d.mepc, 0);
    assert_eq!(d.a7, 0);
    let r = RegisterFile::zeroed();
    assert_eq!(r.sp, 0);
    assert_eq!(r.t6, 0);
}

#[test]
fn operation_is_a_closed_pair() {
    let stop = Operation::Stop;
    let reset = Operation::SystemReset;
    assert_ne!(stop, reset);
    assert_eq!(stop, Operation::Stop);
    assert_eq!(reset.clone(), Operation::SystemReset);
    assert!(matches!(stop, Operation::Stop | Operation::SystemReset));
}
