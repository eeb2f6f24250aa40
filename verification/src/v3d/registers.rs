//! Offsets of the V3D memory-mapped registers.
//!
//! The register block sits at a fixed physical offset from the SoC
//! peripheral base; each constant here is a byte offset into that block.
//! The set is closed: driving the pipeline only ever touches these.

use vstd::prelude::*;

verus! {

/// Namespace for the V3D register offsets.
pub struct V3DRegisters;

impl V3DRegisters {
    /// V3D Identification 0 (V3D block identity).
    pub const IDENT0: u32 = 0x000;

    /// V3D Identification 1 (V3D Configuration A).
    pub const IDENT1: u32 = 0x004;

    /// V3D Identification 2 (V3D Configuration B).
    pub const IDENT2: u32 = 0x008;

    /// Scratch Register.
    pub const SCRATCH: u32 = 0x010;

    /// L2 Cache Control.
    pub const L2_CACHE_CTRL: u32 = 0x020;

    /// Slices Cache Control.
    pub const SLICE_CACHE_CTRL: u32 = 0x024;

    /// Interrupt Control.
    pub const INTERRUPT_CTRL: u32 = 0x030;

    /// Interrupt Enables.
    pub const INTERRUPT_ENABLE: u32 = 0x034;

    /// Interrupt Disables.
    pub const INTERRUPT_DISABLE: u32 = 0x038;

    /// Control List Executor Thread 0 Control and Status.
    pub const CONTROL_LIST0_CS: u32 = 0x100;

    /// Control List Executor Thread 1 Control and Status.
    pub const CONTROL_LIST1_CS: u32 = 0x104;

    /// Control List Executor Thread 0 End Address.
    pub const CONTROL_LIST0_EA: u32 = 0x108;

    /// Control List Executor Thread 1 End Address.
    pub const CONTROL_LIST1_EA: u32 = 0x10c;

    /// Control List Executor Thread 0 Current Address.
    pub const CONTROL_LIST0_CA: u32 = 0x110;

    /// Control List Executor Thread 1 Current Address.
    pub const CONTROL_LIST1_CA: u32 = 0x114;

    /// Control List Executor Thread 0 Return Address.
    pub const CONTROL_LIST0_RA0: u32 = 0x118;

    /// Control List Executor Thread 1 Return Address.
    pub const CONTROL_LIST1_RA0: u32 = 0x11c;

    /// Control List Executor Thread 0 List Counter.
    pub const CONTROL_LIST0_LC: u32 = 0x120;

    /// Control List Executor Thread 1 List Counter.
    pub const CONTROL_LIST1_LC: u32 = 0x124;

    /// Control List Executor Thread 0 Primitive List Counter.
    pub const CONTROL_LIST0_PC: u32 = 0x128;

    /// Control List Executor Thread 1 Primitive List Counter.
    pub const CONTROL_LIST1_PC: u32 = 0x12c;

    /// V3D Pipeline Control and Status.
    pub const PIPELINE_CS: u32 = 0x130;

    /// Binning Mode Flush Count.
    pub const BINNING_FLUSH_CNT: u32 = 0x134;

    /// Rendering Mode Frame Count.
    pub const RENDER_FRAME_CNT: u32 = 0x138;

    /// Current Address of Binning Memory Pool.
    pub const BINNING_MEM_POOL: u32 = 0x300;

    /// Remaining Size of Binning Memory Pool.
    pub const FREE_BINNING_MEM_POOL: u32 = 0x304;

    /// Address of Overspill Binning Memory Block.
    pub const BINNING_OVERSPILL: u32 = 0x308;

    /// Size of Overspill Binning Memory Block.
    pub const BINNING_OVERSPILL_SIZE: u32 = 0x30c;

    /// Binner Debug.
    pub const BINNER_DEBUG: u32 = 0x310;

    /// Reserve QPUs 0-7.
    pub const RESERVE_QPU_BANK0: u32 = 0x410;

    /// Reserve QPUs 8-15.
    pub const RESERVE_QPU_BANK1: u32 = 0x414;

    /// QPU Scheduler Control.
    pub const QPU_SCHED_CTRL: u32 = 0x418;

    /// QPU User Program Request Program Address.
    pub const QPU_USER_PROG_REQ_PROG_ADDR: u32 = 0x430;

    /// QPU User Program Request Uniforms Address.
    pub const QPU_USER_PROG_REQ_UNIFORMS_ADDR: u32 = 0x434;

    /// QPU User Program Request Uniforms Length.
    pub const QPU_USER_PROG_REQ_UNIFORMS_LEN: u32 = 0x438;

    /// QPU User Program Request Control and Status.
    pub const QPU_USER_PROG_REQ_CS: u32 = 0x43c;

    /// VPM Allocator Control.
    pub const VPM_ALLOC_CTRL: u32 = 0x500;

    /// VPM base (user) memory reservation.
    pub const VPM_BASE: u32 = 0x504;

    /// Performance Counter Clear.
    pub const PERF_CNTR_CLR: u32 = 0x670;

    /// Performance Counter Enables.
    pub const PERF_CNTR_ENABLE: u32 = 0x674;

    /// Performance Counter Count 0.
    pub const PERF_CNTR_CNT0: u32 = 0x680;

    /// Performance Counter Mapping 0.
    pub const PERF_CNTR_MAP0: u32 = 0x684;

    /// Performance Counter Count 1.
    pub const PERF_CNTR_CNT1: u32 = 0x688;

    /// Performance Counter Mapping 1.
    pub const PERF_CNTR_MAP1: u32 = 0x68c;

    /// Performance Counter Count 2.
    pub const PERF_CNTR_CNT2: u32 = 0x690;

    /// Performance Counter Mapping 2.
    pub const PERF_CNTR_MAP2: u32 = 0x694;

    /// Performance Counter Count 3.
    pub const PERF_CNTR_CNT3: u32 = 0x698;

    /// Performance Counter Mapping 3.
    pub const PERF_CNTR_MAP3: u32 = 0x69c;

    /// PSE Error Signals.
    pub const PSE_ERRORS: u32 = 0xf00;

    /// FEP Overrun Error Signals.
    pub const FEP_OVERRUN_ERRORS: u32 = 0xf04;

    /// FEP Interface Ready and Stall Signals; FEP Busy Signals.
    pub const FEP_INTERFACE_STATUS: u32 = 0xf08;

    /// FEP Internal Ready Signals.
    pub const FEP_INTERNAL_READY_SIGNALS: u32 = 0xf0c;

    /// FEP Internal Stall Input Signals.
    pub const FEP_INTERNAL_STALL_SIGNALS: u32 = 0xf10;

    /// Miscellaneous Error Signals (VPM, VDW, VCD, VCM, L2C).
    pub const MISC_ERRORS: u32 = 0xf20;
}

} // verus!
