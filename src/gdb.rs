//! Register numbering of the GDB remote protocol for 32-bit Arm Cortex-M.
use vstd::prelude::*;

verus! {

/// A 32-bit Arm core register, as GDB numbers them.
#[derive(PartialEq, Eq, Structural, Clone, Copy, Debug)]
pub enum ArmCortexMRegId {
    /// General purpose registers r0 to r12.
    Gpr(u8),
    /// Stack pointer (r13).
    Sp,
    /// Link register (r14).
    Lr,
    /// Program counter (r15).
    Pc,
}

impl ArmCortexMRegId {
    /// The register with GDB number `id` and its size in bytes; `None` for
    /// a number beyond the core registers.
    pub fn from_raw_id(id: usize) -> (r: Option<(ArmCortexMRegId, usize)>)
        ensures
            id <= 12 ==> r == Some((ArmCortexMRegId::Gpr(id as u8), 4usize)),
            id == 13 ==> r == Some((ArmCortexMRegId::Sp, 4usize)),
            id == 14 ==> r == Some((ArmCortexMRegId::Lr, 4usize)),
            id == 15 ==> r == Some((ArmCortexMRegId::Pc, 4usize)),
            id > 15 ==> r is None,
    {
        let reg = if id <= 12 {
            ArmCortexMRegId::Gpr(id as u8)
        } else if id == 13 {
            ArmCortexMRegId::Sp
        } else if id == 14 {
            ArmCortexMRegId::Lr
        } else if id == 15 {
            ArmCortexMRegId::Pc
        } else {
            return None;
        };
        Some((reg, 4))
    }
}

} // verus!
