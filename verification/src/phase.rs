use vstd::prelude::*;

verus! {

/// The internal phases of the CPU that tell micro-operations apart.
#[derive(Clone, Copy, PartialEq, Eq, Structural, Debug)]
pub enum Phase {
    /// Fetch the opcode.
    FetchOpcode,
    /// Fetch the low byte of an address.
    FetchAddrLo,
    /// Fetch the high byte of an address.
    FetchAddrHi,
    /// Fetch an immediate operand.
    FetchImmediate,
    /// Fetch a zero-page address.
    FetchZeroPage,
    /// Fetch a relative branch offset.
    FetchOffset,
    /// Effective address, zero page.
    EAZeroPage,
    /// Effective address, zero page plus X.
    EAZeroPageX,
    /// Effective address, zero page plus Y.
    EAZeroPageY,
    /// Effective address, absolute.
    EAAbsolute,
    /// Effective address, absolute plus X.
    EAAbsoluteX,
    /// Effective address, absolute plus Y.
    EAAbsoluteY,
    /// Effective address of `JMP ($xxxx)`.
    EAIndirect,
    /// Effective address, `(zp,X)`.
    EAIndirectX,
    /// Effective address, `(zp),Y`.
    EAIndirectY,
    /// Dummy read for a page crossing.
    EACrossPageDummy,
    /// Add the X or Y index.
    EAAddIndex,
    /// General execution (ALU, load, store).
    Execute,
    /// First read of a read-modify-write.
    RMWRead,
    /// Modification of a read-modify-write.
    RMWAlu,
    /// First write-back of a read-modify-write.
    RMWWrite,
    /// Final write-back, where needed.
    RMWWriteFinal,
    /// Push the low byte of PC.
    PushPCL,
    /// Push the high byte of PC.
    PushPCH,
    /// Push P.
    PushP,
    /// Pull the low byte of PC.
    PullPCL,
    /// Pull the high byte of PC.
    PullPCH,
    /// Pull P.
    PullP,
    /// Check the branch condition.
    BranchCheck,
    /// Add the relative offset.
    BranchAddOffset,
    /// Correct the page after a crossing.
    BranchFixPage,
    /// Push PCH, PCL and P for an interrupt.
    InterruptPushSeq,
    /// Pull P, PCL and PCH when returning from an interrupt.
    ReturnFromInterrupt,
    /// A stall cycle.
    StallCycle,
    /// No operation.
    Nop,
}

} // verus!
