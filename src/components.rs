//! Which proving backend serves each stage of the pipeline. The pairing of a
//! stage's proof-system configuration with its constraint system is checked
//! by the type system when a bundle of components is declared.

use vstd::prelude::*;

verus! {

/// The proof-system configuration of the core (base) stage.
#[derive(Clone, Copy, Debug, PartialEq, Eq)]
pub struct CoreSC;

/// The proof-system configuration of the recursive stages.
#[derive(Clone, Copy, Debug, PartialEq, Eq)]
pub struct InnerSC;

/// The constraint system of program execution.
#[derive(Clone, Copy, Debug, PartialEq, Eq)]
pub struct RiscvAir;

/// The constraint system of recursive compression.
#[derive(Clone, Copy, Debug, PartialEq, Eq)]
pub struct CompressAir;

/// The constraint system of shrinking.
#[derive(Clone, Copy, Debug, PartialEq, Eq)]
pub struct ShrinkAir;

/// A proving backend able to prove the constraint system `A` under the
/// configuration `SC`. The proving and verifying themselves belong to the
/// backend.
pub trait MachineProver<SC, A> {}

/// The reference backend, proving on the CPU.
#[derive(Clone, Copy, Debug, PartialEq, Eq)]
pub struct CpuProver<SC, A> {
    pub config: SC,
    pub air: A,
}

impl<SC, A> MachineProver<SC, A> for CpuProver<SC, A> {}

/// One proving backend per stage. A bundle whose backend does not support
/// its stage's configuration and constraint system does not compile.
pub trait SP1ProverComponents: Send + Sync {
    /// The prover for core proofs.
    type CoreProver: MachineProver<CoreSC, RiscvAir> + Send + Sync;

    /// The prover for recursive (compress) proofs.
    type CompressProver: MachineProver<InnerSC, CompressAir> + Send + Sync;

    /// The prover for shrinking compressed proofs.
    type ShrinkProver: MachineProver<InnerSC, ShrinkAir> + Send + Sync;
}

/// The default bundle: the CPU backend for every stage.
#[derive(Clone, Copy, Debug, PartialEq, Eq)]
pub struct DefaultProverComponents;

impl SP1ProverComponents for DefaultProverComponents {
    type CoreProver = CpuProver<CoreSC, RiscvAir>;
    type CompressProver = CpuProver<InnerSC, CompressAir>;
    type ShrinkProver = CpuProver<InnerSC, ShrinkAir>;
}

} // verus!
