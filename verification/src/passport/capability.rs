//! Capabilities a passport grants, and sets of them.

use vstd::prelude::*;

verus! {

/// A permission carried by a value's passport.
#[derive(Debug, Clone, Copy, PartialEq, Eq, Structural, PartialOrd, Ord, Hash)]
pub enum Capability {
    CanAddAsNat,
    CanPrintDecimal,
    CanSymbolicPrint,
    CanCompareDirect,
    CanCompareByProof,
    CanComputeModular,
    CanInspectAst,
    CanCompareSyntax,
    CanParse,
    CanRuntimeCompare,
    CanCardinalArithmetic,
    CanOrdinalArithmetic,
    CanLimitReason,
    CanUniverseLevel,
    CanFormSet,
    CanFormClass,
    CanLiftUniverse,
    CanClassReason,
    CanSetReason,
    CanDefineInLanguage,
    CanUseEncoding,
    CanMetaLevelReason,
    CanDefinabilityReason,
    CanExtractDefinabilityBound,
    CanExtractDefinabilityMeta,
    CanBigNumberReason,
    CanExtractGrowthClass,
    CanProofKernelCheck,
    CanPropositionReason,
    CanProvabilityReason,
    CanTruthBoundaryReason,
    CanExtractProvabilityTheory,
    CanConsistencyReason,
    CanIncompletenessReason,
    CanHostRuntime,
    CanAcceptMigration,
    CanMigrateOut,
    CanSerializeForMigration,
    CanRemoteSymbolicPrint,
    CanCheckpointRemote,
    CanRestoreRemoteCheckpoint,
    CanLiveMigrateRemote,
    CanMaterializeRemote,
    CanCompilePortableCode,
    CanDeployPortableCode,
    CanCrossArchPortable,
    CanVirtualizeCores,
    CanVirtualizeMemory,
    CanScheduleRuntime,
    CanAllocateDistributedMemory,
    CanUseDistributedMemory,
    CanCheckpointMemory,
    CanRestoreCheckpoint,
    CanHostGpuRuntime,
    CanAllocateGpuMemory,
    CanUseGpuMemory,
    CanCheckpointGpuMemory,
    CanLaunchGpuKernel,
    CanCompileGpuKernel,
    CanCopyCpuToGpu,
    CanCopyGpuToCpu,
    CanGpuPeerTransfer,
    CanGpuUnifiedAddressing,
    RequiresOracle,
}

impl Capability {
    /// Position in declaration order; also the bit that stands for it in a `CapabilitySet`.
    pub open spec fn spec_index(self) -> u64 {
        match self {
            Capability::CanAddAsNat => 0,
            Capability::CanPrintDecimal => 1,
            Capability::CanSymbolicPrint => 2,
            Capability::CanCompareDirect => 3,
            Capability::CanCompareByProof => 4,
            Capability::CanComputeModular => 5,
            Capability::CanInspectAst => 6,
            Capability::CanCompareSyntax => 7,
            Capability::CanParse => 8,
            Capability::CanRuntimeCompare => 9,
            Capability::CanCardinalArithmetic => 10,
            Capability::CanOrdinalArithmetic => 11,
            Capability::CanLimitReason => 12,
            Capability::CanUniverseLevel => 13,
            Capability::CanFormSet => 14,
            Capability::CanFormClass => 15,
            Capability::CanLiftUniverse => 16,
            Capability::CanClassReason => 17,
            Capability::CanSetReason => 18,
            Capability::CanDefineInLanguage => 19,
            Capability::CanUseEncoding => 20,
            Capability::CanMetaLevelReason => 21,
            Capability::CanDefinabilityReason => 22,
            Capability::CanExtractDefinabilityBound => 23,
            Capability::CanExtractDefinabilityMeta => 24,
            Capability::CanBigNumberReason => 25,
            Capability::CanExtractGrowthClass => 26,
            Capability::CanProofKernelCheck => 27,
            Capability::CanPropositionReason => 28,
            Capability::CanProvabilityReason => 29,
            Capability::CanTruthBoundaryReason => 30,
            Capability::CanExtractProvabilityTheory => 31,
            Capability::CanConsistencyReason => 32,
            Capability::CanIncompletenessReason => 33,
            Capability::CanHostRuntime => 34,
            Capability::CanAcceptMigration => 35,
            Capability::CanMigrateOut => 36,
            Capability::CanSerializeForMigration => 37,
            Capability::CanRemoteSymbolicPrint => 38,
            Capability::CanCheckpointRemote => 39,
            Capability::CanRestoreRemoteCheckpoint => 40,
            Capability::CanLiveMigrateRemote => 41,
            Capability::CanMaterializeRemote => 42,
            Capability::CanCompilePortableCode => 43,
            Capability::CanDeployPortableCode => 44,
            Capability::CanCrossArchPortable => 45,
            Capability::CanVirtualizeCores => 46,
            Capability::CanVirtualizeMemory => 47,
            Capability::CanScheduleRuntime => 48,
            Capability::CanAllocateDistributedMemory => 49,
            Capability::CanUseDistributedMemory => 50,
            Capability::CanCheckpointMemory => 51,
            Capability::CanRestoreCheckpoint => 52,
            Capability::CanHostGpuRuntime => 53,
            Capability::CanAllocateGpuMemory => 54,
            Capability::CanUseGpuMemory => 55,
            Capability::CanCheckpointGpuMemory => 56,
            Capability::CanLaunchGpuKernel => 57,
            Capability::CanCompileGpuKernel => 58,
            Capability::CanCopyCpuToGpu => 59,
            Capability::CanCopyGpuToCpu => 60,
            Capability::CanGpuPeerTransfer => 61,
            Capability::CanGpuUnifiedAddressing => 62,
            Capability::RequiresOracle => 63,
        }
    }

    #[verifier::when_used_as_spec(spec_index)]
    pub fn index(self) -> (r: u64)
        ensures
            r == self.spec_index(),
            r < 64,
    {
        match self {
            Capability::CanAddAsNat => 0,
            Capability::CanPrintDecimal => 1,
            Capability::CanSymbolicPrint => 2,
            Capability::CanCompareDirect => 3,
            Capability::CanCompareByProof => 4,
            Capability::CanComputeModular => 5,
            Capability::CanInspectAst => 6,
            Capability::CanCompareSyntax => 7,
            Capability::CanParse => 8,
            Capability::CanRuntimeCompare => 9,
            Capability::CanCardinalArithmetic => 10,
            Capability::CanOrdinalArithmetic => 11,
            Capability::CanLimitReason => 12,
            Capability::CanUniverseLevel => 13,
            Capability::CanFormSet => 14,
            Capability::CanFormClass => 15,
            Capability::CanLiftUniverse => 16,
            Capability::CanClassReason => 17,
            Capability::CanSetReason => 18,
            Capability::CanDefineInLanguage => 19,
            Capability::CanUseEncoding => 20,
            Capability::CanMetaLevelReason => 21,
            Capability::CanDefinabilityReason => 22,
            Capability::CanExtractDefinabilityBound => 23,
            Capability::CanExtractDefinabilityMeta => 24,
            Capability::CanBigNumberReason => 25,
            Capability::CanExtractGrowthClass => 26,
            Capability::CanProofKernelCheck => 27,
            Capability::CanPropositionReason => 28,
            Capability::CanProvabilityReason => 29,
            Capability::CanTruthBoundaryReason => 30,
            Capability::CanExtractProvabilityTheory => 31,
            Capability::CanConsistencyReason => 32,
            Capability::CanIncompletenessReason => 33,
            Capability::CanHostRuntime => 34,
            Capability::CanAcceptMigration => 35,
            Capability::CanMigrateOut => 36,
            Capability::CanSerializeForMigration => 37,
            Capability::CanRemoteSymbolicPrint => 38,
            Capability::CanCheckpointRemote => 39,
            Capability::CanRestoreRemoteCheckpoint => 40,
            Capability::CanLiveMigrateRemote => 41,
            Capability::CanMaterializeRemote => 42,
            Capability::CanCompilePortableCode => 43,
            Capability::CanDeployPortableCode => 44,
            Capability::CanCrossArchPortable => 45,
            Capability::CanVirtualizeCores => 46,
            Capability::CanVirtualizeMemory => 47,
            Capability::CanScheduleRuntime => 48,
            Capability::CanAllocateDistributedMemory => 49,
            Capability::CanUseDistributedMemory => 50,
            Capability::CanCheckpointMemory => 51,
            Capability::CanRestoreCheckpoint => 52,
            Capability::CanHostGpuRuntime => 53,
            Capability::CanAllocateGpuMemory => 54,
            Capability::CanUseGpuMemory => 55,
            Capability::CanCheckpointGpuMemory => 56,
            Capability::CanLaunchGpuKernel => 57,
            Capability::CanCompileGpuKernel => 58,
            Capability::CanCopyCpuToGpu => 59,
            Capability::CanCopyGpuToCpu => 60,
            Capability::CanGpuPeerTransfer => 61,
            Capability::CanGpuUnifiedAddressing => 62,
            Capability::RequiresOracle => 63,
        }
    }

    /// The capability at a given position in declaration order.
    pub open spec fn spec_at(i: u64) -> Capability {
        if i == 0 {
            Capability::CanAddAsNat
        } else if i == 1 {
            Capability::CanPrintDecimal
        } else if i == 2 {
            Capability::CanSymbolicPrint
        } else if i == 3 {
            Capability::CanCompareDirect
        } else if i == 4 {
            Capability::CanCompareByProof
        } else if i == 5 {
            Capability::CanComputeModular
        } else if i == 6 {
            Capability::CanInspectAst
        } else if i == 7 {
            Capability::CanCompareSyntax
        } else if i == 8 {
            Capability::CanParse
        } else if i == 9 {
            Capability::CanRuntimeCompare
        } else if i == 10 {
            Capability::CanCardinalArithmetic
        } else if i == 11 {
            Capability::CanOrdinalArithmetic
        } else if i == 12 {
            Capability::CanLimitReason
        } else if i == 13 {
            Capability::CanUniverseLevel
        } else if i == 14 {
            Capability::CanFormSet
        } else if i == 15 {
            Capability::CanFormClass
        } else if i == 16 {
            Capability::CanLiftUniverse
        } else if i == 17 {
            Capability::CanClassReason
        } else if i == 18 {
            Capability::CanSetReason
        } else if i == 19 {
            Capability::CanDefineInLanguage
        } else if i == 20 {
            Capability::CanUseEncoding
        } else if i == 21 {
            Capability::CanMetaLevelReason
        } else if i == 22 {
            Capability::CanDefinabilityReason
        } else if i == 23 {
            Capability::CanExtractDefinabilityBound
        } else if i == 24 {
            Capability::CanExtractDefinabilityMeta
        } else if i == 25 {
            Capability::CanBigNumberReason
        } else if i == 26 {
            Capability::CanExtractGrowthClass
        } else if i == 27 {
            Capability::CanProofKernelCheck
        } else if i == 28 {
            Capability::CanPropositionReason
        } else if i == 29 {
            Capability::CanProvabilityReason
        } else if i == 30 {
            Capability::CanTruthBoundaryReason
        } else if i == 31 {
            Capability::CanExtractProvabilityTheory
        } else if i == 32 {
            Capability::CanConsistencyReason
        } else if i == 33 {
            Capability::CanIncompletenessReason
        } else if i == 34 {
            Capability::CanHostRuntime
        } else if i == 35 {
            Capability::CanAcceptMigration
        } else if i == 36 {
            Capability::CanMigrateOut
        } else if i == 37 {
            Capability::CanSerializeForMigration
        } else if i == 38 {
            Capability::CanRemoteSymbolicPrint
        } else if i == 39 {
            Capability::CanCheckpointRemote
        } else if i == 40 {
            Capability::CanRestoreRemoteCheckpoint
        } else if i == 41 {
            Capability::CanLiveMigrateRemote
        } else if i == 42 {
            Capability::CanMaterializeRemote
        } else if i == 43 {
            Capability::CanCompilePortableCode
        } else if i == 44 {
            Capability::CanDeployPortableCode
        } else if i == 45 {
            Capability::CanCrossArchPortable
        } else if i == 46 {
            Capability::CanVirtualizeCores
        } else if i == 47 {
            Capability::CanVirtualizeMemory
        } else if i == 48 {
            Capability::CanScheduleRuntime
        } else if i == 49 {
            Capability::CanAllocateDistributedMemory
        } else if i == 50 {
            Capability::CanUseDistributedMemory
        } else if i == 51 {
            Capability::CanCheckpointMemory
        } else if i == 52 {
            Capability::CanRestoreCheckpoint
        } else if i == 53 {
            Capability::CanHostGpuRuntime
        } else if i == 54 {
            Capability::CanAllocateGpuMemory
        } else if i == 55 {
            Capability::CanUseGpuMemory
        } else if i == 56 {
            Capability::CanCheckpointGpuMemory
        } else if i == 57 {
            Capability::CanLaunchGpuKernel
        } else if i == 58 {
            Capability::CanCompileGpuKernel
        } else if i == 59 {
            Capability::CanCopyCpuToGpu
        } else if i == 60 {
            Capability::CanCopyGpuToCpu
        } else if i == 61 {
            Capability::CanGpuPeerTransfer
        } else if i == 62 {
            Capability::CanGpuUnifiedAddressing
        } else {
            Capability::RequiresOracle
        }
    }

    #[verifier::when_used_as_spec(spec_at)]
    pub fn at(i: u64) -> (r: Capability)
        ensures
            r == Capability::spec_at(i),
    {
        if i == 0 {
            Capability::CanAddAsNat
        } else if i == 1 {
            Capability::CanPrintDecimal
        } else if i == 2 {
            Capability::CanSymbolicPrint
        } else if i == 3 {
            Capability::CanCompareDirect
        } else if i == 4 {
            Capability::CanCompareByProof
        } else if i == 5 {
            Capability::CanComputeModular
        } else if i == 6 {
            Capability::CanInspectAst
        } else if i == 7 {
            Capability::CanCompareSyntax
        } else if i == 8 {
            Capability::CanParse
        } else if i == 9 {
            Capability::CanRuntimeCompare
        } else if i == 10 {
            Capability::CanCardinalArithmetic
        } else if i == 11 {
            Capability::CanOrdinalArithmetic
        } else if i == 12 {
            Capability::CanLimitReason
        } else if i == 13 {
            Capability::CanUniverseLevel
        } else if i == 14 {
            Capability::CanFormSet
        } else if i == 15 {
            Capability::CanFormClass
        } else if i == 16 {
            Capability::CanLiftUniverse
        } else if i == 17 {
            Capability::CanClassReason
        } else if i == 18 {
            Capability::CanSetReason
        } else if i == 19 {
            Capability::CanDefineInLanguage
        } else if i == 20 {
            Capability::CanUseEncoding
        } else if i == 21 {
            Capability::CanMetaLevelReason
        } else if i == 22 {
            Capability::CanDefinabilityReason
        } else if i == 23 {
            Capability::CanExtractDefinabilityBound
        } else if i == 24 {
            Capability::CanExtractDefinabilityMeta
        } else if i == 25 {
            Capability::CanBigNumberReason
        } else if i == 26 {
            Capability::CanExtractGrowthClass
        } else if i == 27 {
            Capability::CanProofKernelCheck
        } else if i == 28 {
            Capability::CanPropositionReason
        } else if i == 29 {
            Capability::CanProvabilityReason
        } else if i == 30 {
            Capability::CanTruthBoundaryReason
        } else if i == 31 {
            Capability::CanExtractProvabilityTheory
        } else if i == 32 {
            Capability::CanConsistencyReason
        } else if i == 33 {
            Capability::CanIncompletenessReason
        } else if i == 34 {
            Capability::CanHostRuntime
        } else if i == 35 {
            Capability::CanAcceptMigration
        } else if i == 36 {
            Capability::CanMigrateOut
        } else if i == 37 {
            Capability::CanSerializeForMigration
        } else if i == 38 {
            Capability::CanRemoteSymbolicPrint
        } else if i == 39 {
            Capability::CanCheckpointRemote
        } else if i == 40 {
            Capability::CanRestoreRemoteCheckpoint
        } else if i == 41 {
            Capability::CanLiveMigrateRemote
        } else if i == 42 {
            Capability::CanMaterializeRemote
        } else if i == 43 {
            Capability::CanCompilePortableCode
        } else if i == 44 {
            Capability::CanDeployPortableCode
        } else if i == 45 {
            Capability::CanCrossArchPortable
        } else if i == 46 {
            Capability::CanVirtualizeCores
        } else if i == 47 {
            Capability::CanVirtualizeMemory
        } else if i == 48 {
            Capability::CanScheduleRuntime
        } else if i == 49 {
            Capability::CanAllocateDistributedMemory
        } else if i == 50 {
            Capability::CanUseDistributedMemory
        } else if i == 51 {
            Capability::CanCheckpointMemory
        } else if i == 52 {
            Capability::CanRestoreCheckpoint
        } else if i == 53 {
            Capability::CanHostGpuRuntime
        } else if i == 54 {
            Capability::CanAllocateGpuMemory
        } else if i == 55 {
            Capability::CanUseGpuMemory
        } else if i == 56 {
            Capability::CanCheckpointGpuMemory
        } else if i == 57 {
            Capability::CanLaunchGpuKernel
        } else if i == 58 {
            Capability::CanCompileGpuKernel
        } else if i == 59 {
            Capability::CanCopyCpuToGpu
        } else if i == 60 {
            Capability::CanCopyGpuToCpu
        } else if i == 61 {
            Capability::CanGpuPeerTransfer
        } else if i == 62 {
            Capability::CanGpuUnifiedAddressing
        } else {
            Capability::RequiresOracle
        }
    }

    /// The snake-case name listed by `CapabilitySet::names`.
    pub open spec fn name_text(self) -> Seq<char> {
        match self {
            Capability::CanAddAsNat => "can_add_as_nat"@,
            Capability::CanPrintDecimal => "can_print_decimal"@,
            Capability::CanSymbolicPrint => "can_symbolic_print"@,
            Capability::CanCompareDirect => "can_compare_direct"@,
            Capability::CanCompareByProof => "can_compare_by_proof"@,
            Capability::CanComputeModular => "can_compute_modular"@,
            Capability::CanInspectAst => "can_inspect_ast"@,
            Capability::CanCompareSyntax => "can_compare_syntax"@,
            Capability::CanParse => "can_parse"@,
            Capability::CanRuntimeCompare => "can_runtime_compare"@,
            Capability::CanCardinalArithmetic => "can_cardinal_arithmetic"@,
            Capability::CanOrdinalArithmetic => "can_ordinal_arithmetic"@,
            Capability::CanLimitReason => "can_limit_reason"@,
            Capability::CanUniverseLevel => "can_universe_level"@,
            Capability::CanFormSet => "can_form_set"@,
            Capability::CanFormClass => "can_form_class"@,
            Capability::CanLiftUniverse => "can_lift_universe"@,
            Capability::CanClassReason => "can_class_reason"@,
            Capability::CanSetReason => "can_set_reason"@,
            Capability::CanDefineInLanguage => "can_define_in_language"@,
            Capability::CanUseEncoding => "can_use_encoding"@,
            Capability::CanMetaLevelReason => "can_meta_level_reason"@,
            Capability::CanDefinabilityReason => "can_definability_reason"@,
            Capability::CanExtractDefinabilityBound => "can_extract_definability_bound"@,
            Capability::CanExtractDefinabilityMeta => "can_extract_definability_meta"@,
            Capability::CanBigNumberReason => "can_big_number_reason"@,
            Capability::CanExtractGrowthClass => "can_extract_growth_class"@,
            Capability::CanProofKernelCheck => "can_proof_kernel_check"@,
            Capability::CanPropositionReason => "can_proposition_reason"@,
            Capability::CanProvabilityReason => "can_provability_reason"@,
            Capability::CanTruthBoundaryReason => "can_truth_boundary_reason"@,
            Capability::CanExtractProvabilityTheory => "can_extract_provability_theory"@,
            Capability::CanConsistencyReason => "can_consistency_reason"@,
            Capability::CanIncompletenessReason => "can_incompleteness_reason"@,
            Capability::CanHostRuntime => "can_host_runtime"@,
            Capability::CanAcceptMigration => "can_accept_migration"@,
            Capability::CanMigrateOut => "can_migrate_out"@,
            Capability::CanSerializeForMigration => "can_serialize_for_migration"@,
            Capability::CanRemoteSymbolicPrint => "can_remote_symbolic_print"@,
            Capability::CanCheckpointRemote => "can_checkpoint_remote"@,
            Capability::CanRestoreRemoteCheckpoint => "can_restore_remote_checkpoint"@,
            Capability::CanLiveMigrateRemote => "can_live_migrate_remote"@,
            Capability::CanMaterializeRemote => "can_materialize_remote"@,
            Capability::CanCompilePortableCode => "can_compile_portable_code"@,
            Capability::CanDeployPortableCode => "can_deploy_portable_code"@,
            Capability::CanCrossArchPortable => "can_cross_arch_portable"@,
            Capability::CanVirtualizeCores => "can_virtualize_cores"@,
            Capability::CanVirtualizeMemory => "can_virtualize_memory"@,
            Capability::CanScheduleRuntime => "can_schedule_runtime"@,
            Capability::CanAllocateDistributedMemory => "can_allocate_distributed_memory"@,
            Capability::CanUseDistributedMemory => "can_use_distributed_memory"@,
            Capability::CanCheckpointMemory => "can_checkpoint_memory"@,
            Capability::CanRestoreCheckpoint => "can_restore_checkpoint"@,
            Capability::CanHostGpuRuntime => "can_host_gpu_runtime"@,
            Capability::CanAllocateGpuMemory => "can_allocate_gpu_memory"@,
            Capability::CanUseGpuMemory => "can_use_gpu_memory"@,
            Capability::CanCheckpointGpuMemory => "can_checkpoint_gpu_memory"@,
            Capability::CanLaunchGpuKernel => "can_launch_gpu_kernel"@,
            Capability::CanCompileGpuKernel => "can_compile_gpu_kernel"@,
            Capability::CanCopyCpuToGpu => "can_copy_cpu_to_gpu"@,
            Capability::CanCopyGpuToCpu => "can_copy_gpu_to_cpu"@,
            Capability::CanGpuPeerTransfer => "can_gpu_peer_transfer"@,
            Capability::CanGpuUnifiedAddressing => "can_gpu_unified_addressing"@,
            Capability::RequiresOracle => "requires_oracle"@,
        }
    }

    pub fn name(self) -> (r: &'static str)
        ensures
            r@ == self.name_text(),
    {
        match self {
            Capability::CanAddAsNat => "can_add_as_nat",
            Capability::CanPrintDecimal => "can_print_decimal",
            Capability::CanSymbolicPrint => "can_symbolic_print",
            Capability::CanCompareDirect => "can_compare_direct",
            Capability::CanCompareByProof => "can_compare_by_proof",
            Capability::CanComputeModular => "can_compute_modular",
            Capability::CanInspectAst => "can_inspect_ast",
            Capability::CanCompareSyntax => "can_compare_syntax",
            Capability::CanParse => "can_parse",
            Capability::CanRuntimeCompare => "can_runtime_compare",
            Capability::CanCardinalArithmetic => "can_cardinal_arithmetic",
            Capability::CanOrdinalArithmetic => "can_ordinal_arithmetic",
            Capability::CanLimitReason => "can_limit_reason",
            Capability::CanUniverseLevel => "can_universe_level",
            Capability::CanFormSet => "can_form_set",
            Capability::CanFormClass => "can_form_class",
            Capability::CanLiftUniverse => "can_lift_universe",
            Capability::CanClassReason => "can_class_reason",
            Capability::CanSetReason => "can_set_reason",
            Capability::CanDefineInLanguage => "can_define_in_language",
            Capability::CanUseEncoding => "can_use_encoding",
            Capability::CanMetaLevelReason => "can_meta_level_reason",
            Capability::CanDefinabilityReason => "can_definability_reason",
            Capability::CanExtractDefinabilityBound => "can_extract_definability_bound",
            Capability::CanExtractDefinabilityMeta => "can_extract_definability_meta",
            Capability::CanBigNumberReason => "can_big_number_reason",
            Capability::CanExtractGrowthClass => "can_extract_growth_class",
            Capability::CanProofKernelCheck => "can_proof_kernel_check",
            Capability::CanPropositionReason => "can_proposition_reason",
            Capability::CanProvabilityReason => "can_provability_reason",
            Capability::CanTruthBoundaryReason => "can_truth_boundary_reason",
            Capability::CanExtractProvabilityTheory => "can_extract_provability_theory",
            Capability::CanConsistencyReason => "can_consistency_reason",
            Capability::CanIncompletenessReason => "can_incompleteness_reason",
            Capability::CanHostRuntime => "can_host_runtime",
            Capability::CanAcceptMigration => "can_accept_migration",
            Capability::CanMigrateOut => "can_migrate_out",
            Capability::CanSerializeForMigration => "can_serialize_for_migration",
            Capability::CanRemoteSymbolicPrint => "can_remote_symbolic_print",
            Capability::CanCheckpointRemote => "can_checkpoint_remote",
            Capability::CanRestoreRemoteCheckpoint => "can_restore_remote_checkpoint",
            Capability::CanLiveMigrateRemote => "can_live_migrate_remote",
            Capability::CanMaterializeRemote => "can_materialize_remote",
            Capability::CanCompilePortableCode => "can_compile_portable_code",
            Capability::CanDeployPortableCode => "can_deploy_portable_code",
            Capability::CanCrossArchPortable => "can_cross_arch_portable",
            Capability::CanVirtualizeCores => "can_virtualize_cores",
            Capability::CanVirtualizeMemory => "can_virtualize_memory",
            Capability::CanScheduleRuntime => "can_schedule_runtime",
            Capability::CanAllocateDistributedMemory => "can_allocate_distributed_memory",
            Capability::CanUseDistributedMemory => "can_use_distributed_memory",
            Capability::CanCheckpointMemory => "can_checkpoint_memory",
            Capability::CanRestoreCheckpoint => "can_restore_checkpoint",
            Capability::CanHostGpuRuntime => "can_host_gpu_runtime",
            Capability::CanAllocateGpuMemory => "can_allocate_gpu_memory",
            Capability::CanUseGpuMemory => "can_use_gpu_memory",
            Capability::CanCheckpointGpuMemory => "can_checkpoint_gpu_memory",
            Capability::CanLaunchGpuKernel => "can_launch_gpu_kernel",
            Capability::CanCompileGpuKernel => "can_compile_gpu_kernel",
            Capability::CanCopyCpuToGpu => "can_copy_cpu_to_gpu",
            Capability::CanCopyGpuToCpu => "can_copy_gpu_to_cpu",
            Capability::CanGpuPeerTransfer => "can_gpu_peer_transfer",
            Capability::CanGpuUnifiedAddressing => "can_gpu_unified_addressing",
            Capability::RequiresOracle => "requires_oracle",
        }
    }

    /// The `Debug` name of the variant.
    pub open spec fn debug_text(self) -> Seq<char> {
        match self {
            Capability::CanAddAsNat => "CanAddAsNat"@,
            Capability::CanPrintDecimal => "CanPrintDecimal"@,
            Capability::CanSymbolicPrint => "CanSymbolicPrint"@,
            Capability::CanCompareDirect => "CanCompareDirect"@,
            Capability::CanCompareByProof => "CanCompareByProof"@,
            Capability::CanComputeModular => "CanComputeModular"@,
            Capability::CanInspectAst => "CanInspectAst"@,
            Capability::CanCompareSyntax => "CanCompareSyntax"@,
            Capability::CanParse => "CanParse"@,
            Capability::CanRuntimeCompare => "CanRuntimeCompare"@,
            Capability::CanCardinalArithmetic => "CanCardinalArithmetic"@,
            Capability::CanOrdinalArithmetic => "CanOrdinalArithmetic"@,
            Capability::CanLimitReason => "CanLimitReason"@,
            Capability::CanUniverseLevel => "CanUniverseLevel"@,
            Capability::CanFormSet => "CanFormSet"@,
            Capability::CanFormClass => "CanFormClass"@,
            Capability::CanLiftUniverse => "CanLiftUniverse"@,
            Capability::CanClassReason => "CanClassReason"@,
            Capability::CanSetReason => "CanSetReason"@,
            Capability::CanDefineInLanguage => "CanDefineInLanguage"@,
            Capability::CanUseEncoding => "CanUseEncoding"@,
            Capability::CanMetaLevelReason => "CanMetaLevelReason"@,
            Capability::CanDefinabilityReason => "CanDefinabilityReason"@,
            Capability::CanExtractDefinabilityBound => "CanExtractDefinabilityBound"@,
            Capability::CanExtractDefinabilityMeta => "CanExtractDefinabilityMeta"@,
            Capability::CanBigNumberReason => "CanBigNumberReason"@,
            Capability::CanExtractGrowthClass => "CanExtractGrowthClass"@,
            Capability::CanProofKernelCheck => "CanProofKernelCheck"@,
            Capability::CanPropositionReason => "CanPropositionReason"@,
            Capability::CanProvabilityReason => "CanProvabilityReason"@,
            Capability::CanTruthBoundaryReason => "CanTruthBoundaryReason"@,
            Capability::CanExtractProvabilityTheory => "CanExtractProvabilityTheory"@,
            Capability::CanConsistencyReason => "CanConsistencyReason"@,
            Capability::CanIncompletenessReason => "CanIncompletenessReason"@,
            Capability::CanHostRuntime => "CanHostRuntime"@,
            Capability::CanAcceptMigration => "CanAcceptMigration"@,
            Capability::CanMigrateOut => "CanMigrateOut"@,
            Capability::CanSerializeForMigration => "CanSerializeForMigration"@,
            Capability::CanRemoteSymbolicPrint => "CanRemoteSymbolicPrint"@,
            Capability::CanCheckpointRemote => "CanCheckpointRemote"@,
            Capability::CanRestoreRemoteCheckpoint => "CanRestoreRemoteCheckpoint"@,
            Capability::CanLiveMigrateRemote => "CanLiveMigrateRemote"@,
            Capability::CanMaterializeRemote => "CanMaterializeRemote"@,
            Capability::CanCompilePortableCode => "CanCompilePortableCode"@,
            Capability::CanDeployPortableCode => "CanDeployPortableCode"@,
            Capability::CanCrossArchPortable => "CanCrossArchPortable"@,
            Capability::CanVirtualizeCores => "CanVirtualizeCores"@,
            Capability::CanVirtualizeMemory => "CanVirtualizeMemory"@,
            Capability::CanScheduleRuntime => "CanScheduleRuntime"@,
            Capability::CanAllocateDistributedMemory => "CanAllocateDistributedMemory"@,
            Capability::CanUseDistributedMemory => "CanUseDistributedMemory"@,
            Capability::CanCheckpointMemory => "CanCheckpointMemory"@,
            Capability::CanRestoreCheckpoint => "CanRestoreCheckpoint"@,
            Capability::CanHostGpuRuntime => "CanHostGpuRuntime"@,
            Capability::CanAllocateGpuMemory => "CanAllocateGpuMemory"@,
            Capability::CanUseGpuMemory => "CanUseGpuMemory"@,
            Capability::CanCheckpointGpuMemory => "CanCheckpointGpuMemory"@,
            Capability::CanLaunchGpuKernel => "CanLaunchGpuKernel"@,
            Capability::CanCompileGpuKernel => "CanCompileGpuKernel"@,
            Capability::CanCopyCpuToGpu => "CanCopyCpuToGpu"@,
            Capability::CanCopyGpuToCpu => "CanCopyGpuToCpu"@,
            Capability::CanGpuPeerTransfer => "CanGpuPeerTransfer"@,
            Capability::CanGpuUnifiedAddressing => "CanGpuUnifiedAddressing"@,
            Capability::RequiresOracle => "RequiresOracle"@,
        }
    }

    pub fn debug_str(self) -> (r: &'static str)
        ensures
            r@ == self.debug_text(),
    {
        match self {
            Capability::CanAddAsNat => "CanAddAsNat",
            Capability::CanPrintDecimal => "CanPrintDecimal",
            Capability::CanSymbolicPrint => "CanSymbolicPrint",
            Capability::CanCompareDirect => "CanCompareDirect",
            Capability::CanCompareByProof => "CanCompareByProof",
            Capability::CanComputeModular => "CanComputeModular",
            Capability::CanInspectAst => "CanInspectAst",
            Capability::CanCompareSyntax => "CanCompareSyntax",
            Capability::CanParse => "CanParse",
            Capability::CanRuntimeCompare => "CanRuntimeCompare",
            Capability::CanCardinalArithmetic => "CanCardinalArithmetic",
            Capability::CanOrdinalArithmetic => "CanOrdinalArithmetic",
            Capability::CanLimitReason => "CanLimitReason",
            Capability::CanUniverseLevel => "CanUniverseLevel",
            Capability::CanFormSet => "CanFormSet",
            Capability::CanFormClass => "CanFormClass",
            Capability::CanLiftUniverse => "CanLiftUniverse",
            Capability::CanClassReason => "CanClassReason",
            Capability::CanSetReason => "CanSetReason",
            Capability::CanDefineInLanguage => "CanDefineInLanguage",
            Capability::CanUseEncoding => "CanUseEncoding",
            Capability::CanMetaLevelReason => "CanMetaLevelReason",
            Capability::CanDefinabilityReason => "CanDefinabilityReason",
            Capability::CanExtractDefinabilityBound => "CanExtractDefinabilityBound",
            Capability::CanExtractDefinabilityMeta => "CanExtractDefinabilityMeta",
            Capability::CanBigNumberReason => "CanBigNumberReason",
            Capability::CanExtractGrowthClass => "CanExtractGrowthClass",
            Capability::CanProofKernelCheck => "CanProofKernelCheck",
            Capability::CanPropositionReason => "CanPropositionReason",
            Capability::CanProvabilityReason => "CanProvabilityReason",
            Capability::CanTruthBoundaryReason => "CanTruthBoundaryReason",
            Capability::CanExtractProvabilityTheory => "CanExtractProvabilityTheory",
            Capability::CanConsistencyReason => "CanConsistencyReason",
            Capability::CanIncompletenessReason => "CanIncompletenessReason",
            Capability::CanHostRuntime => "CanHostRuntime",
            Capability::CanAcceptMigration => "CanAcceptMigration",
            Capability::CanMigrateOut => "CanMigrateOut",
            Capability::CanSerializeForMigration => "CanSerializeForMigration",
            Capability::CanRemoteSymbolicPrint => "CanRemoteSymbolicPrint",
            Capability::CanCheckpointRemote => "CanCheckpointRemote",
            Capability::CanRestoreRemoteCheckpoint => "CanRestoreRemoteCheckpoint",
            Capability::CanLiveMigrateRemote => "CanLiveMigrateRemote",
            Capability::CanMaterializeRemote => "CanMaterializeRemote",
            Capability::CanCompilePortableCode => "CanCompilePortableCode",
            Capability::CanDeployPortableCode => "CanDeployPortableCode",
            Capability::CanCrossArchPortable => "CanCrossArchPortable",
            Capability::CanVirtualizeCores => "CanVirtualizeCores",
            Capability::CanVirtualizeMemory => "CanVirtualizeMemory",
            Capability::CanScheduleRuntime => "CanScheduleRuntime",
            Capability::CanAllocateDistributedMemory => "CanAllocateDistributedMemory",
            Capability::CanUseDistributedMemory => "CanUseDistributedMemory",
            Capability::CanCheckpointMemory => "CanCheckpointMemory",
            Capability::CanRestoreCheckpoint => "CanRestoreCheckpoint",
            Capability::CanHostGpuRuntime => "CanHostGpuRuntime",
            Capability::CanAllocateGpuMemory => "CanAllocateGpuMemory",
            Capability::CanUseGpuMemory => "CanUseGpuMemory",
            Capability::CanCheckpointGpuMemory => "CanCheckpointGpuMemory",
            Capability::CanLaunchGpuKernel => "CanLaunchGpuKernel",
            Capability::CanCompileGpuKernel => "CanCompileGpuKernel",
            Capability::CanCopyCpuToGpu => "CanCopyCpuToGpu",
            Capability::CanCopyGpuToCpu => "CanCopyGpuToCpu",
            Capability::CanGpuPeerTransfer => "CanGpuPeerTransfer",
            Capability::CanGpuUnifiedAddressing => "CanGpuUnifiedAddressing",
            Capability::RequiresOracle => "RequiresOracle",
        }
    }
}

pub proof fn lemma_index_at(c: Capability)
    ensures
        Capability::spec_at(c.spec_index()) == c,
        c.spec_index() < 64,
{
}

pub proof fn lemma_at_index(i: u64)
    requires
        i < 64,
    ensures
        Capability::spec_at(i).spec_index() == i,
{
}
/// Whether bit `i` of `bits` is set.
pub open spec fn bit_set(bits: u64, i: u64) -> bool {
    (bits >> i) & 1u64 == 1u64
}

proof fn lemma_bit_empty(j: u64)
    by (bit_vector)
    requires
        j < 64,
    ensures
        (0u64 >> j) & 1u64 != 1u64,
{
}

proof fn lemma_bit_insert(a: u64, i: u64, j: u64)
    by (bit_vector)
    requires
        i < 64,
        j < 64,
    ensures
        ((a | (1u64 << i)) >> j) & 1u64 == 1u64 <==> (j == i || (a >> j) & 1u64 == 1u64),
{
}

proof fn lemma_bit_and(a: u64, b: u64, j: u64)
    by (bit_vector)
    requires
        j < 64,
    ensures
        ((a & b) >> j) & 1u64 == 1u64 <==> ((a >> j) & 1u64 == 1u64 && (b >> j) & 1u64 == 1u64),
{
}

proof fn lemma_bit_or(a: u64, b: u64, j: u64)
    by (bit_vector)
    requires
        j < 64,
    ensures
        ((a | b) >> j) & 1u64 == 1u64 <==> ((a >> j) & 1u64 == 1u64 || (b >> j) & 1u64 == 1u64),
{
}

/// A set of capabilities, one bit per capability in declaration order.
#[derive(Debug, Clone, Copy, PartialEq, Eq, Structural)]
pub struct CapabilitySet {
    bits: u64,
}

impl View for CapabilitySet {
    type V = Set<Capability>;

    closed spec fn view(&self) -> Set<Capability> {
        Set::new(|c: Capability| bit_set(self.bits, c.spec_index()))
    }
}

/// The names of the capabilities of `set` among the first `n`, in declaration order.
pub open spec fn names_upto(set: Set<Capability>, n: nat) -> Seq<Seq<char>>
    decreases n,
{
    if n == 0 {
        Seq::empty()
    } else {
        let c = Capability::spec_at((n - 1) as u64);
        if set.contains(c) {
            names_upto(set, (n - 1) as nat).push(c.name_text())
        } else {
            names_upto(set, (n - 1) as nat)
        }
    }
}

/// The names of all capabilities of `set`, in declaration order.
pub open spec fn names_of(set: Set<Capability>) -> Seq<Seq<char>> {
    names_upto(set, 64)
}

/// The display text of a capability set: its names, comma separated, in braces.
pub open spec fn capability_set_text(set: Set<Capability>) -> Seq<char> {
    "{"@ + crate::text::join_text(names_of(set), ", "@) + "}"@
}

impl CapabilitySet {
    pub fn empty() -> (r: Self)
        ensures
            r@ == Set::<Capability>::empty(),
    {
        let r = CapabilitySet { bits: 0 };
        assert forall|c: Capability| !#[trigger] r@.contains(c) by {
            lemma_index_at(c);
            lemma_bit_empty(c.spec_index());
        }
        assert(r@ =~= Set::<Capability>::empty());
        r
    }

    /// This set with `cap` added.
    pub fn with(self, cap: Capability) -> (r: Self)
        ensures
            r@ == self@.insert(cap),
    {
        let i = cap.index();
        let r = CapabilitySet { bits: self.bits | (1u64 << i) };
        assert forall|c: Capability| #[trigger] r@.contains(c) == self@.insert(cap).contains(c) by {
            lemma_index_at(c);
            lemma_index_at(cap);
            lemma_bit_insert(self.bits, i, c.spec_index());
        }
        assert(r@ =~= self@.insert(cap));
        r
    }

    pub fn from<const N: usize>(caps: [Capability; N]) -> (r: Self)
        ensures
            r@ == caps@.to_set(),
    {
        let mut s = CapabilitySet::empty();
        let mut i: usize = 0;
        while i < N
            invariant
                caps@.len() == N,
                i <= N,
                forall|c: Capability| #[trigger] s@.contains(c) <==> caps@.subrange(0, i as int).contains(c),
            decreases N - i,
        {
            let ghost before = caps@.subrange(0, i as int);
            assert(caps@.subrange(0, i + 1) =~= before.push(caps@[i as int]));
            s = s.with(caps[i]);
            assert forall|c: Capability| #[trigger] s@.contains(c) <==> caps@.subrange(0, i + 1).contains(c) by {
                let after = caps@.subrange(0, i + 1);
                if after.contains(c) {
                    let k = choose|k: int| 0 <= k < after.len() && after[k] == c;
                    if k < i {
                        assert(before[k] == c);
                    }
                }
                if before.contains(c) {
                    let k = choose|k: int| 0 <= k < before.len() && before[k] == c;
                    assert(after[k] == c);
                }
                if c == caps@[i as int] {
                    assert(after[i as int] == c);
                }
            }
            i = i + 1;
        }
        assert(caps@.subrange(0, N as int) =~= caps@);
        assert(s@ =~= caps@.to_set());
        s
    }

    pub fn contains(&self, cap: Capability) -> (r: bool)
        ensures
            r == self@.contains(cap),
    {
        (self.bits >> cap.index()) & 1u64 == 1u64
    }

    pub fn insert(&mut self, cap: Capability)
        ensures
            final(self)@ == old(self)@.insert(cap),
    {
        *self = self.with(cap);
    }

    pub fn intersection(&self, other: &Self) -> (r: Self)
        ensures
            r@ == self@.intersect(other@),
    {
        let r = CapabilitySet { bits: self.bits & other.bits };
        assert forall|c: Capability| #[trigger] r@.contains(c) == self@.intersect(other@).contains(c) by {
            lemma_bit_and(self.bits, other.bits, c.spec_index());
        }
        assert(r@ =~= self@.intersect(other@));
        r
    }

    pub fn union_for_builtin_only(&self, other: &Self) -> (r: Self)
        ensures
            r@ == self@.union(other@),
    {
        let r = CapabilitySet { bits: self.bits | other.bits };
        assert forall|c: Capability| #[trigger] r@.contains(c) == self@.union(other@).contains(c) by {
            lemma_bit_or(self.bits, other.bits, c.spec_index());
        }
        assert(r@ =~= self@.union(other@));
        r
    }

    /// Names of the capabilities in this set, in declaration order.
    pub fn names(&self) -> (r: Vec<&'static str>)
        ensures
            r.deep_view() == names_of(self@),
    {
        let mut out: Vec<&'static str> = Vec::new();
        let mut i: u64 = 0;
        while i < 64
            invariant
                i <= 64,
                out.deep_view() == names_upto(self@, i as nat),
            decreases 64 - i,
        {
            let c = Capability::at(i);
            let ghost before = out.deep_view();
            if self.contains(c) {
                out.push(c.name());
                assert(out.deep_view() =~= before.push(c.name_text()));
            }
            i = i + 1;
        }
        out
    }

    /// Display text: `{name, name, ...}`.
    pub fn to_text(&self) -> (r: String)
        ensures
            r@ == capability_set_text(self@),
    {
        let names = self.names();
        let mut out = String::from_str("{");
        let joined = crate::text::join_strs(&names, ", ");
        out.append(joined.as_str());
        out.append("}");
        out
    }
}

} // verus!
