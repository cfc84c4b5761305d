pub mod constructors;
pub mod capability;
pub mod record;
pub mod kinds;
pub mod type_kind;

pub use self::capability::{Capability, CapabilitySet};
pub use self::record::{HistoryChain, LocationContext, Passport, PassportV, TheoryContext, TheoryContextV};
pub use self::kinds::{
    ConstructionMode, CostClass, GpuBackend, InfinityMode, NodeArch, Provenance, TrustLevel,
    ValidationState,
};
pub use self::type_kind::{TypeKind, TypeKindV};
