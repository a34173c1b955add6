//! The MIR dialect's attributes and the verification rule of its cast
//! operation, stated and proved with Verus.

pub mod attributes;
pub mod ops;
pub mod op_query;

pub use attributes::{
    FieldIndexAttr, MirCastKindAttr, MutabilityAttr, NicheEncodingAttr, VariantIndexAttr,
};
pub use ops::cast::{CastTypeInfo, CastVerifyError, MirCastOp, TypeRequirement};
pub use op_query::{count_ops, find_all, find_first};
