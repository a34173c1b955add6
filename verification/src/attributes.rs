//! Attributes belonging to the MIR dialect.

use vstd::prelude::*;

verus! {

/// MIR cast kind: preserves the semantic intent of the cast from Rust MIR.
///
/// The lowering dispatches on this to pick the correct LLVM instruction,
/// rather than guessing from source/destination types.
#[derive(PartialEq, Eq, Structural, Clone, Copy, Debug, Hash)]
pub enum MirCastKindAttr {
    IntToInt,
    IntToFloat,
    FloatToInt,
    FloatToFloat,
    PtrToPtr,
    FnPtrToPtr,
    PointerExposeAddress,
    PointerWithExposedProvenance,
    Transmute,
    PointerCoercionUnsize,
    PointerCoercionMutToConst,
    PointerCoercionArrayToPointer,
    PointerCoercionReifyFnPointer,
    PointerCoercionUnsafeFnPointer,
    PointerCoercionClosureFnPointer,
    Subtype,
}

/// Boolean attribute for reference mutability.
///
/// Replaces the overloaded integer-attribute pattern with a self-documenting
/// domain-specific attribute.
#[derive(PartialEq, Eq, Structural, Clone, Copy, Debug, Hash)]
pub struct MutabilityAttr(pub bool);

/// Structural field index for aggregate access ops
/// (`mir.extract_field`, `mir.insert_field`, `mir.field_addr`, `mir.enum_payload`).
#[derive(PartialEq, Eq, Structural, Clone, Copy, Debug, Hash)]
pub struct FieldIndexAttr(pub u32);

/// Enum variant index for variant-level ops
/// (`mir.construct_enum`, `mir.enum_payload`).
#[derive(PartialEq, Eq, Structural, Clone, Copy, Debug, Hash)]
pub struct VariantIndexAttr(pub u32);

/// Niche encoding for a `Cast(Transmute)` whose destination is a
/// niche-optimised enum.
///
/// rustc stores `Option<NonZeroT>`, `Option<&T>`, `Option<Box<T>>`,
/// `Option<NonNull<T>>`, `Option<bool>`, `Option<char>`, etc. as a single
/// scalar where one forbidden bit pattern of the inner type stands in for
/// the niche variant (typically `None`) and any other bit pattern means
/// the active variant (typically `Some(x)`).
///
/// Rebuilding the un-niched `{ discriminant, payload }` aggregate from such
/// a scalar needs:
///
/// * `niche_start` -- the bit pattern that signals the niche variant.
/// * `niche_variant_idx` -- the discriminant value for the niche variant.
/// * `untagged_variant_idx` -- the discriminant value for the active variant.
///
/// `niche_start` is stored as `u64`: niched scalars are at most 64 bits
/// wide, so the bit pattern always fits.
#[derive(PartialEq, Eq, Structural, Clone, Copy, Debug, Hash)]
pub struct NicheEncodingAttr {
    pub niche_start: u64,
    pub niche_variant_idx: u32,
    pub untagged_variant_idx: u32,
}

} // verus!
