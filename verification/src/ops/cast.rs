//! MIR cast operations.
//!
//! A `mir.cast` converts one value to another type while keeping the
//! semantic intent of the conversion (its [`MirCastKindAttr`]). This module
//! holds what the verification of such an operation reads, and the
//! verification rule itself.

use crate::attributes::{MirCastKindAttr, NicheEncodingAttr};
use vstd::prelude::*;

verus! {

/// What the cast verifier knows of one operand or result type: whether it
/// is an integer type, whether it implements the float-type interface, and
/// whether it is the MIR pointer type.
#[derive(PartialEq, Eq, Structural, Clone, Copy, Debug)]
pub struct CastTypeInfo {
    pub is_integer: bool,
    pub is_float: bool,
    pub is_pointer: bool,
}

/// The class of types that a cast kind asks of its operand or result.
#[derive(PartialEq, Eq, Structural, Clone, Copy, Debug)]
pub enum TypeRequirement {
    Integer,
    Float,
    Pointer,
    /// No check: the lowering handles pointers, structs, tuples and the like.
    Any,
}

/// Why a `mir.cast` operation failed verification.
#[derive(PartialEq, Eq, Structural, Clone, Copy, Debug)]
pub enum CastVerifyError {
    /// The operation carries no `cast_kind` attribute.
    MissingCastKind,
    IntToIntOperandNotInteger,
    IntToIntResultNotInteger,
    IntToFloatOperandNotInteger,
    IntToFloatResultNotFloat,
    FloatToIntOperandNotFloat,
    FloatToIntResultNotInteger,
    FloatToFloatOperandNotFloat,
    FloatToFloatResultNotFloat,
    PointerExposeAddressOperandNotPointer,
    PointerExposeAddressResultNotInteger,
    PointerWithExposedProvenanceOperandNotInteger,
    PointerWithExposedProvenanceResultNotPointer,
    /// A `niche_encoding` attribute stands on a cast that is not a `Transmute`.
    NicheOnNonTransmute,
}

/// The diagnostic that a verification error is reported with.
pub open spec fn error_message(e: CastVerifyError) -> Seq<char> {
    match e {
        CastVerifyError::MissingCastKind => "MirCastOp must have a cast_kind attribute"@,
        CastVerifyError::IntToIntOperandNotInteger => "IntToInt cast requires integer operand type"@,
        CastVerifyError::IntToIntResultNotInteger => "IntToInt cast requires integer result type"@,
        CastVerifyError::IntToFloatOperandNotInteger => "IntToFloat cast requires integer operand type"@,
        CastVerifyError::IntToFloatResultNotFloat => "IntToFloat cast requires float result type"@,
        CastVerifyError::FloatToIntOperandNotFloat => "FloatToInt cast requires float operand type"@,
        CastVerifyError::FloatToIntResultNotInteger => "FloatToInt cast requires integer result type"@,
        CastVerifyError::FloatToFloatOperandNotFloat => "FloatToFloat cast requires float operand type"@,
        CastVerifyError::FloatToFloatResultNotFloat => "FloatToFloat cast requires float result type"@,
        CastVerifyError::PointerExposeAddressOperandNotPointer => "PointerExposeAddress cast requires pointer operand type"@,
        CastVerifyError::PointerExposeAddressResultNotInteger => "PointerExposeAddress cast requires integer result type"@,
        CastVerifyError::PointerWithExposedProvenanceOperandNotInteger => "PointerWithExposedProvenance cast requires integer operand type"@,
        CastVerifyError::PointerWithExposedProvenanceResultNotPointer => "PointerWithExposedProvenance cast requires pointer result type"@,
        CastVerifyError::NicheOnNonTransmute => "niche_encoding attribute is only valid on a Transmute cast"@,
    }
}

impl CastVerifyError {
    /// The diagnostic that this error is reported with.
    pub fn message(&self) -> (m: &'static str)
        ensures
            m@ == error_message(*self),
    {
        match self {
            CastVerifyError::MissingCastKind => "MirCastOp must have a cast_kind attribute",
            CastVerifyError::IntToIntOperandNotInteger => "IntToInt cast requires integer operand type",
            CastVerifyError::IntToIntResultNotInteger => "IntToInt cast requires integer result type",
            CastVerifyError::IntToFloatOperandNotInteger => "IntToFloat cast requires integer operand type",
            CastVerifyError::IntToFloatResultNotFloat => "IntToFloat cast requires float result type",
            CastVerifyError::FloatToIntOperandNotFloat => "FloatToInt cast requires float operand type",
            CastVerifyError::FloatToIntResultNotInteger => "FloatToInt cast requires integer result type",
            CastVerifyError::FloatToFloatOperandNotFloat => "FloatToFloat cast requires float operand type",
            CastVerifyError::FloatToFloatResultNotFloat => "FloatToFloat cast requires float result type",
            CastVerifyError::PointerExposeAddressOperandNotPointer => "PointerExposeAddress cast requires pointer operand type",
            CastVerifyError::PointerExposeAddressResultNotInteger => "PointerExposeAddress cast requires integer result type",
            CastVerifyError::PointerWithExposedProvenanceOperandNotInteger => "PointerWithExposedProvenance cast requires integer operand type",
            CastVerifyError::PointerWithExposedProvenanceResultNotPointer => "PointerWithExposedProvenance cast requires pointer result type",
            CastVerifyError::NicheOnNonTransmute => "niche_encoding attribute is only valid on a Transmute cast",
        }
    }
}

/// MIR cast operation: type conversion with preserved semantic intent.
///
/// The `cast_kind` attribute records the MIR `CastKind` so the lowering can
/// dispatch correctly (e.g. `Transmute` to `bitcast`/`extractvalue`, not `sitofp`).
/// `niche_encoding` is only meaningful when `cast_kind == Transmute`.
///
/// The operation has one operand and one result; `operand_type` and
/// `result_type` say what the verifier knows of their types.
#[derive(PartialEq, Eq, Structural, Clone, Copy, Debug)]
pub struct MirCastOp {
    pub cast_kind: Option<MirCastKindAttr>,
    pub niche_encoding: Option<NicheEncodingAttr>,
    pub operand_type: CastTypeInfo,
    pub result_type: CastTypeInfo,
}

/// Whether a type meets a requirement.
pub open spec fn meets(info: CastTypeInfo, req: TypeRequirement) -> bool {
    match req {
        TypeRequirement::Integer => info.is_integer,
        TypeRequirement::Float => info.is_float,
        TypeRequirement::Pointer => info.is_pointer,
        TypeRequirement::Any => true,
    }
}

/// The class that a cast kind asks of its operand type.
pub open spec fn operand_requirement(kind: MirCastKindAttr) -> TypeRequirement {
    match kind {
        MirCastKindAttr::IntToInt => TypeRequirement::Integer,
        MirCastKindAttr::IntToFloat => TypeRequirement::Integer,
        MirCastKindAttr::FloatToInt => TypeRequirement::Float,
        MirCastKindAttr::FloatToFloat => TypeRequirement::Float,
        MirCastKindAttr::PointerExposeAddress => TypeRequirement::Pointer,
        MirCastKindAttr::PointerWithExposedProvenance => TypeRequirement::Integer,
        _ => TypeRequirement::Any,
    }
}

/// The class that a cast kind asks of its result type.
pub open spec fn result_requirement(kind: MirCastKindAttr) -> TypeRequirement {
    match kind {
        MirCastKindAttr::IntToInt => TypeRequirement::Integer,
        MirCastKindAttr::IntToFloat => TypeRequirement::Float,
        MirCastKindAttr::FloatToInt => TypeRequirement::Integer,
        MirCastKindAttr::FloatToFloat => TypeRequirement::Float,
        MirCastKindAttr::PointerExposeAddress => TypeRequirement::Integer,
        MirCastKindAttr::PointerWithExposedProvenance => TypeRequirement::Pointer,
        _ => TypeRequirement::Any,
    }
}

/// The kinds whose operand and result types are not checked.
pub open spec fn is_unchecked_kind(kind: MirCastKindAttr) -> bool {
    operand_requirement(kind) == TypeRequirement::Any
        && result_requirement(kind) == TypeRequirement::Any
}

/// The first type mismatch of a cast of the given kind, if any; the
/// operand type is checked before the result type.
pub open spec fn type_mismatch(
    kind: MirCastKindAttr,
    opd: CastTypeInfo,
    res: CastTypeInfo,
) -> Option<CastVerifyError> {
    match kind {
        MirCastKindAttr::IntToInt => if !opd.is_integer {
            Some(CastVerifyError::IntToIntOperandNotInteger)
        } else if !res.is_integer {
            Some(CastVerifyError::IntToIntResultNotInteger)
        } else {
            None
        },
        MirCastKindAttr::IntToFloat => if !opd.is_integer {
            Some(CastVerifyError::IntToFloatOperandNotInteger)
        } else if !res.is_float {
            Some(CastVerifyError::IntToFloatResultNotFloat)
        } else {
            None
        },
        MirCastKindAttr::FloatToInt => if !opd.is_float {
            Some(CastVerifyError::FloatToIntOperandNotFloat)
        } else if !res.is_integer {
            Some(CastVerifyError::FloatToIntResultNotInteger)
        } else {
            None
        },
        MirCastKindAttr::FloatToFloat => if !opd.is_float {
            Some(CastVerifyError::FloatToFloatOperandNotFloat)
        } else if !res.is_float {
            Some(CastVerifyError::FloatToFloatResultNotFloat)
        } else {
            None
        },
        MirCastKindAttr::PointerExposeAddress => if !opd.is_pointer {
            Some(CastVerifyError::PointerExposeAddressOperandNotPointer)
        } else if !res.is_integer {
            Some(CastVerifyError::PointerExposeAddressResultNotInteger)
        } else {
            None
        },
        MirCastKindAttr::PointerWithExposedProvenance => if !opd.is_integer {
            Some(CastVerifyError::PointerWithExposedProvenanceOperandNotInteger)
        } else if !res.is_pointer {
            Some(CastVerifyError::PointerWithExposedProvenanceResultNotPointer)
        } else {
            None
        },
        _ => None,
    }
}

/// The outcome of verifying a cast: the cast kind must be present, then the
/// operand and result types must suit it, and only then is a niche encoding
/// on a non-`Transmute` cast rejected.
pub open spec fn verify_outcome(op: MirCastOp) -> Result<(), CastVerifyError> {
    match op.cast_kind {
        None => Err(CastVerifyError::MissingCastKind),
        Some(kind) => match type_mismatch(kind, op.operand_type, op.result_type) {
            Some(e) => Err(e),
            None => if op.niche_encoding is Some && kind != MirCastKindAttr::Transmute {
                Err(CastVerifyError::NicheOnNonTransmute)
            } else {
                Ok(())
            },
        },
    }
}

impl MirCastOp {
    /// Create a cast operation from its attributes and what is known of its
    /// operand and result types.
    pub fn new(
        cast_kind: Option<MirCastKindAttr>,
        niche_encoding: Option<NicheEncodingAttr>,
        operand_type: CastTypeInfo,
        result_type: CastTypeInfo,
    ) -> (op: Self)
        ensures
            op.cast_kind == cast_kind,
            op.niche_encoding == niche_encoding,
            op.operand_type == operand_type,
            op.result_type == result_type,
    {
        MirCastOp { cast_kind, niche_encoding, operand_type, result_type }
    }

    /// Verify the operation.
    ///
    /// Requires `cast_kind` and checks that operand/result types match the kind:
    /// - `IntToInt`: operand and result are both integer types.
    /// - `FloatToFloat`: operand and result are both float types.
    /// - `IntToFloat` / `FloatToInt`: operand and result are the appropriate integer/float pair.
    /// - `PointerExposeAddress`: operand is pointer, result is integer.
    /// - `PointerWithExposedProvenance`: operand is integer, result is pointer.
    /// - `PtrToPtr`, `FnPtrToPtr`, `Transmute`, `PointerCoercion*`, `Subtype`: no type check.
    ///
    /// If `niche_encoding` is present, `cast_kind` must be `Transmute`.
    pub fn verify(&self) -> (r: Result<(), CastVerifyError>)
        ensures
            r == verify_outcome(*self),
    {
        let cast_kind = match self.cast_kind {
            Some(k) => k,
            None => return Err(CastVerifyError::MissingCastKind),
        };
        let opd = self.operand_type;
        let res = self.result_type;
        match cast_kind {
            MirCastKindAttr::IntToInt => {
                if !opd.is_integer {
                    return Err(CastVerifyError::IntToIntOperandNotInteger);
                }
                if !res.is_integer {
                    return Err(CastVerifyError::IntToIntResultNotInteger);
                }
            },
            MirCastKindAttr::IntToFloat => {
                if !opd.is_integer {
                    return Err(CastVerifyError::IntToFloatOperandNotInteger);
                }
                if !res.is_float {
                    return Err(CastVerifyError::IntToFloatResultNotFloat);
                }
            },
            MirCastKindAttr::FloatToInt => {
                if !opd.is_float {
                    return Err(CastVerifyError::FloatToIntOperandNotFloat);
                }
                if !res.is_integer {
                    return Err(CastVerifyError::FloatToIntResultNotInteger);
                }
            },
            MirCastKindAttr::FloatToFloat => {
                if !opd.is_float {
                    return Err(CastVerifyError::FloatToFloatOperandNotFloat);
                }
                if !res.is_float {
                    return Err(CastVerifyError::FloatToFloatResultNotFloat);
                }
            },
            MirCastKindAttr::PointerExposeAddress => {
                if !opd.is_pointer {
                    return Err(CastVerifyError::PointerExposeAddressOperandNotPointer);
                }
                if !res.is_integer {
                    return Err(CastVerifyError::PointerExposeAddressResultNotInteger);
                }
            },
            MirCastKindAttr::PointerWithExposedProvenance => {
                if !opd.is_integer {
                    return Err(CastVerifyError::PointerWithExposedProvenanceOperandNotInteger);
                }
                if !res.is_pointer {
                    return Err(CastVerifyError::PointerWithExposedProvenanceResultNotPointer);
                }
            },
            // The operand and result can be pointers, structs, tuples, etc.;
            // the lowering handles the details.
            MirCastKindAttr::PtrToPtr
            | MirCastKindAttr::FnPtrToPtr
            | MirCastKindAttr::Transmute
            | MirCastKindAttr::PointerCoercionUnsize
            | MirCastKindAttr::PointerCoercionMutToConst
            | MirCastKindAttr::PointerCoercionArrayToPointer
            | MirCastKindAttr::PointerCoercionReifyFnPointer
            | MirCastKindAttr::PointerCoercionUnsafeFnPointer
            | MirCastKindAttr::PointerCoercionClosureFnPointer
            | MirCastKindAttr::Subtype => {},
        }
        // A niche encoding only makes sense on a Transmute, so downstream
        // lowering can rely on the cast being one whenever it is present.
        if self.niche_encoding.is_some() && !matches!(cast_kind, MirCastKindAttr::Transmute) {
            return Err(CastVerifyError::NicheOnNonTransmute);
        }
        Ok(())
    }
}

/// Whether an error reports the operand type.
pub open spec fn is_operand_error(e: CastVerifyError) -> bool {
    match e {
        CastVerifyError::IntToIntOperandNotInteger
        | CastVerifyError::IntToFloatOperandNotInteger
        | CastVerifyError::FloatToIntOperandNotFloat
        | CastVerifyError::FloatToFloatOperandNotFloat
        | CastVerifyError::PointerExposeAddressOperandNotPointer
        | CastVerifyError::PointerWithExposedProvenanceOperandNotInteger => true,
        _ => false,
    }
}

/// Whether an error reports the result type.
pub open spec fn is_result_error(e: CastVerifyError) -> bool {
    match e {
        CastVerifyError::IntToIntResultNotInteger
        | CastVerifyError::IntToFloatResultNotFloat
        | CastVerifyError::FloatToIntResultNotInteger
        | CastVerifyError::FloatToFloatResultNotFloat
        | CastVerifyError::PointerExposeAddressResultNotInteger
        | CastVerifyError::PointerWithExposedProvenanceResultNotPointer => true,
        _ => false,
    }
}

/// A cast verifies exactly when it has a cast kind, its operand and result
/// types are of the classes that the kind asks for, and a niche encoding, if
/// present, stands on a `Transmute`.
pub proof fn law_verify_accepts_exactly_the_table(op: MirCastOp)
    ensures
        verify_outcome(op) is Ok <==> {
            &&& op.cast_kind is Some
            &&& meets(op.operand_type, operand_requirement(op.cast_kind->0))
            &&& meets(op.result_type, result_requirement(op.cast_kind->0))
            &&& op.niche_encoding is Some ==> op.cast_kind->0 == MirCastKindAttr::Transmute
        },
{
}

/// Whenever a verified cast carries a niche encoding, the cast is a
/// `Transmute`, so the lowering may rely on that.
pub proof fn law_niche_only_on_transmute(op: MirCastOp)
    requires
        verify_outcome(op) is Ok,
        op.niche_encoding is Some,
    ensures
        op.cast_kind == Some(MirCastKindAttr::Transmute),
{
}

/// For the kinds that check no type (`PtrToPtr`, `FnPtrToPtr`, `Transmute`,
/// the pointer coercions and `Subtype`), the outcome does not depend on the
/// operand and result types.
pub proof fn law_unchecked_kinds_ignore_types(op1: MirCastOp, op2: MirCastOp)
    requires
        op1.cast_kind == op2.cast_kind,
        op1.cast_kind is Some,
        is_unchecked_kind(op1.cast_kind->0),
        op1.niche_encoding == op2.niche_encoding,
    ensures
        verify_outcome(op1) == verify_outcome(op2),
{
}

/// The operand type is judged before the result type, and both before the
/// niche encoding: a bad operand type is what gets reported, whatever else
/// is wrong; a result-type error means the operand type was fine.
pub proof fn law_operand_checked_first(op: MirCastOp)
    requires
        op.cast_kind is Some,
    ensures
        !meets(op.operand_type, operand_requirement(op.cast_kind->0)) ==> (verify_outcome(
            op,
        ) matches Err(e) && is_operand_error(e)),
        meets(op.operand_type, operand_requirement(op.cast_kind->0)) && !meets(
            op.result_type,
            result_requirement(op.cast_kind->0),
        ) ==> (verify_outcome(op) matches Err(e) && is_result_error(e)),
        verify_outcome(op) matches Err(e) && is_result_error(e) ==> meets(
            op.operand_type,
            operand_requirement(op.cast_kind->0),
        ) && !meets(op.result_type, result_requirement(op.cast_kind->0)),
{
}

} // verus!
