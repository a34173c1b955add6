use dialect_mir::{CastTypeInfo, CastVerifyError, MirCastKindAttr, MirCastOp, NicheEncodingAttr};

fn integer() -> CastTypeInfo {
    CastTypeInfo { is_integer: true, is_float: false, is_pointer: false }
}

fn float() -> CastTypeInfo {
    CastTypeInfo { is_integer: false, is_float: true, is_pointer: false }
}

fn ptr() -> CastTypeInfo {
    CastTypeInfo { is_integer: false, is_float: false, is_pointer: true }
}

fn other() -> CastTypeInfo {
    CastTypeInfo { is_integer: false, is_float: false, is_pointer: false }
}

fn niche() -> NicheEncodingAttr {
    NicheEncodingAttr { niche_start: 0, niche_variant_idx: 0, untagged_variant_idx: 1 }
}

fn cast(kind: MirCastKindAttr, opd: CastTypeInfo, res: CastTypeInfo) -> MirCastOp {
    MirCastOp::new(Some(kind), None, opd, res)
}

const UNCHECKED: [MirCastKindAttr; 10] = [
    MirCastKindAttr::PtrToPtr,
    MirCastKindAttr::FnPtrToPtr,
    MirCastKindAttr::Transmute,
    MirCastKindAttr::PointerCoercionUnsize,
    MirCastKindAttr::PointerCoercionMutToConst,
    MirCastKindAttr::PointerCoercionArrayToPointer,
    MirCastKindAttr::PointerCoercionReifyFnPointer,
    MirCastKindAttr::PointerCoercionUnsafeFnPointer,
    MirCastKindAttr::PointerCoercionClosureFnPointer,
    MirCastKindAttr::Subtype,
];

#[test]
fn missing_cast_kind_is_rejected() {
    let op = MirCastOp::new(None, None, integer(), integer());
    assert_eq!(op.verify(), Err(CastVerifyError::MissingCastKind));
    let op = MirCastOp::new(None, Some(niche()), other(), other());
    assert_eq!(op.verify(), Err(CastVerifyError::MissingCastKind));
}

#[test]
fn well_typed_casts_verify() {
    assert_eq!(cast(MirCastKindAttr::IntToInt, integer(), integer()).verify(), Ok(()));
    assert_eq!(cast(MirCastKindAttr::IntToFloat, integer(), float()).verify(), Ok(()));
    assert_eq!(cast(MirCastKindAttr::FloatToInt, float(), integer()).verify(), Ok(()));
    assert_eq!(cast(MirCastKindAttr::FloatToFloat, float(), float()).verify(), Ok(()));
    assert_eq!(cast(MirCastKindAttr::PointerExposeAddress, ptr(), integer()).verify(), Ok(()));
    assert_eq!(
        cast(MirCastKindAttr::PointerWithExposedProvenance, integer(), ptr()).verify(),
        Ok(())
    );
}

#[test]
fn operand_type_errors() {
    assert_eq!(cast(MirCastKindAttr::IntToInt, float(), integer()).verify(), Err(CastVerifyError::IntToIntOperandNotInteger));
    assert_eq!(cast(MirCastKindAttr::IntToFloat, ptr(), float()).verify(), Err(CastVerifyError::IntToFloatOperandNotInteger));
    assert_eq!(cast(MirCastKindAttr::FloatToInt, integer(), integer()).verify(), Err(CastVerifyError::FloatToIntOperandNotFloat));
    assert_eq!(cast(MirCastKindAttr::FloatToFloat, integer(), float()).verify(), Err(CastVerifyError::FloatToFloatOperandNotFloat));
    assert_eq!(
        cast(MirCastKindAttr::PointerExposeAddress, integer(), integer()).verify(),
        Err(CastVerifyError::PointerExposeAddressOperandNotPointer)
    );
    assert_eq!(
        cast(MirCastKindAttr::PointerWithExposedProvenance, ptr(), ptr()).verify(),
        Err(CastVerifyError::PointerWithExposedProvenanceOperandNotInteger)
    );
}

#[test]
fn result_type_errors() {
    assert_eq!(cast(MirCastKindAttr::IntToInt, integer(), float()).verify(), Err(CastVerifyError::IntToIntResultNotInteger));
    assert_eq!(cast(MirCastKindAttr::IntToFloat, integer(), integer()).verify(), Err(CastVerifyError::IntToFloatResultNotFloat));
    assert_eq!(cast(MirCastKindAttr::FloatToInt, float(), float()).verify(), Err(CastVerifyError::FloatToIntResultNotInteger));
    assert_eq!(cast(MirCastKindAttr::FloatToFloat, float(), integer()).verify(), Err(CastVerifyError::FloatToFloatResultNotFloat));
    assert_eq!(
        cast(MirCastKindAttr::PointerExposeAddress, ptr(), ptr()).verify(),
        Err(CastVerifyError::PointerExposeAddressResultNotInteger)
    );
    assert_eq!(
        cast(MirCastKindAttr::PointerWithExposedProvenance, integer(), integer()).verify(),
        Err(CastVerifyError::PointerWithExposedProvenanceResultNotPointer)
    );
}

#[test]
fn operand_error_reported_before_result_error() {
    assert_eq!(
        cast(MirCastKindAttr::IntToFloat, other(), other()).verify(),
        Err(CastVerifyError::IntToFloatOperandNotInteger)
    );
    let op = MirCastOp::new(Some(MirCastKindAttr::FloatToInt), Some(niche()), other(), other());
    assert_eq!(op.verify(), Err(CastVerifyError::FloatToIntOperandNotFloat));
}

#[test]
fn type_error_reported_before_niche_error() {
    let op = MirCastOp::new(Some(MirCastKindAttr::IntToInt), Some(niche()), integer(), float());
    assert_eq!(op.verify(), Err(CastVerifyError::IntToIntResultNotInteger));
}

#[test]
fn unchecked_kinds_accept_any_types() {
    let infos = [integer(), float(), ptr(), other()];
    for kind in UNCHECKED {
        for a in infos {
            for b in infos {
                assert_eq!(cast(kind, a, b).verify(), Ok(()));
            }
        }
    }
}

#[test]
fn niche_encoding_only_on_transmute() {
    for kind in UNCHECKED {
        let op = MirCastOp::new(Some(kind), Some(niche()), other(), ptr());
        if kind == MirCastKindAttr::Transmute {
            assert_eq!(op.verify(), Ok(()));
        } else {
            assert_eq!(op.verify(), Err(CastVerifyError::NicheOnNonTransmute));
        }
    }
    let op = MirCastOp::new(Some(MirCastKindAttr::IntToInt), Some(niche()), integer(), integer());
    assert_eq!(op.verify(), Err(CastVerifyError::NicheOnNonTransmute));
}

#[test]
fn error_messages() {
    let cases = [
        (CastVerifyError::MissingCastKind, "MirCastOp must have a cast_kind attribute"),
        (CastVerifyError::IntToIntOperandNotInteger, "IntToInt cast requires integer operand type"),
        (CastVerifyError::IntToIntResultNotInteger, "IntToInt cast requires integer result type"),
        (CastVerifyError::IntToFloatOperandNotInteger, "IntToFloat cast requires integer operand type"),
        (CastVerifyError::IntToFloatResultNotFloat, "IntToFloat cast requires float result type"),
        (CastVerifyError::FloatToIntOperandNotFloat, "FloatToInt cast requires float operand type"),
        (CastVerifyError::FloatToIntResultNotInteger, "FloatToInt cast requires integer result type"),
        (CastVerifyError::FloatToFloatOperandNotFloat, "FloatToFloat cast requires float operand type"),
        (CastVerifyError::FloatToFloatResultNotFloat, "FloatToFloat cast requires float result type"),
        (CastVerifyError::PointerExposeAddressOperandNotPointer, "PointerExposeAddress cast requires pointer operand type"),
        (CastVerifyError::PointerExposeAddressResultNotInteger, "PointerExposeAddress cast requires integer result type"),
        (
            CastVerifyError::PointerWithExposedProvenanceOperandNotInteger,
            "PointerWithExposedProvenance cast requires integer operand type",
        ),
        (
            CastVerifyError::PointerWithExposedProvenanceResultNotPointer,
            "PointerWithExposedProvenance cast requires pointer result type",
        ),
        (CastVerifyError::NicheOnNonTransmute, "niche_encoding attribute is only valid on a Transmute cast"),
    ];
    for (e, m) in cases {
        assert_eq!(e.message(), m);
    }
}

#[test]
fn new_keeps_its_arguments() {
    let op = MirCastOp::new(Some(MirCastKindAttr::Transmute), Some(niche()), ptr(), integer());
    assert_eq!(op.cast_kind, Some(MirCastKindAttr::Transmute));
    assert_eq!(op.niche_encoding, Some(niche()));
    assert_eq!(op.operand_type, ptr());
    assert_eq!(op.result_type, integer());
}
