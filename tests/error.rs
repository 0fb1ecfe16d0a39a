use integral_calc::error::{CalcErrorKind, IntegralCalcError};

#[test]
fn error_keeps_its_kind() {
    let e = IntegralCalcError::new(CalcErrorKind::SampleCountExceeded);
    assert_eq!(e.kind(), CalcErrorKind::SampleCountExceeded);
    assert_eq!(IntegralCalcError::new(CalcErrorKind::InvalidBounds).kind, CalcErrorKind::InvalidBounds);
}

#[test]
fn error_reasons() {
    assert_eq!(
        IntegralCalcError::new(CalcErrorKind::InvalidBounds).reason(),
        "нижняя граница больше верхней"
    );
    assert_eq!(
        IntegralCalcError::new(CalcErrorKind::SampleCountExceeded).reason(),
        "превышено максимальное число отсчётов"
    );
}
