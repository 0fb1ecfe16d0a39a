use vstd::prelude::*;

verus! {

/// The two ways an integration request can be refused.
#[derive(Debug, Clone, Copy, PartialEq, Eq, Structural)]
pub enum CalcErrorKind {
    /// The lower bound lies above the upper bound.
    InvalidBounds,
    /// More samples were asked for than the engine allows.
    SampleCountExceeded,
}

/// An integration request that cannot be computed, with the reason.
#[derive(Debug, Clone, Copy, PartialEq, Eq, Structural)]
pub struct IntegralCalcError {
    pub kind: CalcErrorKind,
}

/// The human-readable reason given for each kind of failure.
pub open spec fn reason_of(kind: CalcErrorKind) -> Seq<char> {
    match kind {
        CalcErrorKind::InvalidBounds => "нижняя граница больше верхней"@,
        CalcErrorKind::SampleCountExceeded => "превышено максимальное число отсчётов"@,
    }
}

impl IntegralCalcError {
    pub fn new(kind: CalcErrorKind) -> (r: Self)
        ensures
            r.kind == kind,
    {
        IntegralCalcError { kind }
    }

    pub fn kind(&self) -> (r: CalcErrorKind)
        ensures
            r == self.kind,
    {
        self.kind
    }

    /// Why the integral could not be computed.
    pub fn reason(&self) -> (r: &'static str)
        ensures
            r@ == reason_of(self.kind),
    {
        match self.kind {
            CalcErrorKind::InvalidBounds => "нижняя граница больше верхней",
            CalcErrorKind::SampleCountExceeded => "превышено максимальное число отсчётов",
        }
    }
}

} // verus!
