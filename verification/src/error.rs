//! Failures of the cryptographic checks.

use vstd::prelude::*;

verus! {

/// Why the check of a BLS signature failed.
#[derive(Debug, Clone, Copy, PartialEq, Eq, Structural, Hash)]
pub enum BlstErrorWrapper {
    BlstBadEncoding,
    BlstPointNotOnCurve,
    BlstPointNotInGroup,
    BlstAggrTypeMismatch,
    BlstVerifyFail,
    BlstPkIsInfinity,
    BlstBadScalar,
}

impl BlstErrorWrapper {
    /// The name of the failure.
    pub open spec fn spec_name(self) -> Seq<char> {
        match self {
            BlstErrorWrapper::BlstBadEncoding => "BlstBadEncoding"@,
            BlstErrorWrapper::BlstPointNotOnCurve => "BlstPointNotOnCurve"@,
            BlstErrorWrapper::BlstPointNotInGroup => "BlstPointNotInGroup"@,
            BlstErrorWrapper::BlstAggrTypeMismatch => "BlstAggrTypeMismatch"@,
            BlstErrorWrapper::BlstVerifyFail => "BlstVerifyFail"@,
            BlstErrorWrapper::BlstPkIsInfinity => "BlstPkIsInfinity"@,
            BlstErrorWrapper::BlstBadScalar => "BlstBadScalar"@,
        }
    }

    /// The name of the failure.
    pub fn name(&self) -> (name: &'static str)
        ensures
            name@ == self.spec_name(),
    {
        match self {
            BlstErrorWrapper::BlstBadEncoding => "BlstBadEncoding",
            BlstErrorWrapper::BlstPointNotOnCurve => "BlstPointNotOnCurve",
            BlstErrorWrapper::BlstPointNotInGroup => "BlstPointNotInGroup",
            BlstErrorWrapper::BlstAggrTypeMismatch => "BlstAggrTypeMismatch",
            BlstErrorWrapper::BlstVerifyFail => "BlstVerifyFail",
            BlstErrorWrapper::BlstPkIsInfinity => "BlstPkIsInfinity",
            BlstErrorWrapper::BlstBadScalar => "BlstBadScalar",
        }
    }
}

} // verus!
