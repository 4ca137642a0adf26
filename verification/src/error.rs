use vstd::prelude::*;

verus! {

/// The status codes that the DDS layer reports, `Ok` among them.
#[derive(Clone, Copy, Debug, PartialEq, Eq, Structural)]
pub enum DdsRetcode {
    DdsOk,
    DdsError,
    Unsupported,
    BadParameter,
    PreconditionNotMet,
    OutOfResources,
    NotEnabled,
    ImmutablePolicy,
    InconsistentPolicy,
    AlreadyDeleted,
    Timeout,
    NoData,
    IllegalOperation,
    NotAllowedBySecurity,
}

/// An error reported by the DDS layer.
#[derive(Clone, Copy, Debug, PartialEq, Eq, Structural)]
pub enum DDSError {
    DdsError,
    Unsupported,
    BadParameter,
    PreconditionNotMet,
    OutOfResources,
    NotEnabled,
    ImmutablePolicy,
    InconsistentPolicy,
    AlreadyDeleted,
    Timeout,
    NoData,
    IllegalOperation,
    NotAllowedBySecurity,
}

/// The error that a failing DDS status code stands for.
pub open spec fn spec_dds_error(code: DdsRetcode) -> DDSError
    recommends
        code != DdsRetcode::DdsOk,
{
    match code {
        DdsRetcode::DdsError => DDSError::DdsError,
        DdsRetcode::Unsupported => DDSError::Unsupported,
        DdsRetcode::BadParameter => DDSError::BadParameter,
        DdsRetcode::PreconditionNotMet => DDSError::PreconditionNotMet,
        DdsRetcode::OutOfResources => DDSError::OutOfResources,
        DdsRetcode::NotEnabled => DDSError::NotEnabled,
        DdsRetcode::ImmutablePolicy => DDSError::ImmutablePolicy,
        DdsRetcode::InconsistentPolicy => DDSError::InconsistentPolicy,
        DdsRetcode::AlreadyDeleted => DDSError::AlreadyDeleted,
        DdsRetcode::Timeout => DDSError::Timeout,
        DdsRetcode::NoData => DDSError::NoData,
        DdsRetcode::IllegalOperation => DDSError::IllegalOperation,
        DdsRetcode::NotAllowedBySecurity => DDSError::NotAllowedBySecurity,
        DdsRetcode::DdsOk => DDSError::DdsError,
    }
}

/// The status code that an error is reported with.
pub open spec fn spec_retcode_of(e: DDSError) -> DdsRetcode {
    match e {
        DDSError::DdsError => DdsRetcode::DdsError,
        DDSError::Unsupported => DdsRetcode::Unsupported,
        DDSError::BadParameter => DdsRetcode::BadParameter,
        DDSError::PreconditionNotMet => DdsRetcode::PreconditionNotMet,
        DDSError::OutOfResources => DdsRetcode::OutOfResources,
        DDSError::NotEnabled => DdsRetcode::NotEnabled,
        DDSError::ImmutablePolicy => DdsRetcode::ImmutablePolicy,
        DDSError::InconsistentPolicy => DdsRetcode::InconsistentPolicy,
        DDSError::AlreadyDeleted => DdsRetcode::AlreadyDeleted,
        DDSError::Timeout => DdsRetcode::Timeout,
        DDSError::NoData => DdsRetcode::NoData,
        DDSError::IllegalOperation => DdsRetcode::IllegalOperation,
        DDSError::NotAllowedBySecurity => DdsRetcode::NotAllowedBySecurity,
    }
}

/// The human-readable text of each DDS error.
pub open spec fn spec_dds_error_message(e: DDSError) -> Seq<char> {
    match e {
        DDSError::DdsError => "DDS Error"@,
        DDSError::Unsupported => "DDS Unsupported"@,
        DDSError::BadParameter => "Bad Parameter"@,
        DDSError::PreconditionNotMet => "Preconditions not met"@,
        DDSError::OutOfResources => "Out of Resources"@,
        DDSError::NotEnabled => "Not Enabled"@,
        DDSError::ImmutablePolicy => "Immutable Policy"@,
        DDSError::InconsistentPolicy => "Inconsistent Policy"@,
        DDSError::AlreadyDeleted => "Already Deleted"@,
        DDSError::Timeout => "Timeout"@,
        DDSError::NoData => "No Data"@,
        DDSError::IllegalOperation => "Illegal Operation"@,
        DDSError::NotAllowedBySecurity => "Not allowed by security"@,
    }
}

impl DDSError {
    /// The error a failing status code stands for.  A success code is not an
    /// error and must not be converted.
    pub fn from_retcode(code: DdsRetcode) -> (e: DDSError)
        requires
            code != DdsRetcode::DdsOk,
        ensures
            e == spec_dds_error(code),
            spec_retcode_of(e) == code,
    {
        match code {
            DdsRetcode::DdsError => DDSError::DdsError,
            DdsRetcode::Unsupported => DDSError::Unsupported,
            DdsRetcode::BadParameter => DDSError::BadParameter,
            DdsRetcode::PreconditionNotMet => DDSError::PreconditionNotMet,
            DdsRetcode::OutOfResources => DDSError::OutOfResources,
            DdsRetcode::NotEnabled => DDSError::NotEnabled,
            DdsRetcode::ImmutablePolicy => DDSError::ImmutablePolicy,
            DdsRetcode::InconsistentPolicy => DDSError::InconsistentPolicy,
            DdsRetcode::AlreadyDeleted => DDSError::AlreadyDeleted,
            DdsRetcode::Timeout => DDSError::Timeout,
            DdsRetcode::NoData => DDSError::NoData,
            DdsRetcode::IllegalOperation => DDSError::IllegalOperation,
            DdsRetcode::NotAllowedBySecurity => DDSError::NotAllowedBySecurity,
            DdsRetcode::DdsOk => DDSError::DdsError,
        }
    }

    /// The human-readable text of the error.
    pub fn message(&self) -> (s: &'static str)
        ensures
            s@ == spec_dds_error_message(*self),
    {
        match self {
            DDSError::DdsError => "DDS Error",
            DDSError::Unsupported => "DDS Unsupported",
            DDSError::BadParameter => "Bad Parameter",
            DDSError::PreconditionNotMet => "Preconditions not met",
            DDSError::OutOfResources => "Out of Resources",
            DDSError::NotEnabled => "Not Enabled",
            DDSError::ImmutablePolicy => "Immutable Policy",
            DDSError::InconsistentPolicy => "Inconsistent Policy",
            DDSError::AlreadyDeleted => "Already Deleted",
            DDSError::Timeout => "Timeout",
            DDSError::NoData => "No Data",
            DDSError::IllegalOperation => "Illegal Operation",
            DDSError::NotAllowedBySecurity => "Not allowed by security",
        }
    }
}

/// Converting a failing status code and reading back the code of the error
/// gives the code again: no two failing codes become the same error.
pub proof fn lemma_retcode_conversion_injective(a: DdsRetcode, b: DdsRetcode)
    requires
        a != DdsRetcode::DdsOk,
        b != DdsRetcode::DdsOk,
        spec_dds_error(a) == spec_dds_error(b),
    ensures
        a == b,
{
}

/// The errors of the middleware.
#[derive(Debug)]
pub enum MiddlewareError {
    /// A failure reported by the DDS layer.
    DDSError(DDSError),
    /// The data for a key is not available.
    Redaction(String),
    /// A header did not hold what was expected.
    InvalidHeader { expected: String, found: String },
    /// Internal data structures are inconsistent.
    InconsistentDataStructure,
    /// A QoS policy could not be applied.
    QosError,
    /// A loan was requested while shared memory is not enabled.
    SharedMemoryNotEnabled,
    /// The service configuration does not fit what was asked of it.
    ConfigurationError,
    /// The runtime could not be set up.
    InternalError,
}

/// The middleware error a failed loan request is answered with.
pub open spec fn spec_loan_error(e: DDSError) -> MiddlewareError {
    if e == DDSError::NotEnabled {
        MiddlewareError::SharedMemoryNotEnabled
    } else {
        MiddlewareError::DDSError(e)
    }
}

/// Maps the DDS error of a failed loan request: a loan that is not enabled
/// means that shared memory is not available; every other error is passed on.
pub fn loan_error(e: DDSError) -> (r: MiddlewareError)
    ensures
        r == spec_loan_error(e),
{
    match e {
        DDSError::NotEnabled => MiddlewareError::SharedMemoryNotEnabled,
        _ => MiddlewareError::DDSError(e),
    }
}

impl MiddlewareError {
    /// The middleware error that a failing DDS status code is reported as.
    pub fn from_retcode(code: DdsRetcode) -> (r: MiddlewareError)
        requires
            code != DdsRetcode::DdsOk,
        ensures
            r == MiddlewareError::DDSError(spec_dds_error(code)),
    {
        MiddlewareError::DDSError(DDSError::from_retcode(code))
    }
}

} // verus!
