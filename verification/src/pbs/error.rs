//! Errors of a request to a relay and of the check of its response.

use vstd::prelude::*;

use crate::error::BlstErrorWrapper;
use crate::text::{
    decimal, encode_prefixed, limbs_decimal, spec_decimal, spec_hex_prefixed, spec_limbs_value,
};

verus! {

/// What this library keeps of a failure of the HTTP client: its message, and
/// whether the client reports the failure as a timeout.
#[derive(Debug, Clone, PartialEq, Eq)]
pub struct ReqwestError {
    pub message: String,
    pub is_timeout: bool,
}

/// Why a request to a relay failed.
#[derive(Debug, Clone, PartialEq, Eq)]
pub enum PbsError {
    /// The request could not be built; the text is the cause.
    AxumError(String),
    /// The transport failed.
    Reqwest(ReqwestError),
    /// The response is no JSON of the expected form; the text is the cause.
    SerdeDecodeError(String),
    /// The relay answered with an error of its own.
    RelayResponse { error_msg: String, code: u16 },
    /// The body of the response is larger than is accepted.
    PayloadTooLarge { payload_size: usize },
    /// The response was read and found invalid.
    Validation(ValidationError),
    /// The address of the relay is no URL; the text is the cause.
    UrlParsing(String),
}

/// Why the response of a relay is invalid.
#[derive(Debug, Clone, PartialEq, Eq)]
#[allow(inconsistent_fields)]
pub enum ValidationError {
    EmptyBlockhash,
    PubkeyMismatch { expected: [u8; 48], got: [u8; 48] },
    ParentHashMismatch { expected: [u8; 32], got: [u8; 32] },
    BlockHashMismatch { expected: [u8; 32], got: [u8; 32] },
    KzgCommitments {
        expected_blobs: usize,
        got_blobs: usize,
        got_commitments: usize,
        got_proofs: usize,
    },
    KzgMismatch { expected: String, got: String, index: usize },
    /// Both values are numbers of 256 bits, as four limbs with the least
    /// significant first.
    BidTooLow { min: [u64; 4], got: [u64; 4] },
    EmptyTxRoot,
    Sigverify(BlstErrorWrapper),
}

impl ValidationError {
    /// Whether the four counts of blobs agree.
    pub open spec fn kzg_counts_agree(
        expected_blobs: usize,
        got_blobs: usize,
        got_commitments: usize,
        got_proofs: usize,
    ) -> bool {
        expected_blobs == got_blobs && got_blobs == got_commitments && got_commitments
            == got_proofs
    }

    /// Holds the blobs that were received against those that were expected:
    /// the counts of blobs, commitments and proofs must all be the expected
    /// count, and where one differs the error carries all four.
    pub fn check_kzg_counts(
        expected_blobs: usize,
        got_blobs: usize,
        got_commitments: usize,
        got_proofs: usize,
    ) -> (result: Result<(), ValidationError>)
        ensures
            result is Ok <==> Self::kzg_counts_agree(
                expected_blobs,
                got_blobs,
                got_commitments,
                got_proofs,
            ),
            result matches Err(error) ==> error == (ValidationError::KzgCommitments {
                expected_blobs,
                got_blobs,
                got_commitments,
                got_proofs,
            }),
    {
        if expected_blobs != got_blobs || got_blobs != got_commitments || got_commitments
            != got_proofs {
            Err(
                ValidationError::KzgCommitments {
                    expected_blobs,
                    got_blobs,
                    got_commitments,
                    got_proofs,
                },
            )
        } else {
            Ok(())
        }
    }

    /// The message of the error, with every value that it carries.
    pub open spec fn spec_message(&self) -> Seq<char> {
        match self {
            ValidationError::EmptyBlockhash => "empty blockhash"@,
            ValidationError::PubkeyMismatch { expected, got } => "pubkey mismatch: expected "@
                + spec_hex_prefixed(expected@) + " got "@ + spec_hex_prefixed(got@),
            ValidationError::ParentHashMismatch {
                expected,
                got,
            } => "parent hash mismatch: expected "@ + spec_hex_prefixed(expected@) + " got "@
                + spec_hex_prefixed(got@),
            ValidationError::BlockHashMismatch {
                expected,
                got,
            } => "block hash mismatch: expected "@ + spec_hex_prefixed(expected@) + " got "@
                + spec_hex_prefixed(got@),
            ValidationError::KzgCommitments {
                expected_blobs,
                got_blobs,
                got_commitments,
                got_proofs,
            } => "mismatch in KZG commitments: exepcted_blobs: "@ + spec_decimal(
                *expected_blobs as nat,
            ) + " got_blobs: "@ + spec_decimal(*got_blobs as nat) + " got_commitments: "@
                + spec_decimal(*got_commitments as nat) + " got_proofs: "@ + spec_decimal(
                *got_proofs as nat,
            ),
            ValidationError::KzgMismatch {
                expected,
                got,
                index,
            } => "mismatch in KZG blob commitment: expected: "@ + expected@ + " got: "@ + got@
                + " index: "@ + spec_decimal(*index as nat),
            ValidationError::BidTooLow { min, got } => "bid below minimum: min: "@ + spec_decimal(
                spec_limbs_value(min@),
            ) + " got "@ + spec_decimal(spec_limbs_value(got@)),
            ValidationError::EmptyTxRoot => "empty tx root"@,
            ValidationError::Sigverify(cause) => "failed signature verification: "@
                + cause.spec_name(),
        }
    }

    /// The message of the error.
    pub fn message(&self) -> (text: String)
        ensures
            text@ == self.spec_message(),
    {
        match self {
            ValidationError::EmptyBlockhash => "empty blockhash".to_owned(),
            ValidationError::PubkeyMismatch { expected, got } => {
                let mut text = "pubkey mismatch: expected ".to_owned();
                text.append(encode_prefixed(expected.as_slice()).as_str());
                text.append(" got ");
                text.append(encode_prefixed(got.as_slice()).as_str());
                text
            },
            ValidationError::ParentHashMismatch { expected, got } => {
                let mut text = "parent hash mismatch: expected ".to_owned();
                text.append(encode_prefixed(expected.as_slice()).as_str());
                text.append(" got ");
                text.append(encode_prefixed(got.as_slice()).as_str());
                text
            },
            ValidationError::BlockHashMismatch { expected, got } => {
                let mut text = "block hash mismatch: expected ".to_owned();
                text.append(encode_prefixed(expected.as_slice()).as_str());
                text.append(" got ");
                text.append(encode_prefixed(got.as_slice()).as_str());
                text
            },
            ValidationError::KzgCommitments {
                expected_blobs,
                got_blobs,
                got_commitments,
                got_proofs,
            } => {
                let mut text = "mismatch in KZG commitments: exepcted_blobs: ".to_owned();
                text.append(decimal(*expected_blobs as u64).as_str());
                text.append(" got_blobs: ");
                text.append(decimal(*got_blobs as u64).as_str());
                text.append(" got_commitments: ");
                text.append(decimal(*got_commitments as u64).as_str());
                text.append(" got_proofs: ");
                text.append(decimal(*got_proofs as u64).as_str());
                text
            },
            ValidationError::KzgMismatch { expected, got, index } => {
                let mut text = "mismatch in KZG blob commitment: expected: ".to_owned();
                text.append(expected.as_str());
                text.append(" got: ");
                text.append(got.as_str());
                text.append(" index: ");
                text.append(decimal(*index as u64).as_str());
                text
            },
            ValidationError::BidTooLow { min, got } => {
                let mut text = "bid below minimum: min: ".to_owned();
                text.append(limbs_decimal(*min).as_str());
                text.append(" got ");
                text.append(limbs_decimal(*got).as_str());
                text
            },
            ValidationError::EmptyTxRoot => "empty tx root".to_owned(),
            ValidationError::Sigverify(cause) => {
                let mut text = "failed signature verification: ".to_owned();
                text.append(cause.name());
                text
            },
        }
    }
}

impl From<ValidationError> for PbsError {
    fn from(value: ValidationError) -> (error: PbsError) {
        PbsError::Validation(value)
    }
}

impl vstd::std_specs::convert::FromSpecImpl<ValidationError> for PbsError {
    open spec fn obeys_from_spec() -> bool {
        true
    }

    open spec fn from_spec(value: ValidationError) -> PbsError {
        PbsError::Validation(value)
    }
}

impl PbsError {
    /// Whether the error is a failure of the transport that the client reports
    /// as a timeout. Every other error is none, a response that is too large
    /// and an error of the relay among them.
    pub open spec fn spec_is_timeout(&self) -> bool {
        self matches PbsError::Reqwest(cause) && cause.is_timeout
    }

    /// Whether the error is a timeout, after which the request may be tried
    /// again.
    pub fn is_timeout(&self) -> (timeout: bool)
        ensures
            timeout == self.spec_is_timeout(),
    {
        match self {
            PbsError::Reqwest(cause) => cause.is_timeout,
            _ => false,
        }
    }

    /// The message of the error, with every value that it carries.
    pub open spec fn spec_message(&self) -> Seq<char> {
        match self {
            PbsError::AxumError(cause) => "axum error: "@ + cause@,
            PbsError::Reqwest(cause) => "reqwest error: "@ + cause.message@,
            PbsError::SerdeDecodeError(cause) => "serde decode error: "@ + cause@,
            PbsError::RelayResponse { error_msg, code } => "relay response error. Code: "@
                + spec_decimal(*code as nat) + ", err: "@ + error_msg@,
            PbsError::PayloadTooLarge { payload_size } => "Response size exceeds 10MB! Got: "@
                + spec_decimal(*payload_size as nat),
            PbsError::Validation(cause) => "failed validating relay response: "@
                + cause.spec_message(),
            PbsError::UrlParsing(cause) => "URL parsing error: "@ + cause@,
        }
    }

    /// The message of the error.
    pub fn message(&self) -> (text: String)
        ensures
            text@ == self.spec_message(),
    {
        match self {
            PbsError::AxumError(cause) => {
                let mut text = "axum error: ".to_owned();
                text.append(cause.as_str());
                text
            },
            PbsError::Reqwest(cause) => {
                let mut text = "reqwest error: ".to_owned();
                text.append(cause.message.as_str());
                text
            },
            PbsError::SerdeDecodeError(cause) => {
                let mut text = "serde decode error: ".to_owned();
                text.append(cause.as_str());
                text
            },
            PbsError::RelayResponse { error_msg, code } => {
                let mut text = "relay response error. Code: ".to_owned();
                text.append(decimal(*code as u64).as_str());
                text.append(", err: ");
                text.append(error_msg.as_str());
                text
            },
            PbsError::PayloadTooLarge { payload_size } => {
                let mut text = "Response size exceeds 10MB! Got: ".to_owned();
                text.append(decimal(*payload_size as u64).as_str());
                text
            },
            PbsError::Validation(cause) => {
                let mut text = "failed validating relay response: ".to_owned();
                text.append(cause.message().as_str());
                text
            },
            PbsError::UrlParsing(cause) => {
                let mut text = "URL parsing error: ".to_owned();
                text.append(cause.as_str());
                text
            },
        }
    }
}

/// An error is a timeout only as a failure of the transport that is flagged
/// as one: no other kind of error is, whatever it carries.
pub proof fn lemma_timeout_only_from_transport(error: PbsError)
    ensures
        error.spec_is_timeout() ==> error is Reqwest,
        error matches PbsError::Reqwest(cause) ==> error.spec_is_timeout() == cause.is_timeout,
        error is PayloadTooLarge ==> !error.spec_is_timeout(),
        error is RelayResponse ==> !error.spec_is_timeout(),
        error is AxumError || error is SerdeDecodeError || error is Validation || error
            is UrlParsing ==> !error.spec_is_timeout(),
{
}

/// The four counts of blobs pass the check exactly when they are one number;
/// where any two of them differ the check fails.
pub proof fn lemma_kzg_counts(
    expected_blobs: usize,
    got_blobs: usize,
    got_commitments: usize,
    got_proofs: usize,
)
    ensures
        ValidationError::kzg_counts_agree(expected_blobs, got_blobs, got_commitments, got_proofs)
            <==> expected_blobs == got_blobs && expected_blobs == got_commitments
            && expected_blobs == got_proofs && got_blobs == got_commitments && got_blobs
            == got_proofs && got_commitments == got_proofs,
{
}

} // verus!
