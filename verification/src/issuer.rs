//! The issuer: makes a license record from what was asked for, and seals it
//! in a signed artifact.

use crate::encoding::{base64_text, encodable_len, encode_payload};
use crate::instant::Timestamp;
use crate::license_file::{file_text, LicenseFile, LicenseFileView, CURRENT_VERSION};
use crate::record::{record_bytes, LicenseInfo, LicenseRecord};
use crate::signing::{compute_signature, signature_text};
use crate::tier::LicenseType;
use crate::text::copy_texts;
use vstd::prelude::*;

verus! {

/// What a license is asked for.
#[derive(Clone, Debug, PartialEq, Eq)]
pub struct IssueParams {
    /// Who buys the license.
    pub licensee: String,
    /// How to reach the licensee.
    pub email: String,
    /// The tier. What the license grants follows from it alone.
    pub license_type: LicenseType,
    /// The host names that the license is to be valid for; none at all for any host.
    pub domains: Vec<String>,
    /// For how many days from its issue the license is to run.
    pub days: i64,
}

/// What an `IssueParams` holds.
pub struct IssueRequest {
    pub licensee: Seq<char>,
    pub email: Seq<char>,
    pub license_type: LicenseType,
    pub domains: Seq<Seq<char>>,
    pub days: i64,
}

impl View for IssueParams {
    type V = IssueRequest;

    open spec fn view(&self) -> IssueRequest {
        IssueRequest {
            licensee: self.licensee@,
            email: self.email@,
            license_type: self.license_type,
            domains: self.domains.deep_view(),
            days: self.days,
        }
    }
}

/// Why no license was issued.
#[derive(Clone, Copy, Debug, PartialEq, Eq, Structural)]
pub enum IssueError {
    /// The license was asked to run for no days, or for fewer.
    InvalidDuration,
    /// The license cannot be written down: its end lies beyond the dates
    /// that can be written, or its text is too long for the machine, or
    /// `serde_json` reported an error.
    Unrepresentable,
}

/// An issued license.
#[derive(Debug, PartialEq, Eq)]
pub struct IssuedLicense {
    /// The record that the license carries.
    pub info: LicenseInfo,
    /// The signed artifact.
    pub file: LicenseFile,
    /// The text of the artifact, as it goes into the license file.
    pub text: String,
}

/// What an `IssuedLicense` holds.
pub struct IssuedView {
    pub record: LicenseRecord,
    pub file: LicenseFileView,
    pub text: Seq<char>,
}

impl View for IssuedLicense {
    type V = IssuedView;

    open spec fn view(&self) -> IssuedView {
        IssuedView { record: self.info@, file: self.file@, text: self.text@ }
    }
}

/// The record of a license issued at `now`: it runs from `now` for the days
/// asked for, and it grants what the entitlement policy gives its tier.
pub open spec fn issued_record(request: IssueRequest, now: Timestamp) -> Result<LicenseRecord, IssueError> {
    if request.days <= 0 {
        Err(IssueError::InvalidDuration)
    } else {
        match now.spec_plus_days(request.days) {
            Some(expires_at) => Ok(
                LicenseRecord {
                    licensee: request.licensee,
                    email: request.email,
                    license_type: request.license_type,
                    issued_at: now,
                    expires_at,
                    domains: request.domains,
                    features: request.license_type.spec_features(),
                    max_users: request.license_type.spec_max_users(),
                },
            ),
            None => Err(IssueError::Unrepresentable),
        }
    }
}

/// The artifact that seals a payload: the current version, the payload in
/// base64, and the signature of the payload bytes in hex.
pub open spec fn sealed(payload: Seq<u8>) -> LicenseFileView {
    LicenseFileView {
        version: CURRENT_VERSION,
        payload: base64_text(payload),
        signature: signature_text(payload),
    }
}

/// The license issued at `now` for a request.
pub open spec fn issue_outcome(request: IssueRequest, now: Timestamp) -> Result<IssuedView, IssueError> {
    match issued_record(request, now) {
        Err(error) => Err(error),
        Ok(record) => match record_bytes(record) {
            None => Err(IssueError::Unrepresentable),
            Some(payload) => if !encodable_len(payload.len() as int) {
                Err(IssueError::Unrepresentable)
            } else {
                match file_text(sealed(payload)) {
                    None => Err(IssueError::Unrepresentable),
                    Some(text) => Ok(IssuedView { record, file: sealed(payload), text }),
                }
            },
        },
    }
}

/// The view of what the issuer returns.
pub open spec fn issued_view(outcome: Result<IssuedLicense, IssueError>) -> Result<IssuedView, IssueError> {
    match outcome {
        Ok(issued) => Ok(issued@),
        Err(error) => Err(error),
    }
}

/// Makes the record of a license issued at `now`. The features and the user
/// ceiling come from the tier's entitlements and from nowhere else.
pub fn issue_record(params: &IssueParams, now: Timestamp) -> (outcome: Result<LicenseInfo, IssueError>)
    ensures
        outcome is Ok ==> issued_record(params@, now) == Ok::<LicenseRecord, IssueError>(outcome->Ok_0@),
        outcome is Err ==> issued_record(params@, now) == Err::<LicenseRecord, IssueError>(outcome->Err_0),
        outcome is Ok ==> outcome->Ok_0@.well_formed(),
{
    if params.days <= 0 {
        return Err(IssueError::InvalidDuration);
    }
    let expires_at = match now.plus_days(params.days) {
        Some(expires_at) => expires_at,
        None => {
            return Err(IssueError::Unrepresentable);
        },
    };
    Ok(
        LicenseInfo {
            licensee: params.licensee.clone(),
            email: params.email.clone(),
            license_type: params.license_type,
            issued_at: now,
            expires_at,
            domains: copy_texts(&params.domains),
            features: params.license_type.features(),
            max_users: params.license_type.max_users(),
        },
    )
}

/// Seals payload bytes in an artifact of the current version: the payload in
/// base64 and its signature in hex. `None` where the base64 text would be
/// too long for the machine.
pub fn seal(payload: &[u8]) -> (file: Option<LicenseFile>)
    ensures
        file is Some <==> encodable_len(payload@.len() as int),
        file is Some ==> file->Some_0@ == sealed(payload@),
{
    match encode_payload(payload) {
        Some(text) => Some(
            LicenseFile { version: CURRENT_VERSION, payload: text, signature: compute_signature(payload) },
        ),
        None => None,
    }
}

/// Issues a license at the time `now`: makes the record, serializes it,
/// signs the serialized bytes, and writes the artifact as text.
pub fn issue_license_at(params: &IssueParams, now: Timestamp) -> (outcome: Result<IssuedLicense, IssueError>)
    ensures
        issued_view(outcome) == issue_outcome(params@, now),
        outcome is Ok ==> outcome->Ok_0@.record.well_formed(),
{
    let info = match issue_record(params, now) {
        Ok(info) => info,
        Err(error) => {
            return Err(error);
        },
    };
    let payload = match info.to_json_bytes() {
        Some(payload) => payload,
        None => {
            return Err(IssueError::Unrepresentable);
        },
    };
    let file = match seal(payload.as_slice()) {
        Some(file) => file,
        None => {
            return Err(IssueError::Unrepresentable);
        },
    };
    let text = match file.to_text() {
        Some(text) => text,
        None => {
            return Err(IssueError::Unrepresentable);
        },
    };
    Ok(IssuedLicense { info, file, text })
}

/// Issues a license at the current time of the system clock.
pub fn issue_license(params: &IssueParams) -> (outcome: Result<IssuedLicense, IssueError>)
    ensures
        exists|now: Timestamp| issued_view(outcome) == issue_outcome(params@, now),
        outcome is Ok ==> outcome->Ok_0@.record.well_formed(),
{
    let now = Timestamp::now();
    issue_license_at(params, now)
}

} // verus!
