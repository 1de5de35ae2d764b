//! The validator: authenticates a license artifact and enforces the terms of
//! its record.
//!
//! The checks run in a fixed order and stop at the first that fails: the
//! envelope is parsed, its version is checked, the payload is decoded, the
//! signature is verified, the record is parsed, and only then are its expiry
//! and its domains checked. No payload is parsed before it is authenticated.

use crate::encoding::{base64_bytes, decode_payload};
use crate::instant::Timestamp;
use crate::license_file::{file_of_text, LicenseFile, LicenseFileView, CURRENT_VERSION};
use crate::record::{record_of_bytes, LicenseInfo, LicenseRecord};
use crate::signing::{signature_text, verify_signature};
use crate::text::{copy_texts, same_text};
use vstd::prelude::*;

verus! {

/// Why a license was refused.
#[derive(Clone, Debug, PartialEq, Eq)]
pub enum ValidationError {
    /// The license could not be loaded from where it is kept. The validator
    /// itself never reports this: it is for the caller that loads the text.
    Unreadable,
    /// The envelope, the payload text or the record is not in the form it must have.
    Malformed,
    /// The artifact is of a version that this validator does not implement.
    UnsupportedVersion { version: u8 },
    /// The signature is not that of the payload.
    InvalidSignature,
    /// The license has run out.
    Expired { expires_at: Timestamp },
    /// The license names hosts, and the host asked about is not among them.
    DomainNotLicensed { domain: String, licensed: Vec<String> },
}

/// What a `ValidationError` holds.
pub enum ValidationFailure {
    Unreadable,
    Malformed,
    UnsupportedVersion { version: u8 },
    InvalidSignature,
    Expired { expires_at: Timestamp },
    DomainNotLicensed { domain: Seq<char>, licensed: Seq<Seq<char>> },
}

impl View for ValidationError {
    type V = ValidationFailure;

    open spec fn view(&self) -> ValidationFailure {
        match self {
            ValidationError::Unreadable => ValidationFailure::Unreadable,
            ValidationError::Malformed => ValidationFailure::Malformed,
            ValidationError::UnsupportedVersion { version } => ValidationFailure::UnsupportedVersion {
                version: *version,
            },
            ValidationError::InvalidSignature => ValidationFailure::InvalidSignature,
            ValidationError::Expired { expires_at } => ValidationFailure::Expired {
                expires_at: *expires_at,
            },
            ValidationError::DomainNotLicensed { domain, licensed } => ValidationFailure::DomainNotLicensed {
                domain: domain@,
                licensed: licensed.deep_view(),
            },
        }
    }
}

/// The view of what the validator returns.
pub open spec fn outcome_view(outcome: Result<LicenseInfo, ValidationError>) -> Result<
    LicenseRecord,
    ValidationFailure,
> {
    match outcome {
        Ok(info) => Ok(info@),
        Err(error) => Err(error@),
    }
}

/// The view of a host name that may be absent.
pub open spec fn domain_view(domain: Option<&str>) -> Option<Seq<char>> {
    match domain {
        Some(domain) => Some(domain@),
        None => None,
    }
}

/// The version gate: only the current version passes.
pub open spec fn version_outcome(version: u8) -> Result<(), ValidationFailure> {
    if version == CURRENT_VERSION {
        Ok(())
    } else {
        Err(ValidationFailure::UnsupportedVersion { version })
    }
}

/// The expiry check: the record must end strictly after `now`.
pub open spec fn expiry_outcome(record: LicenseRecord, now: Timestamp) -> Result<(), ValidationFailure> {
    if record.expires_at.spec_is_after(now) {
        Ok(())
    } else {
        Err(ValidationFailure::Expired { expires_at: record.expires_at })
    }
}

/// The domain check. It passes where no host is asked about, where the
/// record names no host, and where the record names the host asked about.
pub open spec fn domain_outcome(record: LicenseRecord, domain: Option<Seq<char>>) -> Result<
    (),
    ValidationFailure,
> {
    match domain {
        Some(domain) => if record.covers(domain) {
            Ok(())
        } else {
            Err(ValidationFailure::DomainNotLicensed { domain, licensed: record.domains })
        },
        None => Ok(()),
    }
}

/// The checks on an envelope up to the authenticated payload bytes: version,
/// then payload text, then signature.
pub open spec fn authentic_payload(file: LicenseFileView) -> Result<Seq<u8>, ValidationFailure> {
    if version_outcome(file.version) is Err {
        Err(version_outcome(file.version)->Err_0)
    } else {
        match base64_bytes(file.payload) {
            None => Err(ValidationFailure::Malformed),
            Some(payload) => if file.signature == signature_text(payload) {
                Ok(payload)
            } else {
                Err(ValidationFailure::InvalidSignature)
            },
        }
    }
}

/// The checks on a record: expiry, then domain.
pub open spec fn terms_outcome(record: LicenseRecord, domain: Option<Seq<char>>, now: Timestamp) -> Result<
    LicenseRecord,
    ValidationFailure,
> {
    if expiry_outcome(record, now) is Err {
        Err(expiry_outcome(record, now)->Err_0)
    } else if domain_outcome(record, domain) is Err {
        Err(domain_outcome(record, domain)->Err_0)
    } else {
        Ok(record)
    }
}

/// What validation of an envelope gives at the time `now`.
pub open spec fn file_outcome(file: LicenseFileView, domain: Option<Seq<char>>, now: Timestamp) -> Result<
    LicenseRecord,
    ValidationFailure,
> {
    match authentic_payload(file) {
        Err(failure) => Err(failure),
        Ok(payload) => match record_of_bytes(payload) {
            None => Err(ValidationFailure::Malformed),
            Some(record) => terms_outcome(record, domain, now),
        },
    }
}

/// What validation of the text of a license file gives at the time `now`.
pub open spec fn license_outcome(text: Seq<char>, domain: Option<Seq<char>>, now: Timestamp) -> Result<
    LicenseRecord,
    ValidationFailure,
> {
    match file_of_text(text) {
        None => Err(ValidationFailure::Malformed),
        Some(file) => file_outcome(file, domain, now),
    }
}

/// Checks that an artifact is of the version that this validator implements.
pub fn check_version(file: &LicenseFile) -> (outcome: Result<(), ValidationError>)
    ensures
        outcome is Ok <==> version_outcome(file.version) is Ok,
        outcome is Err ==> version_outcome(file.version) == Err::<(), ValidationFailure>(outcome->Err_0@),
{
    if file.version == CURRENT_VERSION {
        Ok(())
    } else {
        Err(ValidationError::UnsupportedVersion { version: file.version })
    }
}

/// Checks that a record has not run out at the time `now`.
pub fn check_expiry(info: &LicenseInfo, now: Timestamp) -> (outcome: Result<(), ValidationError>)
    ensures
        outcome is Ok <==> expiry_outcome(info@, now) is Ok,
        outcome is Err ==> expiry_outcome(info@, now) == Err::<(), ValidationFailure>(outcome->Err_0@),
{
    if info.expires_at.is_after(now) {
        Ok(())
    } else {
        Err(ValidationError::Expired { expires_at: info.expires_at })
    }
}

/// Whether a list of host names holds a host name.
pub fn names_domain(domains: &Vec<String>, domain: &str) -> (found: bool)
    ensures
        found == domains.deep_view().contains(domain@),
{
    let mut i: usize = 0;
    while i < domains.len()
        invariant
            i <= domains.len(),
            forall|k: int| 0 <= k < i ==> domains@[k]@ != domain@,
        decreases domains.len() - i,
    {
        if same_text(domains[i].as_str(), domain) {
            assert(domains.deep_view()[i as int] == domain@);
            return true;
        }
        i += 1;
    }
    assert forall|k: int| 0 <= k < domains.deep_view().len() implies domains.deep_view()[k] != domain@ by {
    }
    false
}

/// Checks that a record covers the host asked about, if one is asked about.
pub fn check_domain(info: &LicenseInfo, domain: Option<&str>) -> (outcome: Result<(), ValidationError>)
    ensures
        outcome is Ok <==> domain_outcome(info@, domain_view(domain)) is Ok,
        outcome is Err ==> domain_outcome(info@, domain_view(domain)) == Err::<(), ValidationFailure>(
            outcome->Err_0@,
        ),
{
    match domain {
        Some(domain) => {
            if info.domains.len() == 0 || names_domain(&info.domains, domain) {
                Ok(())
            } else {
                Err(
                    ValidationError::DomainNotLicensed {
                        domain: domain.to_owned(),
                        licensed: copy_texts(&info.domains),
                    },
                )
            }
        },
        None => Ok(()),
    }
}

/// Authenticates an artifact: checks its version, decodes its payload, and
/// verifies its signature over the decoded bytes, in that order. Gives the
/// payload bytes, which are then known to come from a holder of the secret.
pub fn authenticate(file: &LicenseFile) -> (outcome: Result<Vec<u8>, ValidationError>)
    ensures
        outcome is Ok ==> authentic_payload(file@) == Ok::<Seq<u8>, ValidationFailure>(outcome->Ok_0@),
        outcome is Err ==> authentic_payload(file@) == Err::<Seq<u8>, ValidationFailure>(outcome->Err_0@),
{
    match check_version(file) {
        Ok(()) => {},
        Err(error) => {
            return Err(error);
        },
    }
    let payload = match decode_payload(file.payload.as_str()) {
        Some(payload) => payload,
        None => {
            return Err(ValidationError::Malformed);
        },
    };
    if !verify_signature(payload.as_slice(), file.signature.as_str()) {
        return Err(ValidationError::InvalidSignature);
    }
    Ok(payload)
}

/// Enforces the terms of a record at the time `now`: first its expiry, then
/// its domains. Gives the record back unchanged where it passes.
pub fn check_terms(info: LicenseInfo, domain: Option<&str>, now: Timestamp) -> (outcome: Result<
    LicenseInfo,
    ValidationError,
>)
    ensures
        outcome_view(outcome) == terms_outcome(info@, domain_view(domain), now),
        outcome is Ok ==> outcome->Ok_0 == info,
{
    match check_expiry(&info, now) {
        Ok(()) => {},
        Err(error) => {
            return Err(error);
        },
    }
    match check_domain(&info, domain) {
        Ok(()) => {},
        Err(error) => {
            return Err(error);
        },
    }
    Ok(info)
}

/// Validates an artifact at the time `now`: authenticates it, reads the
/// record from the authenticated payload, and enforces the record's terms.
pub fn validate_file(file: &LicenseFile, domain: Option<&str>, now: Timestamp) -> (outcome: Result<
    LicenseInfo,
    ValidationError,
>)
    ensures
        outcome_view(outcome) == file_outcome(file@, domain_view(domain), now),
{
    let payload = match authenticate(file) {
        Ok(payload) => payload,
        Err(error) => {
            return Err(error);
        },
    };
    let info = match LicenseInfo::from_json_bytes(payload.as_slice()) {
        Some(info) => info,
        None => {
            return Err(ValidationError::Malformed);
        },
    };
    check_terms(info, domain, now)
}

/// Validates the text of a license file at the time `now`, for the host
/// `check_domain` if one is given. Gives the record of a license that is
/// authentic, in force and valid for the host, and else the first reason
/// why it is not.
pub fn validate_license_at(content: &str, check_domain: Option<&str>, now: Timestamp) -> (outcome: Result<
    LicenseInfo,
    ValidationError,
>)
    ensures
        outcome_view(outcome) == license_outcome(content@, domain_view(check_domain), now),
{
    match LicenseFile::from_text(content) {
        Some(file) => validate_file(&file, check_domain, now),
        None => Err(ValidationError::Malformed),
    }
}

/// Validates the text of a license file at the current time of the system
/// clock, for the host `check_domain` if one is given.
pub fn validate_license(content: &str, check_domain: Option<&str>) -> (outcome: Result<
    LicenseInfo,
    ValidationError,
>)
    ensures
        exists|now: Timestamp|
            outcome_view(outcome) == license_outcome(content@, domain_view(check_domain), now),
{
    let now = Timestamp::now();
    validate_license_at(content, check_domain, now)
}

} // verus!
