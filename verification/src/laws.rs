//! Laws that relate the issuer and the validator.

use crate::encoding::{base64_bytes, base64_text_decodes_back};
use crate::instant::Timestamp;
use crate::issuer::{issue_outcome, issued_record, sealed, IssueRequest, IssuedView};
use crate::json::{json_of_bytes, json_of_text};
use crate::license_file::{file_tree, file_tree_reads_back, LicenseFileView, CURRENT_VERSION};
use crate::record::{record_bytes, record_tree, record_tree_reads_back, LicenseRecord};
use crate::signing::{hex_text, hex_text_is_injective, signature_bytes};
use crate::validator::{
    authentic_payload, file_outcome, license_outcome, terms_outcome, ValidationFailure,
};
use vstd::prelude::*;

verus! {

/// Whether the writers and readers of dates and of JSON that an issued
/// license went through agree on it: each date, the record's document and
/// the artifact's document are read as what they were written from.
pub open spec fn reads_back(issued: IssuedView) -> bool {
    &&& issued.record.issued_at.spec_to_rfc3339() matches Some(text) && Timestamp::spec_parse(text) == Some(
        issued.record.issued_at,
    )
    &&& issued.record.expires_at.spec_to_rfc3339() matches Some(text) && Timestamp::spec_parse(text)
        == Some(issued.record.expires_at)
    &&& record_bytes(issued.record) matches Some(payload) && json_of_bytes(payload) == record_tree(
        issued.record,
    )
    &&& json_of_text(issued.text) == Some(file_tree(issued.file))
}

/// An issued record meets its own terms. The record of a license issued at
/// `now` ends after `now`, grants exactly what the entitlement policy gives
/// the tier asked for, and passes the checks on expiry and domain at every
/// time before it ends, for every host that it covers and where no host is
/// asked about.
pub proof fn issued_record_meets_its_terms(
    request: IssueRequest,
    now: Timestamp,
    domain: Option<Seq<char>>,
    at: Timestamp,
)
    requires
        issued_record(request, now) is Ok,
        issued_record(request, now)->Ok_0.expires_at.spec_is_after(at),
        domain is Some ==> issued_record(request, now)->Ok_0.covers(domain->Some_0),
    ensures
        issued_record(request, now)->Ok_0.well_formed(),
        issued_record(request, now)->Ok_0.issued_at == now,
        issued_record(request, now)->Ok_0.features == request.license_type.spec_features(),
        issued_record(request, now)->Ok_0.max_users == request.license_type.spec_max_users(),
        terms_outcome(issued_record(request, now)->Ok_0, domain, at) == Ok::<
            LicenseRecord,
            ValidationFailure,
        >(issued_record(request, now)->Ok_0),
{
}

/// An issued license validates. Where a request is served at `now`, and the
/// writers and readers of dates and of JSON agree on what was written,
/// validation of the issued text gives the issued record, at every time
/// before the license ends, for every host that the record covers and where
/// no host is asked about. That record grants exactly what the entitlement
/// policy gives the tier asked for.
pub proof fn issued_license_validates(
    request: IssueRequest,
    now: Timestamp,
    domain: Option<Seq<char>>,
    at: Timestamp,
)
    requires
        issue_outcome(request, now) is Ok,
        reads_back(issue_outcome(request, now)->Ok_0),
        issue_outcome(request, now)->Ok_0.record.expires_at.spec_is_after(at),
        domain is Some ==> issue_outcome(request, now)->Ok_0.record.covers(domain->Some_0),
    ensures
        license_outcome(issue_outcome(request, now)->Ok_0.text, domain, at) == Ok::<
            LicenseRecord,
            ValidationFailure,
        >(issue_outcome(request, now)->Ok_0.record),
        issue_outcome(request, now)->Ok_0.record.features == request.license_type.spec_features(),
        issue_outcome(request, now)->Ok_0.record.max_users == request.license_type.spec_max_users(),
{
    let issued = issue_outcome(request, now)->Ok_0;
    let record = issued.record;
    let payload = record_bytes(record)->Some_0;
    sealed_payload_authenticates(payload);
    file_tree_reads_back(issued.file);
    record_tree_reads_back(
        record,
        record.issued_at.spec_to_rfc3339()->Some_0,
        record.expires_at.spec_to_rfc3339()->Some_0,
    );
}

/// A sealed payload authenticates: the artifact that seals a payload passes
/// the checks on version, payload text and signature, and gives the payload.
pub proof fn sealed_payload_authenticates(payload: Seq<u8>)
    ensures
        authentic_payload(sealed(payload)) == Ok::<Seq<u8>, ValidationFailure>(payload),
{
    base64_text_decodes_back(payload);
}

/// A payload that was tampered with is refused. Take an artifact that
/// authenticates, and put another payload text in it, with the signature
/// left as it was. Where the new text is no base64 at all, the artifact is
/// malformed. Where it decodes to bytes whose signature differs from that of
/// the bytes signed, the signature is found invalid, whatever the payload
/// then says, at any time and for any host.
pub proof fn tampered_payload_is_refused(
    file: LicenseFileView,
    tampered: Seq<char>,
    domain: Option<Seq<char>>,
    now: Timestamp,
)
    requires
        authentic_payload(file) is Ok,
        base64_bytes(tampered) matches Some(altered) ==> signature_bytes(altered) != signature_bytes(
            authentic_payload(file)->Ok_0,
        ),
    ensures
        file_outcome(LicenseFileView { payload: tampered, ..file }, domain, now) == Err::<
            LicenseRecord,
            ValidationFailure,
        >(
            if base64_bytes(tampered) is Some {
                ValidationFailure::InvalidSignature
            } else {
                ValidationFailure::Malformed
            },
        ),
{
    if base64_bytes(tampered) is Some {
        let altered = signature_bytes(base64_bytes(tampered)->Some_0);
        let signed = signature_bytes(authentic_payload(file)->Ok_0);
        if hex_text(altered) == hex_text(signed) {
            hex_text_is_injective(altered, signed);
        }
    }
}

/// The version gate: an artifact of any version but the current one is
/// refused as unsupported, whatever its payload and its signature are.
pub proof fn other_version_is_refused(file: LicenseFileView, domain: Option<Seq<char>>, now: Timestamp)
    requires
        file.version != CURRENT_VERSION,
    ensures
        file_outcome(file, domain, now) == Err::<LicenseRecord, ValidationFailure>(
            ValidationFailure::UnsupportedVersion { version: file.version },
        ),
{
}

/// The expiry boundary: a record is in force exactly while its end lies
/// strictly after the time of validation, and a record that has run out is
/// refused whatever host is asked about.
pub proof fn expiry_decides_first(record: LicenseRecord, domain: Option<Seq<char>>, now: Timestamp)
    ensures
        !record.expires_at.spec_is_after(now) ==> terms_outcome(record, domain, now) == Err::<
            LicenseRecord,
            ValidationFailure,
        >(ValidationFailure::Expired { expires_at: record.expires_at }),
        record.expires_at.spec_is_after(now) ==> !(terms_outcome(record, domain, now) matches Err(
            ValidationFailure::Expired { .. },
        )),
{
}

/// Domain scoping: a record in force passes where no host is asked about
/// and where it names no host; where it names hosts, it passes for those
/// hosts and is refused for every other.
pub proof fn domains_scope_a_license(record: LicenseRecord, domain: Option<Seq<char>>, now: Timestamp)
    requires
        record.expires_at.spec_is_after(now),
    ensures
        domain is None ==> terms_outcome(record, domain, now) == Ok::<
            LicenseRecord,
            ValidationFailure,
        >(record),
        record.domains.len() == 0 ==> terms_outcome(record, domain, now) == Ok::<
            LicenseRecord,
            ValidationFailure,
        >(record),
        domain is Some && record.domains.contains(domain->Some_0) ==> terms_outcome(record, domain, now)
            == Ok::<LicenseRecord, ValidationFailure>(record),
        domain is Some && record.domains.len() > 0 && !record.domains.contains(domain->Some_0)
            ==> terms_outcome(record, domain, now) == Err::<LicenseRecord, ValidationFailure>(
            ValidationFailure::DomainNotLicensed { domain: domain->Some_0, licensed: record.domains },
        ),
{
}

} // verus!
