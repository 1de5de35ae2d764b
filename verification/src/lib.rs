//! Issuing and validating signed, time-bounded, domain-scoped software licenses.
//!
//! An issuer makes a license record, serializes it, signs the bytes and puts
//! both in a license artifact. A validator authenticates the artifact and
//! then enforces the record's expiry and its domains. Both share one signing
//! scheme and one entitlement policy.
//!
//! - [`tier`]: the license tiers and what each of them grants.
//! - [`instant`]: points in time, read and written through `chrono`.
//! - [`record`]: the license record and its JSON document.
//! - [`signing`]: the keyed digest that signs a payload, through `sha2` and `hex`.
//! - [`encoding`]: the base64 text of a payload, through `base64`.
//! - [`license_file`]: the artifact and its JSON document.
//! - [`json`]: JSON documents, read and written through `serde_json`.
//! - [`issuer`] and [`validator`]: the two roles.
//! - [`args`] and [`options`]: the command-line options of the two roles.
//! - [`laws`]: what holds between issuing and validating.
//!
//! Every function is verified against its contract. The contracts of the few
//! functions that call into other crates are taken on trust; each of them
//! says in its documentation which function it calls and what it assumes.

pub mod args;
pub mod encoding;
pub mod instant;
pub mod issuer;
pub mod json;
pub mod laws;
pub mod license_file;
pub mod options;
pub mod record;
pub mod signing;
pub mod text;
pub mod tier;
pub mod validator;

pub use args::get_arg;
pub use instant::Timestamp;
pub use issuer::{issue_license, issue_license_at, IssueError, IssueParams, IssuedLicense};
pub use license_file::LicenseFile;
pub use options::{
    domain_from_args, issue_params_from_args, license_path_from_args, output_from_args,
};
pub use record::LicenseInfo;
pub use signing::{compute_signature, verify_signature};
pub use tier::{get_features_for_type, get_max_users_for_type, LicenseType};
pub use validator::{validate_license, validate_license_at, ValidationError};
