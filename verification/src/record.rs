//! The license record: who holds a license, of which tier, for how long, for
//! which domains, and what it grants.

use crate::instant::Timestamp;
use crate::json::{
    json_bytes, json_of_bytes, json_pretty_text, json_tree, member, text_at, text_member, texts_at,
    texts_member, texts_tree, texts_tree_reads_back, texts_value, unsigned_of, value_as_u64,
    value_from_slice, value_get, value_is_null, value_null, value_object, value_string,
    value_to_string_pretty, value_to_vec, value_unsigned, JsonNumber, JsonTree,
};
use crate::tier::LicenseType;
use vstd::prelude::*;

verus! {

/// A license record, as a validated license hands it to the application.
#[derive(Clone, Debug, PartialEq, Eq)]
pub struct LicenseInfo {
    /// Who bought the license.
    pub licensee: String,
    /// How to reach the licensee. Its form is not checked.
    pub email: String,
    /// The tier, which decides what the license grants.
    pub license_type: LicenseType,
    /// When the license was issued.
    pub issued_at: Timestamp,
    /// When the license ends.
    pub expires_at: Timestamp,
    /// The host names that the license is valid for. None at all means any host.
    pub domains: Vec<String>,
    /// The feature identifiers that the license grants.
    pub features: Vec<String>,
    /// The user ceiling; `None` means unlimited.
    pub max_users: Option<u32>,
}

/// What a license record holds.
pub struct LicenseRecord {
    pub licensee: Seq<char>,
    pub email: Seq<char>,
    pub license_type: LicenseType,
    pub issued_at: Timestamp,
    pub expires_at: Timestamp,
    pub domains: Seq<Seq<char>>,
    pub features: Seq<Seq<char>>,
    pub max_users: Option<u32>,
}

impl View for LicenseInfo {
    type V = LicenseRecord;

    open spec fn view(&self) -> LicenseRecord {
        LicenseRecord {
            licensee: self.licensee@,
            email: self.email@,
            license_type: self.license_type,
            issued_at: self.issued_at,
            expires_at: self.expires_at,
            domains: self.domains.deep_view(),
            features: self.features.deep_view(),
            max_users: self.max_users,
        }
    }
}

impl LicenseRecord {
    /// Whether the record is one that an issuer makes: it ends after it
    /// begins, and it grants exactly what the entitlement policy gives its tier.
    pub open spec fn well_formed(self) -> bool {
        &&& self.expires_at.spec_is_after(self.issued_at)
        &&& self.features == self.license_type.spec_features()
        &&& self.max_users == self.license_type.spec_max_users()
    }

    /// Whether the record covers a host: it names the host, or it names no host at all.
    pub open spec fn covers(self, domain: Seq<char>) -> bool {
        self.domains.len() == 0 || self.domains.contains(domain)
    }
}

/// The tier under a key of an object: a string that is the name of a tier.
pub open spec fn tier_member(tree: JsonTree, key: Seq<char>) -> Option<LicenseType> {
    match text_member(tree, key) {
        Some(name) => LicenseType::spec_from_name(name),
        None => None,
    }
}

/// The instant under a key of an object: a string that holds a date and time.
pub open spec fn instant_member(tree: JsonTree, key: Seq<char>) -> Option<Timestamp> {
    match text_member(tree, key) {
        Some(text) => Timestamp::spec_parse(text),
        None => None,
    }
}

/// The optional count under a key of an object. A missing member and `null`
/// both stand for no count; an integer from 0 to 4,294,967,295 is a count;
/// anything else is an error, which the outer `None` reports.
pub open spec fn count_member(tree: JsonTree, key: Seq<char>) -> Option<Option<u32>> {
    match member(tree, key) {
        None => Some(None),
        Some(JsonTree::Null) => Some(None),
        Some(found) => match unsigned_of(found) {
            Some(count) => if count <= u32::MAX {
                Some(Some(count as u32))
            } else {
                None
            },
            None => None,
        },
    }
}

/// The record that a JSON document describes: an object with strings
/// `licensee` and `email`, a tier name `license_type`, dates `issued_at` and
/// `expires_at`, arrays of strings `domains` and `features`, and an optional
/// count `max_users`. Other members are ignored.
pub open spec fn record_of_tree(tree: JsonTree) -> Option<LicenseRecord> {
    if text_member(tree, "licensee"@) is Some && text_member(tree, "email"@) is Some && tier_member(
        tree,
        "license_type"@,
    ) is Some && instant_member(tree, "issued_at"@) is Some && instant_member(tree, "expires_at"@) is Some
        && texts_member(tree, "domains"@) is Some && texts_member(tree, "features"@) is Some
        && count_member(tree, "max_users"@) is Some {
        Some(
            LicenseRecord {
                licensee: text_member(tree, "licensee"@)->Some_0,
                email: text_member(tree, "email"@)->Some_0,
                license_type: tier_member(tree, "license_type"@)->Some_0,
                issued_at: instant_member(tree, "issued_at"@)->Some_0,
                expires_at: instant_member(tree, "expires_at"@)->Some_0,
                domains: texts_member(tree, "domains"@)->Some_0,
                features: texts_member(tree, "features"@)->Some_0,
                max_users: count_member(tree, "max_users"@)->Some_0,
            },
        )
    } else {
        None
    }
}

/// The record that payload bytes describe, if they are a JSON document that describes one.
pub open spec fn record_of_bytes(bytes: Seq<u8>) -> Option<LicenseRecord> {
    match json_of_bytes(bytes) {
        Some(tree) => record_of_tree(tree),
        None => None,
    }
}

/// An optional count as JSON: the number, or `null`.
pub open spec fn count_tree(count: Option<u32>) -> JsonTree {
    match count {
        Some(count) => JsonTree::Number(JsonNumber::Unsigned(count as u64)),
        None => JsonTree::Null,
    }
}

/// The JSON document that describes a record whose two dates are written as given.
pub open spec fn record_tree_with(
    record: LicenseRecord,
    issued_at: Seq<char>,
    expires_at: Seq<char>,
) -> JsonTree {
    JsonTree::Object(
        Map::empty().insert("licensee"@, JsonTree::Text(record.licensee)).insert(
            "email"@,
            JsonTree::Text(record.email),
        ).insert("license_type"@, JsonTree::Text(record.license_type.spec_name())).insert(
            "issued_at"@,
            JsonTree::Text(issued_at),
        ).insert("expires_at"@, JsonTree::Text(expires_at)).insert(
            "domains"@,
            texts_tree(record.domains),
        ).insert("features"@, texts_tree(record.features)).insert(
            "max_users"@,
            count_tree(record.max_users),
        ),
    )
}

/// The JSON document that describes a record, with its dates in RFC 3339;
/// `None` where a date cannot be written.
pub open spec fn record_tree(record: LicenseRecord) -> Option<JsonTree> {
    match (record.issued_at.spec_to_rfc3339(), record.expires_at.spec_to_rfc3339()) {
        (Some(issued_at), Some(expires_at)) => Some(record_tree_with(record, issued_at, expires_at)),
        _ => None,
    }
}

/// The payload bytes of a record: its JSON document, compact; `None` where
/// a date cannot be written or `serde_json` reports an error.
pub open spec fn record_bytes(record: LicenseRecord) -> Option<Seq<u8>> {
    match record_tree(record) {
        Some(tree) => json_bytes(tree),
        None => None,
    }
}

/// The display text of a record: its JSON document, indented.
pub open spec fn record_text(record: LicenseRecord) -> Option<Seq<char>> {
    match record_tree(record) {
        Some(tree) => json_pretty_text(tree),
        None => None,
    }
}

/// The eight member names of a record's document differ from one another.
pub proof fn member_names_differ()
    ensures
        "licensee"@ != "email"@,
        "licensee"@ != "license_type"@,
        "licensee"@ != "issued_at"@,
        "licensee"@ != "expires_at"@,
        "licensee"@ != "domains"@,
        "licensee"@ != "features"@,
        "licensee"@ != "max_users"@,
        "email"@ != "license_type"@,
        "email"@ != "issued_at"@,
        "email"@ != "expires_at"@,
        "email"@ != "domains"@,
        "email"@ != "features"@,
        "email"@ != "max_users"@,
        "license_type"@ != "issued_at"@,
        "license_type"@ != "expires_at"@,
        "license_type"@ != "domains"@,
        "license_type"@ != "features"@,
        "license_type"@ != "max_users"@,
        "issued_at"@ != "expires_at"@,
        "issued_at"@ != "domains"@,
        "issued_at"@ != "features"@,
        "issued_at"@ != "max_users"@,
        "expires_at"@ != "domains"@,
        "expires_at"@ != "features"@,
        "expires_at"@ != "max_users"@,
        "domains"@ != "features"@,
        "domains"@ != "max_users"@,
        "features"@ != "max_users"@,
{
    reveal_strlit("licensee");
    reveal_strlit("email");
    reveal_strlit("license_type");
    reveal_strlit("issued_at");
    reveal_strlit("expires_at");
    reveal_strlit("domains");
    reveal_strlit("features");
    reveal_strlit("max_users");
    assert("licensee"@[0] == 'l' && "email"@[0] == 'e' && "license_type"@[0] == 'l' && "issued_at"@[0]
        == 'i' && "expires_at"@[0] == 'e' && "domains"@[0] == 'd' && "features"@[0] == 'f'
        && "max_users"@[0] == 'm');
    assert("licensee"@.len() == 8 && "license_type"@.len() == 12);
    assert("email"@.len() == 5 && "expires_at"@.len() == 10);
}

/// A document that describes a record describes that record, provided that
/// the two dates in it are read as the record's dates.
pub proof fn record_tree_reads_back(record: LicenseRecord, issued_at: Seq<char>, expires_at: Seq<char>)
    requires
        Timestamp::spec_parse(issued_at) == Some(record.issued_at),
        Timestamp::spec_parse(expires_at) == Some(record.expires_at),
    ensures
        record_of_tree(record_tree_with(record, issued_at, expires_at)) == Some(record),
{
    member_names_differ();
    record.license_type.name_reads_back();
    texts_tree_reads_back(record.domains);
    texts_tree_reads_back(record.features);
}

/// The optional count under a key of an object; the outer `None` reports a
/// member that is neither a count nor `null`.
fn count_at(document: &serde_json::Value, key: &str) -> (count: Option<Option<u32>>)
    ensures
        count == count_member(json_tree(*document), key@),
{
    match value_get(document, key) {
        None => Some(None),
        Some(found) => {
            if value_is_null(found) {
                Some(None)
            } else {
                match value_as_u64(found) {
                    Some(count) => if count <= 0xffff_ffff {
                        Some(Some(count as u32))
                    } else {
                        None
                    },
                    None => None,
                }
            }
        },
    }
}

/// The tier under a key of an object; `None` where there is none.
fn tier_at(document: &serde_json::Value, key: &str) -> (tier: Option<LicenseType>)
    ensures
        tier == tier_member(json_tree(*document), key@),
{
    match text_at(document, key) {
        Some(name) => LicenseType::from_name(name.as_str()),
        None => None,
    }
}

/// The instant under a key of an object; `None` where there is none.
fn instant_at(document: &serde_json::Value, key: &str) -> (instant: Option<Timestamp>)
    ensures
        instant == instant_member(json_tree(*document), key@),
{
    match text_at(document, key) {
        Some(text) => Timestamp::parse(text.as_str()),
        None => None,
    }
}

impl LicenseInfo {
    /// Reads a record from the document that describes it.
    fn from_document(document: &serde_json::Value) -> (info: Option<LicenseInfo>)
        ensures
            info is Some ==> record_of_tree(json_tree(*document)) == Some(info->Some_0@),
            info is None ==> record_of_tree(json_tree(*document)).is_none(),
    {
        let licensee = match text_at(document, "licensee") {
            Some(licensee) => licensee,
            None => {
                return None;
            },
        };
        let email = match text_at(document, "email") {
            Some(email) => email,
            None => {
                return None;
            },
        };
        let license_type = match tier_at(document, "license_type") {
            Some(license_type) => license_type,
            None => {
                return None;
            },
        };
        let issued_at = match instant_at(document, "issued_at") {
            Some(issued_at) => issued_at,
            None => {
                return None;
            },
        };
        let expires_at = match instant_at(document, "expires_at") {
            Some(expires_at) => expires_at,
            None => {
                return None;
            },
        };
        let domains = match texts_at(document, "domains") {
            Some(domains) => domains,
            None => {
                return None;
            },
        };
        let features = match texts_at(document, "features") {
            Some(features) => features,
            None => {
                return None;
            },
        };
        let max_users = match count_at(document, "max_users") {
            Some(max_users) => max_users,
            None => {
                return None;
            },
        };
        Some(
            LicenseInfo {
                licensee,
                email,
                license_type,
                issued_at,
                expires_at,
                domains,
                features,
                max_users,
            },
        )
    }

    /// The document that describes this record; `None` where a date cannot be written.
    fn to_document(&self) -> (document: Option<serde_json::Value>)
        ensures
            document is Some ==> record_tree(self@) == Some(json_tree(document->Some_0)),
            document is None ==> record_tree(self@).is_none(),
    {
        let issued_at = match self.issued_at.to_rfc3339() {
            Some(issued_at) => issued_at,
            None => {
                return None;
            },
        };
        let expires_at = match self.expires_at.to_rfc3339() {
            Some(expires_at) => expires_at,
            None => {
                return None;
            },
        };
        let max_users = match self.max_users {
            Some(count) => value_unsigned(count as u64),
            None => value_null(),
        };
        let ghost expected = record_tree_with(self@, issued_at@, expires_at@)->Object_0;
        let mut entries: Vec<(String, serde_json::Value)> = Vec::new();
        entries.push(("licensee".to_owned(), value_string(self.licensee.clone())));
        entries.push(("email".to_owned(), value_string(self.email.clone())));
        entries.push(("license_type".to_owned(), value_string(self.license_type.name().to_owned())));
        entries.push(("issued_at".to_owned(), value_string(issued_at)));
        entries.push(("expires_at".to_owned(), value_string(expires_at)));
        entries.push(("domains".to_owned(), texts_value(&self.domains)));
        entries.push(("features".to_owned(), texts_value(&self.features)));
        entries.push(("max_users".to_owned(), max_users));
        proof {
            member_names_differ();
        }
        let ghost listed = entries@;
        let document = value_object(entries);
        proof {
            let fields = json_tree(document)->Object_0;
            assert forall|i: int| 0 <= i < 8 implies expected.contains_key(#[trigger] listed[i].0@)
                && expected[listed[i].0@] == json_tree(listed[i].1) by {}
            assert forall|key: Seq<char>| expected.contains_key(key) implies fields.contains_key(
                key,
            ) by {
                assert(fields.contains_key(listed[0].0@));
                assert(fields.contains_key(listed[1].0@));
                assert(fields.contains_key(listed[2].0@));
                assert(fields.contains_key(listed[3].0@));
                assert(fields.contains_key(listed[4].0@));
                assert(fields.contains_key(listed[5].0@));
                assert(fields.contains_key(listed[6].0@));
                assert(fields.contains_key(listed[7].0@));
            }
            assert(fields =~= expected);
        }
        Some(document)
    }

    /// Reads a record from payload bytes; `None` where the bytes are not a
    /// JSON document that describes one.
    pub fn from_json_bytes(bytes: &[u8]) -> (info: Option<LicenseInfo>)
        ensures
            info is Some ==> record_of_bytes(bytes@) == Some(info->Some_0@),
            info is None ==> record_of_bytes(bytes@).is_none(),
    {
        match value_from_slice(bytes) {
            Ok(document) => LicenseInfo::from_document(&document),
            Err(_) => None,
        }
    }

    /// Writes the record as payload bytes: its JSON document, compact. `None`
    /// where a date cannot be written or `serde_json` reports an error.
    pub fn to_json_bytes(&self) -> (bytes: Option<Vec<u8>>)
        ensures
            bytes is Some ==> record_bytes(self@) == Some(bytes->Some_0@),
            bytes is None ==> record_bytes(self@).is_none(),
    {
        match self.to_document() {
            Some(document) => match value_to_vec(&document) {
                Ok(bytes) => Some(bytes),
                Err(_) => None,
            },
            None => None,
        }
    }

    /// Writes the record for display: its JSON document, indented. `None`
    /// where a date cannot be written or `serde_json` reports an error.
    pub fn to_json_text(&self) -> (text: Option<String>)
        ensures
            text is Some ==> record_text(self@) == Some(text->Some_0@),
            text is None ==> record_text(self@).is_none(),
    {
        match self.to_document() {
            Some(document) => match value_to_string_pretty(&document) {
                Ok(text) => Some(text),
                Err(_) => None,
            },
            None => None,
        }
    }
}

} // verus!
