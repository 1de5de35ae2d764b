//! The license artifact: the versioned, signed envelope that is kept in a
//! license file and handed to installations.

use crate::json::{
    json_of_text, json_pretty_text, json_tree, text_at, text_member, unsigned_at, unsigned_member,
    value_from_str, value_object, value_string, value_to_string_pretty, value_unsigned, JsonNumber,
    JsonTree,
};
use vstd::prelude::*;

verus! {

/// The one artifact version that is defined.
pub const CURRENT_VERSION: u8 = 1;

/// A license artifact: a payload in base64 text with its signature in hex text.
#[derive(Debug, PartialEq, Eq)]
pub struct LicenseFile {
    /// The scheme by which the payload is written and signed.
    pub version: u8,
    /// The serialized license record, in base64.
    pub payload: String,
    /// The signature of the serialized license record, in hex.
    pub signature: String,
}

/// What a license artifact holds.
pub struct LicenseFileView {
    pub version: u8,
    pub payload: Seq<char>,
    pub signature: Seq<char>,
}

impl View for LicenseFile {
    type V = LicenseFileView;

    open spec fn view(&self) -> LicenseFileView {
        LicenseFileView { version: self.version, payload: self.payload@, signature: self.signature@ }
    }
}

/// The artifact that a JSON document describes: an object with an integer
/// `version` from 0 to 255 and strings `payload` and `signature`. Other
/// members are ignored.
pub open spec fn file_of_tree(tree: JsonTree) -> Option<LicenseFileView> {
    match (
        unsigned_member(tree, "version"@),
        text_member(tree, "payload"@),
        text_member(tree, "signature"@),
    ) {
        (Some(version), Some(payload), Some(signature)) => if version <= u8::MAX {
            Some(LicenseFileView { version: version as u8, payload, signature })
        } else {
            None
        },
        _ => None,
    }
}

/// The JSON document that describes an artifact.
pub open spec fn file_tree(file: LicenseFileView) -> JsonTree {
    JsonTree::Object(
        Map::empty().insert("version"@, JsonTree::Number(JsonNumber::Unsigned(file.version as u64))).insert(
            "payload"@,
            JsonTree::Text(file.payload),
        ).insert("signature"@, JsonTree::Text(file.signature)),
    )
}

/// The artifact that a text describes, if it is a JSON document that describes one.
pub open spec fn file_of_text(text: Seq<char>) -> Option<LicenseFileView> {
    match json_of_text(text) {
        Some(tree) => file_of_tree(tree),
        None => None,
    }
}

/// The text of an artifact: its JSON document, indented.
pub open spec fn file_text(file: LicenseFileView) -> Option<Seq<char>> {
    json_pretty_text(file_tree(file))
}

/// The three member names of an artifact's document differ from one another.
pub proof fn member_names_differ()
    ensures
        "version"@ != "payload"@,
        "version"@ != "signature"@,
        "payload"@ != "signature"@,
{
    reveal_strlit("version");
    reveal_strlit("payload");
    reveal_strlit("signature");
    assert("version"@[0] != "payload"@[0]);
    assert("signature"@.len() == 9 && "version"@.len() == 7 && "payload"@.len() == 7);
}

/// A document that describes an artifact describes that artifact.
pub proof fn file_tree_reads_back(file: LicenseFileView)
    ensures
        file_of_tree(file_tree(file)) == Some(file),
{
    member_names_differ();
}

impl LicenseFile {
    /// Reads an artifact from the text of a license file; `None` where the
    /// text is not a JSON document that describes one.
    pub fn from_text(text: &str) -> (file: Option<LicenseFile>)
        ensures
            file is Some ==> file_of_text(text@) == Some(file->Some_0@),
            file is None ==> file_of_text(text@).is_none(),
    {
        let document = match value_from_str(text) {
            Ok(document) => document,
            Err(_) => {
                return None;
            },
        };
        let version = match unsigned_at(&document, "version") {
            Some(version) => version,
            None => {
                return None;
            },
        };
        let payload = match text_at(&document, "payload") {
            Some(payload) => payload,
            None => {
                return None;
            },
        };
        let signature = match text_at(&document, "signature") {
            Some(signature) => signature,
            None => {
                return None;
            },
        };
        if version > 255 {
            return None;
        }
        Some(LicenseFile { version: version as u8, payload, signature })
    }

    /// Writes the artifact as the text of a license file; `None` where
    /// `serde_json` reports an error.
    pub fn to_text(&self) -> (text: Option<String>)
        ensures
            text is Some ==> file_text(self@) == Some(text->Some_0@),
            text is None ==> file_text(self@).is_none(),
    {
        let mut entries: Vec<(String, serde_json::Value)> = Vec::new();
        entries.push(("version".to_owned(), value_unsigned(self.version as u64)));
        entries.push(("payload".to_owned(), value_string(self.payload.clone())));
        entries.push(("signature".to_owned(), value_string(self.signature.clone())));
        proof {
            member_names_differ();
        }
        let ghost listed = entries@;
        let document = value_object(entries);
        proof {
            let fields = json_tree(document)->Object_0;
            assert(fields.contains_key(listed[0].0@));
            assert(fields.contains_key(listed[1].0@));
            assert(fields.contains_key(listed[2].0@));
            assert(fields =~= file_tree(self@)->Object_0);
        }
        match value_to_string_pretty(&document) {
            Ok(text) => Some(text),
            Err(_) => None,
        }
    }
}

} // verus!
