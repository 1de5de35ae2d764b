//! License tiers and the entitlement policy: what each tier grants.

use crate::text::same_text;
use vstd::prelude::*;

verus! {

/// The commercial class of a license.
#[derive(Clone, Copy, Debug, PartialEq, Eq, Structural)]
pub enum LicenseType {
    Trial,
    Single,
    Multi,
    Enterprise,
    Developer,
}

impl LicenseType {
    /// The lower-case name under which a tier is written in a license.
    pub open spec fn spec_name(self) -> Seq<char> {
        match self {
            LicenseType::Trial => "trial"@,
            LicenseType::Single => "single"@,
            LicenseType::Multi => "multi"@,
            LicenseType::Enterprise => "enterprise"@,
            LicenseType::Developer => "developer"@,
        }
    }

    /// The tier that a name stands for, if it is the name of one.
    pub open spec fn spec_from_name(name: Seq<char>) -> Option<LicenseType> {
        if name == "trial"@ {
            Some(LicenseType::Trial)
        } else if name == "single"@ {
            Some(LicenseType::Single)
        } else if name == "multi"@ {
            Some(LicenseType::Multi)
        } else if name == "enterprise"@ {
            Some(LicenseType::Enterprise)
        } else if name == "developer"@ {
            Some(LicenseType::Developer)
        } else {
            None
        }
    }

    /// The tier that a name selects: the one it names, and the most restrictive
    /// tier for every other text.
    pub open spec fn spec_from_name_or_trial(name: Seq<char>) -> LicenseType {
        match LicenseType::spec_from_name(name) {
            Some(tier) => tier,
            None => LicenseType::Trial,
        }
    }

    /// The feature identifiers that a tier grants, in the order in which a license lists them.
    pub open spec fn spec_features(self) -> Seq<Seq<char>> {
        match self {
            LicenseType::Trial => seq!["basic"@],
            LicenseType::Single => seq!["basic"@, "appointments"@, "ecommerce"@],
            LicenseType::Multi => seq!["basic"@, "appointments"@, "ecommerce"@, "multi_location"@],
            LicenseType::Enterprise => seq!["all"@],
            LicenseType::Developer => seq!["all"@, "dev_mode"@],
        }
    }

    /// The user ceiling that a tier grants; `None` means unlimited.
    pub open spec fn spec_max_users(self) -> Option<u32> {
        match self {
            LicenseType::Trial => Some(1u32),
            LicenseType::Single => Some(5u32),
            LicenseType::Multi => Some(20u32),
            LicenseType::Enterprise => None,
            LicenseType::Developer => Some(2u32),
        }
    }

    /// The lower-case name under which this tier is written in a license.
    pub fn name(self) -> (name: &'static str)
        ensures
            name@ == self.spec_name(),
    {
        match self {
            LicenseType::Trial => "trial",
            LicenseType::Single => "single",
            LicenseType::Multi => "multi",
            LicenseType::Enterprise => "enterprise",
            LicenseType::Developer => "developer",
        }
    }

    /// Reads a tier from its lower-case name; any other text names no tier.
    pub fn from_name(name: &str) -> (tier: Option<LicenseType>)
        ensures
            tier == LicenseType::spec_from_name(name@),
    {
        if same_text(name, "trial") {
            Some(LicenseType::Trial)
        } else if same_text(name, "single") {
            Some(LicenseType::Single)
        } else if same_text(name, "multi") {
            Some(LicenseType::Multi)
        } else if same_text(name, "enterprise") {
            Some(LicenseType::Enterprise)
        } else if same_text(name, "developer") {
            Some(LicenseType::Developer)
        } else {
            None
        }
    }

    /// Reads a tier from a name, falling back to the most restrictive tier
    /// when the text names none.
    pub fn from_name_or_trial(name: &str) -> (tier: LicenseType)
        ensures
            tier == LicenseType::spec_from_name_or_trial(name@),
    {
        match LicenseType::from_name(name) {
            Some(tier) => tier,
            None => LicenseType::Trial,
        }
    }

    /// The feature identifiers that this tier grants.
    pub fn features(self) -> (features: Vec<String>)
        ensures
            features.deep_view() == self.spec_features(),
    {
        let mut features: Vec<String> = Vec::new();
        match self {
            LicenseType::Trial => {
                features.push("basic".to_owned());
            },
            LicenseType::Single => {
                features.push("basic".to_owned());
                features.push("appointments".to_owned());
                features.push("ecommerce".to_owned());
            },
            LicenseType::Multi => {
                features.push("basic".to_owned());
                features.push("appointments".to_owned());
                features.push("ecommerce".to_owned());
                features.push("multi_location".to_owned());
            },
            LicenseType::Enterprise => {
                features.push("all".to_owned());
            },
            LicenseType::Developer => {
                features.push("all".to_owned());
                features.push("dev_mode".to_owned());
            },
        }
        assert(features.deep_view() =~= self.spec_features());
        features
    }

    /// The user ceiling that this tier grants; `None` means unlimited.
    pub fn max_users(self) -> (limit: Option<u32>)
        ensures
            limit == self.spec_max_users(),
    {
        match self {
            LicenseType::Trial => Some(1),
            LicenseType::Single => Some(5),
            LicenseType::Multi => Some(20),
            LicenseType::Enterprise => None,
            LicenseType::Developer => Some(2),
        }
    }

    /// Every tier is read back from its own name.
    pub proof fn name_reads_back(self)
        ensures
            LicenseType::spec_from_name(self.spec_name()) == Some(self),
    {
        reveal_strlit("trial");
        reveal_strlit("single");
        reveal_strlit("multi");
        reveal_strlit("enterprise");
        reveal_strlit("developer");
        assert("trial"@.len() == 5 && "single"@.len() == 6);
        assert("enterprise"@.len() == 10 && "developer"@.len() == 9);
        assert("trial"@[0] != "multi"@[0]);
    }
}

/// The feature identifiers granted to a tier given by name. A text that names
/// no tier gets what the most restrictive tier gets.
pub fn get_features_for_type(license_type: &str) -> (features: Vec<String>)
    ensures
        features.deep_view() == LicenseType::spec_from_name_or_trial(license_type@).spec_features(),
{
    LicenseType::from_name_or_trial(license_type).features()
}

/// The user ceiling granted to a tier given by name; `None` means unlimited.
/// A text that names no tier gets what the most restrictive tier gets.
pub fn get_max_users_for_type(license_type: &str) -> (limit: Option<u32>)
    ensures
        limit == LicenseType::spec_from_name_or_trial(license_type@).spec_max_users(),
{
    LicenseType::from_name_or_trial(license_type).max_users()
}

} // verus!
