//! Tag versions and the options that select them.

use vstd::prelude::*;
use vstd::string::*;

verus! {

/// The sub-version of an ID3v2 tag.
#[derive(Clone, Copy, Debug, PartialEq, Eq, Structural)]
pub enum Version {
    /// ID3v2.2
    Id3v22,
    /// ID3v2.3
    Id3v23,
    /// ID3v2.4
    Id3v24,
}

/// The version given to a tag that is created from scratch.
pub open spec fn default_version() -> Version {
    Version::Id3v24
}

impl Version {
    /// The version of a tag created from scratch, ID3v2.4.
    pub fn initial() -> (v: Version)
        ensures
            v == default_version(),
    {
        Version::Id3v24
    }

    /// The name under which a version is shown, such as `ID3v2.4`.
    pub open spec fn name_spec(self) -> Seq<char> {
        match self {
            Version::Id3v22 => "ID3v2.2"@,
            Version::Id3v23 => "ID3v2.3"@,
            Version::Id3v24 => "ID3v2.4"@,
        }
    }

    /// Returns the name under which the version is shown.
    pub fn name(self) -> (s: &'static str)
        ensures
            s@ == self.name_spec(),
    {
        match self {
            Version::Id3v22 => "ID3v2.2",
            Version::Id3v23 => "ID3v2.3",
            Version::Id3v24 => "ID3v2.4",
        }
    }
}

/// A request to convert a tag to a version, either losslessly or by force.
#[derive(Debug, Copy, Clone, PartialEq, Eq, Structural)]
pub enum ConvertOpt {
    Id3v22,
    Id3v23,
    Id3v24,
    Id3v22Force,
    Id3v23Force,
    Id3v24Force,
}

impl ConvertOpt {
    /// The version that the option converts to.
    pub open spec fn target_spec(self) -> Version {
        match self {
            ConvertOpt::Id3v22 | ConvertOpt::Id3v22Force => Version::Id3v22,
            ConvertOpt::Id3v23 | ConvertOpt::Id3v23Force => Version::Id3v23,
            ConvertOpt::Id3v24 | ConvertOpt::Id3v24Force => Version::Id3v24,
        }
    }

    /// Whether frames without a counterpart in the target version are dropped
    /// rather than making the conversion fail.
    pub open spec fn force_spec(self) -> bool {
        match self {
            ConvertOpt::Id3v22Force | ConvertOpt::Id3v23Force | ConvertOpt::Id3v24Force => true,
            _ => false,
        }
    }

    /// Returns the version that the option converts to.
    pub fn target(self) -> (v: Version)
        ensures
            v == self.target_spec(),
    {
        match self {
            ConvertOpt::Id3v22 | ConvertOpt::Id3v22Force => Version::Id3v22,
            ConvertOpt::Id3v23 | ConvertOpt::Id3v23Force => Version::Id3v23,
            ConvertOpt::Id3v24 | ConvertOpt::Id3v24Force => Version::Id3v24,
        }
    }

    /// Returns whether the conversion is forced.
    pub fn force(self) -> (b: bool)
        ensures
            b == self.force_spec(),
    {
        match self {
            ConvertOpt::Id3v22Force | ConvertOpt::Id3v23Force | ConvertOpt::Id3v24Force => true,
            _ => false,
        }
    }
}

/// Which tags a purge removes: those of one version, or all.
#[derive(Debug, Copy, Clone, PartialEq, Eq, Structural)]
pub enum PurgeOpt {
    Id3v22,
    Id3v23,
    Id3v24,
    All,
}

impl PurgeOpt {
    /// Whether a tag of version `version` falls within the scope of the purge.
    pub open spec fn covers_spec(self, version: Version) -> bool {
        match self {
            PurgeOpt::Id3v22 => version == Version::Id3v22,
            PurgeOpt::Id3v23 => version == Version::Id3v23,
            PurgeOpt::Id3v24 => version == Version::Id3v24,
            PurgeOpt::All => true,
        }
    }

    /// Returns whether a tag of version `version` falls within the scope of
    /// the purge.
    pub fn covers(self, version: Version) -> (b: bool)
        ensures
            b == self.covers_spec(version),
    {
        match self {
            PurgeOpt::Id3v22 => version == Version::Id3v22,
            PurgeOpt::Id3v23 => version == Version::Id3v23,
            PurgeOpt::Id3v24 => version == Version::Id3v24,
            PurgeOpt::All => true,
        }
    }
}

} // verus!
