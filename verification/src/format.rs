//! The serialization formats a configuration file may be written in, and the
//! order in which they are looked for.

use crate::platform::separator_free;
use vstd::prelude::*;

verus! {

/// Serialization format of a configuration file.
#[derive(Clone, Copy, Debug, PartialEq, Eq, Structural)]
pub enum Format {
    TOML,
    JSON,
    YAML,
}

impl Format {
    /// Position in the lookup order: a lower rank is looked for first.
    pub open spec fn rank(self) -> int {
        match self {
            Format::TOML => 0,
            Format::JSON => 1,
            Format::YAML => 2,
        }
    }

    /// The format that is looked for first.
    pub open spec fn first() -> Format {
        Format::TOML
    }

    /// The format that is looked for after `self`, if any.
    pub open spec fn successor_spec(self) -> Option<Format> {
        match self {
            Format::TOML => Some(Format::JSON),
            Format::JSON => Some(Format::YAML),
            Format::YAML => None,
        }
    }

    /// The file extension that marks a file as written in `self`.
    pub open spec fn extension_spec(self) -> Seq<char> {
        match self {
            Format::TOML => "toml"@,
            Format::JSON => "json"@,
            Format::YAML => "yml"@,
        }
    }

    /// The format that is looked for after `self`, if any.
    #[verifier::when_used_as_spec(successor_spec)]
    pub fn successor(self) -> (next: Option<Format>)
        ensures
            next == self.successor_spec(),
    {
        match self {
            Format::TOML => Some(Format::JSON),
            Format::JSON => Some(Format::YAML),
            Format::YAML => None,
        }
    }

    /// The file extension that marks a file as written in `self`.
    pub fn extension(self) -> (extension: &'static str)
        ensures
            extension@ == self.extension_spec(),
            separator_free(extension@),
    {
        proof {
            lemma_extension_separator_free(self);
        }
        match self {
            Format::TOML => "toml",
            Format::JSON => "json",
            Format::YAML => "yml",
        }
    }
}

/// Every extension is a short run of lower-case letters, so it holds no
/// path separator.
pub proof fn lemma_extension_separator_free(format: Format)
    ensures
        separator_free(format.extension_spec()),
{
    reveal_strlit("toml");
    reveal_strlit("json");
    reveal_strlit("yml");
}

} // verus!
