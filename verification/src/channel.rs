//! The release channels a package can be published on.

use vstd::prelude::*;
use vstd::string::StringExecFns;

use crate::bytes::str_bytes_eq;

verus! {

#[derive(Debug, Clone, Copy, PartialEq, Eq, Hash, Structural)]
pub enum Channel {
    Stable,
    Testing,
    Unstable,
    Dev,
}

impl Channel {
    /// The canonical lower-case name of the channel.
    pub open spec fn spec_name(self) -> Seq<char> {
        match self {
            Channel::Stable => "stable"@,
            Channel::Testing => "testing"@,
            Channel::Unstable => "unstable"@,
            Channel::Dev => "dev"@,
        }
    }

    /// The marker glyph shown beside the channel.
    pub open spec fn spec_emoji(self) -> Seq<char> {
        match self {
            Channel::Stable => "🍑"@,
            Channel::Testing => "🌸"@,
            Channel::Unstable => "🌾"@,
            Channel::Dev => "🧪"@,
        }
    }

    /// The human-readable channel title.
    pub open spec fn spec_display_name(self) -> Seq<char> {
        match self {
            Channel::Stable => "Plum (Stable)"@,
            Channel::Testing => "Blossom (Testing)"@,
            Channel::Unstable => "Seed (Unstable)"@,
            Channel::Dev => "Development"@,
        }
    }

    pub fn name(&self) -> (r: &'static str)
        ensures
            r@ == self.spec_name(),
    {
        match self {
            Channel::Stable => "stable",
            Channel::Testing => "testing",
            Channel::Unstable => "unstable",
            Channel::Dev => "dev",
        }
    }

    pub fn emoji(&self) -> (r: &'static str)
        ensures
            r@ == self.spec_emoji(),
    {
        match self {
            Channel::Stable => "🍑",
            Channel::Testing => "🌸",
            Channel::Unstable => "🌾",
            Channel::Dev => "🧪",
        }
    }

    pub fn display_name(&self) -> (r: &'static str)
        ensures
            r@ == self.spec_display_name(),
    {
        match self {
            Channel::Stable => "Plum (Stable)",
            Channel::Testing => "Blossom (Testing)",
            Channel::Unstable => "Seed (Unstable)",
            Channel::Dev => "Development",
        }
    }

    /// All four channels, in release order.
    pub fn all_channels() -> (r: Vec<Channel>)
        ensures
            r@ == seq![Channel::Stable, Channel::Testing, Channel::Unstable, Channel::Dev],
    {
        let mut v: Vec<Channel> = Vec::new();
        v.push(Channel::Stable);
        v.push(Channel::Testing);
        v.push(Channel::Unstable);
        v.push(Channel::Dev);
        proof {
            assert(v@ =~= seq![Channel::Stable, Channel::Testing, Channel::Unstable, Channel::Dev]);
        }
        v
    }
}

impl core::str::FromStr for Channel {
    type Err = String;

    /// Parses a canonical channel name; anything else names the
    /// unrecognized input in the error.
    fn from_str(s: &str) -> Result<Channel, String> {
        if str_bytes_eq(s, "stable") {
            Ok(Channel::Stable)
        } else if str_bytes_eq(s, "testing") {
            Ok(Channel::Testing)
        } else if str_bytes_eq(s, "unstable") {
            Ok(Channel::Unstable)
        } else if str_bytes_eq(s, "dev") {
            Ok(Channel::Dev)
        } else {
            Err(<String as StringExecFns>::from_str("Unknown channel: ").concat(s))
        }
    }
}

} // verus!
