//! The build parameters: closed tagged variants for the architecture and the
//! toolchain version, each with an explicit parse giving a typed failure for
//! unrecognized tokens, and the rendering of one build's variables.

use vstd::prelude::*;
use vstd::string::StringExecFns;

use crate::textops::str_eq;

verus! {

/// A target architecture the builder supports.
#[derive(Clone, Copy, Debug, PartialEq, Eq, Structural)]
pub enum Architecture {
    X86_64,
    Aarch64,
}

/// A toolchain version the builder supports.
#[derive(Clone, Copy, Debug, PartialEq, Eq, Structural)]
pub enum ZigVersion {
    V0_13_0,
}

impl Architecture {
    /// The token this architecture is written as.
    pub open spec fn token(self) -> Seq<char> {
        match self {
            Architecture::X86_64 => "x86_64"@,
            Architecture::Aarch64 => "aarch64"@,
        }
    }

    /// The architecture a token names, or `None` for an unrecognized token.
    pub fn parse(s: &str) -> (r: Option<Architecture>)
        ensures
            s@ == "x86_64"@ ==> r == Some(Architecture::X86_64),
            s@ == "aarch64"@ ==> r == Some(Architecture::Aarch64),
            s@ != "x86_64"@ && s@ != "aarch64"@ ==> r is None,
    {
        proof {
            broadcast use vstd::string::group_string_axioms;

            reveal_strlit("x86_64");
            reveal_strlit("aarch64");
            assert("x86_64"@.len() == 6);
            assert("aarch64"@.len() == 7);
        }
        if str_eq(s, "x86_64") {
            Some(Architecture::X86_64)
        } else if str_eq(s, "aarch64") {
            Some(Architecture::Aarch64)
        } else {
            None
        }
    }

    /// Writes the architecture as its token.
    pub fn as_str(&self) -> (r: &'static str)
        ensures
            r@ == self.token(),
    {
        match self {
            Architecture::X86_64 => "x86_64",
            Architecture::Aarch64 => "aarch64",
        }
    }
}

impl ZigVersion {
    /// The token this version is written as.
    pub open spec fn token(self) -> Seq<char> {
        match self {
            ZigVersion::V0_13_0 => "0.13.0"@,
        }
    }

    /// The version a token names, or `None` for an unrecognized token.
    pub fn parse(s: &str) -> (r: Option<ZigVersion>)
        ensures
            s@ == "0.13.0"@ ==> r == Some(ZigVersion::V0_13_0),
            s@ != "0.13.0"@ ==> r is None,
    {
        if str_eq(s, "0.13.0") {
            Some(ZigVersion::V0_13_0)
        } else {
            None
        }
    }

    /// Writes the version as its token.
    pub fn as_str(&self) -> (r: &'static str)
        ensures
            r@ == self.token(),
    {
        match self {
            ZigVersion::V0_13_0 => "0.13.0",
        }
    }
}

/// The parameters of one build, already validated by the caller.
pub struct BuildArguments {
    pub architecture: Architecture,
    pub zig_version: ZigVersion,
    pub spade_rev: String,
    pub swim_rev: String,
}

/// The four build-time variables of one build, each as `NAME=value`, in the
/// order the builder is given them.
pub fn build_variables(args: &BuildArguments) -> (r: Vec<String>)
    ensures
        r.deep_view() =~~= seq![
            "TARGET_PLATFORM="@ + args.architecture.token(),
            "ZIG_VERSION="@ + args.zig_version.token(),
            "SPADE_REV="@ + args.spade_rev@,
            "SWIM_REV="@ + args.swim_rev@,
        ],
{
    let mut target = String::from_str("TARGET_PLATFORM=");
    target.append(args.architecture.as_str());
    let mut zig = String::from_str("ZIG_VERSION=");
    zig.append(args.zig_version.as_str());
    let mut spade = String::from_str("SPADE_REV=");
    spade.append(args.spade_rev.as_str());
    let mut swim = String::from_str("SWIM_REV=");
    swim.append(args.swim_rev.as_str());
    let mut r: Vec<String> = Vec::new();
    r.push(target);
    r.push(zig);
    r.push(spade);
    r.push(swim);
    r
}

} // verus!
