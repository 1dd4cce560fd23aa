//! Version and build provenance.
//!
//! `chiploom --version` has to be enough to reproduce a report: the release
//! version alone does not distinguish a tagged build from a developer's working
//! tree. The release and protocol versions are fixed here; the rest is what
//! the front end's build recorded, handed to [`build_info`], with `unknown`
//! for whatever could not be read.

use vstd::prelude::*;

use crate::text::{decimal, owned, push_decimal, push_str};
#[allow(unused_imports)]
use vstd::string::*;

verus! {

/// The crate version, which is also the release version of the whole product.
pub const VERSION: &'static str = "0.1.0-pre.0";

/// The version of the Core IPC protocol this build speaks.
pub const PROTOCOL_VERSION: u32 = 1;

/// Everything known about how this binary was produced.
#[derive(Debug, Clone, Copy, PartialEq, Eq)]
pub struct BuildInfo {
    /// Release version, e.g. `0.1.0-pre.0`.
    pub version: &'static str,
    /// Core IPC protocol version.
    pub protocol_version: u32,
    /// Abbreviated git commit, or `unknown` for a build from a source archive.
    pub commit: &'static str,
    /// Whether the working tree had uncommitted tracked changes at build time.
    pub dirty: bool,
    /// Target triple this binary runs on.
    pub target: &'static str,
    /// Host triple it was compiled on.
    pub host: &'static str,
    /// Cargo profile, `debug` or `release`.
    pub profile: &'static str,
    /// Compiler that produced it.
    pub rustc: &'static str,
    /// RFC 3339 UTC build time.
    pub built_at: &'static str,
}

/// Build provenance: this release's version and protocol version, with the
/// facts the build recorded about itself. A fact that could not be read is
/// given as `unknown`; `dirty` is false unless the build saw uncommitted
/// changes.
pub fn build_info(
    commit: &'static str,
    dirty: bool,
    target: &'static str,
    host: &'static str,
    profile: &'static str,
    rustc: &'static str,
    built_at: &'static str,
) -> (b: BuildInfo)
    ensures
        b == (BuildInfo {
            version: VERSION,
            protocol_version: PROTOCOL_VERSION,
            commit,
            dirty,
            target,
            host,
            profile,
            rustc,
            built_at,
        }),
{
    BuildInfo { version: VERSION, protocol_version: PROTOCOL_VERSION, commit, dirty, target, host, profile, rustc, built_at }
}

impl BuildInfo {
    /// The version, followed by the commit it was built from when that is
    /// known, and `-dirty` after the commit when the tree was dirty.
    pub open spec fn version_text(self) -> Seq<char> {
        if self.commit@ != "unknown"@ {
            self.version@ + " ("@ + self.commit@ + (if self.dirty {
                "-dirty"@
            } else {
                Seq::empty()
            }) + ")"@
        } else {
            self.version@
        }
    }

    /// The version, with the commit it was built from when that is known:
    /// `0.1.0-pre.0 (a1b2c3d4e5f6)`.
    ///
    /// This is what the command line's `--version` prints after the binary
    /// name, so the name is deliberately absent here.
    pub fn version_line(&self) -> (line: String)
        ensures
            line@ == self.version_text(),
    {
        let mut line = owned(self.version);
        if !crate::text::same(&owned(self.commit), "unknown") {
            push_str(&mut line, " (");
            push_str(&mut line, self.commit);
            if self.dirty {
                push_str(&mut line, "-dirty");
            }
            push_str(&mut line, ")");
        }
        proof {
            if !self.dirty {
                assert(self.version@ + " ("@ + self.commit@ + Seq::<char>::empty() =~= self.version@
                    + " ("@ + self.commit@);
            }
        }
        line
    }

    /// The single line `chiploom version` prints, name included.
    pub fn short_line(&self) -> (line: String)
        ensures
            line@ == "chiploom "@ + self.version_text(),
    {
        let mut line = owned("chiploom ");
        let v = self.version_line();
        push_str(&mut line, v.as_str());
        line
    }

    /// The multi-line report `chiploom version --verbose` prints, as key and
    /// value: version, protocol, commit (with ` (dirty)` when the tree was
    /// dirty), target, host, profile, rustc, built.
    pub fn detailed(&self) -> (rows: Vec<(&'static str, String)>)
        ensures
            rows.len() == 8,
            rows[0].0@ == "version"@ && rows[0].1@ == self.version@,
            rows[1].0@ == "protocol"@ && rows[1].1@ == decimal(self.protocol_version as nat),
            rows[2].0@ == "commit"@ && rows[2].1@ == self.commit@ + (if self.dirty {
                " (dirty)"@
            } else {
                Seq::empty()
            }),
            rows[3].0@ == "target"@ && rows[3].1@ == self.target@,
            rows[4].0@ == "host"@ && rows[4].1@ == self.host@,
            rows[5].0@ == "profile"@ && rows[5].1@ == self.profile@,
            rows[6].0@ == "rustc"@ && rows[6].1@ == self.rustc@,
            rows[7].0@ == "built"@ && rows[7].1@ == self.built_at@,
    {
        let mut protocol = String::new();
        let ghost empty = protocol@;
        push_decimal(&mut protocol, self.protocol_version as u64);
        assert(protocol@ =~= empty + decimal(self.protocol_version as nat));
        assert(protocol@ =~= decimal(self.protocol_version as nat));
        let mut commit = owned(self.commit);
        if self.dirty {
            push_str(&mut commit, " (dirty)");
        } else {
            assert(commit@ + Seq::<char>::empty() =~= commit@);
        }
        let mut rows: Vec<(&'static str, String)> = Vec::new();
        rows.push(("version", owned(self.version)));
        rows.push(("protocol", protocol));
        rows.push(("commit", commit));
        rows.push(("target", owned(self.target)));
        rows.push(("host", owned(self.host)));
        rows.push(("profile", owned(self.profile)));
        rows.push(("rustc", owned(self.rustc)));
        rows.push(("built", owned(self.built_at)));
        rows
    }
}

} // verus!
