//! The container build tool abstraction.
//!
//! An [`Engine`] only selects which external tool a driver invokes; the
//! command lines for its operations — build, tag, push, remove, export to a
//! tarball — are computed here and pinned down exactly, so the driver runs
//! precisely what was decided.

use vstd::prelude::*;

use crate::error::ExportError;
use crate::registry::str_eq;

verus! {

broadcast use vstd::string::group_string_axioms;

/// The external container build tool to invoke.
#[derive(Clone, Copy, Debug, PartialEq, Eq, Structural)]
pub enum Engine {
    Docker,
    Buildah,
}

/// The engine, if any, that a keyword names.
pub open spec fn spec_engine_of(s: Seq<char>) -> Option<Engine> {
    if s == "docker"@ {
        Some(Engine::Docker)
    } else if s == "buildah"@ {
        Some(Engine::Buildah)
    } else {
        None
    }
}

impl Engine {
    /// Reads an engine keyword.
    pub fn parse(value: &str) -> (r: Result<Engine, ExportError>)
        ensures
            match r {
                Ok(e) => spec_engine_of(value@) == Some(e),
                Err(e) => spec_engine_of(value@) is None && (e
                    matches ExportError::InvalidEngine { value: v } && v@ == value@),
            },
    {
        if str_eq(value, "docker") {
            Ok(Engine::Docker)
        } else if str_eq(value, "buildah") {
            Ok(Engine::Buildah)
        } else {
            Err(ExportError::InvalidEngine { value: String::from_str(value) })
        }
    }

    /// The program name of the tool this engine invokes.
    pub fn program(&self) -> (r: String)
        ensures
            spec_engine_of(r@) == Some(*self),
    {
        proof {
            reveal_strlit("docker");
            reveal_strlit("buildah");
            assert("docker"@.len() == 6);
            assert("buildah"@.len() == 7);
        }
        match self {
            Engine::Docker => String::from_str("docker"),
            Engine::Buildah => String::from_str("buildah"),
        }
    }

    /// The arguments that build an image from a workspace and give it its
    /// first tag.
    pub fn build_args(&self, workdir: &str, name_tag: &str, memory: Option<&String>) -> (r: Vec<
        String,
    >)
        ensures
            r.deep_view() == match memory {
                Some(m) => seq![
                    "build"@,
                    "--force-rm"@,
                    "--memory"@,
                    m@,
                    "-t"@,
                    name_tag@,
                    workdir@,
                ],
                None => seq!["build"@, "--force-rm"@, "-t"@, name_tag@, workdir@],
            },
    {
        let mut r: Vec<String> = Vec::new();
        r.push(String::from_str("build"));
        r.push(String::from_str("--force-rm"));
        match memory {
            Some(m) => {
                r.push(String::from_str("--memory"));
                r.push(m.clone());
            },
            None => {},
        }
        r.push(String::from_str("-t"));
        r.push(String::from_str(name_tag));
        r.push(String::from_str(workdir));
        proof {
            if memory is Some {
                assert(r.deep_view() =~= seq![
                    "build"@,
                    "--force-rm"@,
                    "--memory"@,
                    memory.unwrap()@,
                    "-t"@,
                    name_tag@,
                    workdir@,
                ]);
            } else {
                assert(r.deep_view() =~= seq!["build"@, "--force-rm"@, "-t"@, name_tag@, workdir@]);
            }
        }
        r
    }

    /// The arguments that apply a further tag to an already built image.
    pub fn tag_args(&self, source: &str, target: &str) -> (r: Vec<String>)
        ensures
            r.deep_view() == seq!["tag"@, source@, target@],
    {
        let mut r: Vec<String> = Vec::new();
        r.push(String::from_str("tag"));
        r.push(String::from_str(source));
        r.push(String::from_str(target));
        proof {
            assert(r.deep_view() =~= seq!["tag"@, source@, target@]);
        }
        r
    }

    /// The arguments that upload one tag to a registry.
    pub fn push_args(&self, target: &str) -> (r: Vec<String>)
        ensures
            r.deep_view() == seq!["push"@, target@],
    {
        let mut r: Vec<String> = Vec::new();
        r.push(String::from_str("push"));
        r.push(String::from_str(target));
        proof {
            assert(r.deep_view() =~= seq!["push"@, target@]);
        }
        r
    }

    /// The arguments that remove one local tag of an image.
    pub fn rmi_args(&self, target: &str) -> (r: Vec<String>)
        ensures
            r.deep_view() == seq!["rmi"@, target@],
    {
        let mut r: Vec<String> = Vec::new();
        r.push(String::from_str("rmi"));
        r.push(String::from_str(target));
        proof {
            assert(r.deep_view() =~= seq!["rmi"@, target@]);
        }
        r
    }

    /// The arguments that export an image to a tarball.
    pub fn save_args(&self, name: &str, file: &str) -> (r: Vec<String>)
        ensures
            r.deep_view() == seq!["save"@, "-o"@, file@, name@],
    {
        let mut r: Vec<String> = Vec::new();
        r.push(String::from_str("save"));
        r.push(String::from_str("-o"));
        r.push(String::from_str(file));
        r.push(String::from_str(name));
        proof {
            assert(r.deep_view() =~= seq!["save"@, "-o"@, file@, name@]);
        }
        r
    }

    /// The arguments that ask the local daemon which operating system its
    /// containers run.
    pub fn server_os_args(&self) -> (r: Vec<String>)
        ensures
            r.deep_view() == seq!["version"@, "--format='{{.Server.Os}}'"@],
    {
        let mut r: Vec<String> = Vec::new();
        r.push(String::from_str("version"));
        r.push(String::from_str("--format='{{.Server.Os}}'"));
        proof {
            assert(r.deep_view() =~= seq!["version"@, "--format='{{.Server.Os}}'"@]);
        }
        r
    }
}

/// Whether `sub` occurs as a contiguous run inside `s`.
pub open spec fn spec_str_contains(s: Seq<char>, sub: Seq<char>) -> bool {
    exists|i: int|
        0 <= i && i + sub.len() <= s.len() && #[trigger] s.subrange(i, i + sub.len() as int)
            == sub
}

/// Decides whether `needle` occurs inside `haystack`.
pub fn str_contains(haystack: &str, needle: &str) -> (r: bool)
    ensures
        r == spec_str_contains(haystack@, needle@),
{
    let hn = haystack.unicode_len();
    let nn = needle.unicode_len();
    if nn > hn {
        return false;
    }
    let mut i: usize = 0;
    while i <= hn - nn
        invariant
            hn == haystack@.len(),
            nn == needle@.len(),
            nn <= hn,
            i <= hn - nn + 1,
            forall|m: int|
                0 <= m < i ==> #[trigger] haystack@.subrange(m, m + nn as int) != needle@,
        decreases hn + 1 - nn - i,
    {
        let mut j: usize = 0;
        let mut eq = true;
        while j < nn
            invariant
                hn == haystack@.len(),
                nn == needle@.len(),
                i + nn <= hn,
                j <= nn,
                eq ==> forall|k: int| 0 <= k < j ==> haystack@[i + k] == needle@[k],
                !eq ==> exists|k: int| 0 <= k < j && haystack@[i + k] != needle@[k],
            decreases nn - j,
        {
            if haystack.get_char(i + j) != needle.get_char(j) {
                eq = false;
            }
            j = j + 1;
        }
        let ghost sub = haystack@.subrange(i as int, i + nn as int);
        if eq {
            proof {
                assert(sub =~= needle@);
            }
            return true;
        }
        proof {
            let k = choose|k: int| 0 <= k < nn && haystack@[i + k] != needle@[k];
            assert(sub[k] == haystack@[i + k]);
            assert(sub != needle@);
        }
        i = i + 1;
    }
    proof {
        if spec_str_contains(haystack@, needle@) {
            let m = choose|m: int|
                0 <= m && m + needle@.len() <= haystack@.len() && #[trigger] haystack@.subrange(
                    m,
                    m + needle@.len() as int,
                ) == needle@;
            assert(m < i);
        }
    }
    false
}

/// The operating system whose containers the locally running daemon manages.
///
/// Containers can be exported on a Windows machine only while the daemon is
/// in Windows mode, so the export is stopped when it is not.
#[derive(Clone, Copy, Debug, PartialEq, Eq, Structural)]
pub enum DockerOS {
    Linux,
    Windows,
}

impl DockerOS {
    /// Classifies the daemon's answer to the server-os query: an answer
    /// naming `windows` means Windows mode, anything else Linux mode.
    pub fn from_daemon_output(output: &str) -> (r: DockerOS)
        ensures
            r == DockerOS::Windows <==> spec_str_contains(output@, "windows"@),
    {
        if str_contains(output, "windows") {
            DockerOS::Windows
        } else {
            DockerOS::Linux
        }
    }

    /// Accepts only a daemon in Windows mode; anything else stops the export.
    pub fn fail_if_not_in_windows_mode(self) -> (r: Result<(), ExportError>)
        ensures
            match r {
                Ok(_) => self == DockerOS::Windows,
                Err(e) => self != DockerOS::Windows && e
                    matches ExportError::DockerNotInWindowsMode,
            },
    {
        match self {
            DockerOS::Windows => Ok(()),
            DockerOS::Linux => Err(ExportError::DockerNotInWindowsMode),
        }
    }
}

} // verus!
