//! How the built artifact is handed to a viewer.
//!
//! The artifact is the explicit output path where one is configured, else the
//! target with its extension replaced by `pdf`. On an ordinary host the
//! viewer is started as `open -a Skim <artifact>`. Where the process runs
//! inside a Linux layer on a Windows host, the artifact path is first
//! converted into the Windows namespace by an outside facility; the viewer is
//! then started as `explorer.exe <path>`, with every `/` of the converted
//! path written as `\`.

use crate::command::{text_of, CommandLine, CommandLineView};
use crate::path::{path_with_extension, with_extension};
use crate::text::chars_of;
use vstd::prelude::*;
use vstd::string::*;

verus! {

/// The path of the artifact that the viewer is given.
pub open spec fn artifact_path(target: Seq<char>, output: Option<Seq<char>>) -> Seq<char> {
    match output {
        Some(o) => o,
        None => path_with_extension(target, "pdf"@),
    }
}

/// Resolves the artifact path: `output` as it is where it is given, whatever
/// the target; else `target` with the extension `pdf`.
pub fn resolve_artifact(target: &str, output: Option<&str>) -> (r: String)
    ensures
        r@ == artifact_path(target@, text_of(output)),
        output matches Some(o) ==> r@ == o@,
        output is None ==> r@ == path_with_extension(target@, "pdf"@),
{
    match output {
        Some(o) => o.to_owned(),
        None => with_extension(target, "pdf"),
    }
}

/// `s` with every `/` replaced by `\`.
pub open spec fn with_backslashes(s: Seq<char>) -> Seq<char> {
    Seq::new(
        s.len(),
        |i: int|
            if s[i] == '/' {
                '\\'
            } else {
                s[i]
            },
    )
}

/// Writes every `/` of `s` as `\` and keeps the other characters.
pub fn to_backslashes(s: &str) -> (r: String)
    ensures
        r@ == with_backslashes(s@),
{
    let v = chars_of(s);
    let n: usize = v.len();
    let mut r = String::new();
    let mut start: usize = 0;
    let mut i: usize = 0;
    proof {
        reveal_strlit("\\");
        assert(with_backslashes(s@.take(0)) =~= Seq::<char>::empty());
    }
    while i < n
        invariant
            start <= i <= n,
            n == v.len(),
            v@ == s@,
            "\\"@ == seq!['\\'],
            r@ == with_backslashes(s@.take(start as int)),
            forall|k: int| start <= k < i ==> s@[k] != '/',
        decreases n - i,
    {
        if v[i] == '/' {
            r.append(s.substring_char(start, i));
            r.append("\\");
            proof {
                assert(r@ =~= with_backslashes(s@.take(i + 1)));
            }
            start = i + 1;
        }
        i = i + 1;
    }
    r.append(s.substring_char(start, n));
    proof {
        assert(r@ =~= with_backslashes(s@));
    }
    r
}

/// The two ways to open the artifact, chosen once at startup.
#[derive(Clone, Copy, Debug, PartialEq, Eq, Structural)]
pub enum ArtifactOpener {
    /// Hand the artifact path to the viewer as it is.
    DefaultOpen,
    /// Convert the artifact path into the host's namespace, then open it.
    CrossNamespace,
}

/// The viewer command of an ordinary host.
pub open spec fn default_viewer_command(artifact: Seq<char>) -> CommandLineView {
    CommandLineView { program: "open"@, args: seq!["-a"@, "Skim"@, artifact] }
}

/// The viewer command for an artifact path that was converted into the
/// Windows namespace.
pub open spec fn cross_namespace_viewer_command(converted: Seq<char>) -> CommandLineView {
    CommandLineView { program: "explorer.exe"@, args: seq![with_backslashes(converted)] }
}

impl ArtifactOpener {
    /// The opener for the detected host: `CrossNamespace` where the process
    /// runs inside the Linux layer of a Windows host, else `DefaultOpen`.
    pub fn for_host(inside_linux_layer: bool) -> (r: ArtifactOpener)
        ensures
            r == if inside_linux_layer {
                ArtifactOpener::CrossNamespace
            } else {
                ArtifactOpener::DefaultOpen
            },
    {
        if inside_linux_layer {
            ArtifactOpener::CrossNamespace
        } else {
            ArtifactOpener::DefaultOpen
        }
    }

    /// Whether the artifact path has to be converted before the viewer starts.
    pub fn needs_conversion(self) -> (r: bool)
        ensures
            r == (self is CrossNamespace),
    {
        match self {
            ArtifactOpener::CrossNamespace => true,
            ArtifactOpener::DefaultOpen => false,
        }
    }
}

/// The command that opens `artifact` on an ordinary host.
pub fn default_viewer(artifact: &str) -> (cmd: CommandLine)
    ensures
        cmd@ == default_viewer_command(artifact@),
{
    let mut args: Vec<String> = Vec::new();
    args.push("-a".to_owned());
    args.push("Skim".to_owned());
    args.push(artifact.to_owned());
    assert(args.deep_view() =~= seq!["-a"@, "Skim"@, artifact@]);
    CommandLine { program: "open".to_owned(), args }
}

/// The command that opens an artifact whose path was converted into the
/// Windows namespace.
pub fn cross_namespace_viewer(converted: &str) -> (cmd: CommandLine)
    ensures
        cmd@ == cross_namespace_viewer_command(converted@),
{
    let mut args: Vec<String> = Vec::new();
    args.push(to_backslashes(converted));
    assert(args.deep_view() =~= seq![with_backslashes(converted@)]);
    CommandLine { program: "explorer.exe".to_owned(), args }
}

} // verus!
