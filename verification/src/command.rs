//! Command lines of the subprocesses, and how the compiler's is built.
//!
//! The compiler is run as `satysfi <target> [-o <output>] [extra arguments]`.
//! Its command line is put together once and used unchanged for every build.

use crate::text::{split_whitespace, words};
use vstd::prelude::*;
use vstd::string::*;

verus! {

/// A program and the arguments to start it with.
#[derive(Clone, Debug, PartialEq, Eq)]
pub struct CommandLine {
    pub program: String,
    pub args: Vec<String>,
}

/// What a [`CommandLine`] holds, as texts.
pub struct CommandLineView {
    pub program: Seq<char>,
    pub args: Seq<Seq<char>>,
}

impl View for CommandLine {
    type V = CommandLineView;

    open spec fn view(&self) -> CommandLineView {
        CommandLineView { program: self.program@, args: self.args.deep_view() }
    }
}

/// The text of an optional string.
pub open spec fn text_of(s: Option<&str>) -> Option<Seq<char>> {
    match s {
        Some(t) => Some(t@),
        None => None,
    }
}

/// The arguments of the compiler: the target, then `-o` and the output path
/// where one is given, then the words of the extra arguments in their order.
pub open spec fn compiler_args(
    target: Seq<char>,
    output: Option<Seq<char>>,
    extra_args: Option<Seq<char>>,
) -> Seq<Seq<char>> {
    seq![target] + (match output {
        Some(o) => seq!["-o"@, o],
        None => Seq::empty(),
    }) + (match extra_args {
        Some(x) => words(x),
        None => Seq::empty(),
    })
}

/// The command line of the compiler for the given configuration.
pub open spec fn compiler_command(
    target: Seq<char>,
    output: Option<Seq<char>>,
    extra_args: Option<Seq<char>>,
) -> CommandLineView {
    CommandLineView { program: "satysfi"@, args: compiler_args(target, output, extra_args) }
}

/// Puts together the command line of the compiler. `extra_args` is split at
/// whitespace; each word becomes one argument.
pub fn build_invocation(target: &str, output: Option<&str>, extra_args: Option<&str>) -> (cmd:
    CommandLine)
    ensures
        cmd@ == compiler_command(target@, text_of(output), text_of(extra_args)),
{
    let mut args: Vec<String> = Vec::new();
    args.push(target.to_owned());
    assert(args.deep_view() =~= seq![target@]);
    if let Some(o) = output {
        args.push("-o".to_owned());
        args.push(o.to_owned());
        assert(args.deep_view() =~= seq![target@] + seq!["-o"@, o@]);
    } else {
        assert(args.deep_view() =~= seq![target@] + Seq::<Seq<char>>::empty());
    }
    let ghost head = args.deep_view();
    if let Some(x) = extra_args {
        let mut rest = split_whitespace(x);
        let ghost tail = rest.deep_view();
        args.append(&mut rest);
        assert(args.deep_view() =~= head + tail);
    } else {
        assert(args.deep_view() =~= head + Seq::<Seq<char>>::empty());
    }
    CommandLine { program: "satysfi".to_owned(), args }
}

} // verus!
