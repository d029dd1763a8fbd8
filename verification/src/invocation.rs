//! The launch descriptor of the external renderer.

use vstd::prelude::*;
use crate::area::AreaFile;

verus! {

/// The renderer that is launched when none is configured.
pub open spec fn default_program() -> Seq<char> {
    "asciidoctor-pdf"@
}

/// The renderer to launch, given what the configuration holds.
pub open spec fn program_for(configured: Option<Seq<char>>) -> Seq<char> {
    match configured {
        Some(name) => name,
        None => default_program(),
    }
}

/// The views of an optional string.
pub open spec fn configured_view(configured: Option<String>) -> Option<Seq<char>> {
    match configured {
        Some(name) => Some(name@),
        None => None,
    }
}

/// The name of the configuration variable that overrides the renderer.
pub fn renderer_variable() -> (r: &'static str)
    ensures
        r@ == "PDFCREATOR"@,
{
    "PDFCREATOR"
}

/// The renderer to launch: the configured one, or the default where the
/// configuration is silent. A configured name is taken as it is, empty or not.
pub fn renderer_program(configured: Option<String>) -> (r: String)
    ensures
        r@ == program_for(configured_view(configured)),
{
    match configured {
        Some(name) => name,
        None => "asciidoctor-pdf".to_string(),
    }
}

/// One argument on the renderer's command line.
#[derive(Clone, Copy, PartialEq, Eq, Structural, Debug)]
pub enum Argument {
    /// The flag that announces the output path.
    OutputFlag,
    /// The path of a file of the working area.
    Path(AreaFile),
}

/// The text of the flag that announces the output path.
pub fn output_flag() -> (r: &'static str)
    ensures
        r@ == "-o"@,
{
    "-o"
}

/// How the renderer is launched: which program, reading which file of the
/// working area, leaving its result in which.
#[derive(PartialEq, Eq, Debug)]
pub struct RenderInvocation {
    pub program: String,
    pub input: AreaFile,
    pub output: AreaFile,
}

/// The mathematical value of a [`RenderInvocation`].
pub ghost struct InvocationView {
    pub program: Seq<char>,
    pub input: AreaFile,
    pub output: AreaFile,
}

impl View for RenderInvocation {
    type V = InvocationView;

    open spec fn view(&self) -> InvocationView {
        InvocationView { program: self.program@, input: self.input, output: self.output }
    }
}

/// The invocation that converts the body of a working area.
pub open spec fn render(program: Seq<char>) -> InvocationView {
    InvocationView { program, input: AreaFile::Body, output: AreaFile::Output }
}

/// The command line of an invocation, after the program's name: the output
/// flag, the output path, the input path.
pub open spec fn command_line(invocation: InvocationView) -> Seq<Argument> {
    seq![
        Argument::OutputFlag,
        Argument::Path(invocation.output),
        Argument::Path(invocation.input),
    ]
}

impl RenderInvocation {
    /// The invocation of `program` on the body of a working area.
    pub fn new(program: String) -> (r: RenderInvocation)
        ensures
            r@ == render(program@),
    {
        RenderInvocation { program, input: AreaFile::Body, output: AreaFile::Output }
    }

    /// The arguments handed to the program, in order.
    pub fn arguments(&self) -> (r: Vec<Argument>)
        ensures
            r@ == command_line(self@),
    {
        let mut args: Vec<Argument> = Vec::new();
        args.push(Argument::OutputFlag);
        args.push(Argument::Path(self.output));
        args.push(Argument::Path(self.input));
        assert(args@ =~= command_line(self@));
        args
    }
}

/// The theme is never named on the command line: the renderer finds it by
/// its name inside the working area.
pub proof fn theme_is_not_an_argument(program: Seq<char>)
    ensures
        !command_line(render(program)).contains(Argument::Path(AreaFile::Theme)),
{
}

} // verus!
