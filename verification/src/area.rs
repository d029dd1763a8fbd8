//! The layout of a working area: the three files a conversion touches.

use vstd::prelude::*;

verus! {

/// One of the three files that a working area holds.
#[derive(Clone, Copy, PartialEq, Eq, Structural, Debug)]
pub enum AreaFile {
    /// The markup body of the request.
    Body,
    /// The theme definition of the request.
    Theme,
    /// The document that the renderer is expected to leave behind.
    Output,
}

impl AreaFile {
    /// The name of this file, relative to the working area.
    pub open spec fn name(self) -> Seq<char> {
        match self {
            AreaFile::Body => "document.adoc"@,
            AreaFile::Theme => "custom-theme.yml"@,
            AreaFile::Output => "result.pdf"@,
        }
    }

    /// The name of this file, relative to the working area.
    pub fn file_name(self) -> (r: &'static str)
        ensures
            r@ == self.name(),
    {
        match self {
            AreaFile::Body => "document.adoc",
            AreaFile::Theme => "custom-theme.yml",
            AreaFile::Output => "result.pdf",
        }
    }
}

/// No two files of a working area share a name, so writing one never
/// touches another, and the renderer's output cannot be mistaken for an
/// input.
pub proof fn names_are_distinct(a: AreaFile, b: AreaFile)
    ensures
        a.name() == b.name() <==> a == b,
{
    reveal_strlit("document.adoc");
    reveal_strlit("custom-theme.yml");
    reveal_strlit("result.pdf");
    assert(AreaFile::Body.name().len() == 13);
    assert(AreaFile::Theme.name().len() == 16);
    assert(AreaFile::Output.name().len() == 10);
}

/// A file name is a single path component: it holds no separator, so it
/// always lies directly inside the working area it is joined to.
pub proof fn names_are_plain(f: AreaFile)
    ensures
        f.name().len() > 0,
        !f.name().contains('/'),
        !f.name().contains('\\'),
{
    reveal_strlit("document.adoc");
    reveal_strlit("custom-theme.yml");
    reveal_strlit("result.pdf");
}

} // verus!
