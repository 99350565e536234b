//! A program installed on the host, as the enumeration of the host reports it.

use crate::finding::opt_text;
use vstd::prelude::*;

verus! {

/// One installed program. Programs are told apart by their place in the batch, not
/// by their name.
#[derive(Clone, Debug, PartialEq, Eq)]
pub struct InstalledProgram {
    pub name: String,
    pub version: Option<String>,
    pub publisher: Option<String>,
    pub install_date: Option<String>,
}

/// An installed program as plain values.
pub struct InstalledProgramView {
    pub name: Seq<char>,
    pub version: Option<Seq<char>>,
    pub publisher: Option<Seq<char>>,
    pub install_date: Option<Seq<char>>,
}

impl View for InstalledProgram {
    type V = InstalledProgramView;

    open spec fn view(&self) -> InstalledProgramView {
        InstalledProgramView {
            name: self.name@,
            version: opt_text(self.version),
            publisher: opt_text(self.publisher),
            install_date: opt_text(self.install_date),
        }
    }
}

/// The programs that a vector holds, as plain values.
pub open spec fn programs_of(v: Seq<InstalledProgram>) -> Seq<InstalledProgramView> {
    Seq::new(v.len(), |i: int| v[i]@)
}

} // verus!
