//! The execution backends a run can be asked to use.

use vstd::prelude::*;
use vstd::string::StringExecFns;

verus! {

/// Which tensor backend executes the numeric graph.
#[derive(Clone, Copy, Debug, PartialEq, Eq, Structural)]
pub enum FlagBackend {
    Ndarray,
    Cuda,
}

impl FlagBackend {
    pub open spec fn spec_name(&self) -> Seq<char> {
        match self {
            FlagBackend::Ndarray => "ndarray"@,
            FlagBackend::Cuda => "cuda"@,
        }
    }

    /// The backend used when none is named: the CPU one.
    pub fn default_backend() -> (r: FlagBackend)
        ensures
            r == FlagBackend::Ndarray,
    {
        FlagBackend::Ndarray
    }

    /// The name under which the backend is selected.
    pub fn name(&self) -> (r: String)
        ensures
            r@ == self.spec_name(),
    {
        match self {
            FlagBackend::Ndarray => String::from_str("ndarray"),
            FlagBackend::Cuda => String::from_str("cuda"),
        }
    }
}

} // verus!
