//! Errors of the host side: building, loading and watching a project.
use vstd::prelude::*;

verus! {

/// Why the host could not go on.
#[derive(Debug, Clone)]
pub enum Error {
    Io(String),
    Build(String),
    LibLoad(String),
    NoCargoToml,
    Watch(String),
}

} // verus!
