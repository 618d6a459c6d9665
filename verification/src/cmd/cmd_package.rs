//! The `package` command.

use vstd::prelude::*;

verus! {

/// The `package` command: it takes no arguments and packs the package in
/// the current directory.
#[derive(Debug)]
pub struct PackageCommand {}

} // verus!
