//! Logic of the Nexus backend: the package name of a guest.
use crate::manifest::{opt_view, package_name_in, package_name_of, parse_toml_document, toml_document};
use vstd::prelude::*;

verus! {

/// The compiler of Nexus guests. Its `compile` checks that the guest path
/// exists, enters it, finds the package name with `get_cargo_package_name`
/// and builds the package with Nexus's compiler.
pub struct NEXUS_TARGET;

/// The package name of a guest whose manifest text is `contents`, if the
/// manifest could be read, parses as a TOML document, and has a string
/// at `name` in its table `package`.
pub open spec fn cargo_package_name_of(contents: Option<Seq<char>>) -> Option<Seq<char>> {
    match contents {
        None => None,
        Some(c) => match toml_document(c) {
            None => None,
            Some(doc) => package_name_in(doc),
        },
    }
}

/// The package name of a guest, given the text of its `Cargo.toml` where it
/// could be read: `None` where it could not, where it is no TOML document,
/// or where it has no `package.name`.
pub fn get_cargo_package_name(contents: Option<&str>) -> (r: Option<String>)
    ensures
        opt_view(r) == cargo_package_name_of(
            match contents {
                Some(c) => Some(c@),
                None => None,
            },
        ),
{
    match contents {
        None => None,
        Some(c) => match parse_toml_document(c) {
            Ok(doc) => package_name_of(&doc),
            Err(_) => None,
        },
    }
}

} // verus!
