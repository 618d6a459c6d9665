//! Package kinds, identities and the record of one installed package.

use vstd::prelude::*;

verus! {

/// The kind of a package.
#[derive(Clone, Copy, Debug, PartialEq, Eq, Structural, Hash)]
pub enum PkgType {
    Extension,
    Protocol,
    AddonLoader,
    System,
}

/// What a package identity stands for: a kind and a name.
pub struct IdentityView {
    pub pkg_type: PkgType,
    pub name: Seq<char>,
}

/// The kind and name that tell one package from another inside an
/// application. The name is never empty, and nothing changes an identity
/// once it is made.
#[derive(Debug)]
pub struct PackageIdentity {
    pkg_type: PkgType,
    name: String,
}

impl View for PackageIdentity {
    type V = IdentityView;

    closed spec fn view(&self) -> IdentityView {
        IdentityView { pkg_type: self.pkg_type, name: self.name@ }
    }
}

impl DeepView for PackageIdentity {
    type V = IdentityView;

    open spec fn deep_view(&self) -> IdentityView {
        self@
    }
}

impl PackageIdentity {
    #[verifier::type_invariant]
    spec fn has_name(self) -> bool {
        self.name@.len() > 0
    }

    /// Makes the identity `(pkg_type, name)`; an empty name identifies
    /// nothing and gives `None`.
    pub fn new(pkg_type: PkgType, name: String) -> (made: Option<PackageIdentity>)
        ensures
            made is Some <==> name@.len() > 0,
            made matches Some(id) ==> id@ == (IdentityView { pkg_type, name: name@ }),
    {
        if name.as_str().is_empty() {
            None
        } else {
            Some(PackageIdentity { pkg_type, name })
        }
    }

    pub fn pkg_type(&self) -> (kind: PkgType)
        ensures
            kind == self@.pkg_type,
    {
        self.pkg_type
    }

    pub fn name(&self) -> (name: &str)
        ensures
            name@ == self@.name,
            name@.len() > 0,
    {
        proof {
            use_type_invariant(self);
        }
        self.name.as_str()
    }

    /// Whether this is the identity `(pkg_type, name)`: same kind, same
    /// name, character for character.
    pub fn identifies(&self, pkg_type: PkgType, name: &String) -> (same: bool)
        ensures
            same == (self@ == (IdentityView { pkg_type, name: name@ })),
    {
        self.pkg_type == pkg_type && self.name == *name
    }
}

impl Clone for PackageIdentity {
    fn clone(&self) -> (copy: PackageIdentity)
        ensures
            copy@ == self@,
    {
        proof {
            use_type_invariant(self);
        }
        PackageIdentity { pkg_type: self.pkg_type, name: self.name.clone() }
    }
}

impl PartialEq for PackageIdentity {
    fn eq(&self, other: &PackageIdentity) -> (same: bool) {
        self.pkg_type == other.pkg_type && self.name == other.name
    }
}

impl vstd::std_specs::cmp::PartialEqSpecImpl for PackageIdentity {
    open spec fn obeys_eq_spec() -> bool {
        true
    }

    open spec fn eq_spec(&self, other: &PackageIdentity) -> bool {
        self@ == other@
    }
}

impl Eq for PackageIdentity {}

/// What the record of an installed package stands for.
pub struct PackageInfoView {
    pub identity: IdentityView,
    pub app_uri: Seq<char>,
    pub is_installed: bool,
    pub version: Seq<char>,
    pub dependencies: Seq<IdentityView>,
}

/// One package as a scan of an application's package directory found it.
/// Of the manifest it keeps the version and the declared dependencies,
/// which the validation carries along and never reads.
#[derive(Clone, Debug, PartialEq, Eq)]
pub struct PackageInfo {
    pub identity: PackageIdentity,
    /// The URI of the application that owns the package.
    pub app_uri: String,
    pub is_installed: bool,
    pub version: String,
    pub dependencies: Vec<PackageIdentity>,
}

impl View for PackageInfo {
    type V = PackageInfoView;

    open spec fn view(&self) -> PackageInfoView {
        PackageInfoView {
            identity: self.identity@,
            app_uri: self.app_uri@,
            is_installed: self.is_installed,
            version: self.version@,
            dependencies: self.dependencies.deep_view(),
        }
    }
}

impl DeepView for PackageInfo {
    type V = PackageInfoView;

    open spec fn deep_view(&self) -> PackageInfoView {
        self@
    }
}

} // verus!
