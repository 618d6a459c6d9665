//! The registry of installed packages, application by application.

use crate::pkg_info::{PackageInfo, PackageInfoView, PkgType};
use vstd::hash_map::StringHashMap;
use vstd::prelude::*;

verus! {

/// What a registry stands for: for each scanned application, by its URI, the
/// packages found installed in it, in the order of the scan.
pub type RegistryView = Map<Seq<char>, Seq<PackageInfoView>>;

/// Whether every package of `pkgs` is marked as installed.
pub open spec fn all_installed(pkgs: Seq<PackageInfoView>) -> bool {
    forall|i: int| 0 <= i < pkgs.len() ==> (#[trigger] pkgs[i]).is_installed
}

/// Whether `registry` lists nothing but installed packages.
pub open spec fn only_installed(registry: RegistryView) -> bool {
    forall|uri: Seq<char>| #[trigger]
        registry.contains_key(uri) ==> all_installed(registry[uri])
}

/// Whether `pkg` is the package `(pkg_type, name)`: the kind is the same and
/// the name is the same, character for character.
pub open spec fn is_package(pkg: PackageInfoView, pkg_type: PkgType, name: Seq<char>) -> bool {
    pkg.identity.pkg_type == pkg_type && pkg.identity.name == name
}

/// Whether the package `(pkg_type, name)` is among `pkgs`.
pub open spec fn provides(pkgs: Seq<PackageInfoView>, pkg_type: PkgType, name: Seq<char>) -> bool {
    exists|i: int| 0 <= i < pkgs.len() && is_package(#[trigger] pkgs[i], pkg_type, name)
}

/// Whether `index` is the place of the first package `(pkg_type, name)` in
/// `pkgs`.
pub open spec fn is_first_match(
    pkgs: Seq<PackageInfoView>,
    index: int,
    pkg_type: PkgType,
    name: Seq<char>,
) -> bool {
    &&& 0 <= index < pkgs.len()
    &&& is_package(pkgs[index], pkg_type, name)
    &&& forall|j: int| 0 <= j < index ==> !is_package(#[trigger] pkgs[j], pkg_type, name)
}

/// Whether `index` is the place of the first package in `pkgs` that is not
/// marked as installed.
pub open spec fn is_first_not_installed(pkgs: Seq<PackageInfoView>, index: int) -> bool {
    &&& 0 <= index < pkgs.len()
    &&& !pkgs[index].is_installed
    &&& forall|j: int| 0 <= j < index ==> (#[trigger] pkgs[j]).is_installed
}

/// Why a registry turned a list of packages down: the package at `index` of
/// the list offered for `app_uri` is not installed. Whoever built that list
/// broke the registry's contract; this is no finding of a validation.
#[derive(Clone, Debug, PartialEq, Eq)]
pub struct RegistryFault {
    pub app_uri: String,
    pub index: usize,
}

/// The installed packages of every scanned application. A registry holds
/// installed packages only: `insert` takes no other list.
pub struct PackageInfoRegistry {
    apps: StringHashMap<Vec<PackageInfo>>,
}

impl View for PackageInfoRegistry {
    type V = RegistryView;

    closed spec fn view(&self) -> RegistryView {
        Map::new(
            |uri: Seq<char>| self.apps@.contains_key(uri),
            |uri: Seq<char>| self.apps@[uri].deep_view(),
        )
    }
}

/// The place of the first package of `pkgs` that is not marked as installed,
/// if there is one.
fn find_not_installed(pkgs: &Vec<PackageInfo>) -> (place: Option<usize>)
    ensures
        place is None <==> all_installed(pkgs.deep_view()),
        place matches Some(index) ==> is_first_not_installed(pkgs.deep_view(), index as int),
{
    let mut i: usize = 0;
    while i < pkgs.len()
        invariant
            i <= pkgs.len(),
            forall|j: int| 0 <= j < i ==> (#[trigger] pkgs.deep_view()[j]).is_installed,
        decreases pkgs.len() - i,
    {
        if !pkgs[i].is_installed {
            assert(!pkgs.deep_view()[i as int].is_installed);
            return Some(i);
        }
        i += 1;
    }
    None
}

/// The place of the first package `(pkg_type, name)` in `pkgs`, if it is
/// among them.
pub fn find_package(pkgs: &Vec<PackageInfo>, pkg_type: PkgType, name: &String) -> (place: Option<
    usize,
>)
    ensures
        place is Some <==> provides(pkgs.deep_view(), pkg_type, name@),
        place matches Some(index) ==> is_first_match(
            pkgs.deep_view(),
            index as int,
            pkg_type,
            name@,
        ),
{
    let mut i: usize = 0;
    while i < pkgs.len()
        invariant
            i <= pkgs.len(),
            forall|j: int|
                0 <= j < i ==> !is_package(#[trigger] pkgs.deep_view()[j], pkg_type, name@),
        decreases pkgs.len() - i,
    {
        if pkgs[i].identity.identifies(pkg_type, name) {
            assert(is_package(pkgs.deep_view()[i as int], pkg_type, name@));
            return Some(i);
        }
        i += 1;
    }
    None
}

impl PackageInfoRegistry {
    #[verifier::type_invariant]
    spec fn holds_installed_only(self) -> bool {
        forall|uri: Seq<char>| #[trigger]
            self.apps@.contains_key(uri) ==> all_installed(self.apps@[uri].deep_view())
    }

    /// A registry in which no application has been scanned yet.
    pub fn new() -> (registry: PackageInfoRegistry)
        ensures
            registry@ == Map::<Seq<char>, Seq<PackageInfoView>>::empty(),
            only_installed(registry@),
    {
        PackageInfoRegistry { apps: StringHashMap::new() }
    }

    /// Records `pkgs` as the installed packages of the application
    /// `app_uri`, in place of what was recorded for it before. A list that
    /// holds a package not marked as installed is turned down, and the
    /// registry stays as it was.
    pub fn insert(&mut self, app_uri: String, pkgs: Vec<PackageInfo>) -> (outcome: Result<
        (),
        RegistryFault,
    >)
        ensures
            only_installed(final(self)@),
            outcome is Ok <==> all_installed(pkgs.deep_view()),
            outcome is Ok ==> final(self)@ == old(self)@.insert(app_uri@, pkgs.deep_view()),
            outcome matches Err(fault) ==> {
                &&& final(self)@ == old(self)@
                &&& fault.app_uri@ == app_uri@
                &&& is_first_not_installed(pkgs.deep_view(), fault.index as int)
            },
    {
        proof {
            use_type_invariant(&*self);
        }
        match find_not_installed(&pkgs) {
            Some(index) => Err(RegistryFault { app_uri, index }),
            None => {
                let mut apps = StringHashMap::new();
                std::mem::swap(&mut apps, &mut self.apps);
                apps.insert(app_uri, pkgs);
                self.apps = apps;
                Ok(())
            },
        }
    }

    /// Whether the application `app_uri` has been scanned.
    pub fn has_app(&self, app_uri: &str) -> (known: bool)
        ensures
            known == self@.contains_key(app_uri@),
    {
        self.apps.contains_key(app_uri)
    }

    /// The installed packages of the application `app_uri`, if it has been
    /// scanned.
    pub fn packages_of(&self, app_uri: &str) -> (listed: Option<&Vec<PackageInfo>>)
        ensures
            listed is Some <==> self@.contains_key(app_uri@),
            listed matches Some(pkgs) ==> {
                &&& pkgs.deep_view() == self@[app_uri@]
                &&& all_installed(pkgs.deep_view())
            },
    {
        proof {
            use_type_invariant(self);
        }
        self.apps.get(app_uri)
    }

    /// The first package `(pkg_type, addon)` among the installed packages of
    /// the application `app_uri`.
    pub fn lookup(&self, app_uri: &str, pkg_type: PkgType, addon: &String) -> (found: Option<
        &PackageInfo,
    >)
        ensures
            found is Some <==> self@.contains_key(app_uri@) && provides(
                self@[app_uri@],
                pkg_type,
                addon@,
            ),
            found matches Some(pkg) ==> {
                &&& pkg.is_installed
                &&& exists|i: int|
                    is_first_match(self@[app_uri@], i, pkg_type, addon@) && pkg@
                        == #[trigger] self@[app_uri@][i]
            },
    {
        match self.packages_of(app_uri) {
            None => None,
            Some(pkgs) => match find_package(pkgs, pkg_type, addon) {
                None => None,
                Some(index) => {
                    assert(pkgs.deep_view()[index as int] == pkgs[index as int]@);
                    Some(&pkgs[index])
                },
            },
        }
    }
}

} // verus!
