//! The distribution releases the builder knows how to sandbox.

use vstd::prelude::*;

verus! {

/// A supported distribution release.
#[derive(Copy, Clone, Debug, PartialEq, Eq, Structural)]
pub enum Release {
    DebianJessie,
    DebianStretch,
    DebianBuster,
    UbuntuTrusty,
    UbuntuXenial,
    UbuntuBionic,
    UbuntuCosmic,
    UbuntuDisco,
}

impl Release {
    /// The distribution a release belongs to.
    pub open spec fn spec_distro(self) -> Seq<char> {
        match self {
            Release::DebianJessie | Release::DebianStretch | Release::DebianBuster => "debian"@,
            Release::UbuntuTrusty
            | Release::UbuntuXenial
            | Release::UbuntuBionic
            | Release::UbuntuCosmic
            | Release::UbuntuDisco => "ubuntu"@,
        }
    }

    pub fn distro(&self) -> (r: &'static str)
        ensures
            r@ == self.spec_distro(),
    {
        match self {
            Release::DebianJessie | Release::DebianStretch | Release::DebianBuster => "debian",
            Release::UbuntuTrusty
            | Release::UbuntuXenial
            | Release::UbuntuBionic
            | Release::UbuntuCosmic
            | Release::UbuntuDisco => "ubuntu",
        }
    }

    /// The codename of a release.
    pub open spec fn spec_codename(self) -> Seq<char> {
        match self {
            Release::DebianJessie => "jessie"@,
            Release::DebianStretch => "stretch"@,
            Release::DebianBuster => "buster"@,
            Release::UbuntuTrusty => "trusty"@,
            Release::UbuntuXenial => "xenial"@,
            Release::UbuntuBionic => "bionic"@,
            Release::UbuntuCosmic => "cosmic"@,
            Release::UbuntuDisco => "disco"@,
        }
    }

    pub fn codename(&self) -> (r: &'static str)
        ensures
            r@ == self.spec_codename(),
    {
        match self {
            Release::DebianJessie => "jessie",
            Release::DebianStretch => "stretch",
            Release::DebianBuster => "buster",
            Release::UbuntuTrusty => "trusty",
            Release::UbuntuXenial => "xenial",
            Release::UbuntuBionic => "bionic",
            Release::UbuntuCosmic => "cosmic",
            Release::UbuntuDisco => "disco",
        }
    }

    /// Whether the release ships the locales-all package, which makes the
    /// locale environment saner for builds.
    pub open spec fn spec_locales_all(self) -> bool {
        match self {
            Release::DebianJessie => false,
            Release::DebianStretch => true,
            Release::DebianBuster => true,
            Release::UbuntuTrusty => false,
            Release::UbuntuXenial => true,
            Release::UbuntuBionic => true,
            Release::UbuntuCosmic => true,
            Release::UbuntuDisco => true,
        }
    }

    pub fn locales_all(&self) -> (r: bool)
        ensures
            r == self.spec_locales_all(),
    {
        match self {
            Release::DebianJessie => false,
            Release::DebianStretch => true,
            Release::DebianBuster => true,
            Release::UbuntuTrusty => false,
            Release::UbuntuXenial => true,
            Release::UbuntuBionic => true,
            Release::UbuntuCosmic => true,
            Release::UbuntuDisco => true,
        }
    }
}

/// All releases, preferred first: current stable, then older supported,
/// then pre-release.
pub fn releases() -> (r: Vec<Release>)
    ensures
        r@ == seq![
            Release::UbuntuBionic,
            Release::DebianStretch,
            Release::UbuntuXenial,
            Release::UbuntuTrusty,
            Release::DebianJessie,
            Release::UbuntuCosmic,
            Release::UbuntuDisco,
            Release::DebianBuster,
        ],
{
    let mut r: Vec<Release> = Vec::new();
    r.push(Release::UbuntuBionic);
    r.push(Release::DebianStretch);
    r.push(Release::UbuntuXenial);
    r.push(Release::UbuntuTrusty);
    r.push(Release::DebianJessie);
    r.push(Release::UbuntuCosmic);
    r.push(Release::UbuntuDisco);
    r.push(Release::DebianBuster);
    proof {
        assert(r@ =~= seq![
            Release::UbuntuBionic,
            Release::DebianStretch,
            Release::UbuntuXenial,
            Release::UbuntuTrusty,
            Release::DebianJessie,
            Release::UbuntuCosmic,
            Release::UbuntuDisco,
            Release::DebianBuster,
        ]);
    }
    r
}

} // verus!
