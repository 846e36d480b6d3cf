//! Where base images live and where they come from.
//!
//! Fetching and unpacking are outside collaborators; this module only
//! states the paths and URLs they use.

use vstd::prelude::*;
use vstd::string::StringExecFns;

verus! {

/// The directory under the cache that holds the unpacked base image of a
/// distribution release.
pub fn base_image(cache: &str, distro: &str) -> (r: String)
    ensures
        r@ == cache@ + "/base-images/"@ + distro@,
{
    let mut r = String::from_str(cache);
    r.append("/base-images/");
    r.append(distro);
    r
}

/// The download URL of an Ubuntu core image for a codename.
pub fn ubuntu_image_url(codename: &str) -> (r: String)
    ensures
        r@ == "https://partner-images.canonical.com/core/"@ + codename@ + "/current/ubuntu-"@
            + codename@ + "-core-cloudimg-amd64-root.tar.gz"@,
{
    let mut r = String::from_str("https://partner-images.canonical.com/core/");
    r.append(codename);
    r.append("/current/ubuntu-");
    r.append(codename);
    r.append("-core-cloudimg-amd64-root.tar.gz");
    r
}

} // verus!
