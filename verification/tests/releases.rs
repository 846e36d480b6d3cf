use fappa::images::{base_image, ubuntu_image_url};
use fappa::num::{dec_string, parse_u64};
use fappa::release::{releases, Release};
use fappa::text::chars_of;

#[test]
fn distros_and_codenames() {
    assert_eq!(Release::DebianJessie.distro(), "debian");
    assert_eq!(Release::UbuntuDisco.distro(), "ubuntu");
    assert_eq!(Release::DebianStretch.codename(), "stretch");
    assert_eq!(Release::UbuntuBionic.codename(), "bionic");
    assert!(!Release::DebianJessie.locales_all());
    assert!(!Release::UbuntuTrusty.locales_all());
    assert!(Release::UbuntuXenial.locales_all());
    assert!(Release::DebianBuster.locales_all());
}

#[test]
fn release_order() {
    let rs = releases();
    assert_eq!(rs.len(), 8);
    assert_eq!(rs[0], Release::UbuntuBionic);
    assert_eq!(rs[7], Release::DebianBuster);
}

#[test]
fn image_paths() {
    assert_eq!(base_image("/cache", "disco"), "/cache/base-images/disco");
    assert_eq!(
        ubuntu_image_url("disco"),
        "https://partner-images.canonical.com/core/disco/current/ubuntu-disco-core-cloudimg-amd64-root.tar.gz"
    );
}

#[test]
fn decimal_round_trip() {
    assert_eq!(dec_string(0), "0");
    assert_eq!(dec_string(65535), "65535");
    assert_eq!(dec_string(u64::MAX), "18446744073709551615");
    assert_eq!(parse_u64(&chars_of("65535")), Some(65535));
    assert_eq!(parse_u64(&chars_of("+12")), Some(12));
    assert_eq!(parse_u64(&chars_of("")), None);
    assert_eq!(parse_u64(&chars_of("+")), None);
    assert_eq!(parse_u64(&chars_of("1x")), None);
    assert_eq!(parse_u64(&chars_of("18446744073709551615")), Some(u64::MAX));
    assert_eq!(parse_u64(&chars_of("18446744073709551616")), None);
}
