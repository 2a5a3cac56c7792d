use clip_search::heif::LibHeif;

#[test]
fn get_version() {
    let lib_heif = LibHeif::new();
    let version = lib_heif.version();
    assert!(version[0] >= 1);
    assert!(version[1] >= 14);
}

#[test]
fn split_version_takes_the_three_leading_bytes() {
    assert_eq!(clip_search::heif::split_version(0x0112_0300), [1, 18, 3]);
    assert_eq!(clip_search::heif::split_version(0), [0, 0, 0]);
    assert_eq!(clip_search::heif::split_version(0xffff_ffff), [255, 255, 255]);
}
