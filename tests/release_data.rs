use botifactory::{NewRelease, ReleaseBody, ReleaseResponse};
use std::path::PathBuf;

#[test]
fn new_release_keeps_version_and_path() {
    let r = NewRelease::new("1.2.3".to_string(), PathBuf::from("/tmp/bin"));
    assert_eq!(r.version, "1.2.3");
    assert_eq!(r.path, PathBuf::from("/tmp/bin"));
}

#[test]
fn release_body_wraps_release() {
    let release = ReleaseResponse {
        id: 7,
        version: "0.1.0".to_string(),
        hash: vec![0, 255, 16],
        created_at: 1,
        updated_at: 2,
    };
    let body = ReleaseBody { release: release.clone() };
    assert_eq!(body.release.id, 7);
    assert_eq!(body.release.hash, vec![0u8, 255, 16]);
    assert_eq!(release.version, "0.1.0");
}
