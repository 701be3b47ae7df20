use minibox::image::parse_image_ref;

#[test]
fn tag_defaults_to_latest() {
    let r = parse_image_ref("alpine");
    assert_eq!(r.repository, "alpine");
    assert_eq!(r.tag, "latest");
}

#[test]
fn explicit_tag_is_kept() {
    let r = parse_image_ref("alpine:3.19");
    assert_eq!(r.repository, "alpine");
    assert_eq!(r.tag, "3.19");
}

#[test]
fn split_happens_at_the_first_colon() {
    let r = parse_image_ref("repo:a:b");
    assert_eq!(r.repository, "repo");
    assert_eq!(r.tag, "a:b");
}

#[test]
fn empty_tag_after_colon() {
    let r = parse_image_ref("repo:");
    assert_eq!(r.repository, "repo");
    assert_eq!(r.tag, "");
}

#[test]
fn busybox_defaults_to_latest() {
    let r = parse_image_ref("busybox");
    assert_eq!(r.repository, "busybox");
    assert_eq!(r.tag, "latest");
}
