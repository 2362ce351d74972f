use encode_bridge::api::{create_workflow_response, status_url};
use encode_bridge::ids::{new_workflow_id, workflow_id_text};
use encode_bridge::registry::Submission;

#[test]
fn identifiers_are_version_4() {
    let a = new_workflow_id();
    let b = new_workflow_id();
    assert_ne!(a, b);
    assert_eq!((a >> 76) & 0xf, 4);
    assert_eq!((a >> 62) & 0x3, 2);
}

#[test]
fn identifier_text() {
    assert_eq!(workflow_id_text(0), "00000000-0000-0000-0000-000000000000");
    assert_eq!(workflow_id_text(0xa1a2a3a4_b1b2_c1c2_d1d2_d3d4d5d6d7d8), "a1a2a3a4-b1b2-c1c2-d1d2-d3d4d5d6d7d8");
}

#[test]
fn status_urls() {
    assert_eq!(status_url(1), "/workflows/00000000-0000-0000-0000-000000000001");
    let r = create_workflow_response(Submission { workflow_id: 2, existing: true });
    assert_eq!(r.status_url, "/workflows/00000000-0000-0000-0000-000000000002");
    assert!(r.existing);
    assert_eq!(r.workflow_id, 2);
}
