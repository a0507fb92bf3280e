//! The device client: URLs, XML bodies and pairing state, held against the
//! documented wire format.

use lgremote::{content_type, LGTV};

#[test]
fn new_television_is_unpaired_on_the_default_port() {
    let tv = LGTV::new("192.168.1.250");
    assert_eq!(tv.ip, "192.168.1.250");
    assert_eq!(tv.port, "8080");
    assert_eq!(tv.key, 0);
    assert!(!tv.paired);
}

#[test]
fn the_content_type_is_atom_xml() {
    assert_eq!(content_type(), "application/atom+xml");
}

#[test]
fn display_pair_key_posts_the_auth_key_request() {
    let mut tv = LGTV::new("192.168.1.250");
    let req = tv.display_pair_key();
    assert_eq!(req.url, "http://192.168.1.250:8080/roap/api/auth");
    assert_eq!(
        req.body,
        "\n            <?xml version=\"1.0\" encoding=\"utf-8\"?>\n            <auth>\n                <type>AuthKeyReq</type>\n            </auth>"
    );
    assert!(!tv.paired);
    assert_eq!(tv.key, 0);
}

#[test]
fn pair_with_key_posts_the_key_verbatim() {
    let mut tv = LGTV::new("10.0.0.7");
    let req = tv.pair_with_key(1234);
    assert_eq!(req.url, "http://10.0.0.7:8080/roap/api/auth");
    assert_eq!(
        req.body,
        "\n            <?xml version=\"1.0\" encoding=\"utf-8\"?>\n            <auth>\n                <type>AuthReq</type>\n                <value>1234</value>\n            </auth>\n        "
    );
    assert!(req.body.contains("<value>1234</value>"));
}

#[test]
fn pair_with_key_records_the_attempt_before_any_status_is_known() {
    let mut tv = LGTV::new("10.0.0.7");
    assert!(!tv.paired);
    let _req = tv.pair_with_key(5678);
    assert!(tv.paired);
    assert_eq!(tv.key, 5678);
    assert_eq!(tv.ip, "10.0.0.7");
    assert_eq!(tv.port, "8080");
}

#[test]
fn send_command_posts_to_the_command_endpoint() {
    let mut tv = LGTV::new("192.168.1.250");
    let _paired = tv.pair_with_key(1234);
    let req = tv.send_command(24);
    assert_eq!(req.url, "http://192.168.1.250:8080/roap/api/command");
    assert_eq!(
        req.body,
        "\n            <?xml version=\"1.0\" encoding=\"utf-8\"?>\n            <command>\n                <name>HandleKeyInput</name>\n                <value>24</value>\n            </command>\n        "
    );
    assert!(req.body.contains("<name>HandleKeyInput</name>"));
    assert!(req.body.contains("<value>24</value>"));
    assert_eq!(tv.key, 1234);
    assert!(tv.paired);
}

#[test]
fn send_command_interpolates_large_codes() {
    let mut tv = LGTV::new("tv.local");
    let req = tv.send_command(417);
    assert_eq!(req.url, "http://tv.local:8080/roap/api/command");
    assert!(req.body.contains("<value>417</value>"));
}
