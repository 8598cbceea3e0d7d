use zero2prod::app::AvatarClient;

fn client() -> AvatarClient {
    AvatarClient::new(
        "https://www.gravatar.com/avatar".to_string(),
        "https://example.com/person.jpg".to_string(),
    )
}

#[test]
fn new_keeps_both_addresses() {
    let c = client();
    assert_eq!(c.base_url, "https://www.gravatar.com/avatar");
    assert_eq!(c.default_img, "https://example.com/person.jpg");
}

#[test]
fn avatar_of_an_address() {
    let url = client().send_request("student@example.com").unwrap();
    assert_eq!(
        url,
        "https://www.gravatar.com/avatar/96d4a357e7137eb31491bab13f2fd01f?d=https://example.com/person.jpg"
    );
}

#[test]
fn avatar_of_the_empty_address() {
    let url = client().send_request("").unwrap();
    assert_eq!(
        url,
        "https://www.gravatar.com/avatar/d41d8cd98f00b204e9800998ecf8427e?d=https://example.com/person.jpg"
    );
}

#[test]
fn avatar_hashes_the_bytes_of_the_address() {
    let url = client().send_request("é@example.com").unwrap();
    assert_eq!(
        url,
        "https://www.gravatar.com/avatar/f4156f14784848108ab2f4d4d64b5d67?d=https://example.com/person.jpg"
    );
}

#[test]
fn avatar_mock_api_test() {
    let avatar_client = AvatarClient::new(
        "http://127.0.0.1:4000".to_string(),
        "https://www.cornwallbusinessawards.co.uk/wp-content/uploads/2019/01/Person-icon.jpg"
            .into(),
    );
    let img = avatar_client.send_request("somebody@example.org").unwrap();
    assert!(img.len() > 0);
    assert!(img.contains(&format!("{}", avatar_client.base_url)));
}

#[test]
fn avatar_digest_has_32_digits() {
    let c = AvatarClient::new("http://127.0.0.1:4000".to_string(), "x".to_string());
    let img = c.send_request("somebody@example.org").unwrap();
    let hash = img.split("/").nth(3).unwrap().split('?').next().unwrap();
    assert_eq!(hash.len(), 32);
    assert!(hash.chars().all(|ch| ch.is_ascii_digit() || ('a'..='f').contains(&ch)));
}

#[test]
fn avatar_of_a_given_digest() {
    let digest = [
        0x00, 0x01, 0x0a, 0x0f, 0x10, 0x7f, 0x80, 0x9a, 0xa9, 0xab, 0xcd, 0xef, 0xf0, 0xfe, 0xff,
        0x42,
    ];
    assert_eq!(
        client().address(&digest),
        "https://www.gravatar.com/avatar/00010a0f107f809aa9abcdeff0feff42?d=https://example.com/person.jpg"
    );
    let bare = AvatarClient::new(String::new(), String::new());
    assert_eq!(bare.address(&[0; 16]), "/00000000000000000000000000000000?d=");
}
