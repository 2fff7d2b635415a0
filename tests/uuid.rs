use bystep_launcher::uuid::{generate_offline_uuid, uuid_from_digest};

#[test]
fn offline_uuid_reference_value() {
    let a = generate_offline_uuid("Steve");
    assert_eq!(a, "27ec4fc7-aeb3-b218-6b0f-aad531d70dc8");
    assert_eq!(generate_offline_uuid("Steve"), a);
    assert_eq!(generate_offline_uuid("Игрок"), "d70a7905-fe29-e398-791d-53672aabb04b");
    assert_ne!(generate_offline_uuid("steve"), a);
}

#[test]
fn uuid_layout_of_digest() {
    let d: Vec<u8> = (0u8..32).collect();
    assert_eq!(uuid_from_digest(&d), "00010203-0405-0607-0809-0a0b0c0d0e0f");
}

#[test]
fn offline_uuid_shape() {
    for nick in ["", "Steve", "Игрок", "a b c"] {
        let u = generate_offline_uuid(nick);
        assert_eq!(u.len(), 36);
        for (i, c) in u.chars().enumerate() {
            if [8, 13, 18, 23].contains(&i) {
                assert_eq!(c, '-');
            } else {
                assert!(c.is_ascii_digit() || ('a'..='f').contains(&c));
            }
        }
    }
}
