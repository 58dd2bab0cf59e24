use chain_codec::{key_lines, KeyField, KeyMaterialBundle, KeyValue};

fn raw(name: &str, bytes: &[u8]) -> KeyField {
    KeyField { name: name.to_string(), value: KeyValue::Raw(bytes.to_vec()) }
}

fn hex(name: &str, text: &str) -> KeyField {
    KeyField { name: name.to_string(), value: KeyValue::Hex(text.to_string()) }
}

#[test]
fn key_components_become_hexadecimal() {
    let names = ["sk", "ask", "nsk", "ovk", "ak", "nk", "ivk", "d", "pkD"];
    let fields: Vec<KeyField> =
        names.iter().enumerate().map(|(i, n)| raw(n, &[i as u8, 0xab])).collect();
    let out = KeyMaterialBundle { fields }.format();
    assert_eq!(out.fields.len(), 9);
    for (i, name) in names.iter().enumerate() {
        assert_eq!(out.fields[i], hex(name, &format!("0{}ab", i)));
    }
}

#[test]
fn missing_component_stays_absent() {
    let bundle = KeyMaterialBundle {
        fields: vec![raw("sk", &[1]), raw("ask", &[2]), raw("pkD", &[3])],
    };
    let out = bundle.format();
    assert_eq!(out.get("d"), None);
    assert_eq!(out.fields.len(), 3);
    assert!(out.fields.iter().all(|f| f.name != "d"));
    assert_eq!(out.get("sk"), Some(&KeyValue::Hex("01".to_string())));
    assert_eq!(out.get("pkD"), Some(&KeyValue::Hex("03".to_string())));
}

#[test]
fn other_fields_pass_through() {
    let bundle = KeyMaterialBundle {
        fields: vec![
            raw("payment_address", &[9, 9]),
            raw("d", &[0x0d; 11]),
            raw("D", &[1]),
            raw("pkd", &[2]),
            raw("", &[3]),
            hex("ivk", "already"),
        ],
    };
    let out = bundle.format();
    assert_eq!(
        out.fields,
        vec![
            raw("payment_address", &[9, 9]),
            hex("d", "0d0d0d0d0d0d0d0d0d0d0d"),
            raw("D", &[1]),
            raw("pkd", &[2]),
            raw("", &[3]),
            hex("ivk", "already"),
        ]
    );
    assert_eq!(out.format(), out);
}

#[test]
fn empty_bundle_and_empty_component() {
    let out = KeyMaterialBundle { fields: vec![] }.format();
    assert_eq!(out.fields.len(), 0);
    assert_eq!(out.get("sk"), None);
    let out = KeyMaterialBundle { fields: vec![raw("d", &[])] }.format();
    assert_eq!(out.get("d"), Some(&KeyValue::Hex(String::new())));
}

#[test]
fn get_finds_the_first_field_of_a_name() {
    let bundle = KeyMaterialBundle { fields: vec![raw("a", &[1]), raw("b", &[2]), raw("a", &[3])] };
    assert_eq!(bundle.get("a"), Some(&KeyValue::Raw(vec![1])));
    assert_eq!(bundle.get("b"), Some(&KeyValue::Raw(vec![2])));
    assert_eq!(bundle.get("c"), None);
}

#[test]
fn key_pair_is_shown_in_four_lines() {
    let address = chain_codec::from_hex("41a614f803b6fd780986a42c78ec9c7f77e6ded13c").unwrap();
    let lines = key_lines(&address, &[0x04, 0xff], &[0x00, 0x01, 0x02]);
    assert_eq!(
        lines,
        vec![
            "Address(Base58): TR7NHqjeKQxGTCi8q8ZY4pL8otSzgjLj6t",
            "Address(hex):    41a614f803b6fd780986a42c78ec9c7f77e6ded13c",
            "Public:          04ff",
            "Private:         000102",
        ]
    );
}
