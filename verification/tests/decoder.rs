use chain_codec::wire::{parse_message, take_varint, FieldValue};
use chain_codec::{
    from_hex, max_payload_len, Contract, ContractKind, CreateSmartContract, DecodeFailure,
    Envelope, FieldKind, FreezeBalanceContract, Parameter, ProposalApproveContract,
    ProposalCreateContract, ResourceCode, SmartContract, TransferAssetContract, TransferContract,
    TriggerSmartContract, Vote, VoteWitnessContract, WitnessCreateContract,
};

const USDT_HEX: &str = "41a614f803b6fd780986a42c78ec9c7f77e6ded13c";
const USDT_TEXT: &str = "TR7NHqjeKQxGTCi8q8ZY4pL8otSzgjLj6t";
const ZERO_HEX: &str = "410000000000000000000000000000000000000000";
const ZERO_TEXT: &str = "T9yD14Nj9j7xAB4dbGeiX9h8unkKHxuWwb";

fn varint(mut n: u64) -> Vec<u8> {
    let mut out = Vec::new();
    while n >= 0x80 {
        out.push((n & 0x7f) as u8 | 0x80);
        n >>= 7;
    }
    out.push(n as u8);
    out
}

fn number(field: u32, n: u64) -> Vec<u8> {
    let mut out = varint((field as u64) << 3);
    out.extend(varint(n));
    out
}

fn signed(field: u32, n: i64) -> Vec<u8> {
    number(field, n as u64)
}

fn bytes(field: u32, data: &[u8]) -> Vec<u8> {
    let mut out = varint(((field as u64) << 3) | 2);
    out.extend(varint(data.len() as u64));
    out.extend_from_slice(data);
    out
}

fn record(parts: &[Vec<u8>]) -> Vec<u8> {
    parts.concat()
}

fn usdt() -> Vec<u8> {
    from_hex(USDT_HEX).unwrap()
}

fn zero() -> Vec<u8> {
    from_hex(ZERO_HEX).unwrap()
}

#[test]
fn transfer_fixture_decodes() {
    let raw = from_hex(
        "0a1541a614f803b6fd780986a42c78ec9c7f77e6ded13c\
         121541000000000000000000000000000000000000000018c0843d",
    )
    .unwrap();
    assert_eq!(raw, record(&[bytes(1, &usdt()), bytes(2, &zero()), number(3, 1_000_000)]));
    assert_eq!(
        Contract::decode(1, &raw),
        Ok(Contract::TransferContract(TransferContract {
            owner_address: USDT_TEXT.to_string(),
            to_address: ZERO_TEXT.to_string(),
            amount: 1_000_000,
        }))
    );
}

#[test]
fn transfer_of_a_negative_amount() {
    let raw = record(&[bytes(1, &usdt()), signed(3, -1)]);
    assert_eq!(raw.len(), 23 + 11);
    match Contract::decode(1, &raw) {
        Ok(Contract::TransferContract(t)) => {
            assert_eq!(t.amount, -1);
            assert_eq!(t.to_address, "3QJmnh");
        }
        other => panic!("{:?}", other),
    }
}

#[test]
fn transfer_takes_the_last_of_a_repeated_field() {
    let raw = record(&[number(3, 5), bytes(1, &zero()), number(3, 7), bytes(1, &usdt())]);
    match Contract::decode(1, &raw) {
        Ok(Contract::TransferContract(t)) => {
            assert_eq!(t.amount, 7);
            assert_eq!(t.owner_address, USDT_TEXT);
        }
        other => panic!("{:?}", other),
    }
}

#[test]
fn transfer_asset_with_a_numeric_name_has_both_id_and_name() {
    let raw = record(&[bytes(1, b"123"), bytes(2, &usdt()), bytes(3, &zero()), number(4, 42)]);
    assert_eq!(
        Contract::decode(2, &raw),
        Ok(Contract::TransferAssetContract(TransferAssetContract {
            owner_address: USDT_TEXT.to_string(),
            to_address: ZERO_TEXT.to_string(),
            token_id: Some(123),
            token_name: Some("123".to_string()),
            amount: 42,
        }))
    );
}

#[test]
fn transfer_asset_with_a_name_that_is_no_number_has_the_name_alone() {
    let raw = record(&[bytes(1, b"TRX"), bytes(2, &usdt()), bytes(3, &zero()), number(4, 42)]);
    assert_eq!(
        Contract::decode(2, &raw),
        Ok(Contract::TransferAssetContract(TransferAssetContract {
            owner_address: USDT_TEXT.to_string(),
            to_address: ZERO_TEXT.to_string(),
            token_id: None,
            token_name: Some("TRX".to_string()),
            amount: 42,
        }))
    );
}

fn token_id_of(name: &[u8]) -> Option<i32> {
    match Contract::decode(2, &bytes(1, name)) {
        Ok(Contract::TransferAssetContract(t)) => {
            assert_eq!(t.token_name, Some(String::from_utf8(name.to_vec()).unwrap()));
            assert_eq!(t.token_id, std::str::from_utf8(name).unwrap().parse::<i32>().ok());
            t.token_id
        }
        other => panic!("{:?}", other),
    }
}

#[test]
fn token_id_is_read_as_a_signed_decimal_number() {
    assert_eq!(token_id_of(b"1000001"), Some(1000001));
    assert_eq!(token_id_of(b"0"), Some(0));
    assert_eq!(token_id_of(b"007"), Some(7));
    assert_eq!(token_id_of(b"+15"), Some(15));
    assert_eq!(token_id_of(b"-15"), Some(-15));
    assert_eq!(token_id_of(b"-0"), Some(0));
    assert_eq!(token_id_of(b"2147483647"), Some(2147483647));
    assert_eq!(token_id_of(b"-2147483648"), Some(-2147483648));
    assert_eq!(token_id_of(b"00000000000000000000002147483647"), Some(2147483647));
    assert_eq!(token_id_of(b"2147483648"), None);
    assert_eq!(token_id_of(b"-2147483649"), None);
    assert_eq!(token_id_of(b"99999999999999999999999999"), None);
    assert_eq!(token_id_of(b""), None);
    assert_eq!(token_id_of(b"+"), None);
    assert_eq!(token_id_of(b"-"), None);
    assert_eq!(token_id_of(b"12a"), None);
    assert_eq!(token_id_of(b" 12"), None);
    assert_eq!(token_id_of(b"1-2"), None);
    assert_eq!(token_id_of(b"--2"), None);
    assert_eq!(token_id_of("\u{661}\u{662}".as_bytes()), None);
    assert_eq!(token_id_of("-\u{e9}".as_bytes()), None);
}

#[test]
fn transfer_asset_name_must_be_utf8() {
    let raw = record(&[bytes(1, &[0xff, 0xfe]), number(4, 1)]);
    assert_eq!(
        Contract::decode(2, &raw),
        Err(DecodeFailure::InvalidUtf8(ContractKind::TransferAsset))
    );
}

#[test]
fn freeze_balance_resource_zero_is_bandwidth() {
    let raw = record(&[
        bytes(1, &usdt()),
        number(2, 5_000_000),
        number(3, 3),
        number(10, 0),
        bytes(15, &zero()),
    ]);
    assert_eq!(
        Contract::decode(11, &raw),
        Ok(Contract::FreezeBalanceContract(FreezeBalanceContract {
            owner_address: USDT_TEXT.to_string(),
            receiver_address: ZERO_TEXT.to_string(),
            frozen_balance: 5_000_000,
            frozen_duration: 5_000_000,
            resource: ResourceCode::Bandwidth,
        }))
    );
}

#[test]
fn freeze_balance_resource_one_is_energy() {
    let raw = record(&[bytes(1, &usdt()), number(2, 1), number(3, 3), number(10, 1)]);
    match Contract::decode(11, &raw) {
        Ok(Contract::FreezeBalanceContract(f)) => {
            assert!(f.resource == ResourceCode::Energy);
            assert_eq!(f.frozen_balance, 1);
            assert_eq!(f.frozen_duration, 1);
            assert_eq!(f.receiver_address, "3QJmnh");
        }
        other => panic!("{:?}", other),
    }
}

#[test]
fn freeze_balance_any_other_resource_is_energy() {
    for code in [2u64, 7, 0xffff_ffff, 0x1_0000_0001] {
        match Contract::decode(11, &number(10, code)) {
            Ok(Contract::FreezeBalanceContract(f)) => assert!(f.resource == ResourceCode::Energy),
            other => panic!("{:?}", other),
        }
    }
    match Contract::decode(11, &[]) {
        Ok(Contract::FreezeBalanceContract(f)) => assert!(f.resource == ResourceCode::Bandwidth),
        other => panic!("{:?}", other),
    }
    // Only the low 32 bits of the number name the resource.
    match Contract::decode(11, &number(10, 0x1_0000_0000)) {
        Ok(Contract::FreezeBalanceContract(f)) => assert!(f.resource == ResourceCode::Bandwidth),
        other => panic!("{:?}", other),
    }
}

#[test]
fn freeze_balance_duration_is_the_balance_cut_to_32_bits() {
    let raw = record(&[number(2, (1u64 << 32) + 7), number(3, 3)]);
    match Contract::decode(11, &raw) {
        Ok(Contract::FreezeBalanceContract(f)) => {
            assert_eq!(f.frozen_balance, (1i64 << 32) + 7);
            assert_eq!(f.frozen_duration, 7);
        }
        other => panic!("{:?}", other),
    }
}

#[test]
fn witness_create_fixture_decodes() {
    let raw = record(&[bytes(1, &usdt()), bytes(2, "https://example.org/\u{e9}".as_bytes())]);
    assert_eq!(
        Contract::decode(5, &raw),
        Ok(Contract::WitnessCreateContract(WitnessCreateContract {
            owner_address: USDT_TEXT.to_string(),
            url: "https://example.org/\u{e9}".to_string(),
        }))
    );
}

#[test]
fn witness_create_url_must_be_utf8() {
    let raw = record(&[bytes(1, &usdt()), bytes(2, &[b'h', 0xc3])]);
    assert_eq!(
        Contract::decode(5, &raw),
        Err(DecodeFailure::InvalidUtf8(ContractKind::WitnessCreate))
    );
}

#[test]
fn vote_witness_keeps_the_order_of_the_votes() {
    let first = record(&[bytes(1, &zero()), number(2, 10)]);
    let second = record(&[bytes(1, &usdt()), number(2, 20)]);
    let third = record(&[bytes(1, &zero()), number(2, 30)]);
    let raw = record(&[
        bytes(2, &first),
        bytes(1, &usdt()),
        bytes(2, &second),
        number(3, 1),
        bytes(2, &third),
    ]);
    assert_eq!(
        Contract::decode(4, &raw),
        Ok(Contract::VoteWitnessContract(VoteWitnessContract {
            owner_address: USDT_TEXT.to_string(),
            votes: vec![
                Vote { vote_address: ZERO_TEXT.to_string(), count: 10 },
                Vote { vote_address: USDT_TEXT.to_string(), count: 20 },
                Vote { vote_address: ZERO_TEXT.to_string(), count: 30 },
            ],
        }))
    );
}

#[test]
fn vote_witness_without_votes() {
    assert_eq!(
        Contract::decode(4, &bytes(1, &usdt())),
        Ok(Contract::VoteWitnessContract(VoteWitnessContract {
            owner_address: USDT_TEXT.to_string(),
            votes: vec![],
        }))
    );
}

#[test]
fn vote_witness_with_a_broken_vote_is_malformed() {
    let good = record(&[bytes(1, &zero()), number(2, 10)]);
    let raw = record(&[bytes(2, &good), bytes(2, &[0x08])]);
    assert_eq!(
        Contract::decode(4, &raw),
        Err(DecodeFailure::MalformedPayload(ContractKind::VoteWitness))
    );
}

#[test]
fn proposal_create_flattens_the_mapping() {
    let raw = record(&[
        bytes(1, &usdt()),
        bytes(2, &record(&[number(1, 0), number(2, 100_000)])),
        bytes(2, &record(&[number(1, 6), number(2, 1)])),
        bytes(2, &record(&[number(2, 9), number(1, 3)])),
    ]);
    assert_eq!(
        Contract::decode(16, &raw),
        Ok(Contract::ProposalCreateContract(ProposalCreateContract {
            owner_address: USDT_TEXT.to_string(),
            parameters: vec![
                Parameter { key: 0, value: 100_000 },
                Parameter { key: 6, value: 1 },
                Parameter { key: 3, value: 9 },
            ],
        }))
    );
}

#[test]
fn proposal_create_keeps_the_last_value_of_a_key() {
    let raw = record(&[
        bytes(2, &record(&[number(1, 4), number(2, 1)])),
        bytes(2, &record(&[number(1, 5), number(2, 2)])),
        bytes(2, &record(&[number(1, 4), number(2, 3)])),
        bytes(2, &[]),
        bytes(2, &record(&[number(2, 8)])),
    ]);
    match Contract::decode(16, &raw) {
        Ok(Contract::ProposalCreateContract(p)) => assert_eq!(
            p.parameters,
            vec![
                Parameter { key: 4, value: 3 },
                Parameter { key: 5, value: 2 },
                Parameter { key: 0, value: 8 },
            ]
        ),
        other => panic!("{:?}", other),
    }
}

#[test]
fn proposal_approve_fixture_decodes() {
    let raw = record(&[bytes(1, &usdt()), number(2, 12), number(3, 1)]);
    assert_eq!(
        Contract::decode(17, &raw),
        Ok(Contract::ProposalApproveContract(ProposalApproveContract {
            owner_address: USDT_TEXT.to_string(),
            proposal_id: 12,
            is_approve: true,
        }))
    );
    let raw = record(&[bytes(1, &usdt()), number(2, 12), number(3, 0)]);
    match Contract::decode(17, &raw) {
        Ok(Contract::ProposalApproveContract(p)) => assert!(!p.is_approve),
        other => panic!("{:?}", other),
    }
}

#[test]
fn trigger_smart_contract_fixture_decodes() {
    let raw = record(&[
        bytes(1, &usdt()),
        bytes(2, &zero()),
        number(3, 7),
        bytes(4, &[0xa9, 0x05, 0x9c, 0xbb, 0x00]),
        number(5, 8),
        number(6, 1_000_001),
    ]);
    assert_eq!(
        Contract::decode(31, &raw),
        Ok(Contract::TriggerSmartContract(TriggerSmartContract {
            owner_address: USDT_TEXT.to_string(),
            contract_address: ZERO_TEXT.to_string(),
            data: "a9059cbb00".to_string(),
            call_value: 7,
            call_token_value: 8,
            call_token_id: 1_000_001,
        }))
    );
}

fn param(indexed: bool, name: &str, kind: &str) -> Vec<u8> {
    record(&[number(1, indexed as u64), bytes(2, name.as_bytes()), bytes(3, kind.as_bytes())])
}

fn smart_contract_payload(description: &[u8]) -> Vec<u8> {
    record(&[bytes(1, &usdt()), bytes(2, description), number(3, 11), number(4, 1_000_002)])
}

#[test]
fn create_smart_contract_fixture_decodes() {
    let entry = record(&[
        number(2, 1),
        bytes(3, b"balanceOf"),
        bytes(4, &param(false, "owner", "address")),
        bytes(5, &param(false, "", "uint256")),
        number(6, 2),
        number(8, 2),
    ]);
    let event = record(&[
        number(1, 1),
        bytes(3, b"Transfer"),
        bytes(4, &param(true, "from", "address")),
        bytes(4, &param(true, "to", "address")),
        number(6, 3),
        number(7, 1),
    ]);
    let abi = record(&[bytes(1, &entry), bytes(1, &event)]);
    let description = record(&[
        bytes(1, &usdt()),
        bytes(2, &zero()),
        bytes(3, &abi),
        bytes(4, &[0x60, 0x80, 0x60, 0x40]),
        number(5, 9),
        number(6, 100),
        bytes(7, b"Token"),
        number(8, 10_000_000),
        bytes(9, &[0xab; 4]),
        bytes(10, &[0x01, 0x02]),
    ]);
    let expected_abi = "[{\"anonymous\":false,\"constant\":true,\"name\":\"balanceOf\",\
        \"inputs\":[{\"indexed\":false,\"name\":\"owner\",\"type\":\"address\"}],\
        \"outputs\":[{\"indexed\":false,\"name\":\"\",\"type\":\"uint256\"}],\
        \"type\":2,\"payable\":false,\"state_mutability\":2},\
        {\"anonymous\":true,\"constant\":false,\"name\":\"Transfer\",\
        \"inputs\":[{\"indexed\":true,\"name\":\"from\",\"type\":\"address\"},\
        {\"indexed\":true,\"name\":\"to\",\"type\":\"address\"}],\
        \"outputs\":[],\"type\":3,\"payable\":true,\"state_mutability\":0}]";
    assert_eq!(
        Contract::decode(30, &smart_contract_payload(&description)),
        Ok(Contract::CreateSmartContract(CreateSmartContract {
            owner_address: USDT_TEXT.to_string(),
            new_smart_contract: SmartContract {
                name: "Token".to_string(),
                origin_address: USDT_TEXT.to_string(),
                contract_address: Some(ZERO_TEXT.to_string()),
                abi: Some(expected_abi.to_string()),
                code: "60806040".to_string(),
                user_resource_percent: 100,
                origin_energy_limit: 10_000_000,
                code_hash: Some("abababab".to_string()),
                txn_id: Some("0102".to_string()),
            },
            call_value: 9,
            call_token_value: 11,
            call_token_id: 1_000_002,
        }))
    );
    let parsed: serde_json::Value = serde_json::from_str(expected_abi).unwrap();
    assert_eq!(parsed.as_array().unwrap().len(), 2);
    assert_eq!(parsed[1]["inputs"][1]["name"], "to");
}

fn created(description: &[u8]) -> SmartContract {
    match Contract::decode(30, &smart_contract_payload(description)) {
        Ok(Contract::CreateSmartContract(c)) => c.new_smart_contract,
        other => panic!("{:?}", other),
    }
}

#[test]
fn create_smart_contract_empty_contract_address_is_absent() {
    let contract = created(&record(&[bytes(1, &usdt()), bytes(2, &[])]));
    assert_eq!(contract.contract_address, None);
    assert_eq!(contract.code_hash, None);
    assert_eq!(contract.txn_id, None);
    assert_eq!(contract.abi, None);
    assert_eq!(contract.code, "");
    assert_eq!(contract.name, "");
    let contract = created(&bytes(1, &usdt()));
    assert_eq!(contract.contract_address, None);
    assert_eq!(contract.origin_address, USDT_TEXT);
}

#[test]
fn create_smart_contract_contract_address_is_rendered() {
    let contract = created(&record(&[bytes(1, &zero()), bytes(2, &usdt())]));
    assert_eq!(contract.contract_address, Some(USDT_TEXT.to_string()));
    assert_eq!(contract.origin_address, ZERO_TEXT);
}

#[test]
fn create_smart_contract_empty_interface_is_an_empty_array() {
    let contract = created(&bytes(3, &[]));
    assert_eq!(contract.abi, Some("[]".to_string()));
}

#[test]
fn create_smart_contract_interface_texts_are_quoted() {
    let entry = record(&[bytes(3, "a\"b\\c\n\u{e9}\u{1}".as_bytes()), signed(6, -1)]);
    let contract = created(&bytes(3, &bytes(1, &entry)));
    let abi = contract.abi.unwrap();
    assert_eq!(
        abi,
        "[{\"anonymous\":false,\"constant\":false,\"name\":\"a\\\"b\\\\c\\n\u{e9}\\u0001\",\
         \"inputs\":[],\"outputs\":[],\"type\":-1,\"payable\":false,\"state_mutability\":0}]"
    );
    let parsed: serde_json::Value = serde_json::from_str(&abi).unwrap();
    assert_eq!(parsed[0]["name"], "a\"b\\c\n\u{e9}\u{1}");
    assert_eq!(parsed[0]["type"], -1);
}

#[test]
fn create_smart_contract_numbers_of_the_interface_are_decimal() {
    for n in [0i64, 9, 10, 99, 100, 12345, 2147483647, -1, -10, -2147483648] {
        let entry = record(&[signed(6, n), signed(8, n)]);
        let abi = created(&bytes(3, &bytes(1, &entry))).abi.unwrap();
        let expected = format!(
            "[{{\"anonymous\":false,\"constant\":false,\"name\":\"\",\"inputs\":[],\
             \"outputs\":[],\"type\":{},\"payable\":false,\"state_mutability\":{}}}]",
            n, n
        );
        assert_eq!(abi, expected);
    }
}

#[test]
fn create_smart_contract_description_in_pieces_is_merged() {
    let raw = record(&[
        bytes(2, &record(&[bytes(1, &usdt()), bytes(7, b"First"), number(5, 1)])),
        bytes(2, &record(&[bytes(7, b"Second"), bytes(3, &bytes(1, &bytes(3, b"f")))])),
        bytes(2, &bytes(3, &bytes(1, &bytes(3, b"g")))),
    ]);
    match Contract::decode(30, &raw) {
        Ok(Contract::CreateSmartContract(c)) => {
            assert_eq!(c.new_smart_contract.name, "Second");
            assert_eq!(c.new_smart_contract.origin_address, USDT_TEXT);
            assert_eq!(c.call_value, 1);
            let abi: serde_json::Value =
                serde_json::from_str(&c.new_smart_contract.abi.unwrap()).unwrap();
            assert_eq!(abi.as_array().unwrap().len(), 2);
            assert_eq!(abi[0]["name"], "f");
            assert_eq!(abi[1]["name"], "g");
        }
        other => panic!("{:?}", other),
    }
}

#[test]
fn create_smart_contract_without_a_description_is_malformed() {
    assert_eq!(
        Contract::decode(30, &bytes(1, &usdt())),
        Err(DecodeFailure::MalformedPayload(ContractKind::CreateSmartContract))
    );
}

#[test]
fn create_smart_contract_failures_inside_the_description() {
    let malformed = Err(DecodeFailure::MalformedPayload(ContractKind::CreateSmartContract));
    let invalid = Err(DecodeFailure::InvalidUtf8(ContractKind::CreateSmartContract));
    let decode = |description: Vec<u8>| Contract::decode(30, &smart_contract_payload(&description));
    assert_eq!(decode(vec![0x0a]), malformed);
    assert_eq!(decode(number(1, 5)), malformed);
    assert_eq!(decode(bytes(7, &[0xff])), invalid);
    assert_eq!(decode(bytes(3, &[0x0a, 0x05])), malformed);
    assert_eq!(decode(bytes(3, &bytes(1, &number(3, 1)))), malformed);
    assert_eq!(decode(bytes(3, &bytes(1, &bytes(3, &[0x80])))), invalid);
    assert_eq!(decode(bytes(3, &bytes(1, &bytes(4, &bytes(2, &[0xc0]))))), invalid);
    assert_eq!(decode(bytes(3, &bytes(1, &bytes(5, &bytes(3, &[0xc0]))))), invalid);
    assert_eq!(decode(bytes(3, &bytes(1, &bytes(5, &[0x10])))), malformed);
}

#[test]
fn unknown_type_tag_is_unsupported() {
    let raw = record(&[bytes(1, &usdt())]);
    for tag in [0, 3, 6, 8, 9, 10, 12, 18, 20, 32, 33, 51, 1000, -1, i32::MIN, i32::MAX] {
        assert_eq!(
            Contract::decode(tag, &raw),
            Err(DecodeFailure::UnsupportedContractType(tag))
        );
        assert_eq!(
            Contract::decode(tag, &[0xff, 0xff]),
            Err(DecodeFailure::UnsupportedContractType(tag))
        );
    }
}

#[test]
fn every_known_tag_decodes_to_its_own_kind() {
    let kinds = [
        ContractKind::Transfer,
        ContractKind::TransferAsset,
        ContractKind::VoteWitness,
        ContractKind::WitnessCreate,
        ContractKind::FreezeBalance,
        ContractKind::ProposalCreate,
        ContractKind::ProposalApprove,
        ContractKind::CreateSmartContract,
        ContractKind::TriggerSmartContract,
    ];
    let tags = [1, 2, 4, 5, 11, 16, 17, 30, 31];
    for (kind, tag) in kinds.iter().zip(tags) {
        assert_eq!(kind.tag(), tag);
        assert_eq!(ContractKind::from_tag(tag), Ok(*kind));
        let raw = if tag == 30 { bytes(2, &[]) } else { vec![] };
        assert_eq!(Contract::decode(tag, &raw).unwrap().kind(), *kind);
        assert_eq!(
            Contract::decode(tag, &[0x0a, 0x05, 0x41]),
            Err(DecodeFailure::MalformedPayload(*kind))
        );
    }
    assert_eq!(ContractKind::from_tag(7), Err(DecodeFailure::UnsupportedContractType(7)));
}

#[test]
fn layouts_name_the_fields_of_each_kind() {
    let layout = ContractKind::FreezeBalance.layout();
    let numbers: Vec<u32> = layout.iter().map(|f| f.number).collect();
    assert_eq!(numbers, vec![1, 2, 3, 10, 15]);
    assert_eq!(layout[4].name, "receiver_address");
    assert!(layout[4].kind == FieldKind::Address);
    assert!(layout[1].kind == FieldKind::Amount);
    assert!(!layout[0].optional);
    let inner = chain_codec::schema::smart_contract_fields();
    assert_eq!(inner.len(), 10);
    let optional: Vec<&str> = inner.iter().filter(|f| f.optional).map(|f| f.name).collect();
    assert_eq!(optional, vec!["contract_address", "abi", "code_hash", "txn_id"]);
    assert_eq!(ContractKind::Transfer.layout().len(), 3);
    assert_eq!(ContractKind::TriggerSmartContract.layout().len(), 6);
}

#[test]
fn truncated_payload_is_malformed() {
    let whole = record(&[bytes(1, &usdt()), bytes(2, &zero()), number(3, 1_000_000)]);
    let malformed = Err(DecodeFailure::MalformedPayload(ContractKind::Transfer));
    for cut in [1, 2, 10, 22, 24, 30, 45, 47, 48] {
        assert_eq!(Contract::decode(1, &whole[..cut]), malformed, "cut at {}", cut);
    }
    assert!(Contract::decode(1, &whole[..23]).is_ok());
    assert!(Contract::decode(1, &whole[..46]).is_ok());
    assert!(Contract::decode(1, &whole).is_ok());
}

#[test]
fn field_carried_the_wrong_way_is_malformed() {
    let malformed = Err(DecodeFailure::MalformedPayload(ContractKind::Transfer));
    assert_eq!(Contract::decode(1, &number(1, 5)), malformed);
    assert_eq!(Contract::decode(1, &bytes(3, &[1])), malformed);
    assert_eq!(Contract::decode(1, &[0x19, 1, 2, 3, 4, 5, 6, 7, 8]), malformed);
    assert_eq!(Contract::decode(1, &[0x1d, 1, 2, 3, 4]), malformed);
}

#[test]
fn fields_outside_the_layout_are_skipped() {
    let raw = record(&[
        number(99, 5),
        bytes(1, &usdt()),
        bytes(77, b"whatever"),
        vec![0x21, 1, 2, 3, 4, 5, 6, 7, 8],
        number(3, 4),
        vec![0x25, 1, 2, 3, 4],
    ]);
    assert_eq!(
        Contract::decode(1, &raw),
        Ok(Contract::TransferContract(TransferContract {
            owner_address: USDT_TEXT.to_string(),
            to_address: "3QJmnh".to_string(),
            amount: 4,
        }))
    );
}

#[test]
fn keys_that_no_field_can_have_are_malformed() {
    let malformed = Err(DecodeFailure::MalformedPayload(ContractKind::Transfer));
    // field number zero
    assert_eq!(Contract::decode(1, &[0x00, 0x01]), malformed);
    // wire types 3, 4, 6 and 7
    assert_eq!(Contract::decode(1, &[0x23, 0x24]), malformed);
    assert_eq!(Contract::decode(1, &[0x24]), malformed);
    assert_eq!(Contract::decode(1, &[0x26, 0x00]), malformed);
    assert_eq!(Contract::decode(1, &[0x27, 0x00]), malformed);
    // a key above 32 bits
    assert_eq!(Contract::decode(1, &[0x80, 0x80, 0x80, 0x80, 0x10, 0x00]), malformed);
    // fixed values that end too early
    assert_eq!(Contract::decode(1, &[0x21, 1, 2, 3, 4, 5, 6, 7]), malformed);
    assert_eq!(Contract::decode(1, &[0x25, 1, 2, 3]), malformed);
}

#[test]
fn variable_length_integers() {
    assert_eq!(take_varint(&[0x00]), Some((0, 1)));
    assert_eq!(take_varint(&[0x7f, 0xff]), Some((127, 1)));
    assert_eq!(take_varint(&[0x80, 0x01]), Some((128, 2)));
    assert_eq!(take_varint(&[0xac, 0x02, 0x55]), Some((300, 2)));
    assert_eq!(take_varint(&[0x80, 0x80, 0x80, 0x80, 0x01, 0x80]), Some((1 << 28, 5)));
    let max = [0xff, 0xff, 0xff, 0xff, 0xff, 0xff, 0xff, 0xff, 0xff, 0x01];
    assert_eq!(take_varint(&max), Some((u64::MAX, 10)));
    let mut longer = max.to_vec();
    longer.push(0x00);
    assert_eq!(take_varint(&longer), Some((u64::MAX, 10)));
    assert_eq!(take_varint(&[0x80, 0x80, 0x80, 0x80, 0x80, 0x80, 0x80, 0x80, 0x80, 0x01]), Some((1 << 63, 10)));
    assert_eq!(take_varint(&[0x80, 0x00]), Some((0, 2)));
    assert_eq!(take_varint(&[]), None);
    assert_eq!(take_varint(&[0x80]), None);
    assert_eq!(take_varint(&[0xff, 0xff, 0xff]), None);
    assert_eq!(take_varint(&[0xff, 0xff, 0xff, 0xff, 0xff, 0xff, 0xff, 0xff, 0xff, 0x02]), None);
    assert_eq!(take_varint(&[0xff, 0xff, 0xff, 0xff, 0xff, 0xff, 0xff, 0xff, 0xff, 0x7f]), None);
    assert_eq!(take_varint(&[0xff, 0xff, 0xff, 0xff, 0xff, 0xff, 0xff, 0xff, 0xff, 0x81, 0x00]), None);
    assert_eq!(take_varint(&[0x80; 11]), None);
    for n in [0u64, 1, 127, 128, 16383, 16384, 1 << 35, (1 << 56) - 1, 1 << 56, u64::MAX - 1] {
        let mut encoded = Vec::new();
        prost::encoding::encode_varint(n, &mut encoded);
        assert_eq!(encoded, varint(n));
        assert_eq!(take_varint(&encoded), Some((n, encoded.len())));
    }
}

#[test]
fn message_splits_into_fields() {
    let raw = record(&[number(1, 300), bytes(2, b"ab"), vec![0x1d, 9, 9, 9, 9], bytes(2, b"")]);
    let fields = parse_message(&raw).unwrap();
    assert_eq!(fields.len(), 4);
    assert_eq!(fields[0].number, 1);
    assert!(matches!(fields[0].value, FieldValue::Varint(300)));
    assert_eq!(fields[1].number, 2);
    assert!(matches!(&fields[1].value, FieldValue::Bytes(b) if b == b"ab"));
    assert_eq!(fields[2].number, 3);
    assert!(matches!(fields[2].value, FieldValue::Fixed));
    assert!(matches!(&fields[3].value, FieldValue::Bytes(b) if b.is_empty()));
    assert_eq!(parse_message(&[]).unwrap().len(), 0);
    assert!(parse_message(&[0x12, 0x03, b'a', b'b']).is_none());
    let big = number(536_870_911, 1);
    assert_eq!(parse_message(&big).unwrap()[0].number, 536_870_911);
}

#[test]
fn envelope_without_a_payload_is_a_missing_parameter() {
    let envelope = Envelope { type_tag: 1, parameter: None };
    assert_eq!(Contract::from_envelope(&envelope), Err(DecodeFailure::MissingParameter));
    let envelope = Envelope { type_tag: 99, parameter: None };
    assert_eq!(Contract::from_envelope(&envelope), Err(DecodeFailure::MissingParameter));
}

#[test]
fn envelope_with_a_payload_decodes_it() {
    let raw = record(&[bytes(1, &usdt()), number(3, 5)]);
    let envelope = Envelope { type_tag: 1, parameter: Some(raw.clone()) };
    assert_eq!(Contract::from_envelope(&envelope), Contract::decode(1, &raw));
    assert!(Contract::from_envelope(&envelope).is_ok());
    let envelope = Envelope { type_tag: 99, parameter: Some(raw) };
    assert_eq!(
        Contract::from_envelope(&envelope),
        Err(DecodeFailure::UnsupportedContractType(99))
    );
    let envelope = Envelope { type_tag: 1, parameter: Some(vec![]) };
    assert_eq!(
        Contract::from_envelope(&envelope),
        Ok(Contract::TransferContract(TransferContract {
            owner_address: "3QJmnh".to_string(),
            to_address: "3QJmnh".to_string(),
            amount: 0,
        }))
    );
}

#[test]
fn decoding_twice_gives_the_same() {
    let raw = record(&[bytes(1, &usdt()), bytes(2, &zero()), number(3, 77)]);
    assert_eq!(Contract::decode(1, &raw), Contract::decode(1, &raw));
    assert_eq!(Contract::decode(1, &raw[..5]), Contract::decode(1, &raw[..5]));
}

#[test]
fn amount_above_two_to_the_53_loses_precision_when_widened() {
    let raw = record(&[bytes(1, &usdt()), number(3, 9_007_199_254_740_993)]);
    match Contract::decode(1, &raw) {
        Ok(Contract::TransferContract(t)) => {
            assert_eq!(t.amount, 9_007_199_254_740_993);
            let shown = t.amount as f64;
            assert_eq!(shown, 9_007_199_254_740_992.0);
            assert_ne!(shown as i64, t.amount);
            assert_eq!((9_007_199_254_740_992i64 as f64) as i64, 9_007_199_254_740_992);
        }
        other => panic!("{:?}", other),
    }
}

#[test]
fn payload_limit_is_far_above_any_payload() {
    assert!(max_payload_len() >= (u32::MAX / 138 - 4) as usize);
    assert_eq!(max_payload_len(), usize::MAX / 138 - 4);
}

#[test]
fn layout_is_found_by_tag() {
    let layout = chain_codec::schema::layout_of_tag(31).unwrap();
    assert_eq!(layout.len(), 6);
    assert_eq!(layout[3].name, "data");
    assert!(layout[3].kind == FieldKind::Blob);
    assert!(matches!(
        chain_codec::schema::layout_of_tag(3),
        Err(DecodeFailure::UnsupportedContractType(3))
    ));
}
