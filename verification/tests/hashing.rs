use sha2::{Digest, Sha256};
use vintage::event::{block_event, calc_act_random, u64_to_be_bytes};
use vintage::hashed::{Hashed, HashedError};
use vintage::msg::tx::{wasm_binary_hash, ActTx, Entity, UpdateEntityTx, WasmId, WasmInfo, WasmTx};

const EMPTY_SHA256_HEX: &str = "E3B0C44298FC1C149AFBF4C8996FB92427AE41E4649B934CA495991B7852B855";

fn act_tx(action: &str, data: Vec<u8>) -> ActTx {
    ActTx { action: action.to_string(), proto: "p".to_string(), model: "m".to_string(), data }
}

#[test]
fn hashed_from_bytes_needs_32_bytes() {
    assert_eq!(Hashed::try_from_bytes(&[0u8; 31]), Err(HashedError::InvalidLength(31)));
    assert_eq!(Hashed::try_from_bytes(&[0u8; 33]), Err(HashedError::InvalidLength(33)));
    let bytes: Vec<u8> = (0..32).collect();
    let h = Hashed::try_from_bytes(&bytes).unwrap();
    assert_eq!(h.as_bytes(), &bytes[..]);
    assert!(h.same_as(&Hashed::try_from_bytes(h.as_bytes()).unwrap()));
    assert!(!h.same_as(&Hashed::new([0u8; 32])));
}

#[test]
fn hashed_hex_is_upper_case_two_digits_per_byte() {
    let mut bytes = [0u8; 32];
    bytes[0] = 0x0a;
    bytes[1] = 0xff;
    bytes[31] = 0x10;
    let s = Hashed::new(bytes).to_hex_string();
    assert_eq!(s.len(), 64);
    assert_eq!(&s[..4], "0AFF");
    assert_eq!(&s[60..], "0010");
    assert_eq!(s, bytes.iter().map(|b| format!("{:02X}", b)).collect::<String>());
}

#[test]
fn update_entity_tx_hash_of_nothing_is_sha256_of_empty() {
    let tx = UpdateEntityTx { proto: String::new(), model: String::new(), req_id: String::new(), entities: vec![] };
    assert_eq!(tx.calc_hash().to_hex_string(), EMPTY_SHA256_HEX);
}

#[test]
fn act_tx_hash_matches_incremental_sha256() {
    let tx = act_tx("move", vec![1, 2, 3]);
    let mut hasher = Sha256::new();
    hasher.update("move");
    hasher.update("p");
    hasher.update("m");
    hasher.update([1u8, 2, 3]);
    let expected: [u8; 32] = hasher.finalize().into();
    assert_eq!(tx.calc_hash(), Hashed::new(expected));
    assert_ne!(tx.calc_hash(), act_tx("stay", vec![1, 2, 3]).calc_hash());
}

#[test]
fn update_entity_tx_hash_covers_entities_in_order() {
    let tx = UpdateEntityTx {
        proto: "p".to_string(),
        model: "m".to_string(),
        req_id: "r".to_string(),
        entities: vec![
            Entity { id: "e1".to_string(), hash: "h1".to_string() },
            Entity { id: "e2".to_string(), hash: "h2".to_string() },
        ],
    };
    let expected: [u8; 32] = Sha256::digest(b"pmre1h1e2h2").into();
    assert_eq!(tx.calc_hash(), Hashed::new(expected));
}

#[test]
fn wasm_hash_is_sha256_of_binary() {
    assert_eq!(wasm_binary_hash(&[]).to_hex_string(), EMPTY_SHA256_HEX);
}

#[test]
fn u64_big_endian_bytes() {
    assert_eq!(u64_to_be_bytes(0x0102030405060708), [1, 2, 3, 4, 5, 6, 7, 8]);
    assert_eq!(u64_to_be_bytes(1), [0, 0, 0, 0, 0, 0, 0, 1]);
}

#[test]
fn act_random_is_hash_of_block_hash_and_number() {
    let block_hash = Hashed::new([7u8; 32]);
    let mut input = vec![7u8; 32];
    input.extend_from_slice(&5u64.to_be_bytes());
    let expected: [u8; 32] = Sha256::digest(&input).into();
    assert_eq!(calc_act_random(&block_hash, 5), Hashed::new(expected));
}

#[test]
fn block_event_numbers_acts_from_one() {
    let block_hash = Hashed::new([3u8; 32]);
    let ue = UpdateEntityTx {
        proto: "p".to_string(),
        model: "m".to_string(),
        req_id: "r".to_string(),
        entities: vec![
            Entity { id: "a".to_string(), hash: "1".to_string() },
            Entity { id: "b".to_string(), hash: "2".to_string() },
        ],
    };
    let wasm = WasmTx {
        wasm_id: WasmId { proto: "p".to_string(), wasm_hash: Hashed::new([9u8; 32]) },
        wasm_info: WasmInfo { block_interval: 4 },
    };
    let ev = block_event(
        12,
        block_hash,
        99,
        2,
        vec![act_tx("x", vec![]), act_tx("y", vec![1])],
        vec![ue],
        vec![wasm.clone()],
    );
    assert_eq!(ev.height, 12);
    assert_eq!(ev.timestamp, 99);
    assert_eq!(ev.act_events.len(), 2);
    assert_eq!(ev.act_events[0].act_number, 1);
    assert_eq!(ev.act_events[1].act_number, 2);
    assert_eq!(ev.act_events[1].act_tx.action, "y");
    assert_eq!(ev.act_events[0].random, calc_act_random(&block_hash, 1));
    assert_eq!(ev.act_events[1].random, calc_act_random(&block_hash, 2));
    assert_eq!(ev.ue_events.len(), 1);
    assert_eq!(ev.ue_events[0].entity_ids, vec!["a".to_string(), "b".to_string()]);
    assert_eq!(ev.ue_events[0].req_id, "r");
    assert_eq!(ev.upgrade_wasm_ids, vec![wasm.wasm_id]);
}
