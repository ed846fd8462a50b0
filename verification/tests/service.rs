use vintage::config::{build_node_list, consensus_status, Authority, NodeConfig};
use vintage::hashed::Hashed;
use vintage::export::{entities_csv, migrations_csv};
use vintage::meta::{block_entities, meta_sync_step, EntityRow, SqlMigrationRow};
use vintage::text::u64_to_decimal;
use vintage::msg::block::Block;
use vintage::msg::state::EntityKey;
use vintage::msg::tx::{Entity, UpdateEntityTx};
use vintage::node::{IpAddress, NodeAddr};
use vintage::peer_manager::PeerInfo;
use vintage::rsp::{Rsp, RSP_CODE_FAILED, RSP_CODE_SUCCESS};
use vintage::sync::{
    after_sync_round, block_hash_request, block_request, should_sync, sync_interval, sync_round,
    HashListReply, ReqBlockHash, RspBlock, RspBlockHash, SyncError, SyncLoopStep, BLOCK_COUNT,
};

fn addr(last: u8) -> NodeAddr {
    NodeAddr { ip: IpAddress::V4(u32::from_be_bytes([127, 0, 0, last])), port: 9000, flowinfo: 0, scope_id: 0 }
}

fn block(ts: u64) -> Block {
    Block { timestamp: ts, act_txs: vec![], ue_txs: vec![], wasm_txs: vec![] }
}

fn config() -> NodeConfig {
    NodeConfig {
        block_interval: 1000,
        id: 1,
        name: "n".to_string(),
        listen_addr: addr(1),
        peers: vec![
            PeerInfo { address: addr(2), name: "b".to_string(), propose_weight: 2, vote_weight: 3 },
            PeerInfo { address: addr(3), name: "c".to_string(), propose_weight: 4, vote_weight: 5 },
        ],
        propose_weight: 1,
        vote_weight: 1,
    }
}

#[test]
fn sync_waits_ten_intervals_after_a_commit() {
    let interval = sync_interval(1000);
    assert_eq!(interval, 10_000);
    assert!(!should_sync(5_000, interval, 14_999));
    assert!(should_sync(5_000, interval, 15_000));
}

#[test]
fn sync_asks_for_the_next_blocks() {
    let req = block_hash_request(41);
    assert_eq!((req.begin_height, req.count), (42, BLOCK_COUNT));
    let rsp = RspBlockHash { hash_list: vec![Hashed::new([1; 32]), Hashed::new([2; 32])] };
    let req = block_request(41, &rsp);
    assert_eq!((req.begin_height, req.count), (42, 2));
}

#[test]
fn sync_round_pairs_blocks_and_hashes() {
    let hashes = RspBlockHash { hash_list: vec![Hashed::new([1; 32]), Hashed::new([2; 32])] };
    let blocks = RspBlock { block_list: vec![block(10), block(20)] };
    let round = sync_round(7, hashes, blocks).unwrap();
    assert!(round.finished);
    assert_eq!(round.new_height, 9);
    assert_eq!(round.imports.len(), 2);
    assert_eq!(round.imports[0].height, 8);
    assert_eq!(round.imports[1].height, 9);
    assert_eq!(round.imports[1].block, block(20));
    assert_eq!(round.imports[1].hash, Hashed::new([2; 32]));
}

#[test]
fn sync_round_of_ten_is_not_finished() {
    let hashes = RspBlockHash { hash_list: vec![Hashed::new([0; 32]); 10] };
    let blocks = RspBlock { block_list: (0..10).map(block).collect() };
    let round = sync_round(0, hashes, blocks).unwrap();
    assert!(!round.finished);
    assert_eq!(round.new_height, 10);
}

#[test]
fn sync_round_refuses_count_mismatch() {
    let hashes = RspBlockHash { hash_list: vec![Hashed::new([1; 32])] };
    let blocks = RspBlock { block_list: vec![] };
    assert_eq!(sync_round(7, hashes, blocks).err(), Some(SyncError::BlockCountMismatch));
}

#[test]
fn node_list_starts_with_this_node() {
    let c = config();
    assert_eq!(c.get_number_of_node(), 3);
    let nodes = build_node_list(&c);
    assert_eq!(
        nodes,
        vec![
            Authority { address: addr(1), propose_weight: 1, vote_weight: 1 },
            Authority { address: addr(2), propose_weight: 2, vote_weight: 3 },
            Authority { address: addr(3), propose_weight: 4, vote_weight: 5 },
        ]
    );
    let status = consensus_status(&c, 9);
    assert_eq!(status.height, 10);
    assert_eq!(status.interval, 1000);
    assert_eq!(status.authority_list, nodes);
}

#[test]
fn answers_carry_code_and_message() {
    let ok = Rsp::success(5u32);
    assert_eq!((ok.code, ok.msg, ok.data), (RSP_CODE_SUCCESS, "success", Some(5)));
    let failed = Rsp::<u32>::failed();
    assert_eq!((failed.code, failed.msg, failed.data), (RSP_CODE_FAILED, "failed", None));
}

#[test]
fn block_entities_are_listed_per_transaction() {
    let tx1 = UpdateEntityTx {
        proto: "p".to_string(),
        model: "m".to_string(),
        req_id: "r".to_string(),
        entities: vec![
            Entity { id: "a".to_string(), hash: "ha".to_string() },
            Entity { id: "b".to_string(), hash: "hb".to_string() },
        ],
    };
    let tx2 = UpdateEntityTx { proto: "q".to_string(), model: "n".to_string(), req_id: "s".to_string(), entities: vec![Entity { id: "c".to_string(), hash: "hc".to_string() }] };
    let b = Block { timestamp: 1, act_txs: vec![], ue_txs: vec![tx1.clone(), tx2.clone()], wasm_txs: vec![] };
    let records = block_entities(&b);
    assert_eq!(records.len(), 3);
    assert_eq!(records[0].tx_id, tx1.calc_hash());
    assert_eq!(records[1].index, 1);
    assert_eq!(records[1].entity_id, "b");
    assert_eq!(records[2].tx_id, tx2.calc_hash());
    assert_eq!(records[2].index, 0);
    assert_eq!(records[2].proto, "q");
    assert_eq!(records[2].model, "n");
    assert_eq!(records[2].entity_hash, "hc");
}

#[test]
fn entity_key_text() {
    let k = EntityKey { app_id: "app".to_string(), table_name: "t".to_string(), entity_id: "7".to_string() };
    assert_eq!(k.to_key_string(), "app:t:7");
}

#[test]
fn entity_rows_export_as_csv() {
    let rows = vec![
        EntityRow { module: "m".to_string(), id: "a".to_string(), hash: "h1".to_string(), height: 5 },
        EntityRow { module: "x,y".to_string(), id: "b".to_string(), hash: "h2".to_string(), height: 10 },
    ];
    assert_eq!(
        entities_csv(&rows).unwrap(),
        "block height,module,entity id,entity hash\n5,m,a,h1\n10,\"x,y\",b,h2\n"
    );
    assert_eq!(entities_csv(&vec![]).unwrap(), "block height,module,entity id,entity hash\n");
}

#[test]
fn migration_rows_export_as_csv() {
    let rows = vec![SqlMigrationRow { sql: "select \"x\"".to_string(), height: 18446744073709551615 }];
    assert_eq!(
        migrations_csv(&rows).unwrap(),
        "block height,sql\n18446744073709551615,\"select \"\"x\"\"\"\n"
    );
}

#[test]
fn heights_are_written_in_decimal() {
    assert_eq!(u64_to_decimal(0), "0");
    assert_eq!(u64_to_decimal(9), "9");
    assert_eq!(u64_to_decimal(10), "10");
    assert_eq!(u64_to_decimal(1234567890), "1234567890");
    assert_eq!(u64_to_decimal(u64::MAX), u64::MAX.to_string());
}

#[test]
fn count_mismatch_is_refused_at_any_height() {
    let hashes = RspBlockHash { hash_list: vec![Hashed::new([1; 32]), Hashed::new([2; 32])] };
    let blocks = RspBlock { block_list: vec![block(10)] };
    assert_eq!(sync_round(u64::MAX, hashes, blocks).err(), Some(SyncError::BlockCountMismatch));
}

#[test]
fn hash_reply_stops_at_the_first_missing_block() {
    let mut reply = HashListReply::new(ReqBlockHash { begin_height: 5, count: 4 });
    assert_eq!(reply.next_height(), Some(5));
    reply.record(Some(Hashed::new([5; 32])));
    assert_eq!(reply.next_height(), Some(6));
    reply.record(Some(Hashed::new([6; 32])));
    assert_eq!(reply.next_height(), Some(7));
    reply.record(None);
    assert_eq!(reply.next_height(), None);
    assert_eq!(reply.into_hashes(), vec![Hashed::new([5; 32]), Hashed::new([6; 32])]);
}

#[test]
fn hash_reply_stops_at_the_count() {
    let mut reply = HashListReply::new(ReqBlockHash { begin_height: u64::MAX, count: 1 });
    assert_eq!(reply.next_height(), Some(u64::MAX));
    reply.record(Some(Hashed::new([1; 32])));
    assert_eq!(reply.next_height(), None);
    assert_eq!(reply.into_hashes().len(), 1);
    let empty = HashListReply::new(ReqBlockHash { begin_height: 3, count: 0 });
    assert_eq!(empty.next_height(), None);
}

#[test]
fn sync_loop_repeats_until_caught_up() {
    assert_eq!(after_sync_round(Some((false, 17))), SyncLoopStep::NextRound);
    assert_eq!(after_sync_round(Some((true, 18))), SyncLoopStep::Notify(18));
    assert_eq!(after_sync_round(None), SyncLoopStep::Stop);
}

#[test]
fn meta_sync_moves_to_the_fetched_block() {
    assert!(meta_sync_step(4, None).is_none());
    let b = block(1);
    let (height, records) = meta_sync_step(4, Some(&b)).unwrap();
    assert_eq!(height, 5);
    assert!(records.is_empty());
}
