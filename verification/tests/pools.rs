use vintage::msg::act::{Act, UploadWasm};
use vintage::msg::tx::{ActTx, TxId, WasmId, WasmInfo, WasmTx};
use vintage::hashed::Hashed;
use vintage::tx::act_pool::ActPool;
use vintage::tx::act_tx_pool::get_act_txs_from_pool;
use vintage::tx::entity_pool::EntityPool;
use vintage::tx::keyed_pool::KeyedPool;
use vintage::tx::pool::TxPool as BatchPool;
use vintage::tx::tx_pool::{remove_txs_from_pool, upload_wasm_tx, PutTxError, TxPool};
use vintage::tx::wasm_tx_pool::get_wasm_txs_from_pool;
use vintage::txpool::TXPool;

fn act_tx(action: &str) -> ActTx {
    ActTx { action: action.to_string(), proto: "p".to_string(), model: "m".to_string(), data: vec![1] }
}

fn h(b: u8) -> TxId {
    Hashed::new([b; 32])
}

#[test]
fn act_tx_goes_into_pool_once() {
    let mut pool = TxPool::new(4, 4);
    let tx = act_tx("a");
    let id = pool.put_act_tx_to_pool(tx.clone(), Ok(())).unwrap();
    assert_eq!(id, tx.calc_hash());
    assert_eq!(pool.put_act_tx_to_pool(tx.clone(), Ok(())), Err(PutTxError::InPool));
    assert_eq!(
        pool.put_act_tx_to_pool(act_tx("b"), Err("on chain".to_string())),
        Err(PutTxError::Rejected("on chain".to_string()))
    );
    assert_eq!(pool.act_txs().len(), 1);
    assert!(pool.act_txs().contains_key(&id));
}

#[test]
fn wasm_tx_goes_into_pool_once() {
    let mut pool = TxPool::new(1, 1);
    let key = WasmId { proto: "p".to_string(), wasm_hash: h(1) };
    assert_eq!(pool.put_wasm_tx_to_pool(key.clone(), WasmInfo { block_interval: 3 }, Ok(())), Ok(()));
    assert_eq!(pool.put_wasm_tx_to_pool(key.clone(), WasmInfo { block_interval: 4 }, Ok(())), Err(PutTxError::InPool));
    assert_eq!(pool.wasm_txs().get(&key), Some(&WasmInfo { block_interval: 3 }));
    let other = WasmId { proto: "q".to_string(), wasm_hash: h(1) };
    assert_eq!(
        pool.put_wasm_tx_to_pool(other, WasmInfo { block_interval: 1 }, Err("x".to_string())),
        Err(PutTxError::Rejected("x".to_string()))
    );
}

#[test]
fn committed_txs_leave_the_pool() {
    let mut pool = TxPool::new(4, 4);
    let a = pool.put_act_tx_to_pool(act_tx("a"), Ok(())).unwrap();
    let b = pool.put_act_tx_to_pool(act_tx("b"), Ok(())).unwrap();
    let c = pool.put_act_tx_to_pool(act_tx("c"), Ok(())).unwrap();
    pool.remove_act_txs(&[a, c, h(0)]);
    let (ids, txs) = get_act_txs_from_pool(pool.act_txs(), 10);
    assert_eq!(ids, vec![b]);
    assert_eq!(txs, vec![act_tx("b")]);
}

#[test]
fn first_txs_are_taken_in_pool_order() {
    let mut pool: KeyedPool<TxId, ActTx> = KeyedPool::with_capacity(8);
    for i in 0..5u8 {
        pool.insert(h(i), act_tx(&i.to_string()));
    }
    let (ids, txs) = get_act_txs_from_pool(&pool, 3);
    assert_eq!(ids, vec![h(0), h(1), h(2)]);
    assert_eq!(txs[2].action, "2");
    remove_txs_from_pool(&mut pool, &[h(1), h(3)]);
    assert_eq!(pool.len(), 3);
    assert!(!pool.contains_key(&h(1)));
    pool.insert(h(0), act_tx("new"));
    assert_eq!(pool.len(), 3);
    assert_eq!(pool.get(&h(0)).unwrap().action, "new");
    pool.remove(&h(0));
    assert_eq!(pool.get(&h(0)), None);
}

#[test]
fn all_wasm_txs_are_taken() {
    let mut pool: KeyedPool<TxId, WasmTx> = KeyedPool::with_capacity(2);
    let tx = WasmTx { wasm_id: WasmId { proto: "p".to_string(), wasm_hash: h(4) }, wasm_info: WasmInfo { block_interval: 2 } };
    pool.insert(h(8), tx.clone());
    let (ids, txs) = get_wasm_txs_from_pool(&pool);
    assert_eq!(ids, vec![h(8)]);
    assert_eq!(txs, vec![tx]);
}

#[test]
fn act_pool_keeps_acts_by_id() {
    let mut pool = ActPool::with_capacity(2);
    pool.insert_act(h(1), Act { id: 1, content: vec![1] });
    pool.insert_act(h(2), Act { id: 2, content: vec![2] });
    assert!(pool.contains_act(&h(1)));
    let (ids, acts) = pool.get_acts(1);
    assert_eq!(ids, vec![h(1)]);
    assert_eq!(acts, vec![Act { id: 1, content: vec![1] }]);
    pool.remove_acts(&[h(1)]);
    assert!(!pool.contains_act(&h(1)));
    assert_eq!(pool.get_acts(5).0, vec![h(2)]);
}

#[test]
fn upload_becomes_wasm_tx() {
    let upload = UploadWasm { proto: "game".to_string(), wasm_binary: vec![], block_interval: 6 };
    let tx = upload_wasm_tx(&upload);
    assert_eq!(tx.wasm_id.proto, "game");
    assert_eq!(tx.wasm_id.wasm_hash.to_hex_string(), "E3B0C44298FC1C149AFBF4C8996FB92427AE41E4649B934CA495991B7852B855");
    assert_eq!(tx.wasm_info.block_interval, 6);
}

#[test]
fn batch_pool_hands_over_whole_batches() {
    let mut pool: BatchPool<4> = BatchPool::new();
    pool.push(act_tx("a"));
    pool.push(act_tx("b"));
    let batch = pool.take_tx_vec();
    assert_eq!(batch, vec![act_tx("a"), act_tx("b")]);
    assert!(pool.take_tx_vec().is_empty());
}

#[test]
fn new_pools_are_empty() {
    let _ = EntityPool::with_capacity(3);
    let _ = TXPool::new();
    TXPool::start_service();
    let pool = TxPool::new(0, 0);
    assert_eq!(pool.act_txs().len(), 0);
}
