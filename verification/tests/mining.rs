use tinypow::block::Block;
use tinypow::chain::Chain;
use tinypow::difficulty::{clamp_timespan, retarget};
use tinypow::digest::sha256_digest;
use tinypow::miner::{MineError, MinerConfig, MinerState};
use tinypow::pow::{solve_pow, solve_pow_bounded};
use tinypow::u256::U256;

fn easy_target() -> U256 {
    // 2^254 - 1: roughly every fourth nonce wins.
    U256::from_limbs(u64::MAX, u64::MAX, u64::MAX, 0x3fff_ffff_ffff_ffff)
}

fn test_config() -> MinerConfig {
    MinerConfig { epoch_length: 5, target_timespan: 5 }
}

#[test]
fn genesis_block_has_zero_prev_hash_and_height() {
    let dict_hash = sha256_digest("alpha\nbeta\ngamma\n");
    let g = Block::genesis(dict_hash);
    assert!(g.prev_hash.is_zero());
    assert_eq!(g.number, 0);
    assert_eq!(g.nonce, 0);
    assert_eq!(g.dict_hash, dict_hash);
}

#[test]
fn block_hash_varies_with_nonce() {
    let mut b = Block::genesis(sha256_digest("alpha\nbeta\n"));
    let h0 = b.block_hash();
    b.nonce = 1;
    let h1 = b.block_hash();
    assert_ne!(h0, h1);
}

#[test]
fn solve_pow_returns_smallest_winning_nonce() {
    let target = easy_target();
    let block = Block::genesis(sha256_digest("alpha\nbeta\ngamma\n"));
    let n = solve_pow(&target, &block).expect("an easy target must be solvable");
    let mut check = block;
    check.nonce = n;
    assert!(check.block_hash().lt(&target));
    for m in 0..n {
        check.nonce = m;
        assert!(!check.block_hash().lt(&target));
    }
}

#[test]
fn zero_target_never_succeeds_within_bound() {
    let zero = U256::from_u64(0);
    let block = Block::genesis(sha256_digest("alpha\nbeta\n"));
    assert_eq!(solve_pow_bounded(&zero, &block, 100_000), None);
    assert_eq!(solve_pow_bounded(&zero, &block, 0), None);
}

#[test]
fn appended_blocks_link_to_their_predecessors() {
    let dict_hash = sha256_digest("alpha\nbeta\ngamma\n");
    let mut st = MinerState::new(dict_hash, easy_target(), test_config(), 100);
    st.mine_next(101).expect("mining at an easy target succeeds");
    st.mine_next(102).expect("mining at an easy target succeeds");
    assert_eq!(st.chain.blocks.len(), 3);
    for i in 1..st.chain.blocks.len() {
        let p = st.chain.blocks[i - 1];
        let b = st.chain.blocks[i];
        assert_eq!(b.number, p.number + 1);
        assert_eq!(b.prev_hash, p.block_hash());
        assert_eq!(b.dict_hash, dict_hash);
    }
}

#[test]
fn chain_starts_at_genesis_and_appends_linked_blocks() {
    let dict_hash = sha256_digest("alpha\nbeta\n");
    let mut chain = Chain::new(dict_hash);
    assert_eq!(chain.len(), 1);
    let g = *chain.head();
    assert!(g.prev_hash.is_zero());
    assert_eq!(g.number, 0);
    let b = Block { prev_hash: g.block_hash(), number: 1, dict_hash, nonce: 42 };
    chain.append(b);
    assert_eq!(chain.len(), 2);
    assert_eq!(*chain.get(0), g);
    assert_eq!(*chain.get(1), b);
    assert_eq!(chain.head().prev_hash, chain.get(0).block_hash());
}

#[test]
fn clamp_keeps_timespan_in_band() {
    // The spec's own example: 1000 s measured against a 5 s target
    // with a four-fold band clamps to 20 s.
    assert_eq!(clamp_timespan(1000, 5), 20);
    assert_eq!(clamp_timespan(0, 5), 1);
    assert_eq!(clamp_timespan(3, 5), 3);
    assert_eq!(clamp_timespan(21, 5), 20);
    assert_eq!(clamp_timespan(1, 5), 1);
    assert_eq!(clamp_timespan(20, 5), 20);
}

#[test]
fn retarget_scales_proportionally() {
    let t = U256::from_u64(1000);
    assert_eq!(retarget(&t, 10, 5), U256::from_u64(2000));
    assert_eq!(retarget(&t, 1, 5), U256::from_u64(200));
    assert_eq!(retarget(&t, 5, 5), t);
}

#[test]
fn retarget_is_monotonic_on_samples() {
    let t = U256::from_u64(12345);
    assert!(!retarget(&t, 6, 5).lt(&t));
    assert!(!t.lt(&retarget(&t, 4, 5)));
    assert_eq!(retarget(&t, 5, 5), t);
}

#[test]
fn five_block_epoch_rescales_target_four_fold() {
    // epoch_length = 5, target_timespan = 5 s, epoch mined in 20 s:
    // the next target must be old * 20 / 5 = 4 * T0.
    let dict_hash = sha256_digest("alpha\nbeta\ngamma\n");
    let t0 = easy_target();
    let mut st = MinerState::new(dict_hash, t0, test_config(), 100);
    for number in 1..=4u64 {
        let rep = st.mine_next(105).expect("mining at an easy target succeeds");
        assert_eq!(rep.number, number);
        assert_eq!(rep.adjustment, None);
        assert_eq!(st.target, t0);
        assert_eq!(st.epoch_start, 100);
    }
    let rep = st.mine_next(120).expect("mining at an easy target succeeds");
    assert_eq!(rep.number, 5);
    assert_eq!(rep.adjustment, Some(20));
    let four_t0 = U256::from_limbs(0xffff_ffff_ffff_fffc, u64::MAX, u64::MAX, u64::MAX);
    assert_eq!(st.target, four_t0);
    assert_eq!(rep.target, four_t0);
    assert_eq!(st.epoch_start, 120);
}

#[test]
fn clock_before_epoch_start_is_fatal() {
    let dict_hash = sha256_digest("alpha\nbeta\n");
    let cfg = MinerConfig { epoch_length: 1, target_timespan: 5 };
    let mut st = MinerState::new(dict_hash, easy_target(), cfg, 100);
    assert!(matches!(st.mine_next(50), Err(MineError::ClockAnomaly)));
    // The state is untouched: a later sane reading still works.
    assert_eq!(st.chain.blocks.len(), 1);
    assert_eq!(st.epoch_start, 100);
    assert!(st.mine_next(101).is_ok());
}
