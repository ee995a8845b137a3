//! The chain loop as an explicit state machine: one call of `mine_next`
//! builds a candidate on the current head, searches for the winning
//! nonce, seals and appends the block, and — when the new height closes
//! an epoch — rescales the target. The caller owns the loop, the clock
//! and the printing, and threads the state through.

use crate::block::{is_genesis, spec_block_hash, spec_work, Block};
use crate::chain::Chain;
use crate::difficulty::{clamp_timespan, max_target_timespan, retarget, spec_clamp};
use crate::pow::solve_pow;
use crate::u256::{spec_mul_div, U256};
use vstd::prelude::*;

verus! {

/// Fixed per-run configuration of the difficulty controller.
#[derive(Clone, Copy, Debug, PartialEq, Eq, Structural)]
pub struct MinerConfig {
    /// How many consecutive blocks make one difficulty epoch.
    pub epoch_length: u64,
    /// How many wall-clock seconds one epoch should take.
    pub target_timespan: u64,
}

impl MinerConfig {
    /// Both constants are positive, and the timespan leaves room for the
    /// four-fold clamp bound.
    pub open spec fn wf(self) -> bool {
        &&& 1 <= self.epoch_length
        &&& 1 <= self.target_timespan
        &&& self.target_timespan <= max_target_timespan()
    }
}

/// Why a mining step halted instead of sealing a block. Both are final:
/// the run has nothing to roll back and stops with a diagnostic.
#[derive(Clone, Copy, Debug, PartialEq, Eq, Structural)]
pub enum MineError {
    /// Every 32-bit nonce was tried and none beat the target.
    NonceSpaceExhausted,
    /// The clock reported a moment before the epoch started, which would
    /// poison the difficulty feedback; treated as fatal, never ignored.
    ClockAnomaly,
}

/// The progress record for one sealed block: height, identity, the
/// target now in force, the winning nonce, and — when this block closed
/// an epoch — the clamped timespan that fed the adjustment.
#[derive(Clone, Copy, Debug)]
pub struct BlockReport {
    pub number: u64,
    pub hash: U256,
    pub target: U256,
    pub nonce: u32,
    pub adjustment: Option<u64>,
}

/// All mining state threaded through the loop: the chain, the shared
/// target, the epoch clock, and the constant word-list fingerprint.
pub struct MinerState {
    pub chain: Chain,
    pub target: U256,
    pub epoch_start: u64,
    pub dict_hash: U256,
    pub config: MinerConfig,
}

impl MinerState {
    pub open spec fn wf(self) -> bool {
        &&& self.chain.wf()
        &&& self.config.wf()
    }

    /// Whether sealing a block at height `number` closes an epoch.
    pub open spec fn fires(self, number: u64) -> bool {
        number as int % self.config.epoch_length as int == 0
    }

    /// Starts a run: a chain holding only genesis, the initial target,
    /// and the epoch clock set to `start_time`.
    pub fn new(dict_hash: U256, initial_target: U256, config: MinerConfig, start_time: u64) -> (r:
        MinerState)
        requires
            config.wf(),
        ensures
            r.wf(),
            r.chain.blocks@.len() == 1,
            is_genesis(r.chain.blocks@[0]),
            r.chain.blocks@[0].dict_hash == dict_hash,
            r.target == initial_target,
            r.epoch_start == start_time,
            r.dict_hash == dict_hash,
            r.config == config,
    {
        MinerState {
            chain: Chain::new(dict_hash),
            target: initial_target,
            epoch_start: start_time,
            dict_hash,
            config,
        }
    }

    /// Mines one block on the current head at the current target, seals
    /// it, and adjusts difficulty when the new height closes an epoch.
    /// `now` is the caller's reading of the wall clock, in seconds.
    pub fn mine_next(&mut self, now: u64) -> (r: Result<BlockReport, MineError>)
        requires
            old(self).wf(),
            old(self).chain.blocks@.len() < usize::MAX,
            old(self).chain.blocks@.last().number < u64::MAX,
        ensures
            final(self).wf(),
            final(self).config == old(self).config,
            final(self).dict_hash == old(self).dict_hash,
            match r {
                Ok(rep) => ({
                    let pre = old(self).chain.blocks@;
                    let b = final(self).chain.blocks@.last();
                    &&& final(self).chain.blocks@ == pre.push(b)
                    &&& b.number == pre.last().number + 1
                    &&& b.prev_hash@ == spec_block_hash(pre.last())
                    &&& b.dict_hash == old(self).dict_hash
                    &&& spec_block_hash(b) < old(self).target@
                    &&& (forall|m: u32|
                        m < b.nonce ==> spec_work(b.prev_hash@, b.number, b.dict_hash@, m)
                            >= old(self).target@)
                    &&& rep.number == b.number
                    &&& rep.hash@ == spec_block_hash(b)
                    &&& rep.nonce == b.nonce
                    &&& rep.target == final(self).target
                    &&& (rep.adjustment is Some) == old(self).fires(b.number)
                    &&& if old(self).fires(b.number) {
                        let clamped = spec_clamp(
                            now - old(self).epoch_start,
                            old(self).config.target_timespan,
                        );
                        &&& now >= old(self).epoch_start
                        &&& rep.adjustment == Some(clamped as u64)
                        &&& final(self).target@ == spec_mul_div(
                            old(self).target@,
                            clamped as nat,
                            old(self).config.target_timespan as nat,
                        )
                        &&& final(self).epoch_start == now
                    } else {
                        &&& final(self).target == old(self).target
                        &&& final(self).epoch_start == old(self).epoch_start
                    }
                }),
                Err(e) => ({
                    let pre = old(self).chain.blocks@;
                    let next = (pre.last().number + 1) as u64;
                    &&& *final(self) == *old(self)
                    &&& (e == MineError::ClockAnomaly) == (old(self).fires(next) && now < old(
                        self,
                    ).epoch_start)
                    &&& (e == MineError::NonceSpaceExhausted ==> forall|n: u32|
                        spec_work(
                            spec_block_hash(pre.last()),
                            next,
                            old(self).dict_hash@,
                            n,
                        ) >= old(self).target@)
                }),
            },
    {
        let head: Block = *self.chain.head();
        let next_number = head.number + 1;
        let will_fire = next_number % self.config.epoch_length == 0;
        if will_fire && now < self.epoch_start {
            return Err(MineError::ClockAnomaly);
        }
        let prev_hash = head.block_hash();
        let candidate = Block { prev_hash, number: next_number, dict_hash: self.dict_hash, nonce: 0 };
        let nonce = match solve_pow(&self.target, &candidate) {
            Some(n) => n,
            None => {
                proof {
                    let pre = self.chain.blocks@;
                    let ph = spec_block_hash(pre.last());
                    let nx = (pre.last().number + 1) as u64;
                    let dh = self.dict_hash@;
                    assert forall|n: u32| #[trigger] spec_work(ph, nx, dh, n) >= self.target@ by {
                        assert(spec_work(
                            candidate.prev_hash@,
                            candidate.number,
                            candidate.dict_hash@,
                            n,
                        ) >= self.target@);
                    }
                }
                return Err(MineError::NonceSpaceExhausted);
            },
        };
        let mut sealed = candidate;
        sealed.nonce = nonce;
        let hash = sealed.block_hash();
        self.chain.append(sealed);
        let mut adjustment: Option<u64> = None;
        if will_fire {
            let clamped = clamp_timespan(now - self.epoch_start, self.config.target_timespan);
            self.target = retarget(&self.target, clamped, self.config.target_timespan);
            self.epoch_start = now;
            adjustment = Some(clamped);
        }
        Ok(
            BlockReport {
                number: sealed.number,
                hash,
                target: self.target,
                nonce,
                adjustment,
            },
        )
    }
}

} // verus!
