//! Experience and leveling.
//!
//! The level curve is `100 * level^1.5` XP per level, taken exactly:
//! the XP for a level is the largest integer not above that value.

use vstd::prelude::*;

verus! {

/// `r` is the integer square root of `n`.
pub open spec fn is_isqrt(n: nat, r: nat) -> bool {
    r * r <= n && n < (r + 1) * (r + 1)
}

/// The integer square root is unique.
pub proof fn lemma_isqrt_unique(n: nat, a: nat, b: nat)
    requires
        is_isqrt(n, a),
        is_isqrt(n, b),
    ensures
        a == b,
{
    if a < b {
        assert((a + 1) * (a + 1) <= b * b) by (nonlinear_arith)
            requires a + 1 <= b;
    } else if b < a {
        assert((b + 1) * (b + 1) <= a * a) by (nonlinear_arith)
            requires b + 1 <= a;
    }
}

/// XP required to go from `level - 1` to `level`: `floor(100 * level^1.5)`,
/// i.e. the integer square root of `10000 * level^3`.
pub open spec fn spec_xp_for_level(level: nat) -> nat {
    choose|r: nat| #[trigger] is_isqrt(10000 * level * level * level, r)
}

/// Integer square root by bisection.
fn isqrt(n: u128) -> (r: u128)
    requires
        n < 0x1_0000_0000_0000_0000_0000_0000_0000,
    ensures
        is_isqrt(n as nat, r as nat),
        r < 0x1_0000_0000_0000_00,
{
    let mut lo: u128 = 0;
    let mut hi: u128 = 0x1_0000_0000_0000_00;
    assert(n < hi * hi);
    while lo + 1 < hi
        invariant
            lo < hi <= 0x1_0000_0000_0000_00,
            lo * lo <= n,
            n < hi * hi,
        decreases hi - lo,
    {
        let mid = lo + (hi - lo) / 2;
        assert(mid * mid <= 0x1_0000_0000_0000_00 * 0x1_0000_0000_0000_00) by (nonlinear_arith)
            requires mid <= 0x1_0000_0000_0000_00;
        if mid * mid <= n {
            lo = mid;
        } else {
            hi = mid;
        }
    }
    assert(hi == lo + 1);
    lo
}

/// Every level from 1 up costs at least 100 XP.
pub proof fn lemma_xp_for_level_at_least_100(level: nat, r: nat)
    requires
        level >= 1,
        is_isqrt(10000 * level * level * level, r),
    ensures
        spec_xp_for_level(level) == r,
        r >= 100,
{
    lemma_isqrt_unique(10000 * level * level * level, spec_xp_for_level(level), r);
    assert(10000 <= 10000 * level * level * level) by (nonlinear_arith)
        requires level >= 1;
    if r < 100 {
        assert((r + 1) * (r + 1) <= 100 * 100) by (nonlinear_arith)
            requires r + 1 <= 100;
    }
}

/// XP required to go from `level - 1` to `level`.
/// Formula: `100 * level^1.5` (accelerating curve), rounded down.
pub fn xp_for_level(level: u32) -> (r: u64)
    ensures
        r == spec_xp_for_level(level as nat),
        is_isqrt(10000 * (level as nat) * (level as nat) * (level as nat), r as nat),
{
    let l = level as u128;
    assert(l * l <= 0xffff_ffff * 0xffff_ffff) by (nonlinear_arith)
        requires l <= 0xffff_ffff;
    let l2 = l * l;
    assert(l2 * l <= 0xffff_ffff * 0xffff_ffff * 0xffff_ffff) by (nonlinear_arith)
        requires l <= 0xffff_ffff, l2 <= 0xffff_ffff * 0xffff_ffff;
    let l3 = l2 * l;
    let n = 10000 * l3;
    let r = isqrt(n);
    proof {
        let ln = level as nat;
        assert(n as nat == 10000 * ln * ln * ln) by (nonlinear_arith)
            requires n == 10000 * l3, l3 == l2 * l, l2 == l * l, l == ln;
        let c = spec_xp_for_level(ln);
        assert(is_isqrt(10000 * ln * ln * ln, r as nat));
        lemma_isqrt_unique(10000 * ln * ln * ln, c, r as nat);
    }
    r as u64
}

/// Cumulative XP from level 1 up to `level`: the sum of
/// [`spec_xp_for_level`] over `2..=level` (0 for levels up to 1).
pub open spec fn spec_total_xp_for_level(level: nat) -> nat
    decreases level,
{
    if level <= 1 {
        0
    } else {
        spec_total_xp_for_level((level - 1) as nat) + spec_xp_for_level(level)
    }
}

/// Cumulative XP required to reach `level` from level 1.
pub fn total_xp_for_level(level: u32) -> (r: u64)
    requires
        spec_total_xp_for_level(level as nat) <= u64::MAX,
    ensures
        r == spec_total_xp_for_level(level as nat),
{
    if level <= 1 {
        return 0;
    }
    let mut sum: u64 = 0;
    let mut k: u32 = 2;
    proof { lemma_total_xp_monotone(1, level as nat); }
    while k <= level
        invariant
            2 <= k <= level as nat + 1,
            level >= 2,
            sum == spec_total_xp_for_level((k - 1) as nat),
            spec_total_xp_for_level(level as nat) <= u64::MAX,
        decreases level as nat + 1 - k,
    {
        proof { lemma_total_xp_monotone(k as nat, level as nat); }
        let x = xp_for_level(k);
        sum = sum + x;
        if k == level {
            return sum;
        }
        k = k + 1;
    }
    sum
}

/// Cumulative XP required to reach `level` from level 1, or `None` when
/// that total does not fit in a `u64`.
pub fn checked_total_xp_for_level(level: u32) -> (r: Option<u64>)
    ensures
        r is Some <==> spec_total_xp_for_level(level as nat) <= u64::MAX,
        r matches Some(v) ==> v == spec_total_xp_for_level(level as nat),
{
    if level <= 1 {
        return Some(0);
    }
    let mut sum: u64 = 0;
    let mut k: u32 = 2;
    while k <= level
        invariant
            2 <= k <= level as nat + 1,
            level >= 2,
            sum == spec_total_xp_for_level((k - 1) as nat),
        decreases level as nat + 1 - k,
    {
        let x = xp_for_level(k);
        match sum.checked_add(x) {
            Some(next) => {
                sum = next;
            },
            None => {
                proof { lemma_total_xp_monotone(k as nat, level as nat); }
                return None;
            },
        }
        if k == level {
            return Some(sum);
        }
        k = k + 1;
    }
    Some(sum)
}

/// The cumulative curve is the running sum of the per-level costs: 0 up
/// to level 1, and each later level adds its own cost to the total of
/// the level before.
pub proof fn lemma_total_xp_recurrence(level: nat)
    ensures
        level <= 1 ==> spec_total_xp_for_level(level) == 0,
        level >= 2 ==> spec_total_xp_for_level(level) == spec_total_xp_for_level((level - 1) as nat)
            + spec_xp_for_level(level),
{
}

/// Every natural number has an integer square root.
pub proof fn lemma_isqrt_exists(n: nat)
    ensures
        is_isqrt(n, spec_isqrt_witness(n)),
    decreases n,
{
    if n > 0 {
        lemma_isqrt_exists((n - 1) as nat);
        let r = spec_isqrt_witness((n - 1) as nat);
        assert(spec_isqrt_witness(n) == if (r + 1) * (r + 1) <= n { r + 1 } else { r });
        if (r + 1) * (r + 1) <= n {
            let q = r + 1;
            assert(n < (q + 1) * (q + 1)) by (nonlinear_arith)
                requires n - 1 < (r + 1) * (r + 1), q == r + 1;
            assert(is_isqrt(n, q));
        } else {
            assert(is_isqrt(n, r));
        }
    } else {
        assert(spec_isqrt_witness(0) == 0);
        assert(0nat * 0nat == 0 && (0nat + 1) * (0nat + 1) == 1) by (nonlinear_arith);
        assert(is_isqrt(0, 0));
    }
}

/// The integer square root of `n`, built up from `0`.
pub open spec fn spec_isqrt_witness(n: nat) -> nat
    decreases n,
{
    if n == 0 {
        0
    } else {
        let r = spec_isqrt_witness((n - 1) as nat);
        if (r + 1) * (r + 1) <= n {
            r + 1
        } else {
            r
        }
    }
}

/// The cost of a level is the integer square root of `10000 * level^3`.
pub proof fn lemma_xp_for_level_is_isqrt(level: nat)
    ensures
        is_isqrt(10000 * level * level * level, spec_xp_for_level(level)),
{
    lemma_isqrt_exists(10000 * level * level * level);
    assert(is_isqrt(10000 * level * level * level, spec_isqrt_witness(10000 * level * level * level)));
}

/// Each level costs strictly more than the one before.
proof fn lemma_xp_for_level_step(l: nat)
    ensures
        spec_xp_for_level(l) < spec_xp_for_level(l + 1),
{
    lemma_xp_for_level_is_isqrt(l);
    lemma_xp_for_level_is_isqrt(l + 1);
    let r = spec_xp_for_level(l);
    let s = spec_xp_for_level(l + 1);
    let n1 = 10000 * l * l * l;
    let n2 = 10000 * (l + 1) * (l + 1) * (l + 1);
    assert(r <= 100 * l * l) by (nonlinear_arith)
        requires r * r <= n1, n1 == 10000 * l * l * l;
    assert((r + 1) * (r + 1) <= n2) by (nonlinear_arith)
        requires r * r <= n1, n1 == 10000 * l * l * l, n2 == 10000 * (l + 1) * (l + 1) * (l + 1), r <= 100 * l * l;
    if s <= r {
        assert((s + 1) * (s + 1) <= (r + 1) * (r + 1)) by (nonlinear_arith)
            requires s <= r;
    }
}

/// The per-level cost strictly increases with the level.
pub proof fn lemma_xp_for_level_increasing(a: nat, b: nat)
    requires
        a < b,
    ensures
        spec_xp_for_level(a) < spec_xp_for_level(b),
    decreases b - a,
{
    lemma_xp_for_level_step((b - 1) as nat);
    if a < b - 1 {
        lemma_xp_for_level_increasing(a, (b - 1) as nat);
    }
}

/// Up to level 1 000 the cost of a level stays below 4 000 000 XP.
proof fn lemma_xp_for_level_small(level: nat)
    requires
        level <= 1000,
    ensures
        spec_xp_for_level(level) < 4_000_000,
{
    lemma_isqrt_exists(10000 * level * level * level);
    let r = spec_xp_for_level(level);
    assert(is_isqrt(10000 * level * level * level, r));
    assert(10000 * level * level * level <= 10_000_000_000_000) by (nonlinear_arith)
        requires level <= 1000;
    if r >= 4_000_000 {
        assert(r * r >= 16_000_000_000_000) by (nonlinear_arith)
            requires r >= 4_000_000;
    }
}

/// Up to level 1 000 the cumulative XP fits in a `u64` (it stays below
/// 4 000 000 XP per level).
pub proof fn lemma_total_xp_fits(level: nat)
    requires
        level <= 1000,
    ensures
        spec_total_xp_for_level(level) <= 4_000_000 * level,
        spec_total_xp_for_level(level) <= u64::MAX,
    decreases level,
{
    if level > 1 {
        lemma_total_xp_fits((level - 1) as nat);
        lemma_xp_for_level_small(level);
    }
}

/// The cumulative curve never decreases.
pub proof fn lemma_total_xp_monotone(a: nat, b: nat)
    requires
        a <= b,
    ensures
        spec_total_xp_for_level(a) <= spec_total_xp_for_level(b),
    decreases b - a,
{
    if a < b {
        lemma_total_xp_monotone(a, (b - 1) as nat);
    }
}

/// Attribute points granted on reaching `level`: 5 on every tenth
/// level, 2 otherwise.
pub open spec fn spec_attribute_points_for_level(level: u32) -> u32 {
    if level % 10 == 0 {
        5
    } else {
        2
    }
}

/// Attribute points granted at a specific level.
fn attribute_points_for_level(level: u32) -> (r: u32)
    ensures
        r == spec_attribute_points_for_level(level),
{
    if level % 10 == 0 {
        5
    } else {
        2
    }
}

/// Reward granted on level up.
#[derive(Clone, Debug)]
pub struct LevelUpReward {
    pub new_level: u32,
    pub attribute_points: u32,
    pub talent_points: u32,
}

/// The reward for reaching `level`.
pub open spec fn spec_reward(level: u32) -> LevelUpReward {
    LevelUpReward {
        new_level: level,
        attribute_points: spec_attribute_points_for_level(level),
        talent_points: 1,
    }
}

/// The XP threshold to leave `level`: the server's value when one is
/// cached, otherwise the local curve for `level + 1`.
pub open spec fn spec_threshold(level: nat, server: Option<u64>) -> nat {
    match server {
        Some(v) => v as nat,
        None => spec_xp_for_level(level + 1),
    }
}

/// Repeatedly level up while the banked XP covers the threshold.
/// Each level-up pays the threshold and drops the cached server value,
/// so later thresholds come from the local curve. Returns the final
/// `(level, banked_xp)`.
pub open spec fn spec_settle(level: nat, xp: nat, server: Option<u64>) -> (nat, nat)
    decreases xp * 2 + (if server is Some { 1nat } else { 0nat }),
{
    let needed = spec_threshold(level, server);
    if xp >= needed && (server is Some || needed > 0) {
        spec_settle(level + 1, (xp - needed) as nat, None)
    } else {
        (level, xp)
    }
}

/// Settling never lowers the level.
pub proof fn lemma_settle_level_grows(level: nat, xp: nat, server: Option<u64>)
    ensures
        spec_settle(level, xp, server).0 >= level,
    decreases xp * 2 + (if server is Some { 1nat } else { 0nat }),
{
    let needed = spec_threshold(level, server);
    if xp >= needed && (server is Some || needed > 0) {
        lemma_settle_level_grows(level + 1, (xp - needed) as nat, None);
    }
}

/// Settling that gains no level banks nothing away: the XP is unchanged.
pub proof fn lemma_settle_same_level_keeps_xp(level: nat, xp: nat, server: Option<u64>)
    ensures
        spec_settle(level, xp, server).0 == level ==> spec_settle(level, xp, server).1 == xp,
{
    let needed = spec_threshold(level, server);
    if xp >= needed && (server is Some || needed > 0) {
        lemma_settle_level_grows(level + 1, (xp - needed) as nat, None);
    }
}

pub struct Experience {
    pub level: u32,
    pub current_xp: u64,
    pub total_xp: u64,
    /// Authoritative XP threshold for the next level, mirrored from the
    /// server. `None` falls back to the local [`xp_for_level`] curve.
    pub server_xp_to_next: Option<u64>,
}

impl Experience {
    /// The threshold the bar currently shows.
    pub open spec fn spec_xp_to_next_level(&self) -> nat {
        spec_threshold(self.level as nat, self.server_xp_to_next)
    }

    /// A fresh level-1 character with no XP.
    pub fn new() -> (r: Self)
        ensures
            r.level == 1,
            r.current_xp == 0,
            r.total_xp == 0,
            r.server_xp_to_next is None,
    {
        Experience { level: 1, current_xp: 0, total_xp: 0, server_xp_to_next: None }
    }

    /// Override the local curve with the value the server just sent.
    pub fn set_xp_to_next(&mut self, value: u64)
        ensures
            final(self).server_xp_to_next == Some(value),
            final(self).level == old(self).level,
            final(self).current_xp == old(self).current_xp,
            final(self).total_xp == old(self).total_xp,
    {
        self.server_xp_to_next = Some(value);
    }

    /// XP required to reach the next level from the current level.
    pub fn xp_to_next_level(&self) -> (r: u64)
        requires
            self.server_xp_to_next is Some || self.level < u32::MAX,
        ensures
            r == self.spec_xp_to_next_level(),
            self.server_xp_to_next is None ==> is_isqrt(
                10000 * (self.level as nat + 1) * (self.level as nat + 1) * (self.level as nat + 1),
                r as nat,
            ),
    {
        match self.server_xp_to_next {
            Some(v) => v,
            None => xp_for_level(self.level + 1),
        }
    }

    /// Grant XP. Banks `amount`, then levels up as long as the banked
    /// XP covers the threshold, paying it each time. Returns one reward
    /// per level gained, in order.
    pub fn grant_xp(&mut self, amount: u64) -> (rewards: Vec<LevelUpReward>)
        requires
            old(self).current_xp + amount <= u64::MAX,
            old(self).total_xp + amount <= u64::MAX,
            spec_settle(old(self).level as nat, (old(self).current_xp + amount) as nat,
                old(self).server_xp_to_next).0 < u32::MAX,
        ensures
            final(self).total_xp == old(self).total_xp + amount,
            (final(self).level as nat, final(self).current_xp as nat) == spec_settle(
                old(self).level as nat, (old(self).current_xp + amount) as nat,
                old(self).server_xp_to_next),
            final(self).level == old(self).level ==> final(self).server_xp_to_next
                == old(self).server_xp_to_next,
            final(self).level > old(self).level ==> final(self).server_xp_to_next is None,
            final(self).level == old(self).level ==> final(self).current_xp == old(self).current_xp + amount,
            (final(self).current_xp as nat) < final(self).spec_xp_to_next_level(),
            rewards@.len() > 0 ==> final(self).server_xp_to_next is None && final(self).spec_xp_to_next_level()
                == spec_xp_for_level(final(self).level as nat + 1),
            rewards@.len() == 0 ==> final(self).level == old(self).level && final(self).current_xp
                == old(self).current_xp + amount && final(self).spec_xp_to_next_level()
                == old(self).spec_xp_to_next_level(),
            rewards@.len() == final(self).level - old(self).level,
            forall|i: int| 0 <= i < rewards@.len() ==> rewards@[i] == spec_reward(
                (old(self).level + i + 1) as u32),
            forall|i: int|
                0 <= i < rewards@.len() ==> (#[trigger] rewards@[i]).new_level == old(self).level + i + 1
                    && rewards@[i].talent_points == 1 && rewards@[i].attribute_points == (if (old(self).level + i
                    + 1) % 10 == 0 {
                    5u32
                } else {
                    2u32
                }),
    {
        self.current_xp = self.current_xp + amount;
        self.total_xp = self.total_xp + amount;
        let ghost start_level = self.level as nat;
        let ghost target = spec_settle(self.level as nat, self.current_xp as nat, self.server_xp_to_next);
        let mut rewards: Vec<LevelUpReward> = Vec::new();
        proof { lemma_settle_level_grows(self.level as nat, self.current_xp as nat, self.server_xp_to_next); }
        loop
            invariant
                spec_settle(self.level as nat, self.current_xp as nat, self.server_xp_to_next) == target,
                target.0 < u32::MAX,
                self.level as nat >= start_level,
                self.level as nat <= target.0,
                self.total_xp == old(self).total_xp + amount,
                self.level == old(self).level ==> self.server_xp_to_next == old(self).server_xp_to_next,
                self.level > old(self).level ==> self.server_xp_to_next is None,
                start_level == old(self).level,
                rewards@.len() == self.level - start_level,
                forall|i: int| 0 <= i < rewards@.len() ==> rewards@[i] == spec_reward(
                    (start_level + i + 1) as u32),
            ensures
                (self.level as nat, self.current_xp as nat) == target,
                (self.current_xp as nat) < self.spec_xp_to_next_level(),
                self.total_xp == old(self).total_xp + amount,
                self.level == old(self).level ==> self.server_xp_to_next == old(self).server_xp_to_next,
                self.level > old(self).level ==> self.server_xp_to_next is None,
                rewards@.len() == self.level - start_level,
                forall|i: int| 0 <= i < rewards@.len() ==> rewards@[i] == spec_reward(
                    (start_level + i + 1) as u32),
            decreases self.current_xp * 2 + (if self.server_xp_to_next is Some { 1nat } else { 0nat }),
        {
            let needed = self.xp_to_next_level();
            proof {
                if self.server_xp_to_next is None {
                    lemma_xp_for_level_at_least_100(self.level as nat + 1, needed as nat);
                }
            }
            if self.current_xp >= needed {
                proof {
                    lemma_settle_level_grows(self.level as nat + 1, (self.current_xp - needed) as nat, None);
                }
                self.current_xp = self.current_xp - needed;
                self.level = self.level + 1;
                self.server_xp_to_next = None;
                let ap = attribute_points_for_level(self.level);
                rewards.push(LevelUpReward {
                    new_level: self.level,
                    attribute_points: ap,
                    talent_points: 1,
                });
            } else {
                break;
            }
        }
        proof {
            lemma_settle_same_level_keeps_xp(old(self).level as nat, (old(self).current_xp + amount) as nat,
                old(self).server_xp_to_next);
        }
        rewards
    }
}

} // verus!
