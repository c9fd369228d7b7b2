//! The configuration of the event-driven bots.
//!
//! Amounts, prices, scores, basis points and time constants count millionths.

use vstd::prelude::*;

use crate::fixed::magnitude;
use crate::types_v2::BotMode;

verus! {

#[derive(Debug, Clone)]
pub struct Config {
    pub mode: BotMode,
    pub market: String,
    // Signals
    pub lookback_ms: i64,
    pub basis_slope_lookback_ms: i64,
    pub basis_ema_tau_ms: i64,
    pub obi_ema_tau_ms: i64,
    pub trigger_min_fast_move_bps: i64,
    pub maker_score_min: i64,
    pub taker_score_min: i64,
    pub max_signal_age_ms: i64,
    pub maker_max_signal_age_ms: i64,
    // Exits
    pub take_profit_cents: i64,
    pub stop_loss_cents: i64,
    pub max_hold_ms: i64,
    pub cooldown_ms: i64,
    pub opposite_signal_exit_score: i64,
    // Sizing
    pub share_base: i64,
    pub max_pairs_per_window: u32,
    pub base_notional: i64,
    pub max_notional: i64,
    // Risk
    pub max_one_position: bool,
    pub session_stop_loss: i64,
    pub max_spread_cents: i64,
    pub min_entry_price: i64,
    pub max_entry_price: i64,
    pub min_time_to_expiry_s: u64,
    pub wallet_check_interval_s: u64,
    // Window timing, in seconds
    pub window_seconds: u64,
    pub start_delay_s: u64,
    pub cancel_at_s: u64,
    // Credentials
    pub poly_private_key: String,
    pub poly_api_key: String,
    pub poly_api_secret: String,
    pub poly_api_passphrase: String,
    // Logging
    pub logs_dir: String,
    // Thresholds that shape the risk
    pub tune: TuneConfig,
}

/// Thresholds that shape the risk: gates on the cost of a pair, caps on what is
/// left unpaired, filters.
#[derive(Debug, Clone, Copy, PartialEq, Eq, Structural)]
pub struct TuneConfig {
    pub pair_cost_full_size_max: i64,
    pub pair_cost_reduce_max: i64,
    pub pair_cost_strong_only_max: i64,
    pub weak_signal_max_ratio: i64,
    pub med_signal_max_ratio: i64,
    pub strong_signal_max_ratio: i64,
    pub extreme_signal_max_ratio: i64,
    pub soft_cap_fraction: i64,
    pub soft_freeze_pair_cost: i64,
    pub exp_heavy_override_score: i64,
    pub exp_heavy_strong_score: i64,
    pub exp_heavy_pair_cost_max: i64,
    pub base_cheap_target: i64,
    pub neutral_cheap_target: i64,
    pub exp_heavy_cheap_target: i64,
    pub extreme_reduce_exp_price: i64,
    pub extreme_reduce_cheap_price: i64,
    pub extreme_hard_exp_price: i64,
    pub extreme_hard_cheap_price: i64,
    pub extreme_size_multiplier: i64,
    pub extreme_edge_add_cents: i64,
    pub rolling_short_windows: usize,
    pub rolling_pause_pnl_per_window: i64,
    pub rolling_pause_pair_cost: i64,
    pub rolling_resume_pnl_per_window: i64,
    pub rolling_resume_pair_cost: i64,
    pub min_pairs_for_cost_gate: i64,
}

/// The thresholds in use unless set otherwise.
pub open spec fn default_tune() -> TuneConfig {
    TuneConfig {
        pair_cost_full_size_max: 995_000,
        pair_cost_reduce_max: 1_010_000,
        pair_cost_strong_only_max: 1_030_000,
        weak_signal_max_ratio: 1_200_000,
        med_signal_max_ratio: 1_500_000,
        strong_signal_max_ratio: 2_250_000,
        extreme_signal_max_ratio: 3_000_000,
        soft_cap_fraction: 800_000,
        soft_freeze_pair_cost: 995_000,
        exp_heavy_override_score: 1_400_000,
        exp_heavy_strong_score: 2_000_000,
        exp_heavy_pair_cost_max: 990_000,
        base_cheap_target: 545_000,
        neutral_cheap_target: 500_000,
        exp_heavy_cheap_target: 470_000,
        extreme_reduce_exp_price: 800_000,
        extreme_reduce_cheap_price: 200_000,
        extreme_hard_exp_price: 900_000,
        extreme_hard_cheap_price: 100_000,
        extreme_size_multiplier: 500_000,
        extreme_edge_add_cents: 5_000,
        rolling_short_windows: 6,
        rolling_pause_pnl_per_window: (-5_000_000) as i64,
        rolling_pause_pair_cost: 1_010_000,
        rolling_resume_pnl_per_window: 5_000_000,
        rolling_resume_pair_cost: 995_000,
        min_pairs_for_cost_gate: 50_000_000,
    }
}

impl Default for TuneConfig {
    fn default() -> (r: Self)
        ensures
            r == default_tune(),
    {
        TuneConfig {
            pair_cost_full_size_max: 995_000,
            pair_cost_reduce_max: 1_010_000,
            pair_cost_strong_only_max: 1_030_000,
            weak_signal_max_ratio: 1_200_000,
            med_signal_max_ratio: 1_500_000,
            strong_signal_max_ratio: 2_250_000,
            extreme_signal_max_ratio: 3_000_000,
            soft_cap_fraction: 800_000,
            soft_freeze_pair_cost: 995_000,
            exp_heavy_override_score: 1_400_000,
            exp_heavy_strong_score: 2_000_000,
            exp_heavy_pair_cost_max: 990_000,
            base_cheap_target: 545_000,
            neutral_cheap_target: 500_000,
            exp_heavy_cheap_target: 470_000,
            extreme_reduce_exp_price: 800_000,
            extreme_reduce_cheap_price: 200_000,
            extreme_hard_exp_price: 900_000,
            extreme_hard_cheap_price: 100_000,
            extreme_size_multiplier: 500_000,
            extreme_edge_add_cents: 5_000,
            rolling_short_windows: 6,
            rolling_pause_pnl_per_window: -5_000_000,
            rolling_pause_pair_cost: 1_010_000,
            rolling_resume_pnl_per_window: 5_000_000,
            rolling_resume_pair_cost: 995_000,
            min_pairs_for_cost_gate: 50_000_000,
        }
    }
}

impl Default for Config {
    fn default() -> (r: Self)
        ensures
            r.mode == BotMode::DryRun,
            r.market@ == "btc"@,
            r.lookback_ms == 800,
            r.basis_slope_lookback_ms == 250,
            r.basis_ema_tau_ms == 60_000_000_000,
            r.obi_ema_tau_ms == 250_000_000,
            r.trigger_min_fast_move_bps == 700_000,
            r.maker_score_min == 450_000,
            r.taker_score_min == 900_000,
            r.max_signal_age_ms == 1400,
            r.maker_max_signal_age_ms == 900,
            r.take_profit_cents == 4_000_000,
            r.stop_loss_cents == 3_000_000,
            r.max_hold_ms == 2_500,
            r.cooldown_ms == 1_500,
            r.opposite_signal_exit_score == 1_200_000,
            r.share_base == 20_000_000,
            r.max_pairs_per_window == 50,
            r.base_notional == 25_000_000,
            r.max_notional == 150_000_000,
            r.max_one_position == true,
            r.session_stop_loss == -2_000_000_000,
            r.max_spread_cents == 4_000_000,
            r.min_entry_price == 150_000,
            r.max_entry_price == 970_000,
            r.min_time_to_expiry_s == 60,
            r.wallet_check_interval_s == 300,
            r.window_seconds == 300,
            r.start_delay_s == 15,
            r.cancel_at_s == 180,
            r.poly_private_key@ == Seq::<char>::empty(),
            r.poly_api_key@ == Seq::<char>::empty(),
            r.poly_api_secret@ == Seq::<char>::empty(),
            r.poly_api_passphrase@ == Seq::<char>::empty(),
            r.logs_dir@ == "logs"@,
            r.tune == default_tune(),
    {
        Config {
            mode: BotMode::DryRun,
            market: "btc".to_owned(),
            lookback_ms: 800,
            basis_slope_lookback_ms: 250,
            basis_ema_tau_ms: 60_000_000_000,
            obi_ema_tau_ms: 250_000_000,
            trigger_min_fast_move_bps: 700_000,
            maker_score_min: 450_000,
            taker_score_min: 900_000,
            max_signal_age_ms: 1400,
            maker_max_signal_age_ms: 900,
            take_profit_cents: 4_000_000,
            stop_loss_cents: 3_000_000,
            max_hold_ms: 2_500,
            cooldown_ms: 1_500,
            opposite_signal_exit_score: 1_200_000,
            share_base: 20_000_000,
            max_pairs_per_window: 50,
            base_notional: 25_000_000,
            max_notional: 150_000_000,
            max_one_position: true,
            session_stop_loss: -2_000_000_000,
            max_spread_cents: 4_000_000,
            min_entry_price: 150_000,
            max_entry_price: 970_000,
            min_time_to_expiry_s: 60,
            wallet_check_interval_s: 300,
            window_seconds: 300,
            start_delay_s: 15,
            cancel_at_s: 180,
            poly_private_key: String::new(),
            poly_api_key: String::new(),
            poly_api_secret: String::new(),
            poly_api_passphrase: String::new(),
            logs_dir: "logs".to_owned(),
            tune: TuneConfig::default(),
        }
    }
}

impl Config {
    /// Takes over the credentials that the environment has; the others stay.
    pub fn load_credentials(
        &mut self,
        private_key: Option<String>,
        api_key: Option<String>,
        secret: Option<String>,
        passphrase: Option<String>,
    )
        ensures
            *final(self) == (Config {
                poly_private_key: match private_key {
                    Some(v) => v,
                    None => old(self).poly_private_key,
                },
                poly_api_key: match api_key {
                    Some(v) => v,
                    None => old(self).poly_api_key,
                },
                poly_api_secret: match secret {
                    Some(v) => v,
                    None => old(self).poly_api_secret,
                },
                poly_api_passphrase: match passphrase {
                    Some(v) => v,
                    None => old(self).poly_api_passphrase,
                },
                ..*old(self)
            }),
    {
        if let Some(v) = private_key {
            self.poly_private_key = v;
        }
        if let Some(v) = api_key {
            self.poly_api_key = v;
        }
        if let Some(v) = secret {
            self.poly_api_secret = v;
        }
        if let Some(v) = passphrase {
            self.poly_api_passphrase = v;
        }
    }

    /// Whether all four credentials are there.
    pub fn has_credentials(&self) -> (r: bool)
        ensures
            r == (self.poly_private_key@.len() > 0 && self.poly_api_key@.len() > 0
                && self.poly_api_secret@.len() > 0 && self.poly_api_passphrase@.len() > 0),
    {
        !self.poly_private_key.as_str().is_empty() && !self.poly_api_key.as_str().is_empty()
            && !self.poly_api_secret.as_str().is_empty()
            && !self.poly_api_passphrase.as_str().is_empty()
    }
}

/// How strong a signal is.
#[derive(Debug, Clone, Copy, PartialEq, Eq, Structural)]
pub enum SignalBand {
    Weak,
    Medium,
    Strong,
    Extreme,
}

/// How much may be quoted at a pair cost.
#[derive(Debug, Clone, Copy, PartialEq, Eq, Structural)]
pub enum PairCostMode {
    Full,
    Reduced,
    StrongOnly,
    Stop,
}

/// The band of a score: by its magnitude.
pub open spec fn band_of(score: int) -> SignalBand {
    let m = magnitude(score);
    if m >= 2_000_000 {
        SignalBand::Extreme
    } else if m >= 1_400_000 {
        SignalBand::Strong
    } else if m >= 800_000 {
        SignalBand::Medium
    } else {
        SignalBand::Weak
    }
}

/// The place of a band, from the weakest up.
pub open spec fn band_rank(band: SignalBand) -> int {
    match band {
        SignalBand::Weak => 0,
        SignalBand::Medium => 1,
        SignalBand::Strong => 2,
        SignalBand::Extreme => 3,
    }
}

/// The place of a mode, from full quoting down.
pub open spec fn mode_rank(mode: PairCostMode) -> int {
    match mode {
        PairCostMode::Full => 0,
        PairCostMode::Reduced => 1,
        PairCostMode::StrongOnly => 2,
        PairCostMode::Stop => 3,
    }
}

impl TuneConfig {
    /// The ratio of the sides that a band admits.
    pub open spec fn ratio_for(self, band: SignalBand) -> i64 {
        match band {
            SignalBand::Weak => self.weak_signal_max_ratio,
            SignalBand::Medium => self.med_signal_max_ratio,
            SignalBand::Strong => self.strong_signal_max_ratio,
            SignalBand::Extreme => self.extreme_signal_max_ratio,
        }
    }

    /// The mode at a pair cost: full until enough pairs are matched, then by the
    /// three limits.
    pub open spec fn mode_at(self, pair_cost: int, matched_pairs: int) -> PairCostMode {
        if matched_pairs < self.min_pairs_for_cost_gate || pair_cost
            <= self.pair_cost_full_size_max {
            PairCostMode::Full
        } else if pair_cost <= self.pair_cost_reduce_max {
            PairCostMode::Reduced
        } else if pair_cost <= self.pair_cost_strong_only_max {
            PairCostMode::StrongOnly
        } else {
            PairCostMode::Stop
        }
    }

    /// The share of cheap fills aimed at: less where a strong signal predicts
    /// the expensive side and pairs are cheap enough.
    pub open spec fn cheap_share(self, score: int, exp_wins: bool, pair_cost: Option<i64>) -> i64 {
        let cheap_pairs = match pair_cost {
            Some(pc) => pc <= self.exp_heavy_pair_cost_max,
            None => true,
        };
        if magnitude(score) >= self.exp_heavy_strong_score && exp_wins && cheap_pairs {
            self.exp_heavy_cheap_target
        } else if magnitude(score) >= self.exp_heavy_override_score && exp_wins && cheap_pairs {
            self.neutral_cheap_target
        } else {
            self.base_cheap_target
        }
    }

    /// The band of a score.
    pub fn signal_band(&self, score: i64) -> (r: SignalBand)
        ensures
            r == band_of(score as int),
    {
        let m: i128 = crate::fixed::abs(score as i128);
        if m >= 2_000_000 {
            SignalBand::Extreme
        } else if m >= 1_400_000 {
            SignalBand::Strong
        } else if m >= 800_000 {
            SignalBand::Medium
        } else {
            SignalBand::Weak
        }
    }

    /// The ratio of the sides that a band admits.
    pub fn max_ratio_for_band(&self, band: SignalBand) -> (r: i64)
        ensures
            r == self.ratio_for(band),
    {
        match band {
            SignalBand::Weak => self.weak_signal_max_ratio,
            SignalBand::Medium => self.med_signal_max_ratio,
            SignalBand::Strong => self.strong_signal_max_ratio,
            SignalBand::Extreme => self.extreme_signal_max_ratio,
        }
    }

    /// The mode at a pair cost.
    pub fn pair_cost_mode(&self, pair_cost: i64, matched_pairs: i64) -> (r: PairCostMode)
        ensures
            r == self.mode_at(pair_cost as int, matched_pairs as int),
    {
        if matched_pairs < self.min_pairs_for_cost_gate {
            return PairCostMode::Full;
        }
        if pair_cost <= self.pair_cost_full_size_max {
            PairCostMode::Full
        } else if pair_cost <= self.pair_cost_reduce_max {
            PairCostMode::Reduced
        } else if pair_cost <= self.pair_cost_strong_only_max {
            PairCostMode::StrongOnly
        } else {
            PairCostMode::Stop
        }
    }

    /// The share of cheap fills aimed at.
    pub fn cheap_target(&self, score: i64, pred_winner_is_exp: bool, pair_cost: Option<i64>) -> (r:
        i64)
        ensures
            r == self.cheap_share(score as int, pred_winner_is_exp, pair_cost),
    {
        let m: i128 = crate::fixed::abs(score as i128);
        let cheap_pairs: bool = match pair_cost {
            Some(pc) => pc <= self.exp_heavy_pair_cost_max,
            None => true,
        };
        if m >= self.exp_heavy_strong_score as i128 && pred_winner_is_exp && cheap_pairs {
            self.exp_heavy_cheap_target
        } else if m >= self.exp_heavy_override_score as i128 && pred_winner_is_exp && cheap_pairs {
            self.neutral_cheap_target
        } else {
            self.base_cheap_target
        }
    }
}

/// A stronger score is in no weaker band, and under the default thresholds a
/// stronger band admits no smaller ratio.
pub proof fn bands_grow_with_the_score(score: int, stronger: int)
    requires
        magnitude(score) <= magnitude(stronger),
    ensures
        band_rank(band_of(score)) <= band_rank(band_of(stronger)),
        default_tune().ratio_for(band_of(score)) <= default_tune().ratio_for(band_of(stronger)),
{
}

/// A dearer pair is never quoted more freely, with the limits in their order.
pub proof fn dearer_pairs_are_quoted_less(t: TuneConfig, cost: int, dearer: int, matched: int)
    requires
        cost <= dearer,
        t.pair_cost_full_size_max <= t.pair_cost_reduce_max <= t.pair_cost_strong_only_max,
    ensures
        mode_rank(t.mode_at(cost, matched)) <= mode_rank(t.mode_at(dearer, matched)),
{
}

/// A score and its opposite are in the same band; the bands begin at eight
/// tenths, at one and four tenths, and at two.
pub proof fn bands_have_their_bounds(score: int)
    ensures
        band_of(-score) == band_of(score),
        -800_000 < score < 800_000 <==> band_of(score) == SignalBand::Weak,
        800_000 <= score < 1_400_000 ==> band_of(score) == SignalBand::Medium,
        1_400_000 <= score < 2_000_000 ==> band_of(score) == SignalBand::Strong,
        score >= 2_000_000 ==> band_of(score) == SignalBand::Extreme,
{
}

/// Under the default thresholds, and with fifty pairs matched, a pair is quoted in
/// full up to ninety-nine and a half cents, reduced up to a dollar and a cent, on
/// strong signals alone up to a dollar and three cents, and not at all beyond.
/// With fewer pairs every cost is quoted in full.
pub proof fn default_costs_have_their_modes(cost: int, matched: int)
    ensures
        matched < 50_000_000 ==> default_tune().mode_at(cost, matched) == PairCostMode::Full,
        matched >= 50_000_000 ==> {
            &&& cost <= 995_000 <==> default_tune().mode_at(cost, matched) == PairCostMode::Full
            &&& 995_000 < cost <= 1_010_000 <==> default_tune().mode_at(cost, matched)
                == PairCostMode::Reduced
            &&& 1_010_000 < cost <= 1_030_000 <==> default_tune().mode_at(cost, matched)
                == PairCostMode::StrongOnly
            &&& cost > 1_030_000 <==> default_tune().mode_at(cost, matched) == PairCostMode::Stop
        },
{
}

/// Each band has a ratio of its own.
pub proof fn default_ratios_follow_the_band()
    ensures
        default_tune().ratio_for(SignalBand::Weak) == 1_200_000,
        default_tune().ratio_for(SignalBand::Medium) == 1_500_000,
        default_tune().ratio_for(SignalBand::Strong) == 2_250_000,
        default_tune().ratio_for(SignalBand::Extreme) == 3_000_000,
{
}

/// Cheap fills are aimed at less only where the expensive side is predicted, pairs
/// cost no more than the limit, and the signal is strong: the stronger it is, in
/// either direction, the less.
pub proof fn cheap_fills_yield_to_strong_signals(
    t: TuneConfig,
    score: int,
    exp_wins: bool,
    pair_cost: Option<i64>,
)
    requires
        0 < t.exp_heavy_override_score <= t.exp_heavy_strong_score,
    ensures
        t.cheap_share(-score, exp_wins, pair_cost) == t.cheap_share(score, exp_wins, pair_cost),
        t.cheap_share(score, false, pair_cost) == t.base_cheap_target,
        pair_cost is Some && pair_cost->0 > t.exp_heavy_pair_cost_max ==> t.cheap_share(
            score,
            exp_wins,
            pair_cost,
        ) == t.base_cheap_target,
        pair_cost is None || pair_cost->0 <= t.exp_heavy_pair_cost_max ==> {
            &&& score >= t.exp_heavy_strong_score ==> t.cheap_share(score, true, pair_cost)
                == t.exp_heavy_cheap_target
            &&& t.exp_heavy_override_score <= score < t.exp_heavy_strong_score ==> t.cheap_share(
                score,
                true,
                pair_cost,
            ) == t.neutral_cheap_target
            &&& 0 <= score < t.exp_heavy_override_score ==> t.cheap_share(score, true, pair_cost)
                == t.base_cheap_target
        },
{
}

/// The other thresholds in use unless set otherwise.
pub proof fn default_thresholds()
    ensures
        ({
            let t = default_tune();
            &&& t.soft_cap_fraction == 800_000
            &&& t.soft_freeze_pair_cost == 995_000
            &&& t.exp_heavy_override_score == 1_400_000
            &&& t.exp_heavy_strong_score == 2_000_000
            &&& t.exp_heavy_pair_cost_max == 990_000
            &&& t.base_cheap_target == 545_000
            &&& t.neutral_cheap_target == 500_000
            &&& t.exp_heavy_cheap_target == 470_000
            &&& t.extreme_reduce_exp_price == 800_000
            &&& t.extreme_reduce_cheap_price == 200_000
            &&& t.extreme_hard_exp_price == 900_000
            &&& t.extreme_hard_cheap_price == 100_000
            &&& t.extreme_size_multiplier == 500_000
            &&& t.extreme_edge_add_cents == 5_000
            &&& t.rolling_short_windows == 6
            &&& t.rolling_pause_pnl_per_window == -5_000_000
            &&& t.rolling_pause_pair_cost == 1_010_000
            &&& t.rolling_resume_pnl_per_window == 5_000_000
            &&& t.rolling_resume_pair_cost == 995_000
        }),
{
}

} // verus!
