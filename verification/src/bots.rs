//! The bots and their settings.

use vstd::prelude::*;

use crate::config_v2::Config;
use crate::text::same;
use crate::types_v2::BotMode;

verus! {

/// The bots that share a configuration.
#[derive(Debug, Clone, Copy, PartialEq, Eq, Structural)]
pub enum Bot {
    /// Entries on Bitcoin signals.
    Sniper,
    /// Entries on Ether signals.
    EthSniper,
    /// Rounds of bids on both sides.
    Vidarx,
    /// Flash ladders in fifteen-minute windows.
    VidarxBtc15,
    /// Rounds of purchases of the expensive side.
    VidarxXrp,
    /// One pair a window at a locked profit.
    LockProfit,
    /// Minting and selling.
    MintSell,
}

/// The mode that an argument asks for: live only by its name.
pub fn mode_from_arg(arg: Option<&str>) -> (r: BotMode)
    ensures
        r == (match arg {
            Some(a) => if a@ == "live"@ {
                BotMode::Live
            } else {
                BotMode::DryRun
            },
            None => BotMode::DryRun,
        }),
{
    match arg {
        Some(a) => if same(a, "live") {
            BotMode::Live
        } else {
            BotMode::DryRun
        },
        None => BotMode::DryRun,
    }
}

/// The name of a bot's market.
pub open spec fn market_of(bot: Bot) -> Seq<char> {
    match bot {
        Bot::Sniper => "btc"@,
        Bot::EthSniper => "eth"@,
        Bot::Vidarx => "btc"@,
        Bot::VidarxBtc15 => "btc15"@,
        Bot::VidarxXrp => "xrp"@,
        Bot::LockProfit => "btc"@,
        Bot::MintSell => "btc"@,
    }
}

/// Whether a bot accumulates: starts five seconds in, with quick refreshes and
/// no limit on its pairs.
pub open spec fn accumulates(bot: Bot) -> bool {
    bot == Bot::Vidarx || bot == Bot::VidarxBtc15 || bot == Bot::VidarxXrp || bot
        == Bot::LockProfit
}

/// Whether a bot accumulates.
pub fn is_accumulator(bot: Bot) -> (r: bool)
    ensures
        r == accumulates(bot),
{
    match bot {
        Bot::Vidarx => true,
        Bot::VidarxBtc15 => true,
        Bot::VidarxXrp => true,
        Bot::LockProfit => true,
        _ => false,
    }
}

/// The symbols whose prices a bot follows: the exchange's and the oracle's.
pub open spec fn symbols_of(bot: Bot) -> (Seq<char>, Seq<char>) {
    match bot {
        Bot::EthSniper => ("ethusdt"@, "eth/usd"@),
        Bot::VidarxXrp => ("xrpusdt"@, "xrp/usd"@),
        Bot::LockProfit => ("xrpusdt"@, "xrp/usd"@),
        _ => ("btcusdt"@, "btc/usd"@),
    }
}

/// The symbols whose prices a bot follows.
pub fn feed_symbols(bot: Bot) -> (r: (&'static str, &'static str))
    ensures
        (r.0@, r.1@) == symbols_of(bot),
{
    match bot {
        Bot::EthSniper => ("ethusdt", "eth/usd"),
        Bot::VidarxXrp => ("xrpusdt", "xrp/usd"),
        Bot::LockProfit => ("xrpusdt", "xrp/usd"),
        _ => ("btcusdt", "btc/usd"),
    }
}

/// Whether a bot follows the venue's stream of prices.
pub open spec fn streams(bot: Bot) -> bool {
    accumulates(bot) || bot == Bot::EthSniper
}

/// Whether a bot polls the venue's prices.
pub open spec fn polls(bot: Bot) -> bool {
    !accumulates(bot)
}

/// Every bot follows the venue's prices: the Ether sniper by the stream and by
/// polling, the Bitcoin sniper and the minter by polling alone, the others by the
/// stream alone.
pub proof fn bots_follow_the_prices(bot: Bot)
    ensures
        streams(bot) || polls(bot),
        streams(bot) && polls(bot) <==> bot == Bot::EthSniper,
        !streams(bot) <==> bot == Bot::Sniper || bot == Bot::MintSell,
{
}

/// Which price feeds of the venue a bot follows: the stream, and the polling.
/// Accumulators stream, the Bitcoin sniper and the minter poll, and the Ether
/// sniper does both.
pub fn price_feeds(bot: Bot) -> (r: (bool, bool))
    ensures
        r.0 == (accumulates(bot) || bot == Bot::EthSniper),
        r.1 == !accumulates(bot),
        r == (streams(bot), polls(bot)),
{
    let accumulator: bool = is_accumulator(bot);
    let both: bool = match bot {
        Bot::EthSniper => true,
        _ => false,
    };
    (accumulator || both, !accumulator)
}

/// How often a bot's user feed connects anew, in seconds.
pub open spec fn reconnects_after(bot: Bot) -> int {
    if bot == Bot::VidarxBtc15 {
        900
    } else {
        600
    }
}

/// Whether a bot reads its credentials in a mode.
pub open spec fn asks_for_credentials(bot: Bot, mode: BotMode) -> bool {
    !accumulates(bot) || mode == BotMode::Live
}

/// In live mode every bot reads its credentials, and in a dry run the snipers and
/// the minter. User feeds connect anew every quarter of an hour in fifteen-minute
/// windows, and else every ten minutes.
pub proof fn live_bots_have_credentials(bot: Bot)
    ensures
        asks_for_credentials(bot, BotMode::Live),
        asks_for_credentials(bot, BotMode::DryRun) <==> bot == Bot::Sniper || bot == Bot::EthSniper
            || bot == Bot::MintSell,
        reconnects_after(bot) % 300 == 0,
        bot == Bot::VidarxBtc15 ==> reconnects_after(bot) == 15 * 60,
        bot != Bot::VidarxBtc15 ==> reconnects_after(bot) == 10 * 60,
{
}

/// How often the user feed connects anew, in seconds: every quarter of an hour in
/// fifteen-minute windows, else every ten minutes.
pub fn reconnect_interval_s(bot: Bot) -> (r: i64)
    ensures
        r == if bot == Bot::VidarxBtc15 {
            900i64
        } else {
            600i64
        },
        r == reconnects_after(bot),
{
    match bot {
        Bot::VidarxBtc15 => 900,
        _ => 600,
    }
}

/// Whether a bot reads its credentials: accumulators in live mode only.
pub fn reads_credentials(bot: Bot, mode: BotMode) -> (r: bool)
    ensures
        r == (!accumulates(bot) || mode == BotMode::Live),
        r == asks_for_credentials(bot, mode),
{
    match mode {
        BotMode::Live => true,
        BotMode::DryRun => !is_accumulator(bot),
    }
}

/// Sets what a bot has otherwise than the defaults.
pub fn configure(config: Config, bot: Bot) -> (r: Config)
    ensures
        r == (Config {
            market: r.market,
            start_delay_s: if accumulates(bot) {
                5
            } else {
                config.start_delay_s
            },
            cancel_at_s: match bot {
                Bot::VidarxBtc15 => 840,
                Bot::MintSell => 180,
                Bot::Vidarx => 240,
                Bot::VidarxXrp => 240,
                Bot::LockProfit => 240,
                _ => config.cancel_at_s,
            },
            cooldown_ms: if accumulates(bot) {
                500
            } else if bot == Bot::MintSell {
                1500
            } else {
                config.cooldown_ms
            },
            max_pairs_per_window: if accumulates(bot) {
                999
            } else if bot == Bot::EthSniper {
                50
            } else {
                config.max_pairs_per_window
            },
            share_base: if accumulates(bot) {
                20_000_000
            } else if bot == Bot::EthSniper {
                10_000_000
            } else {
                config.share_base
            },
            ..config
        }),
        r.market@ == (if bot == Bot::Sniper {
            config.market@
        } else {
            market_of(bot)
        }),
        bot == Bot::Sniper ==> r.share_base == config.share_base && r.cancel_at_s
            == config.cancel_at_s && r.cooldown_ms == config.cooldown_ms,
        bot == Bot::EthSniper ==> r.share_base == 10_000_000 && r.max_pairs_per_window == 50,
        bot == Bot::MintSell ==> r.cooldown_ms == 1500 && r.cancel_at_s == 180,
        bot == Bot::VidarxBtc15 ==> r.cancel_at_s == 840,
        bot == Bot::Vidarx || bot == Bot::VidarxXrp || bot == Bot::LockProfit ==> r.cancel_at_s
            == 240,
        bot == Bot::Vidarx || bot == Bot::VidarxBtc15 || bot == Bot::VidarxXrp || bot
            == Bot::LockProfit ==> r.start_delay_s == 5 && r.cooldown_ms == 500
            && r.max_pairs_per_window == 999 && r.share_base == 20_000_000,
{
    let mut c: Config = config;
    match bot {
        Bot::Sniper => {},
        Bot::EthSniper => {
            c.market = "eth".to_owned();
            c.share_base = 10_000_000;
            c.max_pairs_per_window = 50;
        },
        Bot::MintSell => {
            c.market = "btc".to_owned();
            c.cooldown_ms = 1500;
            c.cancel_at_s = 180;
        },
        _ => {
            c.start_delay_s = 5;
            c.cooldown_ms = 500;
            c.max_pairs_per_window = 999;
            c.share_base = 20_000_000;
            match bot {
                Bot::VidarxBtc15 => {
                    c.market = "btc15".to_owned();
                    c.cancel_at_s = 840;
                },
                Bot::VidarxXrp => {
                    c.market = "xrp".to_owned();
                    c.cancel_at_s = 240;
                },
                _ => {
                    c.market = "btc".to_owned();
                    c.cancel_at_s = 240;
                },
            }
        },
    }
    c
}

/// Whether a bot may start: live trading needs all four credentials.
pub fn may_start(config: &Config) -> (r: bool)
    ensures
        r == (config.mode != BotMode::Live || (config.poly_private_key@.len() > 0
            && config.poly_api_key@.len() > 0 && config.poly_api_secret@.len() > 0
            && config.poly_api_passphrase@.len() > 0)),
{
    match config.mode {
        BotMode::Live => config.has_credentials(),
        BotMode::DryRun => true,
    }
}

/// A bot's market and its symbols: the Ether sniper's are Ether's, the others'
/// Bitcoin's, save that the bots on Ripple follow Ripple's prices. Four bots
/// accumulate; both snipers and the minter do not.
pub proof fn bots_have_their_markets(bot: Bot)
    ensures
        bot == Bot::EthSniper ==> market_of(bot) == "eth"@ && symbols_of(bot) == (
            "ethusdt"@,
            "eth/usd"@,
        ),
        bot == Bot::VidarxXrp ==> market_of(bot) == "xrp"@,
        bot == Bot::VidarxBtc15 ==> market_of(bot) == "btc15"@,
        bot == Bot::Sniper || bot == Bot::Vidarx || bot == Bot::LockProfit || bot == Bot::MintSell
            ==> market_of(bot) == "btc"@,
        bot == Bot::VidarxXrp || bot == Bot::LockProfit ==> symbols_of(bot) == (
            "xrpusdt"@,
            "xrp/usd"@,
        ),
        bot == Bot::Sniper || bot == Bot::Vidarx || bot == Bot::VidarxBtc15 || bot == Bot::MintSell
            ==> symbols_of(bot) == ("btcusdt"@, "btc/usd"@),
        !accumulates(bot) <==> bot == Bot::Sniper || bot == Bot::EthSniper || bot == Bot::MintSell,
{
}

} // verus!
