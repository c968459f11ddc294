//! The messages sent to the operator.

use crate::clock::{clock_text, short_clock_text, spec_clock_text, spec_short_clock_text};
use crate::decimal::{whole, Dec};
use crate::models::{SignalType, SimulatedTrade, Token, TokenMetrics, TradingSignal};
use crate::text::{
    append_digits, decimal_digits, push_char, to_uppercase, uppercase_text,
};
use vstd::prelude::*;
use vstd::string::*;

verus! {

/// Whether `c` has a meaning in MarkdownV2 and must be escaped.
pub open spec fn is_markdown_special(c: char) -> bool {
    ||| c == '_'
    ||| c == '*'
    ||| c == '['
    ||| c == ']'
    ||| c == '('
    ||| c == ')'
    ||| c == '~'
    ||| c == '`'
    ||| c == '>'
    ||| c == '#'
    ||| c == '+'
    ||| c == '-'
    ||| c == '='
    ||| c == '|'
    ||| c == '{'
    ||| c == '}'
    ||| c == '.'
    ||| c == '!'
}

/// `text` with a backslash before each character that has a meaning in
/// MarkdownV2.
pub open spec fn spec_escape_markdown_v2(text: Seq<char>) -> Seq<char>
    decreases text.len(),
{
    if text.len() == 0 {
        Seq::empty()
    } else {
        let before = spec_escape_markdown_v2(text.drop_last());
        if is_markdown_special(text.last()) {
            before.push('\\').push(text.last())
        } else {
            before.push(text.last())
        }
    }
}

/// Whether `c` has a meaning in MarkdownV2.
fn markdown_special(c: char) -> (special: bool)
    ensures
        special == is_markdown_special(c),
{
    c == '_' || c == '*' || c == '[' || c == ']' || c == '(' || c == ')' || c == '~' || c == '`'
        || c == '>' || c == '#' || c == '+' || c == '-' || c == '=' || c == '|' || c == '{' || c
        == '}' || c == '.' || c == '!'
}

/// Escapes `text` for MarkdownV2.
pub fn escape_markdown_v2(text: &str) -> (escaped: String)
    ensures
        escaped@ == spec_escape_markdown_v2(text@),
{
    let mut escaped = String::new();
    let length = text.unicode_len();
    let mut k: usize = 0;
    assert(text@.take(0) =~= Seq::<char>::empty());
    while k < length
        invariant
            length == text@.len(),
            k <= length,
            escaped@ == spec_escape_markdown_v2(text@.take(k as int)),
        decreases length - k,
    {
        proof {
            let longer = text@.take(k + 1);
            assert(longer.drop_last() =~= text@.take(k as int));
            assert(longer.last() == text@[k as int]);
        }
        let c = text.get_char(k);
        if markdown_special(c) {
            push_char(&mut escaped, '\\');
        }
        push_char(&mut escaped, c);
        k += 1;
    }
    assert(text@.take(length as int) =~= text@);
    escaped
}

/// The confidence of a signal in percent.
pub open spec fn spec_confidence_percent(confidence: Dec) -> Option<Dec> {
    confidence.spec_checked_mul(whole(100))
}

/// The lines of a buy signal on the market data of the token.
pub open spec fn market_data_text(metrics: Option<TokenMetrics>) -> Seq<char> {
    match metrics {
        Some(m) => "\n💰 Market Data:\n"@ + (match m.price_usd {
            Some(price) => "💵 Price: $"@ + price.spec_text() + "\n"@,
            None => Seq::empty(),
        }) + (match m.liquidity_usd {
            Some(liquidity) => "💧 Liquidity: $"@ + liquidity.spec_text_fixed(0) + "\n"@,
            None => Seq::empty(),
        }) + (match m.volume_24h_usd {
            Some(volume) => "📈 24h Volume: $"@ + volume.spec_text_fixed(0) + "\n"@,
            None => Seq::empty(),
        }) + (match m.holder_count {
            Some(holders) => "👥 Holders: "@ + decimal_digits(holders as nat) + "\n"@,
            None => Seq::empty(),
        }),
        None => Seq::empty(),
    }
}

/// The message for a buy signal, given the confidence in percent.
pub open spec fn buy_signal_text(
    token: Token,
    signal: TradingSignal,
    metrics: Option<TokenMetrics>,
    percent: Dec,
) -> Seq<char> {
    "🚀 BUY SIGNAL DETECTED!\n\n💎 "@ + token.name@ + " ("@ + token.symbol@ + ")\n🔗 "@
        + token.address@ + "\n⛓️ Chain: "@ + uppercase_text(token.chain@) + "\n📍 Source: "@
        + uppercase_text(token.source@) + "\n\n📊 Analysis:\n🎯 Confidence: "@
        + percent.spec_text_fixed(1) + "%\n"@ + (match signal.target_multiplier {
        Some(target) => "🚀 Target: "@ + target.spec_text() + "x\n"@,
        None => Seq::empty(),
    }) + market_data_text(metrics) + "\n🧠 Reason:\n"@ + signal.reason@ + "\n"@
        + "\n⏰ Detected: "@ + spec_clock_text(signal.created_at)
        + "\n\n🎮 Quick Actions:\n/details - Get full analysis\n/track - Add to watchlist"@
}

/// The message for a signal other than a buy signal: a headline, the token,
/// the reason under a caption, the confidence in percent and the time.
pub open spec fn alert_text(
    headline: Seq<char>,
    caption: Seq<char>,
    token: Token,
    signal: TradingSignal,
    percent: Dec,
) -> Seq<char> {
    headline + token.name@ + " ("@ + token.symbol@ + ")\n🔗 "@ + token.address@ + "\n\n"@
        + caption + signal.reason@ + "\n\n📊 Confidence: "@ + percent.spec_text_fixed(1)
        + "%\n⏰ "@ + spec_clock_text(signal.created_at)
}

/// The headline of a sell signal.
pub open spec fn sell_headline() -> Seq<char> {
    "💸 SELL SIGNAL\n\n📉 "@
}

/// The caption over the reason of a sell signal.
pub open spec fn sell_caption() -> Seq<char> {
    "⚠️ Reason:\n"@
}

/// The headline of a warning.
pub open spec fn warning_headline() -> Seq<char> {
    "⚠️ WARNING ALERT\n\n🚨 "@
}

/// The caption over the reason of a warning.
pub open spec fn warning_caption() -> Seq<char> {
    "❗ Alert:\n"@
}

/// The headline of a whale movement.
pub open spec fn whale_headline() -> Seq<char> {
    "🐋 WHALE MOVEMENT DETECTED\n\n💎 "@
}

/// The caption over the reason of a whale movement.
pub open spec fn whale_caption() -> Seq<char> {
    "🔍 Movement:\n"@
}

/// The message for a signal of any kind, or nothing where the confidence in
/// percent is not a decimal.
pub open spec fn spec_signal_message(
    token: Token,
    signal: TradingSignal,
    metrics: Option<TokenMetrics>,
) -> Option<Seq<char>> {
    match spec_confidence_percent(signal.confidence) {
        None => None,
        Some(percent) => Some(
            match signal.signal_type {
                SignalType::Buy => buy_signal_text(token, signal, metrics, percent),
                SignalType::Sell => alert_text(
                    sell_headline(),
                    sell_caption(),
                    token,
                    signal,
                    percent,
                ),
                SignalType::Warning => alert_text(
                    warning_headline(),
                    warning_caption(),
                    token,
                    signal,
                    percent,
                ),
                SignalType::WhaleMovement => alert_text(
                    whale_headline(),
                    whale_caption(),
                    token,
                    signal,
                    percent,
                ),
            },
        ),
    }
}

/// The view of an optional text.
pub open spec fn text_view(text: Option<String>) -> Option<Seq<char>> {
    match text {
        Some(t) => Some(t@),
        None => None,
    }
}

/// Appends the lines on the market data of a token to `message`.
fn append_market_data(message: &mut String, metrics: &Option<TokenMetrics>)
    ensures
        final(message)@ == old(message)@ + market_data_text(*metrics),
{
    let ghost start = message@;
    match metrics {
        Some(m) => {
            let mut lines = String::from_str("\n💰 Market Data:\n");
            let mut part = String::new();
            match m.price_usd {
                Some(price) => {
                    part.append("💵 Price: $");
                    part.append(price.to_text().as_str());
                    part.append("\n");
                    assert(part@ =~= "💵 Price: $"@ + price.spec_text() + "\n"@);
                },
                None => {},
            }
            lines.append(part.as_str());
            let mut part = String::new();
            match m.liquidity_usd {
                Some(liquidity) => {
                    part.append("💧 Liquidity: $");
                    part.append(liquidity.to_text_fixed(0).as_str());
                    part.append("\n");
                    assert(part@ =~= "💧 Liquidity: $"@ + liquidity.spec_text_fixed(0) + "\n"@);
                },
                None => {},
            }
            lines.append(part.as_str());
            let mut part = String::new();
            match m.volume_24h_usd {
                Some(volume) => {
                    part.append("📈 24h Volume: $");
                    part.append(volume.to_text_fixed(0).as_str());
                    part.append("\n");
                    assert(part@ =~= "📈 24h Volume: $"@ + volume.spec_text_fixed(0) + "\n"@);
                },
                None => {},
            }
            lines.append(part.as_str());
            let mut part = String::new();
            match m.holder_count {
                Some(holders) => {
                    part.append("👥 Holders: ");
                    append_digits(&mut part, holders as u64);
                    part.append("\n");
                    assert(part@ =~= "👥 Holders: "@ + decimal_digits(holders as nat) + "\n"@);
                },
                None => {},
            }
            lines.append(part.as_str());
            message.append(lines.as_str());
        },
        None => {
            assert(message@ =~= start + Seq::<char>::empty());
        },
    }
}

/// The message for a buy signal: the token, the confidence in percent, the
/// target and the market data where they are known, the reason and the time
/// of the signal. Nothing where the confidence in percent is not a decimal.
pub fn format_buy_signal(
    token: &Token,
    signal: &TradingSignal,
    metrics: &Option<TokenMetrics>,
) -> (message: Option<String>)
    ensures
        text_view(message) == (match spec_confidence_percent(signal.confidence) {
            Some(percent) => Some(buy_signal_text(*token, *signal, *metrics, percent)),
            None => None,
        }),
{
    let percent = match signal.confidence.checked_mul(&Dec::from_i64(100)) {
        Some(p) => p,
        None => {
            return None;
        },
    };
    let mut message = String::from_str("🚀 BUY SIGNAL DETECTED!\n\n💎 ");
    message.append(token.name.as_str());
    message.append(" (");
    message.append(token.symbol.as_str());
    message.append(")\n🔗 ");
    message.append(token.address.as_str());
    message.append("\n⛓️ Chain: ");
    message.append(to_uppercase(token.chain.as_str()).as_str());
    message.append("\n📍 Source: ");
    message.append(to_uppercase(token.source.as_str()).as_str());
    message.append("\n\n📊 Analysis:\n🎯 Confidence: ");
    message.append(percent.to_text_fixed(1).as_str());
    message.append("%\n");
    let mut target_line = String::new();
    match signal.target_multiplier {
        Some(target) => {
            target_line.append("🚀 Target: ");
            target_line.append(target.to_text().as_str());
            target_line.append("x\n");
            assert(target_line@ =~= "🚀 Target: "@ + target.spec_text() + "x\n"@);
        },
        None => {},
    }
    message.append(target_line.as_str());
    append_market_data(&mut message, metrics);
    message.append("\n🧠 Reason:\n");
    message.append(signal.reason.as_str());
    message.append("\n");
    message.append("\n⏰ Detected: ");
    message.append(clock_text(signal.created_at).as_str());
    message.append(
        "\n\n🎮 Quick Actions:\n/details - Get full analysis\n/track - Add to watchlist",
    );
    Some(message)
}

/// The message for a signal other than a buy signal.
fn format_alert(
    headline: &str,
    caption: &str,
    token: &Token,
    signal: &TradingSignal,
) -> (message: Option<String>)
    ensures
        text_view(message) == (match spec_confidence_percent(signal.confidence) {
            Some(percent) => Some(alert_text(headline@, caption@, *token, *signal, percent)),
            None => None,
        }),
{
    let percent = match signal.confidence.checked_mul(&Dec::from_i64(100)) {
        Some(p) => p,
        None => {
            return None;
        },
    };
    let mut message = String::from_str(headline);
    message.append(token.name.as_str());
    message.append(" (");
    message.append(token.symbol.as_str());
    message.append(")\n🔗 ");
    message.append(token.address.as_str());
    message.append("\n\n");
    message.append(caption);
    message.append(signal.reason.as_str());
    message.append("\n\n📊 Confidence: ");
    message.append(percent.to_text_fixed(1).as_str());
    message.append("%\n⏰ ");
    message.append(clock_text(signal.created_at).as_str());
    Some(message)
}

/// The message for a sell signal.
pub fn format_sell_signal(
    token: &Token,
    signal: &TradingSignal,
    metrics: &Option<TokenMetrics>,
) -> (message: Option<String>)
    ensures
        text_view(message) == (match spec_confidence_percent(signal.confidence) {
            Some(percent) => Some(
                alert_text(sell_headline(), sell_caption(), *token, *signal, percent),
            ),
            None => None,
        }),
{
    format_alert("💸 SELL SIGNAL\n\n📉 ", "⚠️ Reason:\n", token, signal)
}

/// The message for a warning.
pub fn format_warning_signal(
    token: &Token,
    signal: &TradingSignal,
    metrics: &Option<TokenMetrics>,
) -> (message: Option<String>)
    ensures
        text_view(message) == (match spec_confidence_percent(signal.confidence) {
            Some(percent) => Some(
                alert_text(warning_headline(), warning_caption(), *token, *signal, percent),
            ),
            None => None,
        }),
{
    format_alert("⚠️ WARNING ALERT\n\n🚨 ", "❗ Alert:\n", token, signal)
}

/// The message for a whale movement.
pub fn format_whale_signal(
    token: &Token,
    signal: &TradingSignal,
    metrics: &Option<TokenMetrics>,
) -> (message: Option<String>)
    ensures
        text_view(message) == (match spec_confidence_percent(signal.confidence) {
            Some(percent) => Some(
                alert_text(whale_headline(), whale_caption(), *token, *signal, percent),
            ),
            None => None,
        }),
{
    format_alert("🐋 WHALE MOVEMENT DETECTED\n\n💎 ", "🔍 Movement:\n", token, signal)
}

/// The message for a signal, by its kind.
pub fn format_signal(
    token: &Token,
    signal: &TradingSignal,
    metrics: &Option<TokenMetrics>,
) -> (message: Option<String>)
    ensures
        text_view(message) == spec_signal_message(*token, *signal, *metrics),
{
    match signal.signal_type {
        SignalType::Buy => format_buy_signal(token, signal, metrics),
        SignalType::Sell => format_sell_signal(token, signal, metrics),
        SignalType::Warning => format_warning_signal(token, signal, metrics),
        SignalType::WhaleMovement => format_whale_signal(token, signal, metrics),
    }
}

/// The greeting sent when the bot starts.
pub open spec fn spec_startup_message() -> Seq<char> {
    "🚀 *Crypto Sniper Bot Started\\!*\n\n✅ All scanners active\n✅ Analysis engine ready\n✅ Database connected\n\n🔍 Monitoring:\n• DEX Screener\n• Pump\\.fun \\(coming soon\\)\n• Whale movements \\(coming soon\\)\n\nUse /help for commands"@
}

/// The greeting sent when the bot starts, already escaped for MarkdownV2.
pub fn startup_message() -> (message: &'static str)
    ensures
        message@ == spec_startup_message(),
{
    "🚀 *Crypto Sniper Bot Started\\!*\n\n✅ All scanners active\n✅ Analysis engine ready\n✅ Database connected\n\n🔍 Monitoring:\n• DEX Screener\n• Pump\\.fun \\(coming soon\\)\n• Whale movements \\(coming soon\\)\n\nUse /help for commands"
}

/// The answer to the command `/start`.
pub open spec fn spec_welcome_message() -> Seq<char> {
    "🤖 Welcome to Crypto Sniper Bot!\n\n🚀 I automatically scan for profitable crypto tokens and send you trading signals.\n\nUse /help to see all available commands.\n\n🔥 The bot is now monitoring the markets for you!"@
}

/// The answer to the command `/start`.
pub fn welcome_message() -> (message: &'static str)
    ensures
        message@ == spec_welcome_message(),
{
    "🤖 Welcome to Crypto Sniper Bot!\n\n🚀 I automatically scan for profitable crypto tokens and send you trading signals.\n\nUse /help to see all available commands.\n\n🔥 The bot is now monitoring the markets for you!"
}

/// The answer to the command `/help`.
pub open spec fn spec_help_message() -> Seq<char> {
    "🤖 Crypto Sniper Bot Commands:\n\n/start - Welcome message\n/status - Bot status and health\n/stats - Trading performance stats\n/recent - Recently discovered tokens\n/trades - Active simulated trades\n/balance - Current simulated balance\n/help - Show this help message\n\n🔥 The bot automatically scans for tokens and sends signals!"@
}

/// The answer to the command `/help`.
pub fn help_message() -> (message: &'static str)
    ensures
        message@ == spec_help_message(),
{
    "🤖 Crypto Sniper Bot Commands:\n\n/start - Welcome message\n/status - Bot status and health\n/stats - Trading performance stats\n/recent - Recently discovered tokens\n/trades - Active simulated trades\n/balance - Current simulated balance\n/help - Show this help message\n\n🔥 The bot automatically scans for tokens and sends signals!"
}

/// The entry of the token at `index` in the list of recent tokens.
pub open spec fn recent_token_entry(index: int, token: Token) -> Seq<char> {
    decimal_digits((index + 1) as nat) + ". "@ + token.name@ + " ("@ + token.symbol@
        + ")\n   🔗 "@ + token.address@ + "\n   📍 "@ + uppercase_text(token.source@) + " • ⏰ "@
        + spec_short_clock_text(token.first_seen) + "\n\n"@
}

/// The entries of all of `tokens`, numbered from 1.
pub open spec fn recent_token_entries(tokens: Seq<Token>) -> Seq<char>
    decreases tokens.len(),
{
    if tokens.len() == 0 {
        Seq::empty()
    } else {
        recent_token_entries(tokens.drop_last()) + recent_token_entry(
            tokens.len() - 1,
            tokens.last(),
        )
    }
}

/// The answer to the command `/recent`.
pub open spec fn spec_recent_tokens(tokens: Seq<Token>) -> Seq<char> {
    if tokens.len() == 0 {
        "📭 No recent tokens found"@
    } else {
        "🆕 Recent Tokens:\n\n"@ + recent_token_entries(tokens)
    }
}

/// The answer to the command `/recent`: the tokens in the order given,
/// numbered from 1.
pub fn format_recent_tokens(tokens: &Vec<Token>) -> (message: String)
    ensures
        message@ == spec_recent_tokens(tokens@),
{
    if tokens.len() == 0 {
        return String::from_str("📭 No recent tokens found");
    }
    let mut entries = String::new();
    let mut k: usize = 0;
    assert(tokens@.take(0) =~= Seq::<Token>::empty());
    while k < tokens.len()
        invariant
            k <= tokens.len(),
            entries@ == recent_token_entries(tokens@.take(k as int)),
        decreases tokens.len() - k,
    {
        proof {
            let longer = tokens@.take(k + 1);
            assert(longer.drop_last() =~= tokens@.take(k as int));
            assert(longer.last() == tokens[k as int]);
        }
        let token = &tokens[k];
        let mut entry = String::new();
        append_digits(&mut entry, k as u64 + 1);
        entry.append(". ");
        entry.append(token.name.as_str());
        entry.append(" (");
        entry.append(token.symbol.as_str());
        entry.append(")\n   🔗 ");
        entry.append(token.address.as_str());
        entry.append("\n   📍 ");
        entry.append(to_uppercase(token.source.as_str()).as_str());
        entry.append(" • ⏰ ");
        entry.append(short_clock_text(token.first_seen).as_str());
        entry.append("\n\n");
        assert(entry@ =~= recent_token_entry(k as int, tokens[k as int]));
        entries.append(entry.as_str());
        k += 1;
    }
    assert(tokens@.take(tokens.len() as int) =~= tokens@);
    let mut message = String::from_str("🆕 Recent Tokens:\n\n");
    message.append(entries.as_str());
    message
}

/// The first of `tokens` with the given address.
pub open spec fn spec_find_token(tokens: Seq<Token>, address: Seq<char>) -> Option<Token>
    decreases tokens.len(),
{
    if tokens.len() == 0 {
        None
    } else {
        match spec_find_token(tokens.drop_last(), address) {
            Some(token) => Some(token),
            None => if tokens.last().address@ == address {
                Some(tokens.last())
            } else {
                None
            },
        }
    }
}

/// The entry of the trade at `index` in the list of active trades: nothing
/// where its token is not known.
pub open spec fn active_trade_entry(index: int, trade: SimulatedTrade, tokens: Seq<Token>) -> Seq<
    char,
> {
    match spec_find_token(tokens, trade.token_address@) {
        Some(token) => decimal_digits((index + 1) as nat) + ". "@ + token.symbol@
            + "\n   💵 Entry: $"@ + trade.entry_price.spec_text() + "\n   💰 Investment: $"@
            + trade.investment_usd.spec_text() + "\n   ⏰ "@ + spec_short_clock_text(
            trade.entry_time,
        ) + "\n\n"@,
        None => Seq::empty(),
    }
}

/// The entries of all of `trades`, each under its place in the list.
pub open spec fn active_trade_entries(trades: Seq<SimulatedTrade>, tokens: Seq<Token>) -> Seq<char>
    decreases trades.len(),
{
    if trades.len() == 0 {
        Seq::empty()
    } else {
        active_trade_entries(trades.drop_last(), tokens) + active_trade_entry(
            trades.len() - 1,
            trades.last(),
            tokens,
        )
    }
}

/// The answer to the command `/trades`.
pub open spec fn spec_active_trades(trades: Seq<SimulatedTrade>, tokens: Seq<Token>) -> Seq<char> {
    if trades.len() == 0 {
        "📭 No active trades"@
    } else {
        "📈 Active Trades:\n\n"@ + active_trade_entries(trades, tokens)
    }
}

/// The index of the first of `tokens` with the given address.
pub fn find_token(tokens: &Vec<Token>, address: &String) -> (found: Option<usize>)
    ensures
        match found {
            Some(index) => index < tokens.len() && spec_find_token(tokens@, address@) == Some(
                tokens[index as int],
            ),
            None => spec_find_token(tokens@, address@) is None,
        },
{
    let mut k: usize = 0;
    assert(tokens@.take(0) =~= Seq::<Token>::empty());
    while k < tokens.len()
        invariant
            k <= tokens.len(),
            spec_find_token(tokens@.take(k as int), address@) is None,
        decreases tokens.len() - k,
    {
        proof {
            let longer = tokens@.take(k + 1);
            assert(longer.drop_last() =~= tokens@.take(k as int));
            assert(longer.last() == tokens[k as int]);
        }
        if tokens[k].address == *address {
            proof {
                lemma_find_token_extends(tokens@, address@, k + 1);
            }
            return Some(k);
        }
        k += 1;
    }
    assert(tokens@.take(tokens.len() as int) =~= tokens@);
    None
}

/// A token found within a prefix of the list is the one found in the whole
/// list.
proof fn lemma_find_token_extends(tokens: Seq<Token>, address: Seq<char>, prefix: int)
    requires
        0 <= prefix <= tokens.len(),
        spec_find_token(tokens.take(prefix), address) is Some,
    ensures
        spec_find_token(tokens, address) == spec_find_token(tokens.take(prefix), address),
    decreases tokens.len() - prefix,
{
    if prefix < tokens.len() {
        let longer = tokens.take(prefix + 1);
        assert(longer.drop_last() =~= tokens.take(prefix));
        lemma_find_token_extends(tokens, address, prefix + 1);
    } else {
        assert(tokens.take(prefix) =~= tokens);
    }
}

/// The answer to the command `/trades`: the trades in the order given, each
/// numbered by its place, without those whose token is not among `tokens`.
pub fn format_active_trades(trades: &Vec<SimulatedTrade>, tokens: &Vec<Token>) -> (message: String)
    ensures
        message@ == spec_active_trades(trades@, tokens@),
{
    if trades.len() == 0 {
        return String::from_str("📭 No active trades");
    }
    let mut entries = String::new();
    let mut k: usize = 0;
    assert(trades@.take(0) =~= Seq::<SimulatedTrade>::empty());
    while k < trades.len()
        invariant
            k <= trades.len(),
            entries@ == active_trade_entries(trades@.take(k as int), tokens@),
        decreases trades.len() - k,
    {
        proof {
            let longer = trades@.take(k + 1);
            assert(longer.drop_last() =~= trades@.take(k as int));
            assert(longer.last() == trades[k as int]);
        }
        let trade = &trades[k];
        let mut entry = String::new();
        match find_token(tokens, &trade.token_address) {
            Some(index) => {
                append_digits(&mut entry, k as u64 + 1);
                entry.append(". ");
                entry.append(tokens[index].symbol.as_str());
                entry.append("\n   💵 Entry: $");
                entry.append(trade.entry_price.to_text().as_str());
                entry.append("\n   💰 Investment: $");
                entry.append(trade.investment_usd.to_text().as_str());
                entry.append("\n   ⏰ ");
                entry.append(short_clock_text(trade.entry_time).as_str());
                entry.append("\n\n");
            },
            None => {},
        }
        assert(entry@ =~= active_trade_entry(k as int, trades[k as int], tokens@));
        entries.append(entry.as_str());
        k += 1;
    }
    assert(trades@.take(trades.len() as int) =~= trades@);
    let mut message = String::from_str("📈 Active Trades:\n\n");
    message.append(entries.as_str());
    message
}

} // verus!
