//! The credits, wallet and trading-card tools: who may use them, which
//! operation a request asks for, and the fixed parts of their answers.  The
//! accounts, keys and ledgers are kept, and amounts (fractional numbers)
//! are read and shown, outside this crate.
use vstd::prelude::*;
use crate::fmt::{decimal, decimal_chars};
use crate::models::{tool_error, ToolError};
use crate::params::or_default;
use crate::tags::{extract_tag_chars, spec_extract_tag};
use crate::text::{
    append_chars, append_str, chars_of, owned, parse_usize, spec_parse_unsigned, starts_with,
    starts_with_exec, str_eq, string_of,
};

verus! {

/// The value of `tag` in `desc`, or `d`.
pub open spec fn tag_or(desc: Seq<char>, tag: Seq<char>, d: Seq<char>) -> Seq<char> {
    or_default(spec_extract_tag(desc, tag), d)
}

/// A count given in the tag `limit:`, 10 when absent or not a `usize`.
pub open spec fn limit_of(desc: Seq<char>) -> nat {
    match spec_extract_tag(desc, "limit:"@) {
        Some(v) => match spec_parse_unsigned(v, usize::MAX as nat) {
            Some(n) => n,
            None => 10,
        },
        None => 10,
    }
}

fn tag_value(d: &[char], tag: &str) -> (r: Option<String>)
    ensures
        match spec_extract_tag(d@, tag@) {
            Some(v) => r matches Some(x) && x@ == v,
            None => r is None,
        },
{
    let g = chars_of(tag);
    match extract_tag_chars(d, g.as_slice()) {
        Some(v) => Some(string_of(v.as_slice())),
        None => None,
    }
}

fn tag_string(d: &[char], tag: &str, dflt: &str) -> (r: String)
    ensures
        r@ == tag_or(d@, tag@, dflt@),
{
    match tag_value(d, tag) {
        Some(v) => v,
        None => owned(dflt),
    }
}

fn limit_exec(d: &[char]) -> (r: usize)
    ensures
        r as nat == limit_of(d@),
{
    match tag_value(d, "limit:") {
        Some(v) => {
            let c = chars_of(v.as_str());
            match parse_usize(c.as_slice()) {
                Some(n) => n,
                None => 10,
            }
        },
        None => 10,
    }
}

fn refusal(before: &str, a: &str, after: &str, reason: &str) -> (r: ToolError)
    ensures
        r.output@ == before@ + a@ + after@,
        r.reason@ == reason@,
{
    let mut o = chars_of(before);
    append_str(&mut o, a);
    append_str(&mut o, after);
    ToolError { output: string_of(o.as_slice()), reason: owned(reason) }
}

/// The refusal of an amount that is not a positive number.
pub const CREDIT_AMOUNT_TEXT: &'static str = "Error: 'amount:' tag required with a positive number. Use 'amount:[50]'";

// ───────────────────────── credits ─────────────────────────

/// A request to the credits ledger.  Amounts are the texts given.
#[derive(Debug)]
pub enum CreditsCommand {
    Balance,
    History { limit: usize },
    /// Award credits (administrators only).
    Earn { amount: Option<String>, source: String },
    Spend { amount: Option<String>, service: String },
    Leaderboard { limit: usize },
    Stats,
    Reputation,
}

pub const EARN_DENIED_TEXT: &'static str = "⛔ Earning credits is restricted to administrators only. This prevents gaming the system.";

/// The credits request `desc` makes for a user who is or is not an
/// administrator; the action is `balance` by default.
pub open spec fn credits_command_is(r: Result<CreditsCommand, ToolError>, desc: Seq<char>, is_admin: bool) -> bool {
    let a = tag_or(desc, "action:"@, "balance"@);
    if a == "balance"@ {
        r matches Ok(CreditsCommand::Balance)
    } else if a == "history"@ {
        r matches Ok(CreditsCommand::History { limit }) && limit as nat == limit_of(desc)
    } else if a == "earn"@ {
        if !is_admin {
            r matches Err(e) && e.output@ == EARN_DENIED_TEXT@ && e.reason@ == "Not admin"@
        } else {
            r matches Ok(CreditsCommand::Earn { amount, source }) && (match amount {
                Some(x) => spec_extract_tag(desc, "amount:"@) == Some(x@),
                None => spec_extract_tag(desc, "amount:"@) is None,
            }) && source@ == tag_or(desc, "source:"@, "manual"@)
        }
    } else if a == "spend"@ {
        r matches Ok(CreditsCommand::Spend { amount, service }) && (match amount {
            Some(x) => spec_extract_tag(desc, "amount:"@) == Some(x@),
            None => spec_extract_tag(desc, "amount:"@) is None,
        }) && service@ == tag_or(desc, "service:"@, "marketplace_purchase"@)
    } else if a == "leaderboard"@ {
        r matches Ok(CreditsCommand::Leaderboard { limit }) && limit as nat == limit_of(desc)
    } else if a == "stats"@ {
        r matches Ok(CreditsCommand::Stats)
    } else if a == "reputation"@ {
        r matches Ok(CreditsCommand::Reputation)
    } else {
        r matches Err(e) && e.output@ == "Unknown credits action: '"@ + a
            + "'. Use balance, history, earn (admin), spend, leaderboard, stats, or reputation."@ && e.reason@
            == "Unknown action"@
    }
}

/// The credits request that `desc` makes.
pub fn parse_credits_command(desc: &str, is_admin: bool) -> (r: Result<CreditsCommand, ToolError>)
    ensures
        credits_command_is(r, desc@, is_admin),
{
    let dv = chars_of(desc);
    let d = dv.as_slice();
    let a = tag_string(d, "action:", "balance");
    let s = a.as_str();
    if str_eq(s, "balance") {
        Ok(CreditsCommand::Balance)
    } else if str_eq(s, "history") {
        Ok(CreditsCommand::History { limit: limit_exec(d) })
    } else if str_eq(s, "earn") {
        if !is_admin {
            return Err(tool_error(EARN_DENIED_TEXT, "Not admin"));
        }
        Ok(CreditsCommand::Earn { amount: tag_value(d, "amount:"), source: tag_string(d, "source:", "manual") })
    } else if str_eq(s, "spend") {
        Ok(
            CreditsCommand::Spend {
                amount: tag_value(d, "amount:"),
                service: tag_string(d, "service:", "marketplace_purchase"),
            },
        )
    } else if str_eq(s, "leaderboard") {
        Ok(CreditsCommand::Leaderboard { limit: limit_exec(d) })
    } else if str_eq(s, "stats") {
        Ok(CreditsCommand::Stats)
    } else if str_eq(s, "reputation") {
        Ok(CreditsCommand::Reputation)
    } else {
        Err(
            refusal(
                "Unknown credits action: '",
                s,
                "'. Use balance, history, earn (admin), spend, leaderboard, stats, or reputation.",
                "Unknown action",
            ),
        )
    }
}

/// The ledger note of credits awarded by an administrator.
pub fn earn_reason(invoker: &str, source: &str) -> (r: String)
    ensures
        r@ == "Manual adjustment by "@ + invoker@ + " ("@ + source@ + ")"@,
{
    let mut o = chars_of("Manual adjustment by ");
    append_str(&mut o, invoker);
    append_str(&mut o, " (");
    append_str(&mut o, source);
    append_str(&mut o, ")");
    string_of(o.as_slice())
}

/// The head of a transaction history, or the note that there is none.
pub fn history_head(user: &str, limit: usize, empty: bool) -> (r: String)
    ensures
        r@ == if empty {
            "📜 No credit transactions found for '"@ + user@ + "'."@
        } else {
            "📜 **Credit History** ("@ + user@ + ", limit "@ + decimal(limit as nat) + ")\n\n"@
        },
{
    if empty {
        let mut o = chars_of("📜 No credit transactions found for '");
        append_str(&mut o, user);
        append_str(&mut o, "'.");
        return string_of(o.as_slice());
    }
    let mut o = chars_of("📜 **Credit History** (");
    append_str(&mut o, user);
    append_str(&mut o, ", limit ");
    let n = decimal_chars(limit as u64);
    append_chars(&mut o, n.as_slice());
    append_str(&mut o, ")\n\n");
    string_of(o.as_slice())
}

/// The head of the leaderboard, or the note that nobody has earned yet.
pub fn leaderboard_head(limit: usize, empty: bool) -> (r: String)
    ensures
        r@ == if empty {
            "📊 No credit earners yet. Be the first to earn credits!"@
        } else {
            "🏆 **Credit Leaderboard** (Top "@ + decimal(limit as nat) + ")\n\n"@
        },
{
    if empty {
        return owned("📊 No credit earners yet. Be the first to earn credits!");
    }
    let mut o = chars_of("🏆 **Credit Leaderboard** (Top ");
    let n = decimal_chars(limit as u64);
    append_chars(&mut o, n.as_slice());
    append_str(&mut o, ")\n\n");
    string_of(o.as_slice())
}

/// The medal shown at a place of the leaderboard (counting from 0).
pub fn medal(place: usize) -> (r: &'static str)
    ensures
        r@ == if place == 0 {
            "🥇"@
        } else if place == 1 {
            "🥈"@
        } else if place == 2 {
            "🥉"@
        } else {
            "  "@
        },
{
    if place == 0 {
        "🥇"
    } else if place == 1 {
        "🥈"
    } else if place == 2 {
        "🥉"
    } else {
        "  "
    }
}

// ───────────────────────── the wallet ─────────────────────────

/// A request to the wallet (administrators only).  Amounts are the texts
/// given.
#[derive(Debug)]
pub enum WalletCommand {
    Create { wallet_id: String },
    Balance { wallet_id: String },
    Send { from: String, to: String, amount: Option<String> },
    Receive,
    History { wallet_id: String, limit: usize },
    /// Mint coins; allowed only where the creator key is present.
    Mint { to: String, amount: Option<String> },
}

pub const WALLET_DENIED_TEXT: &'static str = "⛔ Wallet operations are restricted to administrators only. You must be an admin of this HIVE instance to use wallet features.";

pub const MINT_DENIED_TEXT: &'static str = "⛔ Mint denied. The Creator Key file must be present on this machine to mint HIVE Coin. This is a physical possession requirement — no role or instruction can bypass it.";

/// The wallet request `desc` makes for `invoker`; the wallet named is the
/// `user_id:` tag, else the invoker's; the action is `balance` by default.
pub open spec fn wallet_command_is(
    r: Result<WalletCommand, ToolError>,
    desc: Seq<char>,
    invoker: Seq<char>,
    is_admin: bool,
) -> bool {
    let a = tag_or(desc, "action:"@, "balance"@);
    let wallet = tag_or(desc, "user_id:"@, invoker);
    let to = spec_extract_tag(desc, "to:"@);
    if !is_admin {
        r matches Err(e) && e.output@ == WALLET_DENIED_TEXT@ && e.reason@ == "Not admin"@
    } else if a == "create"@ {
        r matches Ok(WalletCommand::Create { wallet_id }) && wallet_id@ == wallet
    } else if a == "balance"@ {
        r matches Ok(WalletCommand::Balance { wallet_id }) && wallet_id@ == wallet
    } else if a == "send"@ || a == "mint"@ {
        match to {
            None => r matches Err(e) && e.output@ == "Error: 'to:' tag required. Use 'to:[recipient_address_or_user_id]'"@
                && e.reason@ == "Missing recipient"@,
            Some(t) => if a == "send"@ {
                r matches Ok(WalletCommand::Send { from, to: x, amount }) && from@ == wallet && x@ == t && (
                match amount {
                    Some(v) => spec_extract_tag(desc, "amount:"@) == Some(v@),
                    None => spec_extract_tag(desc, "amount:"@) is None,
                })
            } else {
                r matches Ok(WalletCommand::Mint { to: x, amount }) && x@ == t && (match amount {
                    Some(v) => spec_extract_tag(desc, "amount:"@) == Some(v@),
                    None => spec_extract_tag(desc, "amount:"@) is None,
                })
            },
        }
    } else if a == "receive"@ {
        r matches Ok(WalletCommand::Receive)
    } else if a == "history"@ {
        r matches Ok(WalletCommand::History { wallet_id, limit }) && wallet_id@ == wallet && limit as nat
            == limit_of(desc)
    } else {
        r matches Err(e) && e.output@ == "Unknown wallet action: '"@ + a
            + "'. Use create, balance, send, receive, history, or mint."@ && e.reason@ == "Unknown action"@
    }
}

/// The wallet request that `desc` makes for `invoker`.
pub fn parse_wallet_command(desc: &str, invoker: &str, is_admin: bool) -> (r: Result<WalletCommand, ToolError>)
    ensures
        wallet_command_is(r, desc@, invoker@, is_admin),
{
    if !is_admin {
        return Err(tool_error(WALLET_DENIED_TEXT, "Not admin"));
    }
    let dv = chars_of(desc);
    let d = dv.as_slice();
    let a = tag_string(d, "action:", "balance");
    let s = a.as_str();
    let wallet = tag_string(d, "user_id:", invoker);
    if str_eq(s, "create") {
        return Ok(WalletCommand::Create { wallet_id: wallet });
    }
    if str_eq(s, "balance") {
        return Ok(WalletCommand::Balance { wallet_id: wallet });
    }
    if str_eq(s, "send") || str_eq(s, "mint") {
        let to = match tag_value(d, "to:") {
            Some(t) => t,
            None => {
                return Err(
                    tool_error("Error: 'to:' tag required. Use 'to:[recipient_address_or_user_id]'", "Missing recipient"),
                )
            },
        };
        let amount = tag_value(d, "amount:");
        if str_eq(s, "send") {
            return Ok(WalletCommand::Send { from: wallet, to, amount });
        }
        return Ok(WalletCommand::Mint { to, amount });
    }
    if str_eq(s, "receive") {
        return Ok(WalletCommand::Receive);
    }
    if str_eq(s, "history") {
        return Ok(WalletCommand::History { wallet_id: wallet, limit: limit_exec(d) });
    }
    Err(refusal("Unknown wallet action: '", s, "'. Use create, balance, send, receive, history, or mint.", "Unknown action"))
}

/// The role of a new wallet: the agent's own wallets (named `apis_...`) are
/// system wallets.
pub fn is_system_wallet(wallet_id: &str) -> (r: bool)
    ensures
        r == starts_with(wallet_id@, "apis_"@),
{
    let w = chars_of(wallet_id);
    let p = chars_of("apis_");
    starts_with_exec(w.as_slice(), p.as_slice())
}

/// How long, in seconds, the same transfer is refused after it was made.
pub const DUPLICATE_SEND_WINDOW_SECS: u64 = 30;

/// Whether a transfer repeats the last one from the same wallet too soon:
/// same recipient, same amount, less than 30 seconds ago.
pub fn duplicate_send(last_to: &str, same_amount: bool, elapsed_secs: u64, to: &str) -> (r: bool)
    ensures
        r == (last_to@ == to@ && same_amount && elapsed_secs < 30),
{
    str_eq(last_to, to) && same_amount && elapsed_secs < DUPLICATE_SEND_WINDOW_SECS
}

// ───────────────────────── trading cards ─────────────────────────

/// A request to the card gallery.
#[derive(Debug)]
pub enum CardCommand {
    Gallery,
    Collection,
    Buy,
    Gift,
    Sell,
    Stats,
}

pub const CARDS_DENIED_TEXT: &'static str = "⛔ NFT operations are restricted to administrators only.";

/// The card request `desc` makes: administrators and the agent's own users
/// (`apis_autonomy`, `apis_system`) may use the gallery; the action is
/// `gallery` by default.
pub open spec fn card_command_is(
    r: Result<CardCommand, ToolError>,
    desc: Seq<char>,
    invoker: Seq<char>,
    is_admin: bool,
) -> bool {
    let a = tag_or(desc, "action:"@, "gallery"@);
    if !is_admin && !(invoker == "apis_autonomy"@ || invoker == "apis_system"@) {
        r matches Err(e) && e.output@ == CARDS_DENIED_TEXT@ && e.reason@ == "Not admin"@
    } else if a == "gallery"@ {
        r matches Ok(CardCommand::Gallery)
    } else if a == "collection"@ {
        r matches Ok(CardCommand::Collection)
    } else if a == "buy"@ {
        r matches Ok(CardCommand::Buy)
    } else if a == "gift"@ {
        r matches Ok(CardCommand::Gift)
    } else if a == "sell"@ {
        r matches Ok(CardCommand::Sell)
    } else if a == "stats"@ {
        r matches Ok(CardCommand::Stats)
    } else {
        r matches Err(e) && e.output@ == "Unknown NFT action: '"@ + a
            + "'. Use gallery, collection, buy, gift, sell, or stats."@ && e.reason@ == "Unknown action"@
    }
}

/// The card request that `desc` makes for `invoker`.
pub fn parse_card_command(desc: &str, invoker: &str, is_admin: bool) -> (r: Result<CardCommand, ToolError>)
    ensures
        card_command_is(r, desc@, invoker@, is_admin),
{
    if !is_admin && !(str_eq(invoker, "apis_autonomy") || str_eq(invoker, "apis_system")) {
        return Err(tool_error(CARDS_DENIED_TEXT, "Not admin"));
    }
    let dv = chars_of(desc);
    let a = tag_string(dv.as_slice(), "action:", "gallery");
    let s = a.as_str();
    if str_eq(s, "gallery") {
        Ok(CardCommand::Gallery)
    } else if str_eq(s, "collection") {
        Ok(CardCommand::Collection)
    } else if str_eq(s, "buy") {
        Ok(CardCommand::Buy)
    } else if str_eq(s, "gift") {
        Ok(CardCommand::Gift)
    } else if str_eq(s, "sell") {
        Ok(CardCommand::Sell)
    } else if str_eq(s, "stats") {
        Ok(CardCommand::Stats)
    } else {
        Err(refusal("Unknown NFT action: '", s, "'. Use gallery, collection, buy, gift, sell, or stats.", "Unknown action"))
    }
}

/// The mark shown for a card's rarity.
pub fn rarity_mark(rarity: &str) -> (r: &'static str)
    ensures
        r@ == if rarity@ == "Common"@ {
            "⚪"@
        } else if rarity@ == "Uncommon"@ {
            "🔵"@
        } else if rarity@ == "Rare"@ {
            "💎"@
        } else if rarity@ == "Legendary"@ {
            "⭐"@
        } else {
            "❓"@
        },
{
    if str_eq(rarity, "Common") {
        "⚪"
    } else if str_eq(rarity, "Uncommon") {
        "🔵"
    } else if str_eq(rarity, "Rare") {
        "💎"
    } else if str_eq(rarity, "Legendary") {
        "⭐"
    } else {
        "❓"
    }
}

/// How many cards the gallery lists at most.
pub const GALLERY_PAGE: usize = 20;

/// The note under a gallery listing that shows only the first 20 of
/// `for_sale` cards; empty when all are shown.
pub fn gallery_more_note(for_sale: usize) -> (r: String)
    ensures
        r@ == if for_sale > 20 {
            "\n_...and "@ + decimal((for_sale - 20) as nat) + " more_\n"@
        } else {
            Seq::empty()
        },
{
    if for_sale > GALLERY_PAGE {
        let mut o = chars_of("\n_...and ");
        let n = decimal_chars((for_sale - GALLERY_PAGE) as u64);
        append_chars(&mut o, n.as_slice());
        append_str(&mut o, " more_\n");
        string_of(o.as_slice())
    } else {
        String::new()
    }
}

} // verus!
