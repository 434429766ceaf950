//! The texts that are sent to Slack.
use crate::text::{
    at_most, at_most_text, decimal, decimal_text, join, joined, law_joining_lists,
    law_padded_numerals_read_back, lemma_number_split, lemma_pow10_monotone, number_of, padded,
    padded_text, pow10, pow10_exec, views,
};
use vstd::prelude::*;

verus! {

/// Information about a chain's collator slot status.
#[derive(Debug)]
pub struct ChainSlotInfo {
    pub chain_name: String,
    pub is_invulnerable: bool,
    pub is_candidate: bool,
    pub position: Option<usize>,
    pub max_candidates: Option<u32>,
    pub total_candidates: usize,
    pub your_bond: Option<u128>,
    pub lowest_bond: Option<u128>,
    pub distance_from_last: Option<u128>,
    /// Nanoseconds since the last block
    pub last_block_time: Option<u64>,
    pub token_symbol: String,
    pub decimals: u32,
}

/// A balance in whole tokens with up to four digits behind the point, and the
/// token's symbol.
pub open spec fn balance_text(amount: u128, decimals: u32, symbol: Seq<char>) -> Seq<char> {
    let one = pow10(decimals as nat);
    decimal(amount as nat / one) + "."@ + at_most(padded(amount as nat % one, decimals as nat), 4)
        + " "@ + symbol
}

/// Format a balance with proper decimals.
pub fn format_balance(amount: u128, decimals: u32, symbol: &str) -> (r: String)
    requires
        decimals <= 38,
    ensures
        r@ == balance_text(amount, decimals, symbol@),
{
    let divisor: u128 = pow10_exec(decimals);
    let whole: u128 = amount / divisor;
    let fraction: u128 = amount % divisor;
    let digits = padded_text(fraction, decimals as usize);
    let mut r = decimal_text(whole);
    r.append(".");
    r.append(at_most_text(digits.as_str(), 4));
    r.append(" ");
    r.append(symbol);
    r
}

/// A duration of so many seconds: seconds alone, minutes and seconds, or hours
/// and minutes.
pub open spec fn seconds_text(secs: nat) -> Seq<char> {
    if secs < 60 {
        decimal(secs) + "s"@
    } else if secs < 3600 {
        decimal(secs / 60) + "m "@ + decimal(secs % 60) + "s"@
    } else {
        decimal(secs / 3600) + "h "@ + decimal((secs % 3600) / 60) + "m"@
    }
}

/// A duration of so many nanoseconds.
pub open spec fn duration_text(nanos: u64) -> Seq<char> {
    seconds_text(nanos as nat / 1_000_000_000)
}

/// Format duration for display.
pub fn format_duration(nanos: u64) -> (r: String)
    ensures
        r@ == duration_text(nanos),
{
    let secs: u64 = nanos / 1_000_000_000;
    if secs < 60 {
        let mut r = decimal_text(secs as u128);
        r.append("s");
        r
    } else if secs < 3600 {
        let mut r = decimal_text((secs / 60) as u128);
        r.append("m ");
        r.append(decimal_text((secs % 60) as u128).as_str());
        r.append("s");
        r
    } else {
        let mut r = decimal_text((secs / 3600) as u128);
        r.append("h ");
        r.append(decimal_text(((secs % 3600) / 60) as u128).as_str());
        r.append("m");
        r
    }
}

/// How a user is mentioned.
pub open spec fn mention(id: Seq<char>) -> Seq<char> {
    "<@"@ + id + ">"@
}

/// The users to mention at the end of a message; nothing where there are none.
pub open spec fn mentions_text(ids: Seq<Seq<char>>) -> Seq<char> {
    if ids.len() == 0 {
        Seq::empty()
    } else {
        "\n\ncc: "@ + joined(ids.map_values(|id: Seq<char>| mention(id)), " "@)
    }
}

/// The users to mention at the end of a message.
pub fn format_mentions(ids: &Vec<String>) -> (r: String)
    ensures
        r@ == mentions_text(views(ids@)),
{
    if ids.len() == 0 {
        let r = String::new();
        assert(r@ =~= Seq::<char>::empty());
        return r;
    }
    let mut mentions: Vec<String> = Vec::new();
    let mut i: usize = 0;
    while i < ids.len()
        invariant
            i <= ids@.len(),
            mentions@.len() == i,
            forall|j: int| 0 <= j < i ==> (#[trigger] mentions@[j])@ == mention(ids@[j]@),
        decreases ids@.len() - i,
    {
        let mut m = "<@".to_string();
        m.append(ids[i].as_str());
        m.append(">");
        mentions.push(m);
        i = i + 1;
    }
    assert(views(mentions@) =~= views(ids@).map_values(|id: Seq<char>| mention(id)));
    let mut r = "\n\ncc: ".to_string();
    r.append(join(&mentions, " ").as_str());
    r
}

/// The first report of a lost connection.
pub open spec fn disconnected_text(chain_name: Seq<char>, error: Seq<char>) -> Seq<char> {
    "⚠️ *"@ + chain_name + "* disconnected\nError: `"@ + error + "`\nReconnecting..."@
}

/// The report of a connection that is lost for some time.
pub open spec fn still_disconnected_text(
    chain_name: Seq<char>,
    nanos: u64,
    error: Seq<char>,
) -> Seq<char> {
    "⚠️ *"@ + chain_name + "* disconnected for *"@ + duration_text(nanos) + "*\nError: `"@ + error
        + "`\nReconnecting..."@
}

/// The report of a connection that is back.
pub open spec fn reconnected_text(chain_name: Seq<char>, nanos: u64) -> Seq<char> {
    "✅ *"@ + chain_name + "* reconnected after *"@ + duration_text(nanos) + "*"@
}

/// The report of a collator that authors no blocks.
pub open spec fn no_blocks_text(chain_name: Seq<char>, nanos: u64, ops: Seq<Seq<char>>) -> Seq<
    char,
> {
    "⏰ *"@ + chain_name + "* - No blocks authored in *"@ + duration_text(nanos)
        + "*\nPlease check collator status."@ + mentions_text(ops)
}

/// The report of a collator that authors blocks again.
pub open spec fn restored_text(chain_name: Seq<char>, nanos: u64) -> Seq<char> {
    "✅ *"@ + chain_name + "* - Block production restored after *"@ + duration_text(nanos) + "*"@
}

/// Words the first report of a lost connection.
pub fn disconnected_message(chain_name: &str, error: &str) -> (r: String)
    ensures
        r@ == disconnected_text(chain_name@, error@),
{
    let mut r = "⚠️ *".to_string();
    r.append(chain_name);
    r.append("* disconnected\nError: `");
    r.append(error);
    r.append("`\nReconnecting...");
    r
}

/// Words the report of a connection that is lost for some time.
pub fn still_disconnected_message(chain_name: &str, nanos: u64, error: &str) -> (r: String)
    ensures
        r@ == still_disconnected_text(chain_name@, nanos, error@),
{
    let mut r = "⚠️ *".to_string();
    r.append(chain_name);
    r.append("* disconnected for *");
    r.append(format_duration(nanos).as_str());
    r.append("*\nError: `");
    r.append(error);
    r.append("`\nReconnecting...");
    r
}

/// Words the report of a connection that is back.
pub fn reconnected_message(chain_name: &str, nanos: u64) -> (r: String)
    ensures
        r@ == reconnected_text(chain_name@, nanos),
{
    let mut r = "✅ *".to_string();
    r.append(chain_name);
    r.append("* reconnected after *");
    r.append(format_duration(nanos).as_str());
    r.append("*");
    r
}

/// Words the report of a collator that authors no blocks.
pub fn no_blocks_message(chain_name: &str, nanos: u64, ops: &Vec<String>) -> (r: String)
    ensures
        r@ == no_blocks_text(chain_name@, nanos, views(ops@)),
{
    let mut r = "⏰ *".to_string();
    r.append(chain_name);
    r.append("* - No blocks authored in *");
    r.append(format_duration(nanos).as_str());
    r.append("*\nPlease check collator status.");
    r.append(format_mentions(ops).as_str());
    r
}

/// Words the report of a collator that authors blocks again.
pub fn restored_message(chain_name: &str, nanos: u64) -> (r: String)
    ensures
        r@ == restored_text(chain_name@, nanos),
{
    let mut r = "✅ *".to_string();
    r.append(chain_name);
    r.append("* - Block production restored after *");
    r.append(format_duration(nanos).as_str());
    r.append("*");
    r
}

/// What is said where the funds are below the minimum bond.
pub open spec fn insufficient_funds_text(
    chain_name: Seq<char>,
    collator: Seq<char>,
    available: u128,
    required: u128,
    symbol: Seq<char>,
    decimals: u32,
    onchain: Seq<Seq<char>>,
) -> Seq<char> {
    "⚠️ *Insufficient funds* on *"@ + chain_name + "*\n\nCollator: `"@ + collator
        + "`\nAvailable: "@ + balance_text(available, decimals, symbol) + "\nRequired: "@
        + balance_text(required, decimals, symbol)
        + "\n\nPlease add funds to continue as a candidate."@ + mentions_text(onchain)
        + "\n\n_This alert is rate-limited to once every 4 hours._"@
}

/// Words what is said where the funds are below the minimum bond.
pub fn insufficient_funds_message(
    chain_name: &str,
    collator: &str,
    available: u128,
    required: u128,
    symbol: &str,
    decimals: u32,
    onchain: &Vec<String>,
) -> (r: String)
    requires
        decimals <= 38,
    ensures
        r@ == insufficient_funds_text(
            chain_name@,
            collator@,
            available,
            required,
            symbol@,
            decimals,
            views(onchain@),
        ),
{
    let mut r = "⚠️ *Insufficient funds* on *".to_string();
    r.append(chain_name);
    r.append("*\n\nCollator: `");
    r.append(collator);
    r.append("`\nAvailable: ");
    r.append(format_balance(available, decimals, symbol).as_str());
    r.append("\nRequired: ");
    r.append(format_balance(required, decimals, symbol).as_str());
    r.append("\n\nPlease add funds to continue as a candidate.");
    r.append(format_mentions(onchain).as_str());
    r.append("\n\n_This alert is rate-limited to once every 4 hours._");
    r
}

/// The call data that an operator can decode, where there are any.
pub open spec fn call_data_text(call_data: Option<Seq<char>>) -> Seq<char> {
    match call_data {
        Some(data) =>
        "\n\n*Batch Call Data* (for Polkadot.js Developer > Extrinsics > Decode):\n```"@ + data
            + "```"@,
        None => Seq::empty(),
    }
}

fn call_data_section(call_data: Option<&str>) -> (r: String)
    ensures
        r@ == call_data_text(
            match call_data {
                Some(s) => Some(s@),
                None => None,
            },
        ),
{
    match call_data {
        Some(data) => {
            let mut r =
                "\n\n*Batch Call Data* (for Polkadot.js Developer > Extrinsics > Decode):\n```".to_string();
            r.append(data);
            r.append("```");
            r
        },
        None => {
            let r = String::new();
            assert(r@ =~= Seq::<char>::empty());
            r
        },
    }
}

/// What is said where the operator has to act.
pub open spec fn manual_action_text(
    chain_name: Seq<char>,
    collator: Seq<char>,
    action: Seq<char>,
    call_data: Option<Seq<char>>,
    onchain: Seq<Seq<char>>,
) -> Seq<char> {
    "🔧 *Manual Action Required*\n\n*Chain:* "@ + chain_name + "\n*Collator:* `"@ + collator
        + "`\n\nAutomatic action not possible on this chain.\n*Action needed:* "@ + action
        + call_data_text(call_data)
        + "\n\nPlease perform this action manually via Polkadot.js or similar."@ + mentions_text(
        onchain,
    ) + "\n\n_This alert is rate-limited to once every 4 hours._"@
}

/// Words what is said where the operator has to act.
pub fn manual_action_message(
    chain_name: &str,
    collator: &str,
    action: &str,
    call_data: Option<&str>,
    onchain: &Vec<String>,
) -> (r: String)
    ensures
        r@ == manual_action_text(
            chain_name@,
            collator@,
            action@,
            match call_data {
                Some(s) => Some(s@),
                None => None,
            },
            views(onchain@),
        ),
{
    let mut r = "🔧 *Manual Action Required*\n\n*Chain:* ".to_string();
    r.append(chain_name);
    r.append("\n*Collator:* `");
    r.append(collator);
    r.append("`\n\nAutomatic action not possible on this chain.\n*Action needed:* ");
    r.append(action);
    r.append(call_data_section(call_data).as_str());
    r.append("\n\nPlease perform this action manually via Polkadot.js or similar.");
    r.append(format_mentions(onchain).as_str());
    r.append("\n\n_This alert is rate-limited to once every 4 hours._");
    r
}

/// What is said where the bond would not beat the lowest candidate's.
pub open spec fn cannot_compete_text(
    chain_name: Seq<char>,
    collator: Seq<char>,
    available: u128,
    lowest: u128,
    needed: u128,
    symbol: Seq<char>,
    decimals: u32,
    onchain: Seq<Seq<char>>,
) -> Seq<char> {
    "⚠️ *Cannot Compete* on *"@ + chain_name + "*\n\nCollator: `"@ + collator + "`\nAvailable: "@
        + balance_text(available, decimals, symbol) + "\nLowest candidate bond: "@ + balance_text(
        lowest,
        decimals,
        symbol,
    ) + "\nNeed at least: "@ + balance_text(needed, decimals, symbol)
        + " more\n\nPlease add funds to register as a candidate."@ + mentions_text(onchain)
        + "\n\n_This alert is rate-limited to once every 4 hours._"@
}

/// Words what is said where the bond would not beat the lowest candidate's.
pub fn cannot_compete_message(
    chain_name: &str,
    collator: &str,
    available: u128,
    lowest: u128,
    needed: u128,
    symbol: &str,
    decimals: u32,
    onchain: &Vec<String>,
) -> (r: String)
    requires
        decimals <= 38,
    ensures
        r@ == cannot_compete_text(
            chain_name@,
            collator@,
            available,
            lowest,
            needed,
            symbol@,
            decimals,
            views(onchain@),
        ),
{
    let mut r = "⚠️ *Cannot Compete* on *".to_string();
    r.append(chain_name);
    r.append("*\n\nCollator: `");
    r.append(collator);
    r.append("`\nAvailable: ");
    r.append(format_balance(available, decimals, symbol).as_str());
    r.append("\nLowest candidate bond: ");
    r.append(format_balance(lowest, decimals, symbol).as_str());
    r.append("\nNeed at least: ");
    r.append(format_balance(needed, decimals, symbol).as_str());
    r.append(" more\n\nPlease add funds to register as a candidate.");
    r.append(format_mentions(onchain).as_str());
    r.append("\n\n_This alert is rate-limited to once every 4 hours._");
    r
}

/// What is said of a registration.
pub open spec fn registered_text(
    chain_name: Seq<char>,
    collator: Seq<char>,
    bond: u128,
    symbol: Seq<char>,
    decimals: u32,
) -> Seq<char> {
    "✅ *Registered as candidate* on *"@ + chain_name + "*\n\nCollator: `"@ + collator
        + "`\nBond: "@ + balance_text(bond, decimals, symbol)
}

/// Words what is said of a registration.
pub fn registered_message(
    chain_name: &str,
    collator: &str,
    bond: u128,
    symbol: &str,
    decimals: u32,
) -> (r: String)
    requires
        decimals <= 38,
    ensures
        r@ == registered_text(chain_name@, collator@, bond, symbol@, decimals),
{
    let mut r = "✅ *Registered as candidate* on *".to_string();
    r.append(chain_name);
    r.append("*\n\nCollator: `");
    r.append(collator);
    r.append("`\nBond: ");
    r.append(format_balance(bond, decimals, symbol).as_str());
    r
}

/// What is said of a raised bond.
pub open spec fn bond_updated_text(
    chain_name: Seq<char>,
    collator: Seq<char>,
    old_bond: u128,
    new_bond: u128,
    symbol: Seq<char>,
    decimals: u32,
) -> Seq<char> {
    "📈 *Bond updated* on *"@ + chain_name + "*\n\nCollator: `"@ + collator + "`\nPrevious: "@
        + balance_text(old_bond, decimals, symbol) + "\nNew: "@ + balance_text(
        new_bond,
        decimals,
        symbol,
    )
}

/// Words what is said of a raised bond.
pub fn bond_updated_message(
    chain_name: &str,
    collator: &str,
    old_bond: u128,
    new_bond: u128,
    symbol: &str,
    decimals: u32,
) -> (r: String)
    requires
        decimals <= 38,
    ensures
        r@ == bond_updated_text(chain_name@, collator@, old_bond, new_bond, symbol@, decimals),
{
    let mut r = "📈 *Bond updated* on *".to_string();
    r.append(chain_name);
    r.append("*\n\nCollator: `");
    r.append(collator);
    r.append("`\nPrevious: ");
    r.append(format_balance(old_bond, decimals, symbol).as_str());
    r.append("\nNew: ");
    r.append(format_balance(new_bond, decimals, symbol).as_str());
    r
}

/// What is said of an issue that is no more.
pub open spec fn resolved_text(chain_name: Seq<char>, collator: Seq<char>, status: Seq<char>) -> Seq<
    char,
> {
    "✅ *Issue Resolved* on *"@ + chain_name + "*\n\nCollator: `"@ + collator
        + "`\nCurrent status: "@ + status
}

/// Words what is said of an issue that is no more.
pub fn resolved_message(chain_name: &str, collator: &str, status: &str) -> (r: String)
    ensures
        r@ == resolved_text(chain_name@, collator@, status@),
{
    let mut r = "✅ *Issue Resolved* on *".to_string();
    r.append(chain_name);
    r.append("*\n\nCollator: `");
    r.append(collator);
    r.append("`\nCurrent status: ");
    r.append(status);
    r
}

/// What is said of an error.
pub open spec fn error_text(chain_name: Seq<char>, error: Seq<char>) -> Seq<char> {
    "❌ *Error* on *"@ + chain_name + "*\n\n`"@ + error + "`"@
}

/// Words what is said of an error.
pub fn error_message(chain_name: &str, error: &str) -> (r: String)
    ensures
        r@ == error_text(chain_name@, error@),
{
    let mut r = "❌ *Error* on *".to_string();
    r.append(chain_name);
    r.append("*\n\n`");
    r.append(error);
    r.append("`");
    r
}

/// How far a candidate is above the lowest bond, where that is known.
pub open spec fn distance_text(slot: ChainSlotInfo) -> Seq<char> {
    match slot.distance_from_last {
        Some(dist) => " | +"@ + balance_text(dist, slot.decimals, slot.token_symbol@) + " "@
            + slot.token_symbol@ + " from last"@,
        None => Seq::empty(),
    }
}

/// Whether a candidate's rank is known.
pub open spec fn is_ranked(slot: ChainSlotInfo) -> bool {
    !slot.is_invulnerable && slot.is_candidate && slot.position is Some
        && slot.max_candidates is Some
}

/// Whether a ranked candidate is beyond the number of candidates that are active;
/// a number of zero sets no limit.
pub open spec fn outside_active_set(slot: ChainSlotInfo) -> bool {
    slot.max_candidates->0 > 0 && slot.position->0 > slot.max_candidates->0
}

/// How a chain stands.
pub open spec fn standing_text(slot: ChainSlotInfo) -> Seq<char> {
    if slot.is_invulnerable {
        "🛡️ Safe (Invulnerable)"@
    } else if slot.is_candidate {
        if is_ranked(slot) {
            let rank = "#"@ + decimal(slot.position->0 as nat) + " of "@ + decimal(
                slot.total_candidates as nat,
            ) + " (max "@ + decimal(slot.max_candidates->0 as nat) + ")"@;
            if outside_active_set(slot) {
                "⚠️ "@ + rank + distance_text(slot) + " *OUTSIDE ACTIVE SET*"@
            } else {
                "✅ "@ + rank + distance_text(slot)
            }
        } else {
            "✅ Candidate"@
        }
    } else {
        "❌ Not a collator"@
    }
}

/// When the last block was, where that is known.
pub open spec fn last_block_text(slot: ChainSlotInfo) -> Seq<char> {
    match slot.last_block_time {
        Some(d) => " | Last block: "@ + duration_text(d) + " ago"@,
        None => Seq::empty(),
    }
}

/// The line of a chain in a summary.
pub open spec fn slot_line(slot: ChainSlotInfo) -> Seq<char> {
    "• *"@ + slot.chain_name@ + "*: "@ + standing_text(slot) + last_block_text(slot)
}

/// Whether the line of a chain shows a balance.
pub open spec fn shows_balance(slot: ChainSlotInfo) -> bool {
    is_ranked(slot) && slot.distance_from_last is Some
}

/// The summary of all chains.
pub open spec fn summary_text(slots: Seq<ChainSlotInfo>) -> Seq<char> {
    joined(
        seq!["📊 *Collator Slot Status Summary*\n"@] + slots.map_values(
            |s: ChainSlotInfo| slot_line(s),
        ),
        "\n"@,
    )
}

fn distance_message(slot: &ChainSlotInfo) -> (r: String)
    requires
        slot.distance_from_last is Some ==> slot.decimals <= 38,
    ensures
        r@ == distance_text(*slot),
{
    match slot.distance_from_last {
        Some(dist) => {
            let mut r = " | +".to_string();
            r.append(format_balance(dist, slot.decimals, slot.token_symbol.as_str()).as_str());
            r.append(" ");
            r.append(slot.token_symbol.as_str());
            r.append(" from last");
            r
        },
        None => {
            let r = String::new();
            assert(r@ =~= Seq::<char>::empty());
            r
        },
    }
}

fn standing_message(slot: &ChainSlotInfo) -> (r: String)
    requires
        shows_balance(*slot) ==> slot.decimals <= 38,
    ensures
        r@ == standing_text(*slot),
{
    if slot.is_invulnerable {
        return "🛡️ Safe (Invulnerable)".to_string();
    }
    if !slot.is_candidate {
        return "❌ Not a collator".to_string();
    }
    match (slot.position, slot.max_candidates) {
        (Some(pos), Some(max)) => {
            let mut rank = "#".to_string();
            rank.append(decimal_text(pos as u128).as_str());
            rank.append(" of ");
            rank.append(decimal_text(slot.total_candidates as u128).as_str());
            rank.append(" (max ");
            rank.append(decimal_text(max as u128).as_str());
            rank.append(")");
            let distance = distance_message(slot);
            if max > 0 && pos > max as usize {
                let mut r = "⚠️ ".to_string();
                r.append(rank.as_str());
                r.append(distance.as_str());
                r.append(" *OUTSIDE ACTIVE SET*");
                r
            } else {
                let mut r = "✅ ".to_string();
                r.append(rank.as_str());
                r.append(distance.as_str());
                r
            }
        },
        _ => "✅ Candidate".to_string(),
    }
}

fn slot_message(slot: &ChainSlotInfo) -> (r: String)
    requires
        shows_balance(*slot) ==> slot.decimals <= 38,
    ensures
        r@ == slot_line(*slot),
{
    let mut r = "• *".to_string();
    r.append(slot.chain_name.as_str());
    r.append("*: ");
    r.append(standing_message(slot).as_str());
    match slot.last_block_time {
        Some(d) => {
            let mut last = " | Last block: ".to_string();
            last.append(format_duration(d).as_str());
            last.append(" ago");
            r.append(last.as_str());
        },
        None => {
            assert(r@ =~= r@ + Seq::<char>::empty());
        },
    }
    r
}

/// The summary of all chains.
pub fn summary_message(slots: &Vec<ChainSlotInfo>) -> (r: String)
    requires
        forall|i: int|
            0 <= i < slots@.len() && shows_balance(#[trigger] slots@[i]) ==> slots@[i].decimals
                <= 38,
    ensures
        r@ == summary_text(slots@),
{
    let mut lines: Vec<String> = Vec::new();
    lines.push("📊 *Collator Slot Status Summary*\n".to_string());
    let mut i: usize = 0;
    while i < slots.len()
        invariant
            i <= slots@.len(),
            lines@.len() == i + 1,
            lines@[0]@ == "📊 *Collator Slot Status Summary*\n"@,
            forall|j: int| 0 <= j < i ==> (#[trigger] lines@[j + 1])@ == slot_line(slots@[j]),
            forall|j: int|
                0 <= j < slots@.len() && shows_balance(#[trigger] slots@[j]) ==> slots@[j].decimals
                    <= 38,
        decreases slots@.len() - i,
    {
        let line = slot_message(&slots[i]);
        let ghost before = lines@;
        lines.push(line);
        proof {
            assert forall|j: int| 0 <= j < i + 1 implies (#[trigger] lines@[j + 1])@ == slot_line(
                slots@[j],
            ) by {
                if j < i {
                    assert(lines@[j + 1] == before[j + 1]);
                }
            }
        }
        i = i + 1;
    }
    proof {
        let head = seq!["📊 *Collator Slot Status Summary*\n"@];
        let rest = slots@.map_values(|s: ChainSlotInfo| slot_line(s));
        assert forall|k: int| 0 <= k < lines@.len() implies #[trigger] views(lines@)[k] == (head
            + rest)[k] by {
            if k > 0 {
                assert(lines@[(k - 1) + 1]@ == slot_line(slots@[k - 1]));
            }
        }
        assert(views(lines@) =~= head + rest);
    }
    join(&lines, "\n")
}

/// A balance is its whole tokens and the first four digits behind the point, fewer
/// where the token has fewer: what is shown is at most the balance, and less than a
/// step of the last digit below it. A token without digits shows one zero.
#[verifier::rlimit(50)]
pub proof fn law_balances_are_cut_to_four_digits(amount: u128, decimals: u32, symbol: Seq<char>)
    ensures
        exists|whole: nat, part: Seq<char>|
            balance_text(amount, decimals, symbol) == #[trigger] (decimal(whole) + "."@ + part + " "@
                + symbol) && (if decimals >= 4 {
                let shown = whole * pow10(decimals as nat) + number_of(part) * pow10(
                    (decimals - 4) as nat,
                );
                part.len() == 4 && shown <= amount < shown + pow10((decimals - 4) as nat)
            } else if decimals > 0 {
                part.len() == decimals && amount == whole * pow10(decimals as nat) + number_of(part)
            } else {
                part == "0"@ && whole == amount
            }),
{
    let one = pow10(decimals as nat);
    lemma_pow10_monotone(0, decimals as nat);
    let whole = amount as nat / one;
    let rest = amount as nat % one;
    let digits = padded(rest, decimals as nat);
    let part = at_most(digits, 4);
    vstd::arithmetic::div_mod::lemma_fundamental_div_mod(amount as int, one as int);
    vstd::arithmetic::div_mod::lemma_mod_bound(amount as int, one as int);
    assert(one * whole == whole * one) by (nonlinear_arith);
    law_padded_numerals_read_back(rest, decimals as nat);
    assert(balance_text(amount, decimals, symbol) == decimal(whole) + "."@ + part + " "@ + symbol);
    if decimals >= 4 {
        lemma_number_split(digits, 4);
        assert(digits.take(4) =~= part);
    } else if decimals == 0 {
        reveal_strlit("0");
        assert(one == 1);
        assert(amount as nat / 1 == amount);
        assert(rest == 0);
        assert(decimal(0) =~= "0"@);
        assert(part =~= "0"@);
    } else {
        assert(part =~= digits);
    }
}

/// A duration is told in whole seconds below a minute, in minutes and seconds below
/// an hour, and else in hours and minutes; what is told is at most the duration, and
/// less than a second or a minute below it.
pub proof fn law_durations_are_told_in_two_units(nanos: u64)
    ensures
        nanos < 60_000_000_000 ==> exists|s: nat|
            duration_text(nanos) == #[trigger] decimal(s) + "s"@ && s * 1_000_000_000 <= nanos < (s
                + 1) * 1_000_000_000,
        60_000_000_000 <= nanos < 3_600_000_000_000 ==> exists|m: nat, s: nat|
            s < 60 && duration_text(nanos) == #[trigger] decimal(m) + "m "@ + #[trigger] decimal(s)
                + "s"@ && (m * 60 + s) * 1_000_000_000 <= nanos < (m * 60 + s + 1) * 1_000_000_000,
        nanos >= 3_600_000_000_000 ==> exists|h: nat, m: nat|
            m < 60 && duration_text(nanos) == #[trigger] decimal(h) + "h "@ + #[trigger] decimal(m)
                + "m"@ && (h * 60 + m) * 60_000_000_000 <= nanos < (h * 60 + m + 1) * 60_000_000_000,
{
    let secs = nanos as nat / 1_000_000_000;
    if secs < 60 {
        assert(duration_text(nanos) == decimal(secs) + "s"@);
    } else if secs < 3600 {
        assert(duration_text(nanos) == decimal(secs / 60) + "m "@ + decimal(secs % 60) + "s"@);
    } else {
        assert(duration_text(nanos) == decimal(secs / 3600) + "h "@ + decimal((secs % 3600) / 60)
            + "m"@);
    }
}

/// Nobody to mention is no text; one user is named in angle brackets behind `cc:`;
/// and further users follow behind a space each.
pub proof fn law_every_user_is_mentioned(id: Seq<char>, ids: Seq<Seq<char>>)
    ensures
        mentions_text(Seq::empty()).len() == 0,
        mentions_text(seq![id]) == "\n\ncc: <@"@ + id + ">"@,
        ids.len() > 0 ==> mentions_text(ids.push(id)) == mentions_text(ids) + " <@"@ + id + ">"@,
{
    reveal_strlit("\n\ncc: <@");
    reveal_strlit("\n\ncc: ");
    reveal_strlit("<@");
    reveal_strlit(" <@");
    reveal_strlit(" ");
    reveal_strlit(">");
    let tag = |x: Seq<char>| mention(x);
    assert(seq![id].map_values(tag) =~= seq![mention(id)]);
    law_joining_lists(Seq::empty(), Seq::empty(), " "@, mention(id));
    assert(mentions_text(seq![id]) =~= "\n\ncc: <@"@ + id + ">"@);
    if ids.len() > 0 {
        let before = ids.map_values(tag);
        assert(ids.push(id).map_values(tag) =~= before + seq![mention(id)]);
        law_joining_lists(before, seq![mention(id)], " "@, mention(id));
        assert(mentions_text(ids.push(id)) =~= mentions_text(ids) + " <@"@ + id + ">"@);
    }
}

/// Whatever its distance from the lowest bond, a ranked candidate is warned that it
/// is outside of the active set, at the start and at the end of how it stands,
/// exactly where the maximum is above zero and its position is beyond it.
#[verifier::rlimit(50)]
pub proof fn law_outsiders_are_warned(slot: ChainSlotInfo)
    requires
        !slot.is_invulnerable,
        slot.is_candidate,
        slot.position is Some,
        slot.max_candidates is Some,
    ensures
        ({
            let line = standing_text(slot);
            let outside = slot.max_candidates->0 > 0 && slot.position->0 > slot.max_candidates->0;
            &&& outside <==> "⚠️ "@.is_prefix_of(line)
            &&& outside <==> " *OUTSIDE ACTIVE SET*"@.is_suffix_of(line)
            &&& !outside <==> "✅ "@.is_prefix_of(line)
        }),
{
    reveal_strlit("⚠️ ");
    reveal_strlit("✅ ");
    reveal_strlit(" *OUTSIDE ACTIVE SET*");
    reveal_strlit(")");
    reveal_strlit(" from last");
    let line = standing_text(slot);
    let n = line.len() as int;
    if slot.max_candidates->0 > 0 && slot.position->0 > slot.max_candidates->0 {
        assert(line.take(3) =~= "⚠️ "@);
        assert(line[0] == '⚠');
        assert(line.subrange(n - 21, n) =~= " *OUTSIDE ACTIVE SET*"@);
    } else {
        assert(line.take(2) =~= "✅ "@);
        assert(line[0] == '✅');
        assert(line.last() == ')' || line.last() == 't');
        assert(line.last() != '*');
        if " *OUTSIDE ACTIVE SET*"@.is_suffix_of(line) {
            assert(line.subrange(n - 21, n)[20] == '*');
        }
    }
}

/// Apart from the warning, a ranked candidate is told its position, the number of
/// candidates and the maximum, and how far it is above the lowest bond where that
/// is known: the same words, whether or not it is outside of the active set.
pub proof fn law_ranks_are_told_in_the_same_words(slot: ChainSlotInfo)
    requires
        !slot.is_invulnerable,
        slot.is_candidate,
        slot.position is Some,
        slot.max_candidates is Some,
    ensures
        ({
            let line = standing_text(slot);
            let rank = "#"@ + decimal(slot.position->0 as nat) + " of "@ + decimal(
                slot.total_candidates as nat,
            ) + " (max "@ + decimal(slot.max_candidates->0 as nat) + ")"@;
            let told = match slot.distance_from_last {
                None => rank,
                Some(distance) => rank + " | +"@ + balance_text(
                    distance,
                    slot.decimals,
                    slot.token_symbol@,
                ) + " "@ + slot.token_symbol@ + " from last"@,
            };
            line == "✅ "@ + told || line == "⚠️ "@ + told + " *OUTSIDE ACTIVE SET*"@
        }),
{
    let rank = "#"@ + decimal(slot.position->0 as nat) + " of "@ + decimal(
        slot.total_candidates as nat,
    ) + " (max "@ + decimal(slot.max_candidates->0 as nat) + ")"@;
    if slot.distance_from_last is Some {
        let distance = slot.distance_from_last->0;
        let above = balance_text(distance, slot.decimals, slot.token_symbol@);
        assert(rank + distance_text(slot) =~= rank + " | +"@ + above + " "@ + slot.token_symbol@
            + " from last"@);
        assert("✅ "@ + rank + distance_text(slot) =~= "✅ "@ + (rank + distance_text(slot)));
        assert("⚠️ "@ + rank + distance_text(slot) =~= "⚠️ "@ + (rank + distance_text(slot)));
    } else {
        assert("✅ "@ + rank + distance_text(slot) =~= "✅ "@ + rank);
        assert("⚠️ "@ + rank + distance_text(slot) =~= "⚠️ "@ + rank);
    }
}

/// Whatever else is known: an invulnerable collator is safe, an account that is
/// neither invulnerable nor a candidate is no collator, and a candidate is just
/// that where its position or the maximum is not known.
pub proof fn law_standing_without_a_rank(slot: ChainSlotInfo)
    ensures
        slot.is_invulnerable ==> standing_text(slot) == "🛡️ Safe (Invulnerable)"@,
        !slot.is_invulnerable && !slot.is_candidate ==> standing_text(slot) == "❌ Not a collator"@,
        !slot.is_invulnerable && slot.is_candidate && (slot.position is None
            || slot.max_candidates is None) ==> standing_text(slot) == "✅ Candidate"@,
{
}

/// The line of a chain names it and tells how it stands; where the last block is
/// known, the same line is followed by when it was.
pub proof fn law_lines_tell_the_last_block(slot: ChainSlotInfo)
    ensures
        ({
            let line = "• *"@ + slot.chain_name@ + "*: "@ + standing_text(slot);
            match slot.last_block_time {
                None => slot_line(slot) == line,
                Some(nanos) => slot_line(slot) == line + " | Last block: "@ + duration_text(nanos)
                    + " ago"@,
            }
        }),
{
    let line = "• *"@ + slot.chain_name@ + "*: "@ + standing_text(slot);
    match slot.last_block_time {
        None => {
            assert(slot_line(slot) =~= line);
        },
        Some(nanos) => {
            assert(slot_line(slot) =~= line + " | Last block: "@ + duration_text(nanos) + " ago"@);
        },
    }
}

/// A summary is its heading, and a line behind a line break for each chain in
/// order.
pub proof fn law_summary_has_a_line_for_each_chain(slots: Seq<ChainSlotInfo>, slot: ChainSlotInfo)
    ensures
        summary_text(Seq::empty()) == "📊 *Collator Slot Status Summary*\n"@,
        summary_text(slots.push(slot)) == summary_text(slots) + "\n"@ + slot_line(slot),
{
    let head = seq!["📊 *Collator Slot Status Summary*\n"@];
    let tell = |s: ChainSlotInfo| slot_line(s);
    assert(head + Seq::<ChainSlotInfo>::empty().map_values(tell) =~= head);
    law_joining_lists(
        head + slots.map_values(tell),
        seq![slot_line(slot)],
        "\n"@,
        slot_line(slot),
    );
    assert(head + slots.push(slot).map_values(tell) =~= head + slots.map_values(tell)
        + seq![slot_line(slot)]);
}

/// The words of the first report of a lost connection are the same whatever the chain
/// and the error; both are told in full.
pub proof fn law_loss_of_connection_is_worded_alike()
    ensures
        exists|words: Seq<Seq<char>>|
            #[trigger] words.len() == 3 && forall|chain: Seq<char>, error: Seq<char>|
                #[trigger] disconnected_text(chain, error) == words[0] + chain + words[1] + error
                    + words[2],
{
    let words = seq!["⚠️ *"@, "* disconnected\nError: `"@, "`\nReconnecting..."@];
    assert(words.len() == 3);
}

/// The words of the report of a lasting loss of connection are the same whatever the
/// chain, its duration and the error; all are told in full.
pub proof fn law_lasting_loss_of_connection_is_worded_alike()
    ensures
        exists|words: Seq<Seq<char>>|
            #[trigger] words.len() == 4 && forall|chain: Seq<char>, nanos: u64, error: Seq<char>|
                #[trigger] still_disconnected_text(chain, nanos, error) == words[0] + chain
                    + words[1] + duration_text(nanos) + words[2] + error + words[3],
{
    let words = seq!["⚠️ *"@, "* disconnected for *"@, "*\nError: `"@, "`\nReconnecting..."@];
    assert(words.len() == 4);
}

/// The words of the report of a connection that is back are the same whatever the
/// chain and the duration of the loss.
pub proof fn law_reconnection_is_worded_alike()
    ensures
        exists|words: Seq<Seq<char>>|
            #[trigger] words.len() == 3 && forall|chain: Seq<char>, nanos: u64|
                #[trigger] reconnected_text(chain, nanos) == words[0] + chain + words[1]
                    + duration_text(nanos) + words[2],
{
    let words = seq!["✅ *"@, "* reconnected after *"@, "*"@];
    assert(words.len() == 3);
}

/// The words of the report of a lack of blocks are the same whatever the chain, its
/// duration and the users to mention, who end it.
pub proof fn law_lack_of_blocks_is_worded_alike()
    ensures
        exists|words: Seq<Seq<char>>|
            #[trigger] words.len() == 3 && forall|
                chain: Seq<char>,
                nanos: u64,
                ops: Seq<Seq<char>>,
            |
                #[trigger] no_blocks_text(chain, nanos, ops) == words[0] + chain + words[1]
                    + duration_text(nanos) + words[2] + mentions_text(ops),
{
    let words = seq!["⏰ *"@, "* - No blocks authored in *"@, "*\nPlease check collator status."@];
    assert(words.len() == 3);
}

/// The words of the report of blocks that are back are the same whatever the chain and
/// the duration of the lack.
pub proof fn law_return_of_blocks_is_worded_alike()
    ensures
        exists|words: Seq<Seq<char>>|
            #[trigger] words.len() == 3 && forall|chain: Seq<char>, nanos: u64|
                #[trigger] restored_text(chain, nanos) == words[0] + chain + words[1]
                    + duration_text(nanos) + words[2],
{
    let words = seq!["✅ *"@, "* - Block production restored after *"@, "*"@];
    assert(words.len() == 3);
}

/// The words of the report of insufficient funds are the same whatever it is about; it
/// names the chain and the collator, what is available before what is required, and
/// the users to mention.
pub proof fn law_lack_of_funds_is_worded_alike()
    ensures
        exists|words: Seq<Seq<char>>|
            #[trigger] words.len() == 6 && forall|
                chain: Seq<char>,
                collator: Seq<char>,
                available: u128,
                required: u128,
                symbol: Seq<char>,
                decimals: u32,
                onchain: Seq<Seq<char>>,
            |
                #[trigger] insufficient_funds_text(
                    chain,
                    collator,
                    available,
                    required,
                    symbol,
                    decimals,
                    onchain,
                ) == words[0] + chain + words[1] + collator + words[2]
                    + balance_text(available, decimals, symbol) + words[3]
                    + balance_text(required, decimals, symbol) + words[4]
                    + mentions_text(onchain) + words[5],
{
    let words = seq![
        "⚠️ *Insufficient funds* on *"@,
        "*\n\nCollator: `"@,
        "`\nAvailable: "@,
        "\nRequired: "@,
        "\n\nPlease add funds to continue as a candidate."@,
        "\n\n_This alert is rate-limited to once every 4 hours._"@,
    ];
    assert(words.len() == 6);
}

/// The words of the request to an operator are the same whatever it is about; it names
/// the chain, the collator, the action and, where there are any, the call data, and
/// the users to mention.
pub proof fn law_manual_action_is_worded_alike()
    ensures
        exists|words: Seq<Seq<char>>|
            #[trigger] words.len() == 5 && forall|
                chain: Seq<char>,
                collator: Seq<char>,
                action: Seq<char>,
                data: Option<Seq<char>>,
                onchain: Seq<Seq<char>>,
            |
                #[trigger] manual_action_text(chain, collator, action, data, onchain) == words[0]
                    + chain + words[1] + collator + words[2] + action + call_data_text(data)
                    + words[3] + mentions_text(onchain) + words[4],
{
    let words = seq![
        "🔧 *Manual Action Required*\n\n*Chain:* "@,
        "\n*Collator:* `"@,
        "`\n\nAutomatic action not possible on this chain.\n*Action needed:* "@,
        "\n\nPlease perform this action manually via Polkadot.js or similar."@,
        "\n\n_This alert is rate-limited to once every 4 hours._"@,
    ];
    assert(words.len() == 5);
}

/// The words of the report of a bond that is too low are the same whatever it is about;
/// it names the chain and the collator, what is available, the lowest bond and what
/// is missing, in this order, and the users to mention.
pub proof fn law_lost_competition_is_worded_alike()
    ensures
        exists|words: Seq<Seq<char>>|
            #[trigger] words.len() == 7 && forall|
                chain: Seq<char>,
                collator: Seq<char>,
                available: u128,
                lowest: u128,
                needed: u128,
                symbol: Seq<char>,
                decimals: u32,
                onchain: Seq<Seq<char>>,
            |
                #[trigger] cannot_compete_text(
                    chain,
                    collator,
                    available,
                    lowest,
                    needed,
                    symbol,
                    decimals,
                    onchain,
                ) == words[0] + chain + words[1] + collator + words[2]
                    + balance_text(available, decimals, symbol) + words[3]
                    + balance_text(lowest, decimals, symbol) + words[4]
                    + balance_text(needed, decimals, symbol) + words[5] + mentions_text(onchain)
                    + words[6],
{
    let words = seq![
        "⚠️ *Cannot Compete* on *"@,
        "*\n\nCollator: `"@,
        "`\nAvailable: "@,
        "\nLowest candidate bond: "@,
        "\nNeed at least: "@,
        " more\n\nPlease add funds to register as a candidate."@,
        "\n\n_This alert is rate-limited to once every 4 hours._"@,
    ];
    assert(words.len() == 7);
}

/// The words of the report of a registration are the same whatever it is about; it names
/// the chain, the collator and the bond.
pub proof fn law_registration_is_worded_alike()
    ensures
        exists|words: Seq<Seq<char>>|
            #[trigger] words.len() == 3 && forall|
                chain: Seq<char>,
                collator: Seq<char>,
                bond: u128,
                symbol: Seq<char>,
                decimals: u32,
            |
                #[trigger] registered_text(chain, collator, bond, symbol, decimals) == words[0]
                    + chain + words[1] + collator + words[2]
                    + balance_text(bond, decimals, symbol),
{
    let words = seq!["✅ *Registered as candidate* on *"@, "*\n\nCollator: `"@, "`\nBond: "@];
    assert(words.len() == 3);
}

/// The words of the report of a raised bond are the same whatever it is about; it names
/// the chain, the collator, and the old bond before the new one.
pub proof fn law_raised_bond_is_worded_alike()
    ensures
        exists|words: Seq<Seq<char>>|
            #[trigger] words.len() == 4 && forall|
                chain: Seq<char>,
                collator: Seq<char>,
                before: u128,
                after: u128,
                symbol: Seq<char>,
                decimals: u32,
            |
                #[trigger] bond_updated_text(
                    chain,
                    collator,
                    before,
                    after,
                    symbol,
                    decimals,
                ) == words[0] + chain + words[1] + collator + words[2]
                    + balance_text(before, decimals, symbol) + words[3]
                    + balance_text(after, decimals, symbol),
{
    let words = seq!["📈 *Bond updated* on *"@, "*\n\nCollator: `"@, "`\nPrevious: "@, "\nNew: "@];
    assert(words.len() == 4);
}

/// The words of the report of a resolved issue are the same whatever it is about; it
/// names the chain, the collator and the status.
pub proof fn law_resolution_is_worded_alike()
    ensures
        exists|words: Seq<Seq<char>>|
            #[trigger] words.len() == 3 && forall|
                chain: Seq<char>,
                collator: Seq<char>,
                status: Seq<char>,
            |
                #[trigger] resolved_text(chain, collator, status) == words[0] + chain + words[1]
                    + collator + words[2] + status,
{
    let words = seq!["✅ *Issue Resolved* on *"@, "*\n\nCollator: `"@, "`\nCurrent status: "@];
    assert(words.len() == 3);
}

/// The words of the report of an error are the same whatever the chain and the error;
/// both are told in full.
pub proof fn law_error_is_worded_alike()
    ensures
        exists|words: Seq<Seq<char>>|
            #[trigger] words.len() == 3 && forall|chain: Seq<char>, error: Seq<char>|
                #[trigger] error_text(chain, error) == words[0] + chain + words[1] + error
                    + words[2],
{
    let words = seq!["❌ *Error* on *"@, "*\n\n`"@, "`"@];
    assert(words.len() == 3);
}

/// The words around call data are the same whatever they are; where there are none,
/// nothing is said.
pub proof fn law_call_data_is_worded_alike()
    ensures
        exists|words: Seq<Seq<char>>|
            #[trigger] words.len() == 2 && forall|data: Seq<char>|
                #[trigger] call_data_text(Some(data)) == words[0] + data + words[1],
        call_data_text(None).len() == 0,
{
    let words = seq![
        "\n\n*Batch Call Data* (for Polkadot.js Developer > Extrinsics > Decode):\n```"@,
        "```"@,
    ];
    assert(words.len() == 2);
}

} // verus!
