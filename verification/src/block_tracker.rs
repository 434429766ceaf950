//! What is known of each chain's blocks: when the collator last authored one,
//! whether the chain is connected, and what the collator's status was.
use crate::account::{account_to_raw32, address_meaning, AccountId32};
use crate::blocks::{author_index, scheduled_key};
use crate::calls::{bytes_value, is_bytes, StorageQuery};
use crate::chain_client::{parsed_address, ChainClient, CollatorStatus};
use crate::config::{runs_on, Network, SystemChain};
use crate::error::CollatorError;
use crate::lookup::{contains_account, deposit_of, find_candidate_deposit, holds_account};
use crate::text::{
    decimal, decimal_text, law_padded_numerals_read_back, number_of, padded, padded_text, pow10,
    pow10_exec,
};
use crate::value::{unnamed_items, Composite, Value, ValueDef};
use vstd::hash_map::StringHashMap;
use vstd::prelude::*;

verus! {

/// How long a collator may go without a block before it is reported: 30 minutes,
/// in nanoseconds.
pub const BLOCK_ALERT_THRESHOLD: u64 = 1_800_000_000_000;

/// How often the time since the last block is looked at: every 30 minutes, in
/// nanoseconds.
pub const BLOCK_ALERT_CHECK_INTERVAL: u64 = 1_800_000_000_000;

/// The time from one moment to another, zero where the clock went backwards.
/// Moments are nanoseconds of a clock that does not stop.
pub open spec fn elapsed(since: u64, now: u64) -> u64 {
    if now >= since {
        (now - since) as u64
    } else {
        0
    }
}

/// The time from one moment to another.
pub fn elapsed_time(since: u64, now: u64) -> (r: u64)
    ensures
        r == elapsed(since, now),
{
    now.saturating_sub(since)
}

/// What is known of a chain's blocks.
#[derive(Debug)]
pub struct LastBlockInfo {
    /// When the collator last authored a block (None if never seen)
    pub last_authored: Option<u64>,
    /// When this tracker started (to know if "never seen" is meaningful)
    pub tracking_since: u64,
    /// Whether the tracker is currently connected
    pub is_connected: bool,
    /// Last error message if any
    pub last_error: Option<String>,
}

impl LastBlockInfo {
    /// A chain that is tracked from now on.
    pub fn new(now: u64) -> (r: LastBlockInfo)
        ensures
            r == unseen(now),
    {
        LastBlockInfo {
            last_authored: None,
            tracking_since: now,
            is_connected: false,
            last_error: None,
        }
    }

    /// Get time since last authored block.
    pub open spec fn spec_time_since_last_block(self, now: u64) -> Option<u64> {
        match self.last_authored {
            Some(t) => Some(elapsed(t, now)),
            None => None,
        }
    }

    /// Get time since last authored block.
    pub fn time_since_last_block(&self, now: u64) -> (r: Option<u64>)
        ensures
            r == self.spec_time_since_last_block(now),
    {
        match self.last_authored {
            Some(t) => Some(elapsed_time(t, now)),
            None => None,
        }
    }
}

/// Collator status for monitoring.
#[derive(Debug, Clone, Copy, PartialEq, Eq, Structural)]
pub enum TrackedCollatorStatus {
    Invulnerable,
    Candidate { deposit: u128 },
    NotCollator,
    Unknown,
}

impl TrackedCollatorStatus {
    /// The status as it is shown to a developer.
    pub open spec fn spec_debug(self) -> Seq<char> {
        match self {
            TrackedCollatorStatus::Invulnerable => "Invulnerable"@,
            TrackedCollatorStatus::Candidate { deposit } => "Candidate { deposit: "@ + decimal(
                deposit as nat,
            ) + " }"@,
            TrackedCollatorStatus::NotCollator => "NotCollator"@,
            TrackedCollatorStatus::Unknown => "Unknown"@,
        }
    }

    /// The status as it is shown to a developer.
    pub fn debug_text(&self) -> (r: String)
        ensures
            r@ == self.spec_debug(),
    {
        match self {
            TrackedCollatorStatus::Invulnerable => "Invulnerable".to_string(),
            TrackedCollatorStatus::Candidate { deposit } => {
                let mut r = "Candidate { deposit: ".to_string();
                r.append(decimal_text(*deposit).as_str());
                r.append(" }");
                r
            },
            TrackedCollatorStatus::NotCollator => "NotCollator".to_string(),
            TrackedCollatorStatus::Unknown => "Unknown".to_string(),
        }
    }
}

/// What a tracker knows: of each chain, by name, its blocks and the collator's
/// status, and whether it is to stop.
pub struct TrackerState {
    pub blocks: Map<Seq<char>, LastBlockInfo>,
    pub statuses: Map<Seq<char>, TrackedCollatorStatus>,
    pub shutdown: bool,
}

/// Central tracker for all chain block authorship.
pub struct BlockTracker {
    data: StringHashMap<LastBlockInfo>,
    collator_status: StringHashMap<TrackedCollatorStatus>,
    shutdown: bool,
}

impl View for BlockTracker {
    type V = TrackerState;

    closed spec fn view(&self) -> TrackerState {
        TrackerState {
            blocks: self.data@,
            statuses: self.collator_status@,
            shutdown: self.shutdown,
        }
    }
}

/// Whether a tracked chain is marked as connected, or with the error for which it is
/// not, and nothing else has changed.
pub open spec fn is_marked(
    before: TrackerState,
    after: TrackerState,
    chain_name: Seq<char>,
    error: Option<Seq<char>>,
) -> bool {
    &&& after.statuses == before.statuses
    &&& after.shutdown == before.shutdown
    &&& forall|name: Seq<char>| #[trigger]
        after.blocks.contains_key(name) <==> before.blocks.contains_key(name)
    &&& forall|name: Seq<char>|
        before.blocks.contains_key(name) && name != chain_name ==> #[trigger] after.blocks[name]
            == before.blocks[name]
    &&& before.blocks.contains_key(chain_name) ==> {
        let info = after.blocks[chain_name];
        &&& info.last_authored == before.blocks[chain_name].last_authored
        &&& info.tracking_since == before.blocks[chain_name].tracking_since
        &&& info.is_connected == (error is None)
        &&& match info.last_error {
            Some(text) => error == Some(text@),
            None => error is None,
        }
    }
}

/// The blocks of all chains where a chain's entry, if it has one, is replaced.
pub open spec fn with_block_info(
    blocks: Map<Seq<char>, LastBlockInfo>,
    chain_name: Seq<char>,
    info: LastBlockInfo,
) -> Map<Seq<char>, LastBlockInfo> {
    if blocks.contains_key(chain_name) {
        blocks.insert(chain_name, info)
    } else {
        blocks
    }
}

impl BlockTracker {
    /// A tracker that knows of no chain.
    pub fn new() -> (r: BlockTracker)
        ensures
            r@.blocks == Map::<Seq<char>, LastBlockInfo>::empty(),
            r@.statuses == Map::<Seq<char>, TrackedCollatorStatus>::empty(),
            !r@.shutdown,
    {
        BlockTracker {
            data: StringHashMap::new(),
            collator_status: StringHashMap::new(),
            shutdown: false,
        }
    }

    /// Track a chain from now on, with nothing known of its blocks.
    pub fn track(&mut self, chain_name: &str, now: u64)
        ensures
            final(self)@ == (TrackerState {
                blocks: old(self)@.blocks.insert(chain_name@, unseen(now)),
                ..old(self)@
            }),
    {
        self.data.insert(chain_name.to_string(), LastBlockInfo::new(now));
    }

    /// Get the last block info for a chain.
    pub fn get_last_block(&self, chain_name: &str) -> (r: Option<&LastBlockInfo>)
        ensures
            match r {
                Some(info) => self@.blocks.contains_key(chain_name@) && *info
                    == self@.blocks[chain_name@],
                None => !self@.blocks.contains_key(chain_name@),
            },
    {
        self.data.get(chain_name)
    }

    /// Record that the collator authored a block.
    pub fn record_authored_block(&mut self, chain_name: &str, now: u64)
        ensures
            final(self)@ == with_authored_block(old(self)@, chain_name@, now),
    {
        if let Some(info) = self.data.get(chain_name) {
            let tracking_since: u64 = info.tracking_since;
            self.data.insert(
                chain_name.to_string(),
                LastBlockInfo {
                    last_authored: Some(now),
                    tracking_since,
                    is_connected: true,
                    last_error: None,
                },
            );
        }
    }

    /// Mark chain as connected (receiving blocks but not authoring).
    pub fn mark_connected(&mut self, chain_name: &str)
        ensures
            final(self)@ == (TrackerState {
                blocks: with_block_info(
                    old(self)@.blocks,
                    chain_name@,
                    LastBlockInfo {
                        is_connected: true,
                        last_error: None,
                        ..old(self)@.blocks[chain_name@]
                    },
                ),
                ..old(self)@
            }),
            is_marked(old(self)@, final(self)@, chain_name@, None),
    {
        if let Some(info) = self.data.get(chain_name) {
            let last_authored = info.last_authored;
            let tracking_since: u64 = info.tracking_since;
            self.data.insert(
                chain_name.to_string(),
                LastBlockInfo { last_authored, tracking_since, is_connected: true, last_error: None },
            );
        }
    }

    /// Mark chain as disconnected with error.
    pub fn mark_disconnected(&mut self, chain_name: &str, error: String)
        ensures
            final(self)@ == (TrackerState {
                blocks: with_block_info(
                    old(self)@.blocks,
                    chain_name@,
                    LastBlockInfo {
                        is_connected: false,
                        last_error: Some(error),
                        ..old(self)@.blocks[chain_name@]
                    },
                ),
                ..old(self)@
            }),
            is_marked(old(self)@, final(self)@, chain_name@, Some(error@)),
    {
        if let Some(info) = self.data.get(chain_name) {
            let last_authored = info.last_authored;
            let tracking_since: u64 = info.tracking_since;
            self.data.insert(
                chain_name.to_string(),
                LastBlockInfo {
                    last_authored,
                    tracking_since,
                    is_connected: false,
                    last_error: Some(error),
                },
            );
        }
    }

    /// Update tracked collator status, and give the one before.
    pub fn update_collator_status(&mut self, chain_name: &str, status: TrackedCollatorStatus) -> (r:
        Option<TrackedCollatorStatus>)
        ensures
            r == known_status(old(self)@, chain_name@),
            final(self)@ == (TrackerState {
                statuses: old(self)@.statuses.insert(chain_name@, status),
                ..old(self)@
            }),
    {
        let before = match self.collator_status.get(chain_name) {
            Some(s) => Some(*s),
            None => None,
        };
        self.collator_status.insert(chain_name.to_string(), status);
        before
    }

    /// Signal shutdown.
    pub fn shutdown(&mut self)
        ensures
            final(self)@ == (TrackerState { shutdown: true, ..old(self)@ }),
    {
        self.shutdown = true;
    }

    /// Check if shutdown was requested.
    pub fn is_shutdown(&self) -> (r: bool)
        ensures
            r == self@.shutdown,
    {
        self.shutdown
    }
}

impl Default for BlockTracker {
    fn default() -> (r: BlockTracker)
        ensures
            r@.blocks == Map::<Seq<char>, LastBlockInfo>::empty(),
            r@.statuses == Map::<Seq<char>, TrackedCollatorStatus>::empty(),
            !r@.shutdown,
    {
        BlockTracker::new()
    }
}

/// The status that a tracker last saw on a chain.
pub open spec fn known_status(state: TrackerState, chain_name: Seq<char>) -> Option<
    TrackedCollatorStatus,
> {
    if state.statuses.contains_key(chain_name) {
        Some(state.statuses[chain_name])
    } else {
        None
    }
}

/// The time without a block that is to be reported, if any: since the last block
/// or, where none was seen, since the chain is tracked.
pub open spec fn overdue(info: LastBlockInfo, now: u64) -> Option<u64> {
    let silence = match info.spec_time_since_last_block(now) {
        Some(d) => d,
        None => elapsed(info.tracking_since, now),
    };
    if silence >= BLOCK_ALERT_THRESHOLD {
        Some(silence)
    } else {
        None
    }
}

/// The time without a block that is to be reported, if any.
pub fn overdue_time(info: Option<&LastBlockInfo>, now: u64) -> (r: Option<u64>)
    ensures
        r == match info {
            Some(i) => overdue(*i, now),
            None => None,
        },
{
    match info {
        Some(i) => {
            let silence: u64 = match i.time_since_last_block(now) {
                Some(d) => d,
                None => elapsed_time(i.tracking_since, now),
            };
            if silence >= BLOCK_ALERT_THRESHOLD {
                Some(silence)
            } else {
                None
            }
        },
        None => None,
    }
}

/// Whether the time since the last block is to be looked at again.
pub fn check_is_due(last_check: u64, now: u64) -> (r: bool)
    ensures
        r == (elapsed(last_check, now) >= BLOCK_ALERT_CHECK_INTERVAL),
{
    elapsed_time(last_check, now) >= BLOCK_ALERT_CHECK_INTERVAL
}

/// Whether a block's author is the collator.
pub fn is_own_block(author: Option<&AccountId32>, collator: &AccountId32) -> (r: bool)
    ensures
        r == (author matches Some(a) && a@ == collator@),
{
    match author {
        Some(a) => a.same(collator),
        None => false,
    }
}

/// The status that the stored invulnerable collators and candidates give, where a
/// list that could not be had counts as one without the account.
pub open spec fn tracked_status<T>(
    invulnerables: Option<Value<T>>,
    candidates: Option<Value<T>>,
    account: Seq<u8>,
) -> TrackedCollatorStatus {
    if invulnerables is Some && holds_account(invulnerables->0, account) {
        TrackedCollatorStatus::Invulnerable
    } else if candidates is Some && deposit_of(candidates->0, account) is Some {
        TrackedCollatorStatus::Candidate { deposit: deposit_of(candidates->0, account)->0 }
    } else {
        TrackedCollatorStatus::NotCollator
    }
}

/// Whether the stored invulnerable collators hold the account. Where they do, the
/// candidates need not be asked for.
pub fn is_invulnerable<T>(invulnerables: Option<&Value<T>>, account: &[u8; 32]) -> (r: bool)
    ensures
        r == (invulnerables matches Some(v) && holds_account(*v, account@)),
{
    match invulnerables {
        Some(v) => contains_account(v, account),
        None => false,
    }
}

/// The status that the stored invulnerable collators and candidates give.
pub fn get_collator_status_typed<T>(
    invulnerables: Option<&Value<T>>,
    candidates: Option<&Value<T>>,
    account: &[u8; 32],
) -> (r: TrackedCollatorStatus)
    ensures
        r == tracked_status(
            match invulnerables {
                Some(v) => Some(*v),
                None => None,
            },
            match candidates {
                Some(v) => Some(*v),
                None => None,
            },
            account@,
        ),
{
    if is_invulnerable(invulnerables, account) {
        return TrackedCollatorStatus::Invulnerable;
    }
    match candidates {
        Some(v) => match find_candidate_deposit(v, account) {
            Some(deposit) => TrackedCollatorStatus::Candidate { deposit },
            None => TrackedCollatorStatus::NotCollator,
        },
        None => TrackedCollatorStatus::NotCollator,
    }
}

/// A balance in whole tokens, with four digits behind the point.
pub open spec fn balance_text(amount: u128, network: Network) -> Seq<char> {
    let one = pow10(network.spec_decimals() as nat);
    let step = pow10((network.spec_decimals() - 4) as nat);
    decimal(amount as nat / one) + "."@ + padded((amount as nat % one) / step, 4)
}

/// Format balance for display.
pub fn format_balance(amount: u128, network: Network) -> (r: String)
    ensures
        r@ == balance_text(amount, network),
{
    let decimals: u32 = network.decimals();
    let divisor: u128 = pow10_exec(decimals);
    let step: u128 = pow10_exec(decimals - 4);
    let whole: u128 = amount / divisor;
    let fraction: u128 = amount % divisor;
    let mut r = decimal_text(whole);
    r.append(".");
    r.append(padded_text(fraction / step, 4).as_str());
    r
}

/// The Subscan address of a chain.
pub open spec fn subscan_base(network: Network, chain: SystemChain) -> Seq<char> {
    match (network, chain) {
        (Network::Polkadot, SystemChain::AssetHub) => "https://assethub-polkadot.subscan.io"@,
        (Network::Polkadot, SystemChain::BridgeHub) => "https://bridgehub-polkadot.subscan.io"@,
        (Network::Polkadot, SystemChain::Collectives) => "https://collectives-polkadot.subscan.io"@,
        (Network::Polkadot, SystemChain::Coretime) => "https://coretime-polkadot.subscan.io"@,
        (Network::Polkadot, SystemChain::People) => "https://people-polkadot.subscan.io"@,
        (Network::Kusama, SystemChain::AssetHub) => "https://assethub-kusama.subscan.io"@,
        (Network::Kusama, SystemChain::BridgeHub) => "https://bridgehub-kusama.subscan.io"@,
        (Network::Kusama, SystemChain::Coretime) => "https://coretime-kusama.subscan.io"@,
        (Network::Kusama, SystemChain::People) => "https://people-kusama.subscan.io"@,
        (Network::Kusama, SystemChain::Encointer) => "https://encointer-kusama.subscan.io"@,
        _ => "https://polkadot.subscan.io"@,
    }
}

/// Get Subscan base URL for a chain.
pub fn subscan_base_for_chain(network: Network, chain: SystemChain) -> (r: &'static str)
    ensures
        r@ == subscan_base(network, chain),
{
    match (network, chain) {
        (Network::Polkadot, SystemChain::AssetHub) => "https://assethub-polkadot.subscan.io",
        (Network::Polkadot, SystemChain::BridgeHub) => "https://bridgehub-polkadot.subscan.io",
        (Network::Polkadot, SystemChain::Collectives) => "https://collectives-polkadot.subscan.io",
        (Network::Polkadot, SystemChain::Coretime) => "https://coretime-polkadot.subscan.io",
        (Network::Polkadot, SystemChain::People) => "https://people-polkadot.subscan.io",
        (Network::Kusama, SystemChain::AssetHub) => "https://assethub-kusama.subscan.io",
        (Network::Kusama, SystemChain::BridgeHub) => "https://bridgehub-kusama.subscan.io",
        (Network::Kusama, SystemChain::Coretime) => "https://coretime-kusama.subscan.io",
        (Network::Kusama, SystemChain::People) => "https://people-kusama.subscan.io",
        (Network::Kusama, SystemChain::Encointer) => "https://encointer-kusama.subscan.io",
        _ => "https://polkadot.subscan.io",
    }
}

/// Where a block can be looked at.
pub open spec fn block_url(network: Network, chain: SystemChain, block_number: u32) -> Seq<char> {
    subscan_base(network, chain) + "/block/"@ + decimal(block_number as nat)
}

/// What is said of a collator that is none any more.
pub open spec fn removed_text(
    chain_name: Seq<char>,
    block_number: u32,
    before: TrackedCollatorStatus,
    url: Seq<char>,
) -> Seq<char> {
    "🚨 *COLLATOR REMOVED* on *"@ + chain_name + "*\n\nOur collator was removed at block #"@
        + decimal(block_number as nat) + "\nPrevious status: "@ + before.spec_debug()
        + "\nCurrent status: Not a collator\n\nCheck the block for transactions that affected us:\n"@
        + url
}

/// What is said of an invulnerable collator that became a candidate.
pub open spec fn demoted_text(
    chain_name: Seq<char>,
    network: Network,
    block_number: u32,
    deposit: u128,
    url: Seq<char>,
) -> Seq<char> {
    "⚠️ *Status Change* on *"@ + chain_name
        + "*\n\nMoved from Invulnerable to Candidate at block #"@ + decimal(block_number as nat)
        + "\nBond: "@ + balance_text(deposit, network) + " "@ + network.spec_symbol()
        + "\n\nBlock: "@ + url
}

/// What is said of a change of status, if anything: nothing the first time a
/// chain is seen, and nothing of a change for the better.
pub open spec fn change_alert(
    chain_name: Seq<char>,
    network: Network,
    chain: SystemChain,
    block_number: u32,
    before: Option<TrackedCollatorStatus>,
    after: TrackedCollatorStatus,
) -> Option<Seq<char>> {
    let url = block_url(network, chain, block_number);
    match (before, after) {
        (
            Some(TrackedCollatorStatus::Invulnerable),
            TrackedCollatorStatus::NotCollator,
        ) => Some(removed_text(chain_name, block_number, before->0, url)),
        (
            Some(TrackedCollatorStatus::Candidate { deposit: _ }),
            TrackedCollatorStatus::NotCollator,
        ) => Some(removed_text(chain_name, block_number, before->0, url)),
        (
            Some(TrackedCollatorStatus::Invulnerable),
            TrackedCollatorStatus::Candidate { deposit },
        ) => Some(demoted_text(chain_name, network, block_number, deposit, url)),
        _ => None,
    }
}

fn removed_message(
    chain_name: &str,
    block_number: u32,
    before: TrackedCollatorStatus,
    url: &str,
) -> (r: String)
    ensures
        r@ == removed_text(chain_name@, block_number, before, url@),
{
    let mut r = "🚨 *COLLATOR REMOVED* on *".to_string();
    r.append(chain_name);
    r.append("*\n\nOur collator was removed at block #");
    r.append(decimal_text(block_number as u128).as_str());
    r.append("\nPrevious status: ");
    r.append(before.debug_text().as_str());
    r.append("\nCurrent status: Not a collator\n\nCheck the block for transactions that affected us:\n");
    r.append(url);
    r
}

fn demoted_message(
    chain_name: &str,
    network: Network,
    block_number: u32,
    deposit: u128,
    url: &str,
) -> (r: String)
    ensures
        r@ == demoted_text(chain_name@, network, block_number, deposit, url@),
{
    let mut r = "⚠️ *Status Change* on *".to_string();
    r.append(chain_name);
    r.append("*\n\nMoved from Invulnerable to Candidate at block #");
    r.append(decimal_text(block_number as u128).as_str());
    r.append("\nBond: ");
    r.append(format_balance(deposit, network).as_str());
    r.append(" ");
    r.append(network.symbol());
    r.append("\n\nBlock: ");
    r.append(url);
    r
}

/// What is said of a change of status, if anything.
pub fn status_change_message(
    chain_name: &str,
    network: Network,
    chain: SystemChain,
    block_number: u32,
    before: Option<TrackedCollatorStatus>,
    after: TrackedCollatorStatus,
) -> (r: Option<String>)
    ensures
        match r {
            Some(text) => change_alert(
                chain_name@,
                network,
                chain,
                block_number,
                before,
                after,
            ) == Some(text@),
            None => change_alert(chain_name@, network, chain, block_number, before, after) is None,
        },
{
    let mut url = subscan_base_for_chain(network, chain).to_string();
    url.append("/block/");
    url.append(decimal_text(block_number as u128).as_str());
    match (before, after) {
        (
            Some(TrackedCollatorStatus::Invulnerable),
            TrackedCollatorStatus::NotCollator,
        ) => Some(
            removed_message(
                chain_name,
                block_number,
                TrackedCollatorStatus::Invulnerable,
                url.as_str(),
            ),
        ),
        (
            Some(TrackedCollatorStatus::Candidate { deposit }),
            TrackedCollatorStatus::NotCollator,
        ) => Some(
            removed_message(
                chain_name,
                block_number,
                TrackedCollatorStatus::Candidate { deposit },
                url.as_str(),
            ),
        ),
        (
            Some(TrackedCollatorStatus::Invulnerable),
            TrackedCollatorStatus::Candidate { deposit },
        ) => Some(
            demoted_message(chain_name, network, block_number, deposit, url.as_str()),
        ),
        _ => None,
    }
}

impl BlockTracker {
    /// Take note of the collator's status at a block, and say what is to be
    /// alerted of its change, if anything.
    pub fn check_collator_status(
        &mut self,
        chain_name: &str,
        network: Network,
        chain: SystemChain,
        current: TrackedCollatorStatus,
        block_number: u32,
    ) -> (r: Option<String>)
        ensures
            final(self)@ == (TrackerState {
                statuses: old(self)@.statuses.insert(chain_name@, current),
                ..old(self)@
            }),
            ({
                let alert = change_alert(
                    chain_name@,
                    network,
                    chain,
                    block_number,
                    known_status(old(self)@, chain_name@),
                    current,
                );
                match r {
                    Some(text) => alert == Some(text@),
                    None => alert is None,
                }
            }),
    {
        let before = self.update_collator_status(chain_name, current);
        status_change_message(chain_name, network, chain, block_number, before, current)
    }
}

/// What is known of a chain whose tracking begins now.
pub open spec fn unseen(now: u64) -> LastBlockInfo {
    LastBlockInfo {
        last_authored: None,
        tracking_since: now,
        is_connected: false,
        last_error: None,
    }
}

/// What a tracker knows once the collator authored a block on a chain.
pub open spec fn with_authored_block(
    state: TrackerState,
    chain_name: Seq<char>,
    now: u64,
) -> TrackerState {
    TrackerState {
        blocks: with_block_info(
            state.blocks,
            chain_name,
            LastBlockInfo {
                last_authored: Some(now),
                is_connected: true,
                last_error: None,
                ..state.blocks[chain_name]
            },
        ),
        ..state
    }
}

/// Whether an author is the collator.
pub open spec fn is_own(author: Option<AccountId32>, collator: Seq<u8>) -> bool {
    match author {
        Some(a) => a@ == collator,
        None => false,
    }
}

/// What a block shows of its author: whether the collator authored it, when the
/// time since the last block was last looked at, and the time without a block
/// that is to be reported, if any.
#[derive(Debug, Clone, Copy, PartialEq, Eq, Structural)]
pub struct Inspection {
    pub authored: bool,
    pub last_check: u64,
    pub silence: Option<u64>,
}

/// The time without a block that is to be reported of a chain, if any.
pub open spec fn silence_on(state: TrackerState, chain_name: Seq<char>, now: u64) -> Option<u64> {
    if state.blocks.contains_key(chain_name) {
        overdue(state.blocks[chain_name], now)
    } else {
        None
    }
}

/// What a tracker knows after a block, and what the block shows: an own block is
/// recorded, and then the time without a block is looked at, where that is due.
pub open spec fn inspected(
    state: TrackerState,
    chain_name: Seq<char>,
    own: bool,
    last_check: u64,
    now: u64,
) -> (TrackerState, Inspection) {
    let after = if own {
        with_authored_block(state, chain_name, now)
    } else {
        state
    };
    if elapsed(last_check, now) >= BLOCK_ALERT_CHECK_INTERVAL {
        (
            after,
            Inspection {
                authored: own,
                last_check: now,
                silence: silence_on(after, chain_name, now),
            },
        )
    } else {
        (after, Inspection { authored: own, last_check, silence: None })
    }
}

impl BlockTracker {
    /// Begin to track a chain for the collator of an address.
    pub fn begin(&mut self, client: &ChainClient, address: &str, now: u64) -> (r: Result<
        AccountId32,
        CollatorError,
    >)
        ensures
            final(self)@ == (TrackerState {
                blocks: old(self)@.blocks.insert(
                    client@.1.spec_display_name(client@.0),
                    unseen(now),
                ),
                ..old(self)@
            }),
            parsed_address(address@, address_meaning(address@), r),
    {
        self.track(client.chain_name(), now);
        client.parse_address(address)
    }

    /// Take note of the author of a block, and look at the time without a block
    /// where that is due.
    pub fn inspect_block(
        &mut self,
        chain_name: &str,
        author: Option<&AccountId32>,
        collator: &AccountId32,
        last_check: u64,
        now: u64,
    ) -> (r: Inspection)
        ensures
            ({
                let seen = match author {
                    Some(a) => Some(*a),
                    None => None,
                };
                (final(self)@, r) == inspected(
                    old(self)@,
                    chain_name@,
                    is_own(seen, collator@),
                    last_check,
                    now,
                )
            }),
    {
        let authored = is_own_block(author, collator);
        if authored {
            self.record_authored_block(chain_name, now);
        }
        if check_is_due(last_check, now) {
            let silence = overdue_time(self.get_last_block(chain_name), now);
            Inspection { authored, last_check: now, silence }
        } else {
            Inspection { authored, last_check, silence: None }
        }
    }
}

/// A block of the collator on a tracked chain ends the silence: none is reported
/// with it, and none before half an hour has passed since it.
pub proof fn law_own_block_ends_the_silence(
    state: TrackerState,
    chain_name: Seq<char>,
    last_check: u64,
    authored: u64,
    next_check: u64,
    now: u64,
)
    requires
        state.blocks.contains_key(chain_name),
        authored <= now,
        now - authored < 1_800_000_000_000,
    ensures
        ({
            let (after, shown) = inspected(state, chain_name, true, last_check, authored);
            shown.silence is None && inspected(after, chain_name, false, next_check, now).1.silence
                is None
        }),
{
}

/// What happened to the tracker of a chain.
#[derive(Debug, Clone, Copy, PartialEq, Eq, Structural)]
pub enum TrackerEvent {
    /// It began; `valid_address` tells whether the collator's address is one
    Begun { valid_address: bool, shutdown: bool },
    /// It is about to connect; `shutdown` tells whether it was asked to stop
    Ready { shutdown: bool },
    /// It tried an endpoint
    Tried { endpoint: usize, connected: bool },
    /// It asked for the finalized blocks
    Subscribed { ok: bool },
    /// The stream gave a block, or an error
    Received { shutdown: bool, block: bool },
    /// The stream ended
    Ended,
}

/// What the tracker of a chain does next.
#[derive(Debug, Clone, Copy, PartialEq, Eq, Structural)]
pub enum TrackerAction {
    /// Stop
    Stop,
    /// Try to connect to an endpoint
    Connect { endpoint: usize },
    /// Report that the chain is connected again, and ask for the finalized blocks
    Subscribe,
    /// Mark the chain as connected, and wait for blocks
    Listen,
    /// Look at the block
    Inspect,
    /// Report that no endpoint can be reached, mark the chain as disconnected, and
    /// get ready again after some seconds
    GiveUp { seconds: u64 },
    /// Get ready again after some seconds; `disconnected` tells whether the chain
    /// is marked as disconnected before
    Retry { disconnected: bool, seconds: u64 },
}

/// What the tracker of a chain with the given number of endpoints does next.
pub open spec fn next_action(endpoints: usize, event: TrackerEvent) -> TrackerAction {
    match event {
        TrackerEvent::Begun { valid_address, shutdown } => if !valid_address || shutdown {
            TrackerAction::Stop
        } else if endpoints == 0 {
            TrackerAction::GiveUp { seconds: 30 }
        } else {
            TrackerAction::Connect { endpoint: 0 }
        },
        TrackerEvent::Ready { shutdown } => if shutdown {
            TrackerAction::Stop
        } else if endpoints == 0 {
            TrackerAction::GiveUp { seconds: 30 }
        } else {
            TrackerAction::Connect { endpoint: 0 }
        },
        TrackerEvent::Tried { endpoint, connected } => if connected {
            TrackerAction::Subscribe
        } else if endpoint + 1 < endpoints {
            TrackerAction::Connect { endpoint: (endpoint + 1) as usize }
        } else {
            TrackerAction::GiveUp { seconds: 30 }
        },
        TrackerEvent::Subscribed { ok } => if ok {
            TrackerAction::Listen
        } else {
            TrackerAction::Retry { disconnected: false, seconds: 5 }
        },
        TrackerEvent::Received { shutdown, block } => if shutdown {
            TrackerAction::Stop
        } else if block {
            TrackerAction::Inspect
        } else {
            TrackerAction::Retry { disconnected: true, seconds: 10 }
        },
        TrackerEvent::Ended => TrackerAction::Retry { disconnected: false, seconds: 5 },
    }
}

/// What the tracker of a chain does next.
pub fn run_chain_tracker(endpoints: usize, event: TrackerEvent) -> (r: TrackerAction)
    ensures
        r == next_action(endpoints, event),
{
    match event {
        TrackerEvent::Begun { valid_address, shutdown } => if !valid_address || shutdown {
            TrackerAction::Stop
        } else if endpoints == 0 {
            TrackerAction::GiveUp { seconds: 30 }
        } else {
            TrackerAction::Connect { endpoint: 0 }
        },
        TrackerEvent::Ready { shutdown } => if shutdown {
            TrackerAction::Stop
        } else if endpoints == 0 {
            TrackerAction::GiveUp { seconds: 30 }
        } else {
            TrackerAction::Connect { endpoint: 0 }
        },
        TrackerEvent::Tried { endpoint, connected } => if connected {
            TrackerAction::Subscribe
        } else if endpoints > 0 && endpoint < endpoints - 1 {
            TrackerAction::Connect { endpoint: endpoint + 1 }
        } else {
            TrackerAction::GiveUp { seconds: 30 }
        },
        TrackerEvent::Subscribed { ok } => if ok {
            TrackerAction::Listen
        } else {
            TrackerAction::Retry { disconnected: false, seconds: 5 }
        },
        TrackerEvent::Received { shutdown, block } => if shutdown {
            TrackerAction::Stop
        } else if block {
            TrackerAction::Inspect
        } else {
            TrackerAction::Retry { disconnected: true, seconds: 10 }
        },
        TrackerEvent::Ended => TrackerAction::Retry { disconnected: false, seconds: 5 },
    }
}

/// What is reported where no endpoint can be reached.
pub fn unreachable_message(endpoints: usize) -> (r: String)
    ensures
        r@ == "All "@ + decimal(endpoints as nat) + " RPC endpoints failed"@,
{
    let mut r = "All ".to_string();
    r.append(decimal_text(endpoints as u128).as_str());
    r.append(" RPC endpoints failed");
    r
}

/// The endpoint that a tracker ends up with, from an action on, where `works`
/// tells which endpoints can be reached; none where it gives up.
pub open spec fn reached(works: Seq<bool>, action: TrackerAction) -> Option<int>
    decreases
            works.len() - (match action {
                TrackerAction::Connect { endpoint } => endpoint as int,
                _ => works.len() as int,
            }),
{
    match action {
        TrackerAction::Connect { endpoint } => if endpoint >= works.len() {
            None
        } else if works[endpoint as int] {
            Some(endpoint as int)
        } else {
            let next = next_action(
                works.len() as usize,
                TrackerEvent::Tried { endpoint, connected: false },
            );
            match next {
                TrackerAction::Connect { endpoint: e } => if e == endpoint + 1 {
                    reached(works, next)
                } else {
                    None
                },
                _ => None,
            }
        },
        _ => None,
    }
}

proof fn lemma_reached(works: Seq<bool>, from: usize)
    requires
        from < works.len() <= usize::MAX,
    ensures
        match reached(works, TrackerAction::Connect { endpoint: from }) {
            Some(k) => from <= k < works.len() && works[k] && forall|i: int|
                from <= i < k ==> !#[trigger] works[i],
            None => forall|i: int| from <= i < works.len() ==> !#[trigger] works[i],
        },
    decreases works.len() - from,
{
    if !works[from as int] && from + 1 < works.len() {
        lemma_reached(works, (from + 1) as usize);
    }
}

/// A tracker that gets ready connects to the first endpoint that can be reached,
/// and gives up only where none can.
pub proof fn law_first_working_endpoint_is_used(works: Seq<bool>)
    requires
        works.len() <= usize::MAX,
    ensures
        match reached(works, next_action(works.len() as usize, TrackerEvent::Ready { shutdown: false })) {
            Some(k) => 0 <= k < works.len() && works[k] && forall|i: int|
                0 <= i < k ==> !#[trigger] works[i],
            None => forall|i: int| 0 <= i < works.len() ==> !#[trigger] works[i],
        },
{
    if works.len() > 0 {
        lemma_reached(works, 0);
    }
}

/// A tracker of a collator whose address is none stops without a connection; any
/// other begins as one that gets ready again.
pub proof fn law_bad_address_ends_the_tracker(endpoints: usize, shutdown: bool)
    ensures
        next_action(endpoints, TrackerEvent::Begun { valid_address: false, shutdown }) is Stop,
        next_action(endpoints, TrackerEvent::Begun { valid_address: true, shutdown })
            == next_action(endpoints, TrackerEvent::Ready { shutdown }),
{
}

/// An alert is raised exactly where the collator was known to be one and is none
/// any more, or was invulnerable and is a candidate.
pub proof fn law_alerts_on_loss_only(
    chain_name: Seq<char>,
    network: Network,
    chain: SystemChain,
    block_number: u32,
    before: Option<TrackedCollatorStatus>,
    after: TrackedCollatorStatus,
)
    ensures
        change_alert(chain_name, network, chain, block_number, before, after) is Some <==> {
            ||| (before == Some(TrackedCollatorStatus::Invulnerable) && (after is NotCollator
                || after is Candidate))
            ||| (before is Some && before->0 is Candidate && after is NotCollator)
        },
        before is None ==> change_alert(chain_name, network, chain, block_number, before, after)
            is None,
        before == Some(after) ==> change_alert(
            chain_name,
            network,
            chain,
            block_number,
            before,
            after,
        ) is None,
{
}

/// The Aura key whose turn it is, from the slot and the keys that a chain stores:
/// its owner is the author of the block. None for a chain that is not on the
/// network, and where something is missing.
pub fn get_block_author_typed(
    network: Network,
    chain: SystemChain,
    slot: Option<u64>,
    authorities: Option<&Vec<AccountId32>>,
) -> (r: Option<AccountId32>)
    ensures
        r == match (slot, authorities) {
            (Some(s), Some(keys)) => if runs_on(chain, network) && keys@.len() > 0 {
                Some(keys@[author_index(s, keys@.len())])
            } else {
                None
            },
            _ => None,
        },
{
    if chain.is_on(network) {
        scheduled_key(slot, authorities)
    } else {
        None
    }
}

/// Asks for the slot of a block.
pub fn current_slot_query() -> (r: StorageQuery)
    ensures
        r.pallet@ == "Aura"@,
        r.entry@ == "CurrentSlot"@,
        r.keys@.len() == 0,
{
    StorageQuery { pallet: "Aura", entry: "CurrentSlot", keys: Vec::new() }
}

/// Asks for the owner of an Aura key.
pub fn key_owner_query(key: &AccountId32) -> (r: StorageQuery)
    ensures
        r.pallet@ == "Session"@,
        r.entry@ == "KeyOwner"@,
        r.keys@.len() == 1,
        match unnamed_items(r.keys@[0]) {
            Some(pair) => pair.len() == 2 && is_bytes(
                pair[0],
                seq![0x61u8, 0x75u8, 0x72u8, 0x61u8],
            ) && is_bytes(pair[1], key@),
            None => false,
        },
{
    let aura: [u8; 4] = [0x61, 0x75, 0x72, 0x61];
    assert(aura@ =~= seq![0x61u8, 0x75u8, 0x72u8, 0x61u8]);
    let mut pair: Vec<Value<()>> = Vec::new();
    pair.push(bytes_value(&aura));
    pair.push(bytes_value(&key.0));
    let mut keys: Vec<Value<()>> = Vec::new();
    keys.push(Value { value: ValueDef::Composite(Composite::Unnamed(pair)), context: () });
    StorageQuery { pallet: "Session", entry: "KeyOwner", keys }
}

/// The owner of a key, from what is stored of it.
pub fn key_owner(stored: Option<&[u8]>) -> (r: Option<AccountId32>)
    requires
        stored matches Some(bytes) ==> bytes@.len() >= 32,
    ensures
        match stored {
            Some(bytes) => r matches Some(owner) && owner@ == bytes@.take(32),
            None => r is None,
        },
{
    match stored {
        Some(bytes) => Some(AccountId32(account_to_raw32(bytes))),
        None => None,
    }
}

/// On a tracked chain, connected or not and with or without an error, a block of
/// another author tells the time since the last own block, or since the tracking
/// began where none was seen: exactly where that is half an hour or more and half
/// an hour or more has passed since it was last looked at. What is known of the
/// blocks stays.
pub proof fn law_silence_is_told_when_due(
    state: TrackerState,
    chain_name: Seq<char>,
    last_check: u64,
    now: u64,
)
    requires
        state.blocks.contains_key(chain_name),
    ensures
        ({
            let info = state.blocks[chain_name];
            let since: int = match info.last_authored {
                Some(t) => t as int,
                None => info.tracking_since as int,
            };
            let half_an_hour: int = 1_800_000_000_000;
            let due = now - last_check >= half_an_hour;
            let (after, shown) = inspected(state, chain_name, false, last_check, now);
            &&& after == state
            &&& !shown.authored
            &&& shown.last_check == (if due {
                now
            } else {
                last_check
            })
            &&& if due && now - since >= half_an_hour {
                shown.silence is Some && shown.silence->0 == now - since
            } else {
                shown.silence is None
            }
        }),
{
}

/// The time that has passed, added to the moment it is counted from, is now; where
/// that moment is still to come, no time has passed.
pub proof fn law_time_passes(since: u64, now: u64)
    ensures
        since <= now ==> since + elapsed(since, now) == now,
        since > now ==> elapsed(since, now) == 0,
{
}

/// The time since the last block is told exactly where a block was seen, and counts
/// from that block, connected or not.
pub proof fn law_time_since_the_last_block(info: LastBlockInfo, now: u64)
    ensures
        info.last_authored is None <==> info.spec_time_since_last_block(now) is None,
        info.last_authored matches Some(t) ==> info.spec_time_since_last_block(now)->0 == (if t
            <= now {
            now - t
        } else {
            0
        }),
{
}

/// A chain that begins to be tracked has shown no block and no error and is not
/// connected, and is tracked from that moment.
pub proof fn law_tracking_begins_with_nothing_known(now: u64)
    ensures
        unseen(now).last_authored is None,
        unseen(now).tracking_since == now,
        !unseen(now).is_connected,
        unseen(now).last_error is None,
{
}

/// An own block on a tracked chain is the last one from then on, shows that the
/// chain is connected and clears its error; since when it is tracked stays. Nothing
/// changes on another chain, in what is known of statuses, or where the chain is not
/// tracked.
pub proof fn law_own_blocks_are_recorded(
    state: TrackerState,
    chain_name: Seq<char>,
    other: Seq<char>,
    now: u64,
)
    requires
        other != chain_name,
    ensures
        ({
            let after = with_authored_block(state, chain_name, now);
            &&& after.blocks.dom() == state.blocks.dom()
            &&& state.blocks.contains_key(chain_name) ==> {
                let info = after.blocks[chain_name];
                &&& info.last_authored == Some(now)
                &&& info.tracking_since == state.blocks[chain_name].tracking_since
                &&& info.is_connected
                &&& info.last_error is None
            }
            &&& state.blocks.contains_key(other) ==> after.blocks[other] == state.blocks[other]
            &&& after.statuses == state.statuses
            &&& after.shutdown == state.shutdown
        }),
{
    let after = with_authored_block(state, chain_name, now);
    assert(after.blocks.dom() =~= state.blocks.dom());
}

/// What is known of a tracked chain is replaced and nothing else is; nothing is
/// added for a chain that is not tracked.
pub proof fn law_only_a_tracked_chain_is_updated(
    blocks: Map<Seq<char>, LastBlockInfo>,
    chain_name: Seq<char>,
    other: Seq<char>,
    info: LastBlockInfo,
)
    requires
        other != chain_name,
    ensures
        ({
            let after = with_block_info(blocks, chain_name, info);
            &&& after.contains_key(chain_name) <==> blocks.contains_key(chain_name)
            &&& after.contains_key(chain_name) ==> after[chain_name] == info
            &&& after.contains_key(other) <==> blocks.contains_key(other)
            &&& after.contains_key(other) ==> after[other] == blocks[other]
        }),
{
}

/// Whatever was last looked at, an own block is recorded and told as one, and one of
/// another author changes nothing that is known; with an own block no silence is
/// told, nor on a chain that is not tracked, and the next look is due half an hour
/// after the last.
pub proof fn law_blocks_are_inspected(
    state: TrackerState,
    chain_name: Seq<char>,
    own: bool,
    last_check: u64,
    now: u64,
)
    ensures
        ({
            let (after, shown) = inspected(state, chain_name, own, last_check, now);
            &&& shown.authored == own
            &&& own ==> after == with_authored_block(state, chain_name, now) && shown.silence is None
            &&& !own ==> after == state
            &&& !state.blocks.contains_key(chain_name) ==> shown.silence is None
            &&& shown.last_check == (if now - last_check >= 1_800_000_000_000 {
                now
            } else {
                last_check
            })
        }),
{
}

/// A block is the collator's own exactly where its author is known and has the
/// collator's bytes.
pub proof fn law_own_blocks_have_the_collators_bytes(author: AccountId32, collator: Seq<u8>)
    ensures
        is_own(Some(author), collator) <==> author.0@ == collator,
        !is_own(None, collator),
{
}

/// The status that was last noted of a chain is the one that is known of it, until
/// another is noted; what is known of other chains stays.
pub proof fn law_last_status_is_known(
    state: TrackerState,
    chain_name: Seq<char>,
    other: Seq<char>,
    status: TrackedCollatorStatus,
)
    requires
        other != chain_name,
    ensures
        ({
            let noted = TrackerState {
                statuses: state.statuses.insert(chain_name, status),
                ..state
            };
            &&& known_status(noted, chain_name) == Some(status)
            &&& known_status(noted, other) == known_status(state, other)
            &&& known_status(state, other) is Some <==> state.statuses.contains_key(other)
        }),
{
}

/// An account that the invulnerable collators hold is one of them, whatever the
/// candidates are; else it is a candidate exactly where a deposit of it is found,
/// with that deposit. A list that could not be had holds nobody.
pub proof fn law_tracked_status_of_an_account<T>(
    invulnerables: Option<Value<T>>,
    candidates: Option<Value<T>>,
    account: Seq<u8>,
)
    ensures
        ({
            let status = tracked_status(invulnerables, candidates, account);
            let listed = invulnerables matches Some(v) && holds_account(v, account);
            &&& !(status is Unknown)
            &&& status is Invulnerable <==> listed
            &&& status is Candidate <==> !listed && (candidates matches Some(v) && deposit_of(
                v,
                account,
            ) is Some)
            &&& status matches TrackedCollatorStatus::Candidate { deposit } ==> deposit_of(
                candidates->0,
                account,
            ) == Some(deposit)
        }),
{
}

/// A balance is its whole tokens and exactly four digits behind the point: what is
/// shown is at most the balance, and less than a step of the last digit below it.
#[verifier::rlimit(50)]
pub proof fn law_balances_have_four_digits(amount: u128, network: Network)
    ensures
        exists|whole: nat, part: Seq<char>|
            balance_text(amount, network) == #[trigger] (decimal(whole) + "."@ + part)
                && part.len() == 4 && ({
                let shown: int = 10_000 * whole + number_of(part);
                &&& network is Polkadot ==> 1_000_000 * shown <= amount < 1_000_000 * (shown + 1)
                &&& network is Kusama ==> 100_000_000 * shown <= amount < 100_000_000 * (shown + 1)
            }),
{
    lemma_powers_that_are_used();
    let one = pow10(network.spec_decimals() as nat);
    let step = pow10((network.spec_decimals() - 4) as nat);
    let whole = amount as nat / one;
    let digits = (amount as nat % one) / step;
    let part = padded(digits, 4);
    law_padded_numerals_read_back(digits, 4);
    assert(balance_text(amount, network) == decimal(whole) + "."@ + part);
    if network is Polkadot {
        assert(one == 10_000_000_000 && step == 1_000_000);
        assert(whole == amount as nat / 10_000_000_000);
        assert(digits == (amount as nat % 10_000_000_000) / 1_000_000);
        assert(digits < 10_000);
        assert(1_000_000 * (10_000 * whole + digits) <= amount < 1_000_000 * (10_000 * whole + digits
            + 1));
    } else {
        assert(one == 1_000_000_000_000 && step == 100_000_000);
        assert(whole == amount as nat / 1_000_000_000_000);
        assert(digits == (amount as nat % 1_000_000_000_000) / 100_000_000);
        assert(digits < 10_000);
        assert(100_000_000 * (10_000 * whole + digits) <= amount < 100_000_000 * (10_000 * whole
            + digits + 1));
    }
}

proof fn lemma_powers_that_are_used()
    ensures
        pow10(4) == 10_000,
        pow10(6) == 1_000_000,
        pow10(8) == 100_000_000,
        pow10(10) == 10_000_000_000,
        pow10(12) == 1_000_000_000_000,
{
    reveal_with_fuel(pow10, 13);
}

/// A block is looked at on the Subscan host that is named after its chain and
/// network, under its number; for a chain that is not on the network it is the host
/// of Polkadot.
#[verifier::rlimit(50)]
pub proof fn law_blocks_are_looked_at_on_their_chain(
    network: Network,
    chain: SystemChain,
    block_number: u32,
)
    ensures
        ({
            let chain_part = match chain {
                SystemChain::AssetHub => "assethub-"@,
                SystemChain::BridgeHub => "bridgehub-"@,
                SystemChain::Collectives => "collectives-"@,
                SystemChain::Coretime => "coretime-"@,
                SystemChain::People => "people-"@,
                SystemChain::Encointer => "encointer-"@,
            };
            let base = if (chain is Collectives && network is Kusama) || (chain is Encointer
                && network is Polkadot) {
                "https://"@ + "polkadot.subscan.io"@
            } else if network is Polkadot {
                "https://"@ + chain_part + "polkadot.subscan.io"@
            } else {
                "https://"@ + chain_part + "kusama.subscan.io"@
            };
            &&& subscan_base(network, chain) == base
            &&& block_url(network, chain, block_number) == base + "/block/"@ + decimal(
                block_number as nat,
            )
        }),
{
    reveal_strlit("https://");
    reveal_strlit("assethub-");
    reveal_strlit("bridgehub-");
    reveal_strlit("collectives-");
    reveal_strlit("coretime-");
    reveal_strlit("people-");
    reveal_strlit("encointer-");
    reveal_strlit("polkadot.subscan.io");
    reveal_strlit("kusama.subscan.io");
    reveal_strlit("https://assethub-polkadot.subscan.io");
    reveal_strlit("https://bridgehub-polkadot.subscan.io");
    reveal_strlit("https://collectives-polkadot.subscan.io");
    reveal_strlit("https://coretime-polkadot.subscan.io");
    reveal_strlit("https://people-polkadot.subscan.io");
    reveal_strlit("https://assethub-kusama.subscan.io");
    reveal_strlit("https://bridgehub-kusama.subscan.io");
    reveal_strlit("https://coretime-kusama.subscan.io");
    reveal_strlit("https://people-kusama.subscan.io");
    reveal_strlit("https://encointer-kusama.subscan.io");
    reveal_strlit("https://polkadot.subscan.io");
    let base = subscan_base(network, chain);
    match (network, chain) {
        (Network::Polkadot, SystemChain::AssetHub) => assert(base =~= "https://"@ + "assethub-"@
            + "polkadot.subscan.io"@),
        (Network::Polkadot, SystemChain::BridgeHub) => assert(base =~= "https://"@ + "bridgehub-"@
            + "polkadot.subscan.io"@),
        (Network::Polkadot, SystemChain::Collectives) => assert(base =~= "https://"@
            + "collectives-"@ + "polkadot.subscan.io"@),
        (Network::Polkadot, SystemChain::Coretime) => assert(base =~= "https://"@ + "coretime-"@
            + "polkadot.subscan.io"@),
        (Network::Polkadot, SystemChain::People) => assert(base =~= "https://"@ + "people-"@
            + "polkadot.subscan.io"@),
        (Network::Kusama, SystemChain::AssetHub) => assert(base =~= "https://"@ + "assethub-"@
            + "kusama.subscan.io"@),
        (Network::Kusama, SystemChain::BridgeHub) => assert(base =~= "https://"@ + "bridgehub-"@
            + "kusama.subscan.io"@),
        (Network::Kusama, SystemChain::Coretime) => assert(base =~= "https://"@ + "coretime-"@
            + "kusama.subscan.io"@),
        (Network::Kusama, SystemChain::People) => assert(base =~= "https://"@ + "people-"@
            + "kusama.subscan.io"@),
        (Network::Kusama, SystemChain::Encointer) => assert(base =~= "https://"@ + "encointer-"@
            + "kusama.subscan.io"@),
        _ => assert(base =~= "https://"@ + "polkadot.subscan.io"@),
    }
}

/// The words of an alert are the same whatever it is about; one of a removal tells
/// the chain, the block, the status before it and where to look, and one of a
/// demotion the chain, the block, the bond in the network's token and where to look.
pub proof fn law_status_changes_are_worded_alike()
    ensures
        exists|words: Seq<Seq<char>>|
            #[trigger] words.len() == 4 && forall|
                chain: Seq<char>,
                number: u32,
                before: TrackedCollatorStatus,
                url: Seq<char>,
            |
                #[trigger] removed_text(chain, number, before, url) == words[0] + chain + words[1]
                    + decimal(number as nat) + words[2] + before.spec_debug() + words[3] + url,
        exists|words: Seq<Seq<char>>|
            #[trigger] words.len() == 5 && forall|
                chain: Seq<char>,
                network: Network,
                number: u32,
                deposit: u128,
                url: Seq<char>,
            |
                #[trigger] demoted_text(chain, network, number, deposit, url) == words[0] + chain
                    + words[1] + decimal(number as nat) + words[2] + balance_text(deposit, network)
                    + words[3] + network.spec_symbol() + words[4] + url,
{
    let removed = seq![
        "🚨 *COLLATOR REMOVED* on *"@,
        "*\n\nOur collator was removed at block #"@,
        "\nPrevious status: "@,
        "\nCurrent status: Not a collator\n\nCheck the block for transactions that affected us:\n"@,
    ];
    assert(removed.len() == 4);
    assert forall|chain: Seq<char>, number: u32, before: TrackedCollatorStatus, url: Seq<char>|
        #[trigger] removed_text(chain, number, before, url) == removed[0] + chain + removed[1]
            + decimal(number as nat) + removed[2] + before.spec_debug() + removed[3] + url by {}
    let demoted = seq![
        "⚠️ *Status Change* on *"@,
        "*\n\nMoved from Invulnerable to Candidate at block #"@,
        "\nBond: "@,
        " "@,
        "\n\nBlock: "@,
    ];
    assert(demoted.len() == 5);
    assert forall|
        chain: Seq<char>,
        network: Network,
        number: u32,
        deposit: u128,
        url: Seq<char>,
    | #[trigger]
        demoted_text(chain, network, number, deposit, url) == demoted[0] + chain + demoted[1]
            + decimal(number as nat) + demoted[2] + balance_text(deposit, network) + demoted[3]
            + network.spec_symbol() + demoted[4] + url by {}
}

/// A collator that is none any more is told as removed with what it was, and an
/// invulnerable one that became a candidate as demoted with its new bond; both with
/// the block at which it was seen and where to look at it.
pub proof fn law_alerts_tell_the_change(
    chain_name: Seq<char>,
    network: Network,
    chain: SystemChain,
    block_number: u32,
    before: TrackedCollatorStatus,
    deposit: u128,
)
    ensures
        ({
            let url = block_url(network, chain, block_number);
            &&& before is Invulnerable || before is Candidate ==> change_alert(
                chain_name,
                network,
                chain,
                block_number,
                Some(before),
                TrackedCollatorStatus::NotCollator,
            ) == Some(removed_text(chain_name, block_number, before, url))
            &&& change_alert(
                chain_name,
                network,
                chain,
                block_number,
                Some(TrackedCollatorStatus::Invulnerable),
                TrackedCollatorStatus::Candidate { deposit },
            ) == Some(demoted_text(chain_name, network, block_number, deposit, url))
        }),
{
}

/// A tracker that is asked to stop does so, wherever it looks; else it tries its
/// endpoints in order from the first one, asks the one that it reaches for blocks,
/// looks at each of them, and gets ready again after 5 seconds where the blocks
/// cannot be had or end, after 10 where one is an error, and after 30 where no
/// endpoint can be reached. It marks the chain as disconnected for an error alone.
pub proof fn law_tracker_goes_on_until_asked_to_stop(
    endpoints: usize,
    endpoint: usize,
    flag: bool,
)
    ensures
        next_action(endpoints, TrackerEvent::Ready { shutdown: true }) is Stop,
        next_action(endpoints, TrackerEvent::Begun { valid_address: flag, shutdown: true }) is Stop,
        next_action(endpoints, TrackerEvent::Received { shutdown: true, block: flag }) is Stop,
        next_action(endpoints, TrackerEvent::Ready { shutdown: false }) == (if endpoints > 0 {
            TrackerAction::Connect { endpoint: 0 }
        } else {
            TrackerAction::GiveUp { seconds: 30 }
        }),
        next_action(endpoints, TrackerEvent::Tried { endpoint, connected: true }) is Subscribe,
        next_action(endpoints, TrackerEvent::Tried { endpoint, connected: false }) == (if endpoint
            + 1 < endpoints {
            TrackerAction::Connect { endpoint: (endpoint + 1) as usize }
        } else {
            TrackerAction::GiveUp { seconds: 30 }
        }),
        next_action(endpoints, TrackerEvent::Subscribed { ok: true }) is Listen,
        next_action(endpoints, TrackerEvent::Received { shutdown: false, block: true }) is Inspect,
        next_action(endpoints, TrackerEvent::Received { shutdown: false, block: false }) == (
        TrackerAction::Retry { disconnected: true, seconds: 10 }),
        next_action(endpoints, TrackerEvent::Subscribed { ok: false }) == (TrackerAction::Retry {
            disconnected: false,
            seconds: 5,
        }),
        next_action(endpoints, TrackerEvent::Ended) == (TrackerAction::Retry {
            disconnected: false,
            seconds: 5,
        }),
{
}

/// The tracker shows a status in the words in which the monitor does.
pub proof fn law_tracked_statuses_are_shown(status: TrackedCollatorStatus)
    ensures
        status is Invulnerable ==> status.spec_debug() == CollatorStatus::Invulnerable.spec_debug(),
        status is NotCollator ==> status.spec_debug() == CollatorStatus::NotCollator.spec_debug(),
        status matches TrackedCollatorStatus::Candidate { deposit } ==> status.spec_debug() == (
        CollatorStatus::Candidate { deposit }).spec_debug(),
        status is Unknown ==> status.spec_debug() == "Unknown"@,
{
}

/// Whether it is connected or not, a chain keeps its last block and the beginning of
/// its tracking, and so the silence that is told of it; it has an error exactly where
/// it is not connected.
pub proof fn law_connection_does_not_end_the_silence(
    before: TrackerState,
    after: TrackerState,
    chain_name: Seq<char>,
    error: Option<Seq<char>>,
    last_check: u64,
    now: u64,
)
    requires
        is_marked(before, after, chain_name, error),
        before.blocks.contains_key(chain_name),
    ensures
        ({
            let info = after.blocks[chain_name];
            &&& after.blocks.contains_key(chain_name)
            &&& info.is_connected <==> error is None
            &&& info.last_error is None <==> error is None
            &&& info.last_authored == before.blocks[chain_name].last_authored
            &&& info.tracking_since == before.blocks[chain_name].tracking_since
            &&& inspected(after, chain_name, false, last_check, now).1 == inspected(
                before,
                chain_name,
                false,
                last_check,
                now,
            ).1
        }),
{
    assert(after.blocks.contains_key(chain_name));
}

} // verus!
