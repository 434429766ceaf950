//! Monitoring logic for collator status and automatic re-registration.
use crate::account::{ss58_encoded, AccountId32};
use crate::block_tracker::LastBlockInfo;
use crate::bonds::{find_lowest_bond, find_rank, law_lowest_bond, lowest_bond, rank_of};
use crate::calls::{is_proxied, proxied_args, DynamicCall};
use crate::chain_client::{
    bonds_via_proxy, is_bond_call, is_register_call, registers_via_proxy, ChainClient,
    CollatorStatus,
};
use crate::config::{
    chain_key, chain_supports_proxy, runs_on, spec_default_rpc_url, supports_proxy, AppConfig,
    Network, SystemChain,
};
use crate::decode::{candidate_views, Candidate, CandidateInfo};
use crate::messages::{
    bond_updated_text, cannot_compete_text, error_text, insufficient_funds_text,
    manual_action_text, registered_text, resolved_text, ChainSlotInfo,
};
use crate::seed::{parse_seed, seed_gives, SeedError};
use crate::slack::{
    after_alert, fresh, may_notify, rate_key, text_view, webhook_notifier_of, without_issue,
    without_limits, AlertKind, SlackNotifier, SlackState,
};
use crate::text::{
    decimal, decimal_text, law_only_zeros_are_insignificant, law_padded_numerals_read_back,
    lemma_number_split, lemma_pow10_monotone, number_of, padded, padded_text,
    pow10, pow10_exec, significant_len, significant_text_len, two, views,
};
use crate::value::as_u128;
use subxt_signer::sr25519::Keypair;
use vstd::prelude::*;

verus! {

/// A balance in whole tokens, with as many digits behind the point as matter, at
/// most four, and the token's symbol.
pub open spec fn balance_text(balance: u128, decimals: u32, symbol: Seq<char>) -> Seq<char> {
    let one = pow10(decimals as nat);
    let whole = decimal(balance as nat / one);
    let fraction = balance as nat % one;
    if fraction == 0 {
        whole + " "@ + symbol
    } else {
        let digits = padded(fraction, decimals as nat);
        let shown: nat = if significant_len(digits) < 4 {
            significant_len(digits)
        } else {
            4
        };
        whole + "."@ + digits.take(shown as int) + " "@ + symbol
    }
}

/// Format a balance with proper decimal places and symbol.
pub fn format_balance(balance: u128, decimals: u32, symbol: &str) -> (r: String)
    requires
        decimals <= 38,
    ensures
        r@ == balance_text(balance, decimals, symbol@),
{
    let divisor: u128 = pow10_exec(decimals);
    let whole: u128 = balance / divisor;
    let fraction: u128 = balance % divisor;
    let mut r = decimal_text(whole);
    if fraction == 0 {
        r.append(" ");
        r.append(symbol);
        r
    } else {
        let digits = padded_text(fraction, decimals as usize);
        let significant: usize = significant_text_len(digits.as_str());
        let shown: usize = if significant < 4 {
            significant
        } else {
            4
        };
        r.append(".");
        r.append(digits.as_str().substring_char(0, shown));
        assert(digits@.subrange(0, shown as int) =~= digits@.take(shown as int));
        r.append(" ");
        r.append(symbol);
        r
    }
}

/// Result of monitoring a single chain.
#[derive(Debug)]
pub struct MonitorResult {
    pub chain_name: String,
    pub status: MonitorStatus,
}

/// What monitoring a chain came to.
#[derive(Debug)]
pub enum MonitorStatus {
    /// Already a collator (invulnerable or candidate)
    AlreadyCollator(CollatorStatus),
    /// Successfully registered as candidate
    RegisteredAsCandidate { bond: u128, tx_hash: String },
    /// Successfully updated bond to higher amount
    UpdatedBond { old_bond: u128, new_bond: u128, tx_hash: String },
    /// Could not register due to insufficient funds for minimum bond
    InsufficientFunds { available: u128, required: u128 },
    /// Could not compete - bond too low to beat lowest candidate
    CannotCompete { available: u128, lowest_candidate: u128, needed: u128 },
    /// Manual action required (chain doesn't support proxy or is disabled)
    ManualActionRequired { reason: String, current_status: CollatorStatus },
    /// Error occurred during monitoring
    Error(String),
    /// Chain was skipped (not enabled or not valid for network)
    Skipped(String),
}

/// What is to be done on a chain.
#[derive(Debug, Clone, Copy, PartialEq, Eq, Structural)]
pub enum Decision {
    /// Nothing: the account is a collator
    Nothing,
    /// Raise the bond
    RaiseBond { old_bond: u128, new_bond: u128 },
    /// Ask the operator to raise the bond
    AskForBond { old_bond: u128, new_bond: u128 },
    /// Report that the funds are below the minimum bond
    InsufficientFunds { available: u128, required: u128 },
    /// Report that the bond would not beat the lowest candidate's
    CannotCompete { available: u128, lowest_candidate: u128, needed: u128 },
    /// Register as a candidate, and raise the bond to what is available
    Register { bond: u128, candidacy_bond: u128 },
    /// Ask the operator to register
    AskForRegistration { bond: u128 },
}

/// What can be bonded of a balance: all but the reserve.
pub open spec fn available_for_bond(network: Network, free_balance: u128) -> u128 {
    if free_balance >= network.spec_reserve() {
        (free_balance - network.spec_reserve()) as u128
    } else {
        0
    }
}

/// The least amount that a bond is raised by: 0.1 DOT or 0.01 KSM.
pub open spec fn min_increase(network: Network) -> u128 {
    match network {
        Network::Polkadot => 1_000_000_000,
        Network::Kusama => 10_000_000_000,
    }
}

/// A bond that is raised by an amount, as far as numbers go.
pub open spec fn raised(bond: u128, by: u128) -> u128 {
    if bond + by > u128::MAX {
        u128::MAX
    } else {
        (bond + by) as u128
    }
}

/// What is to be done, on a chain where the collator may act itself or, if
/// `read_only`, only the operator may.
pub open spec fn decision(
    network: Network,
    read_only: bool,
    status: CollatorStatus,
    free_balance: u128,
    candidacy_bond: u128,
    candidates: Seq<Candidate>,
) -> Decision {
    let available = available_for_bond(network, free_balance);
    match status {
        CollatorStatus::Invulnerable => Decision::Nothing,
        CollatorStatus::Candidate { deposit } => {
            let new_bond = raised(deposit, available);
            if available < min_increase(network) {
                Decision::Nothing
            } else if read_only {
                Decision::AskForBond { old_bond: deposit, new_bond }
            } else {
                Decision::RaiseBond { old_bond: deposit, new_bond }
            }
        },
        CollatorStatus::NotCollator => {
            let lowest = lowest_bond(candidates);
            if available < candidacy_bond {
                Decision::InsufficientFunds { available, required: candidacy_bond }
            } else if lowest is Some && available <= lowest->0 {
                Decision::CannotCompete {
                    available,
                    lowest_candidate: lowest->0,
                    needed: (lowest->0 - available + 1) as u128,
                }
            } else if read_only {
                Decision::AskForRegistration { bond: available }
            } else {
                Decision::Register { bond: available, candidacy_bond }
            }
        },
    }
}

/// Whether the missing amount, if one is missing, is a number that can be written.
pub open spec fn shortfall_fits(
    network: Network,
    free_balance: u128,
    candidates: Seq<Candidate>,
) -> bool {
    lowest_bond(candidates) == Some(u128::MAX) ==> available_for_bond(network, free_balance) > 0
}

/// Decide what is to be done on a chain.
pub fn decide(
    network: Network,
    read_only: bool,
    status: CollatorStatus,
    free_balance: u128,
    candidacy_bond: u128,
    candidates: &Vec<CandidateInfo>,
) -> (r: Decision)
    requires
        status is NotCollator && candidacy_bond == 0 ==> shortfall_fits(
            network,
            free_balance,
            candidate_views(candidates@),
        ),
    ensures
        r == decision(
            network,
            read_only,
            status,
            free_balance,
            candidacy_bond,
            candidate_views(candidates@),
        ),
{
    let available: u128 = free_balance.saturating_sub(network.reserve_amount());
    match status {
        CollatorStatus::Invulnerable => Decision::Nothing,
        CollatorStatus::Candidate { deposit } => {
            let new_bond: u128 = deposit.saturating_add(available);
            let least: u128 = match network {
                Network::Polkadot => 1_000_000_000,
                Network::Kusama => 10_000_000_000,
            };
            if available < least {
                Decision::Nothing
            } else if read_only {
                Decision::AskForBond { old_bond: deposit, new_bond }
            } else {
                Decision::RaiseBond { old_bond: deposit, new_bond }
            }
        },
        CollatorStatus::NotCollator => {
            if available < candidacy_bond {
                return Decision::InsufficientFunds { available, required: candidacy_bond };
            }
            if let Some(lowest) = find_lowest_bond(candidates) {
                if available <= lowest {
                    let needed: u128 = lowest - available + 1;
                    return Decision::CannotCompete {
                        available,
                        lowest_candidate: lowest,
                        needed,
                    };
                }
            }
            if read_only {
                Decision::AskForRegistration { bond: available }
            } else {
                Decision::Register { bond: available, candidacy_bond }
            }
        },
    }
}

/// How a chain is to be monitored.
#[derive(Debug)]
pub enum ChainPlan {
    /// Not at all, for a reason
    Skip { reason: String },
    /// Over an endpoint, for a collator; only the operator may act if `read_only`
    Check { read_only: bool, rpc_url: String, collator_address: String },
}

/// Whether a chain is enabled: it is unless it is configured otherwise.
pub open spec fn is_enabled(config: AppConfig, network: Network, chain: SystemChain) -> bool {
    match config.spec_chain_config(network, chain) {
        Some(c) => c.enabled,
        None => true,
    }
}

/// How a chain is to be monitored.
pub open spec fn plans(
    config: AppConfig,
    network: Network,
    chain: SystemChain,
    r: ChainPlan,
) -> bool {
    if runs_on(chain, network) {
        r matches ChainPlan::Check { read_only, rpc_url, collator_address } && read_only == !(
        supports_proxy(chain) && is_enabled(config, network, chain)) && rpc_url@
            == config.spec_rpc_url(network, chain) && collator_address@
            == config.spec_collator_address(network)
    } else {
        r matches ChainPlan::Skip { reason } && reason@ == "Chain not available on "@
            + network.spec_name()
    }
}

/// How a chain is to be monitored.
pub fn plan_chain(config: &AppConfig, network: Network, chain: SystemChain) -> (r: ChainPlan)
    ensures
        plans(*config, network, chain, r),
{
    if !chain.is_on(network) {
        return ChainPlan::Skip { reason: two("Chain not available on ", network.name()) };
    }
    let enabled = match config.chain_config(network, chain) {
        Some(c) => c.enabled,
        None => true,
    };
    ChainPlan::Check {
        read_only: !chain_supports_proxy(chain) || !enabled,
        rpc_url: config.rpc_url(network, chain).to_string(),
        collator_address: config.collator_address(network).to_string(),
    }
}

/// Why the operator has to act on a chain, and to what end.
pub open spec fn manual_reason(chain: SystemChain, what: Seq<char>) -> Seq<char> {
    if supports_proxy(chain) {
        "Chain disabled - "@ + what
    } else {
        "No proxy support - "@ + what
    }
}

fn manual_reason_text(chain: SystemChain, what: &str) -> (r: String)
    ensures
        r@ == manual_reason(chain, what@),
{
    if chain_supports_proxy(chain) {
        two("Chain disabled - ", what)
    } else {
        two("No proxy support - ", what)
    }
}

/// What an operator is asked for: a higher bond.
pub open spec fn bond_action(network: Network, old_bond: u128, new_bond: u128) -> Seq<char> {
    "Bond can be increased from "@ + balance_text(
        old_bond,
        network.spec_decimals(),
        network.spec_symbol(),
    ) + " to "@ + balance_text(new_bond, network.spec_decimals(), network.spec_symbol())
}

/// What an operator is asked for: a registration.
pub open spec fn registration_action(network: Network, bond: u128) -> Seq<char> {
    "Registration required with bond "@ + balance_text(
        bond,
        network.spec_decimals(),
        network.spec_symbol(),
    )
}

fn bond_action_text(network: Network, old_bond: u128, new_bond: u128) -> (r: String)
    ensures
        r@ == bond_action(network, old_bond, new_bond),
{
    let mut r = "Bond can be increased from ".to_string();
    r.append(format_balance(old_bond, network.decimals(), network.symbol()).as_str());
    r.append(" to ");
    r.append(format_balance(new_bond, network.decimals(), network.symbol()).as_str());
    r
}

/// The calls that an operator is given for a registration: one that registers, and
/// one that sets the bond.
pub open spec fn registration_calls_text(register: Seq<char>, update_bond: Seq<char>) -> Seq<char> {
    "1. Register: "@ + register + "\n2. Update bond: "@ + update_bond
}

/// The calls that an operator is given for a registration.
pub fn registration_call_info(register_call: &str, update_bond_call: &str) -> (r: String)
    ensures
        r@ == registration_calls_text(register_call@, update_bond_call@),
{
    let mut r = "1. Register: ".to_string();
    r.append(register_call);
    r.append("\n2. Update bond: ");
    r.append(update_bond_call);
    r
}

/// What an operator is given with a decision, from the encoded calls.
pub open spec fn call_data_of(decision: Decision, encoded: Seq<Seq<char>>) -> Seq<char> {
    match decision {
        Decision::AskForRegistration { bond: _ } => if encoded.len() == 2 {
            registration_calls_text(encoded[0], encoded[1])
        } else {
            Seq::empty()
        },
        Decision::AskForBond { old_bond: _, new_bond: _ } => if encoded.len() == 1 {
            encoded[0]
        } else {
            Seq::empty()
        },
        _ => Seq::empty(),
    }
}

/// What an operator is given with a decision, from the encoded calls.
pub fn operator_call_data(decision: Decision, encoded: &Vec<String>) -> (r: String)
    ensures
        r@ == call_data_of(decision, views(encoded@)),
{
    match decision {
        Decision::AskForRegistration { bond: _ } => {
            if encoded.len() == 2 {
                return registration_call_info(encoded[0].as_str(), encoded[1].as_str());
            }
        },
        Decision::AskForBond { old_bond: _, new_bond: _ } => {
            if encoded.len() == 1 {
                return encoded[0].clone();
            }
        },
        _ => {},
    }
    let r = String::new();
    assert(r@ =~= Seq::<char>::empty());
    r
}

/// What monitoring a chain comes to where nothing is submitted.
pub open spec fn reports(
    chain: SystemChain,
    status: CollatorStatus,
    decision: Decision,
    r: Option<MonitorStatus>,
) -> bool {
    match decision {
        Decision::Nothing => r == Some(MonitorStatus::AlreadyCollator(status)),
        Decision::RaiseBond { old_bond: _, new_bond: _ } => r is None,
        Decision::Register { bond: _, candidacy_bond: _ } => r is None,
        Decision::AskForBond { old_bond: _, new_bond: _ } => {
            r matches Some(MonitorStatus::ManualActionRequired { reason, current_status })
                && reason@ == manual_reason(chain, "bond update required"@) && current_status
                == status
        },
        Decision::AskForRegistration { bond: _ } => {
            r matches Some(MonitorStatus::ManualActionRequired { reason, current_status })
                && reason@ == manual_reason(chain, "registration required"@) && current_status
                == status
        },
        Decision::InsufficientFunds { available, required } => r == Some(
            MonitorStatus::InsufficientFunds { available, required },
        ),
        Decision::CannotCompete { available, lowest_candidate, needed } => r == Some(
            MonitorStatus::CannotCompete { available, lowest_candidate, needed },
        ),
    }
}

/// What monitoring a chain comes to where nothing is submitted; none where
/// something is.
pub fn report_of(chain: SystemChain, status: CollatorStatus, decision: Decision) -> (r: Option<
    MonitorStatus,
>)
    ensures
        reports(chain, status, decision, r),
{
    match decision {
        Decision::Nothing => Some(MonitorStatus::AlreadyCollator(status)),
        Decision::RaiseBond { old_bond: _, new_bond: _ } => None,
        Decision::Register { bond: _, candidacy_bond: _ } => None,
        Decision::AskForBond { old_bond: _, new_bond: _ } => Some(
            MonitorStatus::ManualActionRequired {
                reason: manual_reason_text(chain, "bond update required"),
                current_status: status,
            },
        ),
        Decision::AskForRegistration { bond: _ } => Some(
            MonitorStatus::ManualActionRequired {
                reason: manual_reason_text(chain, "registration required"),
                current_status: status,
            },
        ),
        Decision::InsufficientFunds { available, required } => Some(
            MonitorStatus::InsufficientFunds { available, required },
        ),
        Decision::CannotCompete { available, lowest_candidate, needed } => Some(
            MonitorStatus::CannotCompete { available, lowest_candidate, needed },
        ),
    }
}

/// How a collator's status is told when an issue is resolved.
pub open spec fn status_text(network: Network, status: CollatorStatus) -> Seq<char> {
    match status {
        CollatorStatus::Invulnerable => "Invulnerable"@,
        CollatorStatus::Candidate { deposit } => "Candidate (bond: "@ + balance_text(
            deposit,
            network.spec_decimals(),
            network.spec_symbol(),
        ) + ")"@,
        CollatorStatus::NotCollator => "Not a collator"@,
    }
}

/// How a collator's status is told when an issue is resolved.
pub fn status_message(network: Network, status: CollatorStatus) -> (r: String)
    ensures
        r@ == status_text(network, status),
{
    match status {
        CollatorStatus::Invulnerable => "Invulnerable".to_string(),
        CollatorStatus::Candidate { deposit } => {
            let mut r = "Candidate (bond: ".to_string();
            r.append(format_balance(deposit, network.decimals(), network.symbol()).as_str());
            r.append(")");
            r
        },
        CollatorStatus::NotCollator => "Not a collator".to_string(),
    }
}

/// What a monitor works with: its configuration, the proxy's key pair and what
/// its notifier knows.
pub struct MonitorState {
    pub config: AppConfig,
    pub signer: Keypair,
    pub slack: SlackState,
}

/// Monitor and manage collator status across all chains.
pub struct CollatorMonitor {
    config: AppConfig,
    proxy_signer: Keypair,
    slack: SlackNotifier,
}

impl View for CollatorMonitor {
    type V = MonitorState;

    closed spec fn view(&self) -> MonitorState {
        MonitorState { config: self.config, signer: self.proxy_signer, slack: self.slack@ }
    }
}

/// The alert that a decision asks for, if any: its kind and its text.
pub open spec fn decision_alert(
    network: Network,
    chain_name: Seq<char>,
    collator: Seq<char>,
    decision: Decision,
    call_data: Seq<char>,
    onchain: Seq<Seq<char>>,
) -> Option<(AlertKind, Seq<char>)> {
    let symbol = network.spec_symbol();
    let decimals = network.spec_decimals();
    match decision {
        Decision::InsufficientFunds { available, required } => Some(
            (
                AlertKind::InsufficientFunds,
                insufficient_funds_text(
                    chain_name,
                    collator,
                    available,
                    required,
                    symbol,
                    decimals,
                    onchain,
                ),
            ),
        ),
        Decision::CannotCompete { available, lowest_candidate, needed } => Some(
            (
                AlertKind::CannotCompete,
                cannot_compete_text(
                    chain_name,
                    collator,
                    available,
                    lowest_candidate,
                    needed,
                    symbol,
                    decimals,
                    onchain,
                ),
            ),
        ),
        Decision::AskForBond { old_bond, new_bond } => Some(
            (
                AlertKind::ManualAction,
                manual_action_text(
                    chain_name,
                    collator,
                    bond_action(network, old_bond, new_bond),
                    Some(call_data),
                    onchain,
                ),
            ),
        ),
        Decision::AskForRegistration { bond } => Some(
            (
                AlertKind::ManualAction,
                manual_action_text(
                    chain_name,
                    collator,
                    registration_action(network, bond),
                    Some(call_data),
                    onchain,
                ),
            ),
        ),
        _ => None,
    }
}

/// How the chain answered in the course of a registration: with the hash of a
/// transaction, or with an error.
#[derive(Debug)]
pub enum RegistrationProgress {
    /// The registration was submitted; another call may be left, which raises the
    /// bond
    Registered { answer: Result<String, String>, bond_call: Option<DynamicCall> },
    /// The call that raises the bond was submitted, after a registration with the
    /// given hash
    BondRaised { tx_hash: String, answer: Result<String, String> },
}

/// What a registration does next.
#[derive(Debug)]
pub enum RegistrationStep {
    /// It was refused: monitoring fails with the error
    Refused { error: String },
    /// Submit the call, and tell how it was answered
    RaiseBond { call: DynamicCall, tx_hash: String },
    /// Send the text; monitoring came to the status
    Done { status: MonitorStatus, text: String },
}

/// What a registration has come to.
pub enum RegistrationOutcome {
    /// It was refused with an error
    Refused(String),
    /// It stands under a hash, and a call is left
    BondNext(DynamicCall, String),
    /// It stands under a hash, and nothing is left
    Registered(String),
}

/// What a registration has come to after an answer. Whether the bond could be
/// raised does not matter to it.
pub open spec fn registration_outcome(progress: RegistrationProgress) -> RegistrationOutcome {
    match progress {
        RegistrationProgress::Registered { answer, bond_call } => match answer {
            Err(e) => RegistrationOutcome::Refused(e),
            Ok(hash) => match bond_call {
                Some(call) => RegistrationOutcome::BondNext(call, hash),
                None => RegistrationOutcome::Registered(hash),
            },
        },
        RegistrationProgress::BondRaised { tx_hash, answer: _ } => {
            RegistrationOutcome::Registered(tx_hash)
        },
    }
}

/// Whether a text, or none, is what is sent once monitoring came to a status, and
/// what is noted with it.
pub open spec fn settles(
    before: MonitorState,
    after: MonitorState,
    network: Network,
    chain: SystemChain,
    status: MonitorStatus,
    r: Option<String>,
) -> bool {
    let chain_name = chain.spec_display_name(network);
    match r {
        Some(text) => {
            &&& before.slack.outstanding.contains(chain_name)
            &&& status is AlreadyCollator
            &&& text@ == resolved_text(
                chain_name,
                before.config.spec_collator_address(network),
                status_text(network, status->AlreadyCollator_0),
            )
            &&& after == MonitorState {
                slack: without_issue(before.slack, chain_name),
                ..before
            }
        },
        None => after == before && !(before.slack.outstanding.contains(chain_name)
            && status is AlreadyCollator),
    }
}

impl CollatorMonitor {
    /// Create a new collator monitor.
    pub fn new(config: AppConfig) -> (r: Result<CollatorMonitor, SeedError>)
        ensures
            match r {
                Ok(m) => m@.config == config && seed_gives(config.proxy_seed@, Ok(m@.signer))
                    && m@.slack == fresh(
                    text_view(config.slack_webhook_url),
                    None,
                    None,
                    views(config.slack_user_ids_onchain@),
                    views(config.slack_user_ids_ops@),
                ),
                Err(e) => seed_gives(config.proxy_seed@, Err(e)),
            },
    {
        match parse_seed(config.proxy_seed.as_str()) {
            Ok(proxy_signer) => {
                let slack = webhook_notifier_of(&config);
                Ok(CollatorMonitor { config, proxy_signer, slack })
            },
            Err(e) => Err(e),
        }
    }

    /// The configuration.
    pub fn config(&self) -> (r: &AppConfig)
        ensures
            *r == self@.config,
    {
        &self.config
    }

    /// The key pair that signs for the collator.
    pub fn proxy_signer(&self) -> (r: &Keypair)
        ensures
            *r == self@.signer,
    {
        &self.proxy_signer
    }

    /// Get reference to slack notifier (for summary sending).
    pub fn slack(&self) -> (r: &SlackNotifier)
        ensures
            r@ == self@.slack,
    {
        &self.slack
    }

    /// Get the summary interval from config.
    pub fn summary_interval_secs(&self) -> (r: u64)
        ensures
            r == self@.config.summary_interval_secs,
    {
        self.config.summary_interval_secs
    }

    /// How a chain is to be monitored.
    pub fn monitor_chain(&self, network: Network, chain: SystemChain) -> (r: ChainPlan)
        ensures
            plans(self@.config, network, chain, r),
    {
        plan_chain(&self.config, network, chain)
    }

    /// Take note of a decision that has to be told, and give the text to send, if
    /// it may be sent.
    pub fn announce(
        &mut self,
        client: &ChainClient,
        collator: &AccountId32,
        decision: Decision,
        call_data: &str,
        now: u64,
    ) -> (r: Option<String>)
        ensures
            final(self)@.config == old(self)@.config,
            final(self)@.signer == old(self)@.signer,
            ({
                let chain_name = client@.1.spec_display_name(client@.0);
                let before = old(self)@.slack;
                match decision_alert(
                    client@.0,
                    chain_name,
                    ss58_encoded(collator@),
                    decision,
                    call_data@,
                    before.onchain,
                ) {
                    Some((kind, text)) => {
                        &&& final(self)@.slack == after_alert(before, chain_name, kind, now)
                        &&& text_view(r) == if may_notify(before, rate_key(chain_name, kind), now) {
                            Some(text)
                        } else {
                            None
                        }
                    },
                    None => r is None && final(self)@.slack == before,
                }
            }),
    {
        let address = collator.address();
        let network = client.network();
        match decision {
            Decision::InsufficientFunds {
                available,
                required,
            } => self.slack.alert_insufficient_funds(
                client.chain_name(),
                address.as_str(),
                available,
                required,
                network.symbol(),
                network.decimals(),
                now,
            ),
            Decision::CannotCompete {
                available,
                lowest_candidate,
                needed,
            } => self.slack.alert_cannot_compete(
                client.chain_name(),
                address.as_str(),
                available,
                lowest_candidate,
                needed,
                network.symbol(),
                network.decimals(),
                now,
            ),
            Decision::AskForBond {
                old_bond,
                new_bond,
            } => self.slack.alert_manual_action_required(
                client.chain_name(),
                address.as_str(),
                bond_action_text(network, old_bond, new_bond).as_str(),
                Some(call_data),
                now,
            ),
            Decision::AskForRegistration { bond } => {
                let balance = format_balance(bond, network.decimals(), network.symbol());
                let action = two("Registration required with bond ", balance.as_str());
                self.slack.alert_manual_action_required(
                    client.chain_name(),
                    address.as_str(),
                    action.as_str(),
                    Some(call_data),
                    now,
                )
            },
            _ => None,
        }
    }

    /// Take note of a bond that was raised: what monitoring comes to, and the text
    /// to send.
    pub fn bond_raised(
        &mut self,
        client: &ChainClient,
        collator: &AccountId32,
        old_bond: u128,
        new_bond: u128,
        tx_hash: String,
    ) -> (r: (MonitorStatus, String))
        ensures
            r.0 == (MonitorStatus::UpdatedBond { old_bond, new_bond, tx_hash }),
            r.1@ == bond_updated_text(
                client@.1.spec_display_name(client@.0),
                ss58_encoded(collator@),
                old_bond,
                new_bond,
                client@.0.spec_symbol(),
                client@.0.spec_decimals(),
            ),
            final(self)@ == (MonitorState {
                slack: without_limits(
                    old(self)@.slack,
                    client@.1.spec_display_name(client@.0),
                ),
                ..old(self)@
            }),
    {
        let network = client.network();
        let text = self.slack.notify_bond_update(
            client.chain_name(),
            collator.address().as_str(),
            old_bond,
            new_bond,
            network.symbol(),
            network.decimals(),
        );
        (MonitorStatus::UpdatedBond { old_bond, new_bond, tx_hash }, text)
    }

    /// Take note of a registration: what monitoring comes to, and the text to send.
    pub fn registered(
        &mut self,
        client: &ChainClient,
        collator: &AccountId32,
        bond: u128,
        tx_hash: String,
    ) -> (r: (MonitorStatus, String))
        ensures
            r.0 == (MonitorStatus::RegisteredAsCandidate { bond, tx_hash }),
            r.1@ == registered_text(
                client@.1.spec_display_name(client@.0),
                ss58_encoded(collator@),
                bond,
                client@.0.spec_symbol(),
                client@.0.spec_decimals(),
            ),
            final(self)@ == (MonitorState {
                slack: without_limits(
                    without_issue(old(self)@.slack, client@.1.spec_display_name(client@.0)),
                    client@.1.spec_display_name(client@.0),
                ),
                ..old(self)@
            }),
    {
        let network = client.network();
        let text = self.slack.notify_registration_success(
            client.chain_name(),
            collator.address().as_str(),
            bond,
            network.symbol(),
            network.decimals(),
        );
        (MonitorStatus::RegisteredAsCandidate { bond, tx_hash }, text)
    }

    /// Go on with a registration, after an answer of the chain.
    pub fn attempt_registration(
        &mut self,
        client: &ChainClient,
        collator: &AccountId32,
        bond: u128,
        progress: RegistrationProgress,
    ) -> (r: RegistrationStep)
        ensures
            ({
                let chain_name = client@.1.spec_display_name(client@.0);
                let told = registered_text(
                    chain_name,
                    ss58_encoded(collator@),
                    bond,
                    client@.0.spec_symbol(),
                    client@.0.spec_decimals(),
                );
                let noted = MonitorState {
                    slack: without_limits(
                        without_issue(old(self)@.slack, chain_name),
                        chain_name,
                    ),
                    ..old(self)@
                };
                match registration_outcome(progress) {
                    RegistrationOutcome::Refused(e) => r == RegistrationStep::Refused { error: e }
                        && final(self)@ == old(self)@,
                    RegistrationOutcome::BondNext(call, hash) => r == (RegistrationStep::RaiseBond {
                        call,
                        tx_hash: hash,
                    }) && final(self)@ == old(self)@,
                    RegistrationOutcome::Registered(hash) => {
                        &&& r matches RegistrationStep::Done { status, text }
                        &&& status == (MonitorStatus::RegisteredAsCandidate { bond, tx_hash: hash })
                        &&& text@ == told
                        &&& final(self)@ == noted
                    },
                }
            }),
    {
        let hash = match progress {
            RegistrationProgress::Registered { answer, bond_call } => match answer {
                Err(error) => {
                    return RegistrationStep::Refused { error };
                },
                Ok(tx_hash) => match bond_call {
                    Some(call) => {
                        return RegistrationStep::RaiseBond { call, tx_hash };
                    },
                    None => tx_hash,
                },
            },
            RegistrationProgress::BondRaised { tx_hash, answer: _ } => tx_hash,
        };
        let (status, text) = self.registered(client, collator, bond, hash);
        RegistrationStep::Done { status, text }
    }

    /// Take note of what monitoring a chain came to: the text to send, where the
    /// chain had an issue and the account is a collator now.
    pub fn settle(
        &mut self,
        network: Network,
        chain: SystemChain,
        status: &MonitorStatus,
    ) -> (r: Option<String>)
        ensures
            ({
                let chain_name = chain.spec_display_name(network);
                let before = old(self)@.slack;
                if before.outstanding.contains(chain_name) && *status is AlreadyCollator {
                    &&& final(self)@ == (MonitorState {
                        slack: without_issue(before, chain_name),
                        ..old(self)@
                    })
                    &&& text_view(r) == Some(
                        resolved_text(
                            chain_name,
                            old(self)@.config.spec_collator_address(network),
                            status_text(network, status->AlreadyCollator_0),
                        ),
                    )
                } else {
                    r is None && final(self)@ == old(self)@
                }
            }),
            settles(old(self)@, final(self)@, network, chain, *status, r),
    {
        let chain_name = chain.display_name(network);
        if !self.slack.has_outstanding_issue(chain_name.as_str()) {
            return None;
        }
        match status {
            MonitorStatus::AlreadyCollator(s) => {
                let text = status_message(network, *s);
                let collator = self.config.collator_address(network).to_string();
                self.slack.notify_issue_resolved(
                    chain_name.as_str(),
                    collator.as_str(),
                    text.as_str(),
                )
            },
            _ => None,
        }
    }

    /// Take note of an error on a chain: what monitoring comes to, and the text to
    /// send, if it may be sent.
    pub fn failed(&mut self, network: Network, chain: SystemChain, error: String, now: u64) -> (r: (
        MonitorStatus,
        Option<String>,
    ))
        ensures
            r.0 == MonitorStatus::Error(error),
            ({
                let chain_name = chain.spec_display_name(network);
                let before = old(self)@.slack;
                &&& final(self)@ == (MonitorState {
                    slack: after_alert(before, chain_name, AlertKind::Error, now),
                    ..old(self)@
                })
                &&& text_view(r.1) == if may_notify(
                    before,
                    rate_key(chain_name, AlertKind::Error),
                    now,
                ) {
                    Some(error_text(chain_name, error@))
                } else {
                    None
                }
            }),
    {
        let chain_name = chain.display_name(network);
        let text = self.slack.notify_error(chain_name.as_str(), error.as_str(), now);
        (MonitorStatus::Error(error), text)
    }
}

/// What is read of a chain before something is decided.
#[derive(Debug)]
pub struct ChainFacts {
    pub free_balance: u128,
    pub candidacy_bond: u128,
    pub candidates: Vec<CandidateInfo>,
}

/// What monitoring a chain does next.
#[derive(Debug)]
pub enum MonitorStep {
    /// Read the balance, the candidacy bond and the candidates
    ReadFacts,
    /// Announce the decision, with the calls that the operator may make; monitoring
    /// came to the status
    Report { decision: Decision, calls: Vec<DynamicCall>, status: MonitorStatus },
    /// Submit the call; then the bond is raised
    RaiseBond { old_bond: u128, new_bond: u128, call: DynamicCall },
    /// Submit the call; then the collator is registered. Where there is another
    /// call, submit it too, whether or not it succeeds
    Register { bond: u128, call: DynamicCall, bond_call: Option<DynamicCall> },
}

/// The calls that an operator is asked to make, if any.
pub open spec fn are_operator_calls(decision: Decision, calls: Seq<DynamicCall>) -> bool {
    match decision {
        Decision::AskForBond { old_bond: _, new_bond } => calls.len() == 1 && is_bond_call(
            calls[0],
            new_bond,
        ),
        Decision::AskForRegistration { bond } => calls.len() == 2 && is_register_call(calls[0])
            && is_bond_call(calls[1], bond),
        _ => calls.len() == 0,
    }
}

/// What monitoring a chain does next where this was decided: every call that is
/// submitted is made for the collator through a proxy that may not transfer funds.
pub open spec fn steps(
    chain: SystemChain,
    collator: Seq<u8>,
    status: CollatorStatus,
    decided: Decision,
    r: MonitorStep,
) -> bool {
    match decided {
        Decision::RaiseBond { old_bond, new_bond } => r matches MonitorStep::RaiseBond {
            old_bond: o,
            new_bond: n,
            call,
        } && o == old_bond && n == new_bond && bonds_via_proxy(call, collator, new_bond),
        Decision::Register { bond, candidacy_bond } => r matches MonitorStep::Register {
            bond: b,
            call,
            bond_call,
        } && b == bond && registers_via_proxy(call, collator) && (if bond > candidacy_bond {
            bond_call matches Some(second) && bonds_via_proxy(second, collator, bond)
        } else {
            bond_call is None
        }),
        _ => r matches MonitorStep::Report { decision, calls, status: outcome } && decision
            == decided && are_operator_calls(decided, calls@) && reports(
            chain,
            status,
            decided,
            Some(outcome),
        ),
    }
}

/// What monitoring a chain does next, from the collator's status and, where that
/// does not decide it, the facts.
pub fn monitor_chain_internal(
    client: &ChainClient,
    read_only: bool,
    collator: &AccountId32,
    status: CollatorStatus,
    facts: Option<&ChainFacts>,
) -> (r: MonitorStep)
    requires
        facts matches Some(f) ==> (status is NotCollator && f.candidacy_bond == 0
            ==> shortfall_fits(client@.0, f.free_balance, candidate_views(f.candidates@))),
    ensures
        match facts {
            Some(f) => steps(
                client@.1,
                collator@,
                status,
                decision(
                    client@.0,
                    read_only,
                    status,
                    f.free_balance,
                    f.candidacy_bond,
                    candidate_views(f.candidates@),
                ),
                r,
            ),
            None => if status is Invulnerable {
                steps(client@.1, collator@, status, Decision::Nothing, r)
            } else {
                r is ReadFacts
            },
        },
{
    let network = client.network();
    let decided = match facts {
        Some(f) => decide(
            network,
            read_only,
            status,
            f.free_balance,
            f.candidacy_bond,
            &f.candidates,
        ),
        None => match status {
            CollatorStatus::Invulnerable => Decision::Nothing,
            _ => {
                return MonitorStep::ReadFacts;
            },
        },
    };
    let mut calls: Vec<DynamicCall> = Vec::new();
    match decided {
        Decision::RaiseBond { old_bond, new_bond } => {
            let call = client.update_bond_via_proxy(collator, new_bond);
            return MonitorStep::RaiseBond { old_bond, new_bond, call };
        },
        Decision::Register { bond, candidacy_bond } => {
            let call = client.register_as_candidate_via_proxy(collator);
            let bond_call = if bond > candidacy_bond {
                Some(client.update_bond_via_proxy(collator, bond))
            } else {
                None
            };
            return MonitorStep::Register { bond, call, bond_call };
        },
        Decision::AskForBond { old_bond: _, new_bond } => {
            calls.push(client.generate_registration_call_data(new_bond));
        },
        Decision::AskForRegistration { bond } => {
            calls.push(client.generate_register_call_data());
            calls.push(client.generate_registration_call_data(bond));
        },
        _ => {},
    }
    match report_of(client.chain(), status, decided) {
        Some(outcome) => MonitorStep::Report { decision: decided, calls, status: outcome },
        None => MonitorStep::ReadFacts,
    }
}

/// How a collator stands on a chain.
pub open spec fn is_slot_info(
    network: Network,
    chain: SystemChain,
    status: CollatorStatus,
    account: Seq<u8>,
    candidates: Seq<Candidate>,
    max_candidates: Option<u32>,
    last_block: Option<u64>,
    r: ChainSlotInfo,
) -> bool {
    let lowest = lowest_bond(candidates);
    &&& r.chain_name@ == chain.spec_display_name(network)
    &&& r.is_invulnerable == (status is Invulnerable)
    &&& r.is_candidate == (status is Candidate)
    &&& r.max_candidates == max_candidates
    &&& r.total_candidates == candidates.len()
    &&& r.lowest_bond == lowest
    &&& r.token_symbol@ == network.spec_symbol()
    &&& r.decimals == network.spec_decimals()
    &&& match status {
        CollatorStatus::Candidate { deposit } => {
            &&& r.your_bond == Some(deposit)
            &&& match r.position {
                Some(n) => rank_of(candidates, account) == Some(n as int),
                None => rank_of(candidates, account) is None,
            }
            &&& r.distance_from_last == if lowest is Some && deposit > lowest->0 {
                Some((deposit - lowest->0) as u128)
            } else {
                None
            }
        },
        _ => r.your_bond is None && r.position is None && r.distance_from_last is None,
    }
    &&& r.last_block_time == if status is NotCollator {
        None
    } else {
        last_block
    }
}

/// How a collator stands on a chain.
pub fn get_chain_slot_info(
    network: Network,
    chain: SystemChain,
    status: CollatorStatus,
    account: &AccountId32,
    candidates: &Vec<CandidateInfo>,
    max_candidates: Option<u32>,
    last_block: Option<&LastBlockInfo>,
    now: u64,
) -> (r: ChainSlotInfo)
    ensures
        is_slot_info(
            network,
            chain,
            status,
            account@,
            candidate_views(candidates@),
            max_candidates,
            match last_block {
                Some(info) => info.spec_time_since_last_block(now),
                None => None,
            },
            r,
        ),
{
    let lowest = find_lowest_bond(candidates);
    let mut is_invulnerable = false;
    let mut is_candidate = false;
    let mut position: Option<usize> = None;
    let mut your_bond: Option<u128> = None;
    let mut distance_from_last: Option<u128> = None;
    match status {
        CollatorStatus::Invulnerable => {
            is_invulnerable = true;
        },
        CollatorStatus::Candidate { deposit } => {
            is_candidate = true;
            position = find_rank(candidates, account);
            your_bond = Some(deposit);
            if let Some(low) = lowest {
                if deposit > low {
                    distance_from_last = Some(deposit - low);
                }
            }
        },
        CollatorStatus::NotCollator => {},
    }
    let last_block_time = if is_invulnerable || is_candidate {
        match last_block {
            Some(info) => info.time_since_last_block(now),
            None => None,
        }
    } else {
        None
    };
    ChainSlotInfo {
        chain_name: chain.display_name(network),
        is_invulnerable,
        is_candidate,
        position,
        max_candidates,
        total_candidates: candidates.len(),
        your_bond,
        lowest_bond: lowest,
        distance_from_last,
        last_block_time,
        token_symbol: network.symbol().to_string(),
        decimals: network.decimals(),
    }
}

/// On a chain where only the operator may act, nothing is submitted.
pub proof fn law_read_only_never_acts(
    network: Network,
    status: CollatorStatus,
    free_balance: u128,
    candidacy_bond: u128,
    candidates: Seq<Candidate>,
)
    ensures
        ({
            let d = decision(network, true, status, free_balance, candidacy_bond, candidates);
            !(d is RaiseBond) && !(d is Register)
        }),
{
}

/// Where the collator may act itself, the operator is not asked to.
pub proof fn law_operator_is_asked_only_where_needed(
    network: Network,
    status: CollatorStatus,
    free_balance: u128,
    candidacy_bond: u128,
    candidates: Seq<Candidate>,
)
    ensures
        ({
            let d = decision(network, false, status, free_balance, candidacy_bond, candidates);
            !(d is AskForBond) && !(d is AskForRegistration)
        }),
{
}

/// An invulnerable collator is left alone.
pub proof fn law_invulnerable_is_left_alone(
    network: Network,
    read_only: bool,
    free_balance: u128,
    candidacy_bond: u128,
    candidates: Seq<Candidate>,
)
    ensures
        decision(
            network,
            read_only,
            CollatorStatus::Invulnerable,
            free_balance,
            candidacy_bond,
            candidates,
        ) is Nothing,
{
}

/// All that is available is bonded, and the reserve stays free: a bond is raised by
/// at least the least increase, and a registration bonds at least the candidacy
/// bond and more than the lowest candidate.
pub proof fn law_bonds_keep_the_reserve(
    network: Network,
    read_only: bool,
    status: CollatorStatus,
    free_balance: u128,
    candidacy_bond: u128,
    candidates: Seq<Candidate>,
)
    ensures
        ({
            let available = available_for_bond(network, free_balance);
            &&& available > 0 ==> available + network.spec_reserve() == free_balance
            &&& match decision(
                network,
                read_only,
                status,
                free_balance,
                candidacy_bond,
                candidates,
            ) {
                Decision::RaiseBond { old_bond, new_bond } => {
                    &&& status == CollatorStatus::Candidate { deposit: old_bond }
                    &&& new_bond == raised(old_bond, available)
                    &&& available >= min_increase(network)
                },
                Decision::Register { bond, candidacy_bond: minimum } => {
                    &&& status is NotCollator
                    &&& minimum == candidacy_bond
                    &&& bond == available
                    &&& bond >= candidacy_bond
                    &&& lowest_bond(candidates) matches Some(low) ==> bond > low
                },
                _ => true,
            }
        }),
{
}

/// An account that is no collator is registered exactly where it may act, its
/// funds reach the candidacy bond, and they beat the lowest candidate.
pub proof fn law_registration_where_possible(
    network: Network,
    read_only: bool,
    free_balance: u128,
    candidacy_bond: u128,
    candidates: Seq<Candidate>,
)
    ensures
        decision(
            network,
            read_only,
            CollatorStatus::NotCollator,
            free_balance,
            candidacy_bond,
            candidates,
        ) is Register <==> !read_only && available_for_bond(network, free_balance) >= candidacy_bond
            && (lowest_bond(candidates) is Some ==> available_for_bond(network, free_balance)
            > lowest_bond(candidates)->0),
{
}

/// Where the funds do not beat the lowest candidate, exactly the amount that is
/// reported as missing lets the account compete, and nothing less does.
pub proof fn law_reported_shortfall_is_exact(
    network: Network,
    read_only: bool,
    free_balance: u128,
    candidacy_bond: u128,
    candidates: Seq<Candidate>,
    added: u128,
)
    requires
        shortfall_fits(network, free_balance, candidates),
        free_balance >= network.spec_reserve(),
        free_balance + added <= u128::MAX,
        decision(
            network,
            read_only,
            CollatorStatus::NotCollator,
            free_balance,
            candidacy_bond,
            candidates,
        ) is CannotCompete,
    ensures
        ({
            let before = decision(
                network,
                read_only,
                CollatorStatus::NotCollator,
                free_balance,
                candidacy_bond,
                candidates,
            );
            let after = decision(
                network,
                read_only,
                CollatorStatus::NotCollator,
                (free_balance + added) as u128,
                candidacy_bond,
                candidates,
            );
            after is CannotCompete <==> added < before->needed
        }),
{
}

/// Every call that monitoring submits is made for the collator through a proxy
/// that may not transfer funds, and either registers it or sets its bond.
pub proof fn law_every_submitted_call_is_proxied(
    chain: SystemChain,
    collator: Seq<u8>,
    status: CollatorStatus,
    decided: Decision,
    step: MonitorStep,
)
    requires
        steps(chain, collator, status, decided, step),
    ensures
        match step {
            MonitorStep::RaiseBond { old_bond: _, new_bond, call } => is_proxied(call, collator)
                && bonds_via_proxy(call, collator, new_bond),
            MonitorStep::Register { bond, call, bond_call } => is_proxied(call, collator)
                && registers_via_proxy(call, collator) && (bond_call matches Some(second)
                ==> is_proxied(second, collator) && bonds_via_proxy(second, collator, bond)),
            _ => true,
        },
{
}

/// A registration that the chain accepted stands under its own hash, whatever
/// becomes of the call that raises the bond.
pub proof fn law_registration_stands_whatever_the_bond(
    tx_hash: String,
    bond_call: Option<DynamicCall>,
    bond_answer: Result<String, String>,
)
    ensures
        ({
            let first = registration_outcome(
                RegistrationProgress::Registered { answer: Ok(tx_hash), bond_call },
            );
            let last = registration_outcome(
                RegistrationProgress::BondRaised { tx_hash, answer: bond_answer },
            );
            &&& last == RegistrationOutcome::Registered(tx_hash)
            &&& match bond_call {
                Some(call) => first == RegistrationOutcome::BondNext(call, tx_hash),
                None => first == RegistrationOutcome::Registered(tx_hash),
            }
        }),
{
}

/// A candidate's bond is raised, by the operator where only the operator may act,
/// exactly where the funds beyond the reserve of 1 DOT or 0.1 KSM are at least
/// 0.1 DOT or 0.01 KSM: all of them are then added to the deposit. The candidacy
/// bond and the other candidates do not matter.
pub proof fn law_candidate_bonds_all_it_can(
    network: Network,
    read_only: bool,
    deposit: u128,
    free_balance: u128,
    candidacy_bond: u128,
    candidates: Seq<Candidate>,
)
    ensures
        ({
            let reserve: int = if network is Polkadot {
                10_000_000_000
            } else {
                100_000_000_000
            };
            let spare: int = free_balance - reserve;
            let target: int = if deposit + spare > u128::MAX {
                u128::MAX as int
            } else {
                deposit + spare
            };
            let decided = decision(
                network,
                read_only,
                CollatorStatus::Candidate { deposit },
                free_balance,
                candidacy_bond,
                candidates,
            );
            if spare >= reserve / 10 {
                &&& read_only ==> decided is AskForBond && decided->AskForBond_old_bond == deposit
                    && decided->AskForBond_new_bond == target
                &&& !read_only ==> decided is RaiseBond && decided->RaiseBond_old_bond == deposit
                    && decided->RaiseBond_new_bond == target
            } else {
                decided is Nothing
            }
        }),
{
}

/// An account that is no collator is refused where its funds beyond the reserve
/// are below the candidacy bond; else where some candidate has a bond and they are
/// above none of the bonds, with the lowest bond and what is missing to one more
/// than it; else it is registered with all of them, by the operator where only the
/// operator may act.
pub proof fn law_others_register_where_they_can(
    network: Network,
    read_only: bool,
    free_balance: u128,
    candidacy_bond: u128,
    candidates: Seq<Candidate>,
)
    ensures
        ({
            let reserve: int = if network is Polkadot {
                10_000_000_000
            } else {
                100_000_000_000
            };
            let spare: int = if free_balance > reserve {
                free_balance - reserve
            } else {
                0
            };
            let decided = decision(
                network,
                read_only,
                CollatorStatus::NotCollator,
                free_balance,
                candidacy_bond,
                candidates,
            );
            let beaten = (exists|i: int|
                0 <= i < candidates.len() && (#[trigger] candidates[i]).deposit > 0) && (forall|
                i: int,
            |
                0 <= i < candidates.len() && (#[trigger] candidates[i]).deposit > 0 ==> spare
                    <= candidates[i].deposit);
            if spare < candidacy_bond {
                decided is InsufficientFunds && decided->InsufficientFunds_available == spare
                    && decided->InsufficientFunds_required == candidacy_bond
            } else if beaten {
                let low = decided->CannotCompete_lowest_candidate;
                &&& decided is CannotCompete
                &&& decided->CannotCompete_available == spare
                &&& low > 0
                &&& exists|i: int|
                    0 <= i < candidates.len() && (#[trigger] candidates[i]).deposit == low
                &&& forall|i: int|
                    0 <= i < candidates.len() && (#[trigger] candidates[i]).deposit > 0 ==> low
                        <= candidates[i].deposit
                &&& low - spare < u128::MAX ==> decided->CannotCompete_needed == low - spare + 1
            } else if read_only {
                decided is AskForRegistration && decided->AskForRegistration_bond == spare
            } else {
                decided is Register && decided->Register_bond == spare
                    && decided->Register_candidacy_bond == candidacy_bond
            }
        }),
{
    law_lowest_bond(candidates);
}

/// A balance without a fraction is shown in whole tokens. Any other is shown with
/// one to four digits behind the point: what is shown is at most the balance, and
/// less than a step of the last digit below it; with fewer than four digits it is
/// the balance, and the last digit is not zero.
#[verifier::rlimit(50)]
pub proof fn law_balances_are_shown_shortly(balance: u128, decimals: u32, symbol: Seq<char>)
    ensures
        balance as nat % pow10(decimals as nat) == 0 ==> exists|whole: nat|
            balance_text(balance, decimals, symbol) == #[trigger] decimal(whole) + " "@ + symbol
                && balance == whole * pow10(decimals as nat),
        balance as nat % pow10(decimals as nat) != 0 ==> exists|whole: nat, part: Seq<char>|
            balance_text(balance, decimals, symbol) == #[trigger] (decimal(whole) + "."@ + part
                + " "@ + symbol) && 1 <= part.len() <= 4 && part.len() <= decimals && ({
                let step = pow10((decimals - part.len()) as nat);
                let shown = whole * pow10(decimals as nat) + number_of(part) * step;
                &&& shown <= balance < shown + step
                &&& part.len() < 4 ==> shown == balance && part.last() != '0'
            }),
{
    let one = pow10(decimals as nat);
    lemma_pow10_monotone(0, decimals as nat);
    let whole = balance as nat / one;
    let fraction = balance as nat % one;
    vstd::arithmetic::div_mod::lemma_fundamental_div_mod(balance as int, one as int);
    vstd::arithmetic::div_mod::lemma_mod_bound(balance as int, one as int);
    assert(one * whole == whole * one) by (nonlinear_arith);
    if fraction == 0 {
        assert(balance_text(balance, decimals, symbol) == decimal(whole) + " "@ + symbol);
    } else {
        let digits = padded(fraction, decimals as nat);
        let n = significant_len(digits) as int;
        let shown: int = if n < 4 {
            n
        } else {
            4
        };
        let part = digits.take(shown);
        if decimals == 0 {
            assert(one == 1);
            assert(fraction < 1);
        }
        law_padded_numerals_read_back(fraction, decimals as nat);
        law_only_zeros_are_insignificant(digits);
        lemma_number_split(digits, shown);
        if n == 0 {
            lemma_zeros_are_zero(digits);
        }
        if n < 4 {
            let rest = digits.skip(shown);
            assert forall|i: int| 0 <= i < rest.len() implies #[trigger] rest[i] == '0' by {
                assert(rest[i] == digits[i + shown]);
            }
            lemma_zeros_are_zero(rest);
            assert(part.last() == digits[n - 1]);
        }
        assert(balance_text(balance, decimals, symbol) == decimal(whole) + "."@ + part + " "@
            + symbol);
    }
}

proof fn lemma_zeros_are_zero(s: Seq<char>)
    requires
        forall|i: int| 0 <= i < s.len() ==> #[trigger] s[i] == '0',
    ensures
        number_of(s) == 0,
    decreases s.len(),
{
    if s.len() > 0 {
        let rest = s.drop_last();
        assert forall|i: int| 0 <= i < rest.len() implies #[trigger] rest[i] == '0' by {
            assert(rest[i] == s[i]);
        }
        lemma_zeros_are_zero(rest);
        assert(s[s.len() - 1] == '0');
    }
}

/// A chain is checked exactly where it runs on the network, over the endpoint and
/// for the address that are configured; only the operator may act on Bridge Hub, and
/// on a chain that is configured and not enabled. Any other chain is skipped, with
/// the network as the reason.
pub proof fn law_plans_follow_the_configuration(
    config: AppConfig,
    network: Network,
    chain: SystemChain,
    plan: ChainPlan,
)
    requires
        plans(config, network, chain, plan),
    ensures
        ({
            let key = chain_key(network, chain);
            let known = config.chains@.contains_key(key);
            if (chain is Collectives && network is Kusama) || (chain is Encointer
                && network is Polkadot) {
                plan matches ChainPlan::Skip { reason } && reason@ == (if network is Polkadot {
                    "Chain not available on Polkadot"@
                } else {
                    "Chain not available on Kusama"@
                })
            } else {
                &&& plan is Check
                &&& plan->read_only <==> chain is BridgeHub || (known && !config.chains@[key].enabled)
                &&& plan->rpc_url@ == (if known && config.chains@[key].rpc_url is Some {
                    config.chains@[key].rpc_url->0@
                } else {
                    spec_default_rpc_url(network, chain)
                })
                &&& plan->collator_address@ == (if network is Polkadot {
                    config.polkadot_collator_address@
                } else {
                    config.kusama_collator_address@
                })
            }
        }),
{
    reveal_strlit("Chain not available on ");
    reveal_strlit("Polkadot");
    reveal_strlit("Kusama");
    reveal_strlit("Chain not available on Polkadot");
    reveal_strlit("Chain not available on Kusama");
    assert("Chain not available on "@ + "Polkadot"@ =~= "Chain not available on Polkadot"@);
    assert("Chain not available on "@ + "Kusama"@ =~= "Chain not available on Kusama"@);
}

/// The operator has to act on Bridge Hub for want of a proxy and on any other chain
/// because it is disabled, and is told to what end.
pub proof fn law_reasons_for_manual_action(chain: SystemChain, what: Seq<char>)
    ensures
        manual_reason(chain, what) == (if chain is BridgeHub {
            "No proxy support - "@
        } else {
            "Chain disabled - "@
        }) + what,
{
}

/// The words in which an operator is asked are the same whatever the amounts; the
/// old bond is told before the new one, and the call that registers before the one
/// that sets the bond.
pub proof fn law_requests_are_worded_alike()
    ensures
        exists|words: Seq<Seq<char>>|
            #[trigger] words.len() == 2 && forall|network: Network, before: u128, after: u128|
                #[trigger] bond_action(network, before, after) == words[0] + balance_text(
                    before,
                    network.spec_decimals(),
                    network.spec_symbol(),
                ) + words[1] + balance_text(
                    after,
                    network.spec_decimals(),
                    network.spec_symbol(),
                ),
        exists|words: Seq<char>|
            #![trigger words.len()]
            words.len() > 0 && forall|network: Network, bond: u128|
                #[trigger] registration_action(network, bond) == words + balance_text(
                    bond,
                    network.spec_decimals(),
                    network.spec_symbol(),
                ),
        exists|words: Seq<Seq<char>>|
            #[trigger] words.len() == 2 && forall|register: Seq<char>, bond: Seq<char>|
                #[trigger] registration_calls_text(register, bond) == words[0] + register + words[1]
                    + bond,
{
    let asked = seq!["Bond can be increased from "@, " to "@];
    assert(asked.len() == 2);
    reveal_strlit("Registration required with bond ");
    assert("Registration required with bond "@.len() > 0);
    let calls = seq!["1. Register: "@, "\n2. Update bond: "@];
    assert(calls.len() == 2);
    assert forall|network: Network, before: u128, after: u128| #[trigger]
        bond_action(network, before, after) == asked[0] + balance_text(
        before,
        network.spec_decimals(),
        network.spec_symbol(),
    ) + asked[1] + balance_text(after, network.spec_decimals(), network.spec_symbol()) by {}
    assert forall|register: Seq<char>, bond: Seq<char>| #[trigger]
        registration_calls_text(register, bond) == calls[0] + register + calls[1] + bond by {}
}

/// An operator who is asked for a bond is given the one encoded call as it is, and
/// one who is asked to register both calls in order; a decision that asks for
/// nothing, and any other number of calls, give nothing.
pub proof fn law_operator_is_given_the_calls(decision: Decision, encoded: Seq<Seq<char>>)
    ensures
        ({
            let given = call_data_of(decision, encoded);
            if decision is AskForBond && encoded.len() == 1 {
                given == encoded[0]
            } else if decision is AskForRegistration && encoded.len() == 2 {
                given == registration_calls_text(encoded[0], encoded[1])
            } else {
                given.len() == 0
            }
        }),
{
}

/// What is reported is what was decided: nothing while something is submitted, the
/// status of a collator that is left alone, the amounts that are missing, or that
/// the operator has to act, with the status as it is.
pub proof fn law_reports_tell_the_decision(
    chain: SystemChain,
    status: CollatorStatus,
    decision: Decision,
    r: Option<MonitorStatus>,
)
    requires
        reports(chain, status, decision, r),
    ensures
        r is None <==> decision is RaiseBond || decision is Register,
        decision is Nothing <==> r is Some && r->0 is AlreadyCollator,
        decision is Nothing ==> r->0->AlreadyCollator_0 == status,
        decision is InsufficientFunds <==> r is Some && r->0 is InsufficientFunds,
        decision is InsufficientFunds ==> r->0->InsufficientFunds_available
            == decision->InsufficientFunds_available && r->0->InsufficientFunds_required
            == decision->InsufficientFunds_required,
        decision is CannotCompete <==> r is Some && r->0 is CannotCompete,
        decision is CannotCompete ==> r->0->CannotCompete_available
            == decision->CannotCompete_available && r->0->CannotCompete_lowest_candidate
            == decision->CannotCompete_lowest_candidate && r->0->CannotCompete_needed
            == decision->CannotCompete_needed,
        decision is AskForBond || decision is AskForRegistration <==> r is Some
            && r->0 is ManualActionRequired,
        decision is AskForBond ==> r->0->current_status == status && "bond update required"@.is_suffix_of(
            r->0->reason@,
        ),
        decision is AskForRegistration ==> r->0->current_status == status
            && "registration required"@.is_suffix_of(r->0->reason@),
{
    if decision is AskForBond || decision is AskForRegistration {
        let what = if decision is AskForBond {
            "bond update required"@
        } else {
            "registration required"@
        };
        let reason = r->0->reason@;
        law_reasons_for_manual_action(chain, what);
        assert(reason.subrange(reason.len() - what.len(), reason.len() as int) =~= what);
    }
}

/// The words for a status tell the three apart, and the bond of a candidate.
pub proof fn law_statuses_are_told(network: Network, deposit: u128)
    ensures
        status_text(network, CollatorStatus::Invulnerable) == "Invulnerable"@,
        status_text(network, CollatorStatus::NotCollator) == "Not a collator"@,
        status_text(network, CollatorStatus::Candidate { deposit }) == "Candidate (bond: "@
            + balance_text(
            deposit,
            (if network is Polkadot {
                10u32
            } else {
                12u32
            }),
            if network is Polkadot {
                "DOT"@
            } else {
                "KSM"@
            },
        ) + ")"@,
{
}

/// An alert is raised exactly where funds are missing, the bond is too low or the
/// operator has to act. It is of the kind of what happened, with the amounts in the
/// network's token, and the operator is given the call data.
pub proof fn law_decisions_that_are_told(
    network: Network,
    chain_name: Seq<char>,
    collator: Seq<char>,
    decision: Decision,
    call_data: Seq<char>,
    onchain: Seq<Seq<char>>,
)
    ensures
        ({
            let (symbol, decimals) = if network is Polkadot {
                ("DOT"@, 10u32)
            } else {
                ("KSM"@, 12u32)
            };
            let alert = decision_alert(
                network,
                chain_name,
                collator,
                decision,
                call_data,
                onchain,
            );
            &&& alert is None <==> decision is Nothing || decision is RaiseBond
                || decision is Register
            &&& decision matches Decision::InsufficientFunds { available, required } ==> alert
                == Some(
                (
                    AlertKind::InsufficientFunds,
                    insufficient_funds_text(
                        chain_name,
                        collator,
                        available,
                        required,
                        symbol,
                        decimals,
                        onchain,
                    ),
                ),
            )
            &&& decision matches Decision::CannotCompete { available, lowest_candidate, needed }
                ==> alert == Some(
                (
                    AlertKind::CannotCompete,
                    cannot_compete_text(
                        chain_name,
                        collator,
                        available,
                        lowest_candidate,
                        needed,
                        symbol,
                        decimals,
                        onchain,
                    ),
                ),
            )
            &&& decision is AskForBond || decision is AskForRegistration ==> alert == Some(
                (
                    AlertKind::ManualAction,
                    manual_action_text(
                        chain_name,
                        collator,
                        if decision is AskForBond {
                            bond_action(
                                network,
                                decision->AskForBond_old_bond,
                                decision->AskForBond_new_bond,
                            )
                        } else {
                            registration_action(network, decision->AskForRegistration_bond)
                        },
                        Some(call_data),
                        onchain,
                    ),
                ),
            )
        }),
{
}

/// A registration that the chain refuses has failed with the chain's error, whether
/// or not a call is left.
pub proof fn law_refused_registration_fails(error: String, bond_call: Option<DynamicCall>)
    ensures
        registration_outcome(RegistrationProgress::Registered { answer: Err(error), bond_call })
            == RegistrationOutcome::Refused(error),
{
}

/// What is submitted is what was decided: one call that sets the bond to the new
/// one, or one that registers and, exactly where more than the candidacy bond is to
/// be bonded, another that sets the bond. Where nothing is submitted, the operator
/// is given the calls for what the operator is asked for, and no other.
pub proof fn law_steps_carry_out_the_decision(
    chain: SystemChain,
    collator: Seq<u8>,
    status: CollatorStatus,
    decided: Decision,
    step: MonitorStep,
)
    requires
        steps(chain, collator, status, decided, step),
    ensures
        decided is RaiseBond <==> step is RaiseBond,
        decided is Register <==> step is Register,
        !(step is ReadFacts),
        step matches MonitorStep::RaiseBond { old_bond, new_bond, call } ==> decided == (
        Decision::RaiseBond { old_bond, new_bond }) && (proxied_args(
            call,
            collator,
            "CollatorSelection"@,
            "update_bond"@,
        ) matches Some(args) && args.len() == 1 && as_u128(args[0]) == Some(new_bond)),
        step matches MonitorStep::Register { bond, call, bond_call } ==> decided->Register_bond
            == bond && (proxied_args(
            call,
            collator,
            "CollatorSelection"@,
            "register_as_candidate"@,
        ) matches Some(none) && none.len() == 0) && (bond_call is Some <==> bond
            > decided->Register_candidacy_bond) && (bond_call matches Some(second) ==> (
        proxied_args(second, collator, "CollatorSelection"@, "update_bond"@) matches Some(args)
            && args.len() == 1 && as_u128(args[0]) == Some(bond))),
        step matches MonitorStep::Report { decision, calls, status: outcome } ==> decision == decided
            && reports(chain, status, decided, Some(outcome)) && match decided {
            Decision::AskForBond { old_bond: _, new_bond } => calls@.len() == 1
                && calls@[0].pallet@ == "CollatorSelection"@ && calls@[0].name@ == "update_bond"@
                && calls@[0].args@.len() == 1 && as_u128(calls@[0].args@[0]) == Some(new_bond),
            Decision::AskForRegistration { bond } => calls@.len() == 2 && calls@[0].pallet@
                == "CollatorSelection"@ && calls@[0].name@ == "register_as_candidate"@
                && calls@[0].args@.len() == 0 && calls@[1].pallet@ == "CollatorSelection"@
                && calls@[1].name@ == "update_bond"@ && calls@[1].args@.len() == 1 && as_u128(
                calls@[1].args@[0],
            ) == Some(bond),
            _ => calls@.len() == 0,
        },
{
}

/// What is known of a chain for a summary: a candidate's deposit, its position and
/// how far the deposit is above the lowest bond above zero, where it is; nothing of
/// this of any other account. The last block is told of a collator only.
pub proof fn law_slot_info_tells_the_standing(
    network: Network,
    chain: SystemChain,
    status: CollatorStatus,
    account: Seq<u8>,
    candidates: Seq<Candidate>,
    max_candidates: Option<u32>,
    last_block: Option<u64>,
    info: ChainSlotInfo,
)
    requires
        is_slot_info(
            network,
            chain,
            status,
            account,
            candidates,
            max_candidates,
            last_block,
            info,
        ),
    ensures
        info.chain_name@ == chain.spec_display_name(network),
        info.is_invulnerable <==> status is Invulnerable,
        info.is_candidate <==> status is Candidate,
        info.max_candidates == max_candidates,
        info.total_candidates == candidates.len(),
        info.token_symbol@ == (if network is Polkadot {
            "DOT"@
        } else {
            "KSM"@
        }),
        info.decimals == (if network is Polkadot {
            10int
        } else {
            12
        }),
        match info.lowest_bond {
            Some(low) => low > 0 && (exists|i: int|
                0 <= i < candidates.len() && (#[trigger] candidates[i]).deposit == low) && (forall|
                i: int,
            |
                0 <= i < candidates.len() && (#[trigger] candidates[i]).deposit > 0 ==> low
                    <= candidates[i].deposit),
            None => forall|i: int|
                0 <= i < candidates.len() ==> (#[trigger] candidates[i]).deposit == 0,
        },
        match status {
            CollatorStatus::Candidate { deposit } => {
                &&& info.your_bond == Some(deposit)
                &&& info.position is Some <==> rank_of(candidates, account) is Some
                &&& info.position is Some ==> info.position->0 == rank_of(candidates, account)->0
                &&& if info.lowest_bond is Some && deposit > info.lowest_bond->0 {
                    info.distance_from_last is Some && info.distance_from_last->0
                        + info.lowest_bond->0 == deposit
                } else {
                    info.distance_from_last is None
                }
                &&& info.last_block_time == last_block
            },
            CollatorStatus::Invulnerable => info.your_bond is None && info.position is None
                && info.distance_from_last is None && info.last_block_time == last_block,
            CollatorStatus::NotCollator => info.your_bond is None && info.position is None
                && info.distance_from_last is None && info.last_block_time is None,
        },
{
    law_lowest_bond(candidates);
}

/// That an issue is resolved is told exactly where one was open on the chain and the
/// account is a collator, with the collator's address and its status; the issue is
/// then closed, there and on no other chain. Nothing else changes.
pub proof fn law_resolved_issues_are_told_once(
    before: MonitorState,
    after: MonitorState,
    network: Network,
    chain: SystemChain,
    status: MonitorStatus,
    r: Option<String>,
    other: Seq<char>,
)
    requires
        settles(before, after, network, chain, status, r),
    ensures
        ({
            let name = chain.spec_display_name(network);
            let open = before.slack.outstanding.contains(name);
            &&& r is Some <==> open && status is AlreadyCollator
            &&& r matches Some(text) ==> text@ == resolved_text(
                name,
                if network is Polkadot {
                    before.config.polkadot_collator_address@
                } else {
                    before.config.kusama_collator_address@
                },
                status_text(network, status->AlreadyCollator_0),
            )
            &&& r is Some ==> !after.slack.outstanding.contains(name)
                && !after.slack.manual.contains(name)
            &&& r is None ==> after == before
            &&& other != name ==> after.slack.outstanding.contains(other)
                == before.slack.outstanding.contains(other) && after.slack.manual.contains(other)
                == before.slack.manual.contains(other)
            &&& after.slack.last_notification == before.slack.last_notification
            &&& after.config == before.config
            &&& after.signer == before.signer
        }),
{
}

} // verus!
