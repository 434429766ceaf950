//! Slack notifications: what is sent, to whom, how often, and which messages are
//! updated and deleted later.
use crate::block_tracker::{elapsed, elapsed_time};
use crate::config::AppConfig;
use crate::messages::{
    bond_updated_message, bond_updated_text, cannot_compete_message, cannot_compete_text,
    disconnected_message, disconnected_text, error_message, error_text, format_mentions,
    insufficient_funds_message, insufficient_funds_text, manual_action_message, manual_action_text,
    mentions_text, no_blocks_message, no_blocks_text, reconnected_message, reconnected_text,
    registered_message, registered_text, resolved_message, resolved_text, restored_message,
    restored_text, shows_balance, still_disconnected_message, still_disconnected_text,
    summary_message, summary_text, ChainSlotInfo,
};
use crate::text::{two, views};
use vstd::hash_map::StringHashMap;
use vstd::hash_set::StringHashSet;
use vstd::prelude::*;

verus! {

/// How long an alert is not repeated: 4 hours, in nanoseconds.
pub const RATE_LIMIT_DURATION: u64 = 14_400_000_000_000;

/// How long a message that reports a recovery stays, in seconds.
pub const DELETE_DELAY_SECS: u64 = 60;

/// Slack message payload for posting.
#[derive(Debug)]
pub struct SlackPostMessage {
    pub channel: String,
    pub text: String,
    pub blocks: Option<Vec<SlackBlock>>,
}

/// Slack message payload for updating.
#[derive(Debug)]
pub struct SlackUpdateMessage {
    pub channel: String,
    pub ts: String,
    pub text: String,
    pub blocks: Option<Vec<SlackBlock>>,
}

/// Slack message payload for deleting.
#[derive(Debug)]
pub struct SlackDeleteMessage {
    pub channel: String,
    pub ts: String,
}

/// Slack webhook payload (simpler format).
#[derive(Debug)]
pub struct SlackWebhookMessage {
    pub text: String,
    pub blocks: Option<Vec<SlackBlock>>,
}

/// A block of a message.
#[derive(Debug)]
pub struct SlackBlock {
    pub block_type: String,
    pub text: Option<SlackText>,
}

/// The text of a block.
#[derive(Debug)]
pub struct SlackText {
    pub text_type: String,
    pub text: String,
}

/// Response from Slack API.
#[derive(Debug)]
pub struct SlackResponse {
    pub ok: bool,
    pub ts: Option<String>,
    pub channel: Option<String>,
    pub error: Option<String>,
}

/// A request to Slack: a payload with the bot's token or the webhook's address.
#[derive(Debug)]
pub enum SlackRequest {
    Post { token: String, payload: SlackPostMessage },
    Update { token: String, payload: SlackUpdateMessage },
    Delete { token: String, payload: SlackDeleteMessage },
    Webhook { url: String, payload: SlackWebhookMessage },
}

/// Reference to a posted Slack message (for updates/deletes).
#[derive(Debug)]
pub struct MessageRef {
    pub channel: String,
    pub ts: String,
    /// Nanoseconds of the monotonic clock
    pub posted_at: u64,
}

/// Tracked alert state.
#[derive(Debug)]
pub struct TrackedAlert {
    pub message_ref: MessageRef,
    /// Nanoseconds of the monotonic clock
    pub started_at: u64,
}

/// Whether the blocks of a payload are one section with the text.
pub open spec fn is_section(blocks: Option<Vec<SlackBlock>>, text: Seq<char>) -> bool {
    match blocks {
        Some(list) => list@.len() == 1 && list@[0].block_type@ == "section"@ && (
        match list@[0].text {
            Some(t) => t.text_type@ == "mrkdwn"@ && t.text@ == text,
            None => false,
        }),
        None => false,
    }
}

/// Whether a request posts a text to a channel with a bot's token.
pub open spec fn posts(
    request: SlackRequest,
    token: Seq<char>,
    channel: Seq<char>,
    text: Seq<char>,
) -> bool {
    match request {
        SlackRequest::Post { token: t, payload } => t@ == token && payload.channel@ == channel
            && payload.text@ == text && is_section(payload.blocks, text),
        _ => false,
    }
}

/// Whether a request sends a text to a webhook.
pub open spec fn hooks(request: SlackRequest, url: Seq<char>, text: Seq<char>) -> bool {
    match request {
        SlackRequest::Webhook { url: u, payload } => u@ == url && payload.text@ == text
            && is_section(payload.blocks, text),
        _ => false,
    }
}

/// Whether a request gives a message another text.
pub open spec fn updates(
    request: SlackRequest,
    token: Seq<char>,
    message: MessageRef,
    text: Seq<char>,
) -> bool {
    match request {
        SlackRequest::Update { token: t, payload } => t@ == token && payload.channel@
            == message.channel@ && payload.ts@ == message.ts@ && payload.text@ == text
            && is_section(payload.blocks, text),
        _ => false,
    }
}

/// Whether a request deletes a message.
pub open spec fn deletes(
    request: SlackRequest,
    token: Seq<char>,
    channel: Seq<char>,
    ts: Seq<char>,
) -> bool {
    match request {
        SlackRequest::Delete { token: t, payload } => t@ == token && payload.channel@ == channel
            && payload.ts@ == ts,
        _ => false,
    }
}

fn section(text: &str) -> (r: Option<Vec<SlackBlock>>)
    ensures
        is_section(r, text@),
{
    let mut blocks: Vec<SlackBlock> = Vec::new();
    blocks.push(
        SlackBlock {
            block_type: "section".to_string(),
            text: Some(SlackText { text_type: "mrkdwn".to_string(), text: text.to_string() }),
        },
    );
    Some(blocks)
}

/// The kinds of alert that are not repeated for a while.
#[derive(Debug, Clone, Copy, PartialEq, Eq, Structural)]
pub enum AlertKind {
    InsufficientFunds,
    ManualAction,
    CannotCompete,
    Error,
}

impl AlertKind {
    /// How the kind is written in a key.
    pub open spec fn spec_name(self) -> Seq<char> {
        match self {
            AlertKind::InsufficientFunds => "insufficient_funds"@,
            AlertKind::ManualAction => "manual_action"@,
            AlertKind::CannotCompete => "cannot_compete"@,
            AlertKind::Error => "error"@,
        }
    }

    /// How the kind is written in a key.
    pub fn name(&self) -> (r: &'static str)
        ensures
            r@ == self.spec_name(),
    {
        match self {
            AlertKind::InsufficientFunds => "insufficient_funds",
            AlertKind::ManualAction => "manual_action",
            AlertKind::CannotCompete => "cannot_compete",
            AlertKind::Error => "error",
        }
    }
}

/// The key under which the last alert of a kind on a chain is kept.
pub open spec fn rate_key(chain_name: Seq<char>, kind: AlertKind) -> Seq<char> {
    chain_name + ":"@ + kind.spec_name()
}

/// The key under which the last alert of a kind on a chain is kept.
pub fn rate_key_text(chain_name: &str, kind: AlertKind) -> (r: String)
    ensures
        r@ == rate_key(chain_name@, kind),
{
    let mut r = chain_name.to_string();
    r.append(":");
    r.append(kind.name());
    r
}

/// What a notifier knows: where it sends to, whom it mentions, and of each chain
/// what was sent and is open.
pub struct SlackState {
    pub webhook_url: Option<Seq<char>>,
    pub bot_token: Option<Seq<char>>,
    pub channel: Option<Seq<char>>,
    pub onchain: Seq<Seq<char>>,
    pub ops: Seq<Seq<char>>,
    pub last_notification: Map<Seq<char>, u64>,
    pub outstanding: Set<Seq<char>>,
    pub manual: Set<Seq<char>>,
    pub disconnects: Map<Seq<char>, TrackedAlert>,
    pub block_alerts: Map<Seq<char>, TrackedAlert>,
}

/// The state of a notifier that has sent nothing.
pub open spec fn fresh(
    webhook_url: Option<Seq<char>>,
    bot_token: Option<Seq<char>>,
    channel: Option<Seq<char>>,
    onchain: Seq<Seq<char>>,
    ops: Seq<Seq<char>>,
) -> SlackState {
    SlackState {
        webhook_url,
        bot_token,
        channel,
        onchain,
        ops,
        last_notification: Map::empty(),
        outstanding: Set::empty(),
        manual: Set::empty(),
        disconnects: Map::empty(),
        block_alerts: Map::empty(),
    }
}

/// Whether a notification under a key may be sent: none was sent within the limit.
pub open spec fn may_notify(state: SlackState, key: Seq<char>, now: u64) -> bool {
    !(state.last_notification.contains_key(key) && elapsed(state.last_notification[key], now)
        < RATE_LIMIT_DURATION)
}

/// The state after a notification under a key was asked for.
pub open spec fn after_asking(state: SlackState, key: Seq<char>, now: u64) -> SlackState {
    if may_notify(state, key, now) {
        SlackState { last_notification: state.last_notification.insert(key, now), ..state }
    } else {
        state
    }
}

/// The state with the open matters that an alert of a kind leaves behind.
pub open spec fn with_issue(state: SlackState, chain_name: Seq<char>, kind: AlertKind) -> SlackState {
    SlackState {
        outstanding: if kind is Error {
            state.outstanding
        } else {
            state.outstanding.insert(chain_name)
        },
        manual: if kind is ManualAction {
            state.manual.insert(chain_name)
        } else {
            state.manual
        },
        ..state
    }
}

/// The state after an alert of a kind on a chain was asked for.
pub open spec fn after_alert(
    state: SlackState,
    chain_name: Seq<char>,
    kind: AlertKind,
    now: u64,
) -> SlackState {
    after_asking(with_issue(state, chain_name, kind), rate_key(chain_name, kind), now)
}

/// The state in which any alert on a chain may be sent again.
pub open spec fn without_limits(state: SlackState, chain_name: Seq<char>) -> SlackState {
    SlackState {
        last_notification: state.last_notification.remove(
            rate_key(chain_name, AlertKind::InsufficientFunds),
        ).remove(rate_key(chain_name, AlertKind::ManualAction)).remove(
            rate_key(chain_name, AlertKind::CannotCompete),
        ).remove(rate_key(chain_name, AlertKind::Error)),
        ..state
    }
}

/// The state without any open matter of a chain.
pub open spec fn without_issue(state: SlackState, chain_name: Seq<char>) -> SlackState {
    SlackState {
        outstanding: state.outstanding.remove(chain_name),
        manual: state.manual.remove(chain_name),
        ..state
    }
}

/// Slack notifier for sending alerts.
pub struct SlackNotifier {
    webhook_url: Option<String>,
    bot_token: Option<String>,
    channel: Option<String>,
    user_ids_onchain: Vec<String>,
    user_ids_ops: Vec<String>,
    last_notification: StringHashMap<u64>,
    outstanding_issues: StringHashSet,
    manual_action_chains: StringHashSet,
    disconnect_alerts: StringHashMap<TrackedAlert>,
    block_alerts: StringHashMap<TrackedAlert>,
}

/// The characters of a text that may be missing.
pub open spec fn text_view(text: Option<String>) -> Option<Seq<char>> {
    match text {
        Some(s) => Some(s@),
        None => None,
    }
}

impl View for SlackNotifier {
    type V = SlackState;

    closed spec fn view(&self) -> SlackState {
        SlackState {
            webhook_url: text_view(self.webhook_url),
            bot_token: text_view(self.bot_token),
            channel: text_view(self.channel),
            onchain: views(self.user_ids_onchain@),
            ops: views(self.user_ids_ops@),
            last_notification: self.last_notification@,
            outstanding: self.outstanding_issues@,
            manual: self.manual_action_chains@,
            disconnects: self.disconnect_alerts@,
            block_alerts: self.block_alerts@,
        }
    }
}

impl SlackNotifier {
    /// Create a new Slack notifier that posts to a webhook.
    pub fn new(
        webhook_url: Option<String>,
        user_ids_onchain: Vec<String>,
        user_ids_ops: Vec<String>,
    ) -> (r: SlackNotifier)
        ensures
            r@ == fresh(
                text_view(webhook_url),
                None,
                None,
                views(user_ids_onchain@),
                views(user_ids_ops@),
            ),
    {
        SlackNotifier {
            webhook_url,
            bot_token: None,
            channel: None,
            user_ids_onchain,
            user_ids_ops,
            last_notification: StringHashMap::new(),
            outstanding_issues: StringHashSet::new(),
            manual_action_chains: StringHashSet::new(),
            disconnect_alerts: StringHashMap::new(),
            block_alerts: StringHashMap::new(),
        }
    }

    /// Create with bot token for full API access.
    pub fn with_bot_token(
        bot_token: String,
        channel: String,
        user_ids_onchain: Vec<String>,
        user_ids_ops: Vec<String>,
    ) -> (r: SlackNotifier)
        ensures
            r@ == fresh(
                None,
                Some(bot_token@),
                Some(channel@),
                views(user_ids_onchain@),
                views(user_ids_ops@),
            ),
    {
        SlackNotifier {
            webhook_url: None,
            bot_token: Some(bot_token),
            channel: Some(channel),
            user_ids_onchain,
            user_ids_ops,
            last_notification: StringHashMap::new(),
            outstanding_issues: StringHashSet::new(),
            manual_action_chains: StringHashSet::new(),
            disconnect_alerts: StringHashMap::new(),
            block_alerts: StringHashMap::new(),
        }
    }

    /// Check if we have bot token capability.
    pub fn has_bot_token(&self) -> (r: bool)
        ensures
            r == (self@.bot_token is Some && self@.channel is Some),
    {
        self.bot_token.is_some() && self.channel.is_some()
    }

    /// Format user mentions for on-chain action alerts.
    pub fn format_onchain_mentions(&self) -> (r: String)
        ensures
            r@ == mentions_text(self@.onchain),
    {
        format_mentions(&self.user_ids_onchain)
    }

    /// Format user mentions for ops/infrastructure alerts.
    pub fn format_ops_mentions(&self) -> (r: String)
        ensures
            r@ == mentions_text(self@.ops),
    {
        format_mentions(&self.user_ids_ops)
    }

    /// Add a chain to outstanding issues.
    pub fn add_outstanding_issue(&mut self, chain_name: &str)
        ensures
            final(self)@ == (SlackState {
                outstanding: old(self)@.outstanding.insert(chain_name@),
                ..old(self)@
            }),
    {
        self.outstanding_issues.insert(chain_name.to_string());
    }

    /// Remove a chain from outstanding issues.
    pub fn remove_outstanding_issue(&mut self, chain_name: &str)
        ensures
            final(self)@ == (SlackState {
                outstanding: old(self)@.outstanding.remove(chain_name@),
                ..old(self)@
            }),
    {
        self.outstanding_issues.remove(chain_name);
    }

    /// Check if a chain has an outstanding issue.
    pub fn has_outstanding_issue(&self, chain_name: &str) -> (r: bool)
        ensures
            r == self@.outstanding.contains(chain_name@),
    {
        self.outstanding_issues.contains(chain_name)
    }

    /// Mark a chain as having manual action required.
    pub fn mark_manual_action_required(&mut self, chain_name: &str)
        ensures
            final(self)@ == (SlackState {
                manual: old(self)@.manual.insert(chain_name@),
                ..old(self)@
            }),
    {
        self.manual_action_chains.insert(chain_name.to_string());
    }

    /// Check if manual action was required (for detecting resolution).
    pub fn was_manual_action_required(&self, chain_name: &str) -> (r: bool)
        ensures
            r == self@.manual.contains(chain_name@),
    {
        self.manual_action_chains.contains(chain_name)
    }

    /// Clear manual action required status.
    pub fn clear_manual_action_required(&mut self, chain_name: &str)
        ensures
            final(self)@ == (SlackState {
                manual: old(self)@.manual.remove(chain_name@),
                ..old(self)@
            }),
    {
        self.manual_action_chains.remove(chain_name);
    }

    /// Check if we should send a notification (rate limiting).
    pub fn should_notify(&mut self, key: &str, now: u64) -> (r: bool)
        ensures
            r == may_notify(old(self)@, key@, now),
            final(self)@ == after_asking(old(self)@, key@, now),
    {
        if let Some(last) = self.last_notification.get(key) {
            if elapsed_time(*last, now) < RATE_LIMIT_DURATION {
                return false;
            }
        }
        self.last_notification.insert(key.to_string(), now);
        true
    }

    /// Let any alert on a chain be sent again.
    pub fn clear_rate_limits(&mut self, chain_name: &str)
        ensures
            final(self)@ == without_limits(old(self)@, chain_name@),
    {
        self.last_notification.remove(
            rate_key_text(chain_name, AlertKind::InsufficientFunds).as_str(),
        );
        self.last_notification.remove(rate_key_text(chain_name, AlertKind::ManualAction).as_str());
        self.last_notification.remove(rate_key_text(chain_name, AlertKind::CannotCompete).as_str());
        self.last_notification.remove(rate_key_text(chain_name, AlertKind::Error).as_str());
    }

    /// Send an alert about insufficient funds (rate limited): the text to send,
    /// if any.
    pub fn alert_insufficient_funds(
        &mut self,
        chain_name: &str,
        collator_address: &str,
        available_balance: u128,
        required_balance: u128,
        token_symbol: &str,
        decimals: u32,
        now: u64,
    ) -> (r: Option<String>)
        requires
            decimals <= 38,
        ensures
            final(self)@ == after_alert(
                old(self)@,
                chain_name@,
                AlertKind::InsufficientFunds,
                now,
            ),
            text_view(r) == if may_notify(
                old(self)@,
                rate_key(chain_name@, AlertKind::InsufficientFunds),
                now,
            ) {
                Some(
                    insufficient_funds_text(
                        chain_name@,
                        collator_address@,
                        available_balance,
                        required_balance,
                        token_symbol@,
                        decimals,
                        old(self)@.onchain,
                    ),
                )
            } else {
                None
            },
    {
        self.add_outstanding_issue(chain_name);
        let key = rate_key_text(chain_name, AlertKind::InsufficientFunds);
        if !self.should_notify(key.as_str(), now) {
            return None;
        }
        Some(
            insufficient_funds_message(
                chain_name,
                collator_address,
                available_balance,
                required_balance,
                token_symbol,
                decimals,
                &self.user_ids_onchain,
            ),
        )
    }

    /// Send an alert requiring manual action (rate limited): the text to send, if
    /// any.
    pub fn alert_manual_action_required(
        &mut self,
        chain_name: &str,
        collator_address: &str,
        action_description: &str,
        call_data: Option<&str>,
        now: u64,
    ) -> (r: Option<String>)
        ensures
            final(self)@ == after_alert(old(self)@, chain_name@, AlertKind::ManualAction, now),
            text_view(r) == if may_notify(
                old(self)@,
                rate_key(chain_name@, AlertKind::ManualAction),
                now,
            ) {
                Some(
                    manual_action_text(
                        chain_name@,
                        collator_address@,
                        action_description@,
                        match call_data {
                            Some(s) => Some(s@),
                            None => None,
                        },
                        old(self)@.onchain,
                    ),
                )
            } else {
                None
            },
    {
        self.add_outstanding_issue(chain_name);
        self.mark_manual_action_required(chain_name);
        let key = rate_key_text(chain_name, AlertKind::ManualAction);
        if !self.should_notify(key.as_str(), now) {
            return None;
        }
        Some(
            manual_action_message(
                chain_name,
                collator_address,
                action_description,
                call_data,
                &self.user_ids_onchain,
            ),
        )
    }

    /// Alert that we cannot compete (bond too low; rate limited): the text to
    /// send, if any.
    pub fn alert_cannot_compete(
        &mut self,
        chain_name: &str,
        collator_address: &str,
        available_balance: u128,
        lowest_bond: u128,
        needed: u128,
        token_symbol: &str,
        decimals: u32,
        now: u64,
    ) -> (r: Option<String>)
        requires
            decimals <= 38,
        ensures
            final(self)@ == after_alert(old(self)@, chain_name@, AlertKind::CannotCompete, now),
            text_view(r) == if may_notify(
                old(self)@,
                rate_key(chain_name@, AlertKind::CannotCompete),
                now,
            ) {
                Some(
                    cannot_compete_text(
                        chain_name@,
                        collator_address@,
                        available_balance,
                        lowest_bond,
                        needed,
                        token_symbol@,
                        decimals,
                        old(self)@.onchain,
                    ),
                )
            } else {
                None
            },
    {
        self.add_outstanding_issue(chain_name);
        let key = rate_key_text(chain_name, AlertKind::CannotCompete);
        if !self.should_notify(key.as_str(), now) {
            return None;
        }
        Some(
            cannot_compete_message(
                chain_name,
                collator_address,
                available_balance,
                lowest_bond,
                needed,
                token_symbol,
                decimals,
                &self.user_ids_onchain,
            ),
        )
    }

    /// Notify about an error (rate limited): the text to send, if any.
    pub fn notify_error(&mut self, chain_name: &str, error: &str, now: u64) -> (r: Option<String>)
        ensures
            final(self)@ == after_alert(old(self)@, chain_name@, AlertKind::Error, now),
            text_view(r) == if may_notify(
                old(self)@,
                rate_key(chain_name@, AlertKind::Error),
                now,
            ) {
                Some(error_text(chain_name@, error@))
            } else {
                None
            },
    {
        let key = rate_key_text(chain_name, AlertKind::Error);
        if !self.should_notify(key.as_str(), now) {
            return None;
        }
        Some(error_message(chain_name, error))
    }

    /// Notify about successful registration: the text to send. Nothing is open on
    /// the chain any more, and any alert on it may be sent again.
    pub fn notify_registration(
        &mut self,
        chain_name: &str,
        collator_address: &str,
        bond_amount: u128,
        token_symbol: &str,
        decimals: u32,
    ) -> (r: String)
        requires
            decimals <= 38,
        ensures
            final(self)@ == without_limits(without_issue(old(self)@, chain_name@), chain_name@),
            r@ == registered_text(
                chain_name@,
                collator_address@,
                bond_amount,
                token_symbol@,
                decimals,
            ),
    {
        self.remove_outstanding_issue(chain_name);
        self.clear_manual_action_required(chain_name);
        self.clear_rate_limits(chain_name);
        registered_message(chain_name, collator_address, bond_amount, token_symbol, decimals)
    }

    /// Notify about successful registration (alias for notify_registration).
    pub fn notify_registration_success(
        &mut self,
        chain_name: &str,
        collator_address: &str,
        bond_amount: u128,
        token_symbol: &str,
        decimals: u32,
    ) -> (r: String)
        requires
            decimals <= 38,
        ensures
            final(self)@ == without_limits(without_issue(old(self)@, chain_name@), chain_name@),
            r@ == registered_text(
                chain_name@,
                collator_address@,
                bond_amount,
                token_symbol@,
                decimals,
            ),
    {
        self.notify_registration(chain_name, collator_address, bond_amount, token_symbol, decimals)
    }

    /// Notify about bond update: the text to send. Any alert on the chain may be
    /// sent again.
    pub fn notify_bond_update(
        &mut self,
        chain_name: &str,
        collator_address: &str,
        old_bond: u128,
        new_bond: u128,
        token_symbol: &str,
        decimals: u32,
    ) -> (r: String)
        requires
            decimals <= 38,
        ensures
            final(self)@ == without_limits(old(self)@, chain_name@),
            r@ == bond_updated_text(
                chain_name@,
                collator_address@,
                old_bond,
                new_bond,
                token_symbol@,
                decimals,
            ),
    {
        self.clear_rate_limits(chain_name);
        bond_updated_message(
            chain_name,
            collator_address,
            old_bond,
            new_bond,
            token_symbol,
            decimals,
        )
    }

    /// Notify that an issue was resolved (detected by change in status): the text
    /// to send, if there was one.
    pub fn notify_issue_resolved(
        &mut self,
        chain_name: &str,
        collator_address: &str,
        new_status: &str,
    ) -> (r: Option<String>)
        ensures
            final(self)@ == without_issue(old(self)@, chain_name@),
            text_view(r) == if old(self)@.outstanding.contains(chain_name@)
                || old(self)@.manual.contains(chain_name@) {
                Some(resolved_text(chain_name@, collator_address@, new_status@))
            } else {
                None
            },
    {
        if !self.has_outstanding_issue(chain_name) && !self.was_manual_action_required(chain_name) {
            assert(self@.outstanding.remove(chain_name@) =~= self@.outstanding);
            assert(self@.manual.remove(chain_name@) =~= self@.manual);
            return None;
        }
        self.remove_outstanding_issue(chain_name);
        self.clear_manual_action_required(chain_name);
        Some(resolved_message(chain_name, collator_address, new_status))
    }

    /// The text of the periodic status summary.
    pub fn send_status_summary(&self, slots: &Vec<ChainSlotInfo>) -> (r: String)
        requires
            forall|i: int|
                0 <= i < slots@.len() && shows_balance(#[trigger] slots@[i]) ==> slots@[i].decimals
                    <= 38,
        ensures
            r@ == summary_text(slots@),
    {
        summary_message(slots)
    }

    /// The text of an alert (bypasses rate limiting) - for ops/status alerts.
    pub fn send_alert(&self, message: &str) -> (r: String)
        ensures
            r@ == message@ + mentions_text(self@.ops),
    {
        two(message, self.format_ops_mentions().as_str())
    }

    /// The text of a plain notification.
    pub fn notify(&self, message: &str) -> (r: String)
        ensures
            r@ == message@,
    {
        message.to_string()
    }
}

/// What is to be done about a trouble that is reported.
#[derive(Debug)]
pub enum AlertStep {
    /// Post a message, and tell what became of it
    Post { text: String },
    /// Give a posted message another text
    Update { message_ref: MessageRef, text: String },
    /// Nothing
    Nothing,
}

/// What is to be done about a trouble that is over: give the message another
/// text, and delete it after some seconds.
#[derive(Debug)]
pub struct Recovery {
    pub message_ref: MessageRef,
    pub text: String,
    pub delete_after_secs: u64,
}

/// The alert of a chain, if it has one.
pub open spec fn alert_of(alerts: Map<Seq<char>, TrackedAlert>, chain_name: Seq<char>) -> Option<
    TrackedAlert,
> {
    if alerts.contains_key(chain_name) {
        Some(alerts[chain_name])
    } else {
        None
    }
}

/// Whether a message was posted with a bot's token, so that Slack knows it.
pub open spec fn is_known(message: MessageRef) -> bool {
    message.ts@.len() > 0
}

fn knows(message: &MessageRef) -> (r: bool)
    ensures
        r == is_known(*message),
{
    message.ts.as_str().unicode_len() > 0
}

fn copy_ref(message: &MessageRef) -> (r: MessageRef)
    ensures
        r == *message,
{
    MessageRef {
        channel: message.channel.clone(),
        ts: message.ts.clone(),
        posted_at: message.posted_at,
    }
}

/// The alert that is kept of a trouble whose message was posted, or could not be.
pub open spec fn is_alert_of(alert: TrackedAlert, posted: Option<MessageRef>, now: u64) -> bool {
    alert.started_at == now && match posted {
        Some(m) => alert.message_ref == m,
        None => alert.message_ref.channel@.len() == 0 && alert.message_ref.ts@.len() == 0
            && alert.message_ref.posted_at == now,
    }
}

fn new_alert(posted: Option<MessageRef>, now: u64) -> (r: TrackedAlert)
    ensures
        is_alert_of(r, posted, now),
{
    let message_ref = match posted {
        Some(m) => m,
        None => MessageRef { channel: String::new(), ts: String::new(), posted_at: now },
    };
    TrackedAlert { message_ref, started_at: now }
}

/// What a recovery says of an alert that began some time ago: nothing where its
/// message is not known to Slack.
pub open spec fn recovers(
    alert: Option<TrackedAlert>,
    r: Option<Recovery>,
    text: Seq<char>,
) -> bool {
    match alert {
        Some(a) => if is_known(a.message_ref) {
            r matches Some(done) && done.message_ref == a.message_ref && done.text@ == text
                && done.delete_after_secs == DELETE_DELAY_SECS
        } else {
            r is None
        },
        None => r is None,
    }
}

/// Whether a step is what is done about a lost connection: a first message, or
/// another text over the message of the alert.
pub open spec fn tells_disconnect(
    state: SlackState,
    chain_name: Seq<char>,
    error: Seq<char>,
    now: u64,
    r: AlertStep,
) -> bool {
    match r {
        AlertStep::Post { text } => alert_of(state.disconnects, chain_name) is None && text@
            == disconnected_text(chain_name, error),
        AlertStep::Update { message_ref, text } => (alert_of(
            state.disconnects,
            chain_name,
        ) matches Some(alert) && message_ref == alert.message_ref && text@
            == still_disconnected_text(chain_name, elapsed(alert.started_at, now), error)),
        AlertStep::Nothing => false,
    }
}

/// Whether a step is what is done about a lack of blocks: a first message, another
/// text over the message of the alert, or nothing where Slack does not know that.
pub open spec fn tells_no_blocks(
    state: SlackState,
    chain_name: Seq<char>,
    duration: u64,
    r: AlertStep,
) -> bool {
    let alert = alert_of(state.block_alerts, chain_name);
    match r {
        AlertStep::Post { text } => alert is None && text@ == no_blocks_text(
            chain_name,
            duration,
            state.ops,
        ),
        AlertStep::Update { message_ref, text } => alert is Some && is_known(alert->0.message_ref)
            && message_ref == alert->0.message_ref && text@ == no_blocks_text(
            chain_name,
            duration,
            state.ops,
        ),
        AlertStep::Nothing => alert is Some && !is_known(alert->0.message_ref),
    }
}

/// Whether a request, or none, is what posts a message whose reference is wanted.
pub open spec fn is_post_of(state: SlackState, text: Seq<char>, r: Option<SlackRequest>) -> bool {
    match r {
        Some(request) => {
            ||| state.bot_token is Some && state.channel is Some && posts(
                request,
                state.bot_token->0,
                state.channel->0,
                text,
            )
            ||| (state.bot_token is None || state.channel is None) && state.webhook_url is Some
                && hooks(request, state.webhook_url->0, text)
        },
        None => (state.bot_token is None || state.channel is None) && state.webhook_url is None,
    }
}

impl SlackNotifier {
    /// Report a disconnection: posts a new message or updates the existing one.
    pub fn report_disconnect(&self, chain_name: &str, error: &str, now: u64) -> (r: AlertStep)
        ensures
            match alert_of(self@.disconnects, chain_name@) {
                Some(alert) => r matches AlertStep::Update { message_ref, text } && message_ref
                    == alert.message_ref && text@ == still_disconnected_text(
                    chain_name@,
                    elapsed(alert.started_at, now),
                    error@,
                ),
                None => r matches AlertStep::Post { text } && text@ == disconnected_text(
                    chain_name@,
                    error@,
                ),
            },
            tells_disconnect(self@, chain_name@, error@, now, r),
    {
        match self.disconnect_alerts.get(chain_name) {
            Some(alert) => AlertStep::Update {
                message_ref: copy_ref(&alert.message_ref),
                text: still_disconnected_message(
                    chain_name,
                    elapsed_time(alert.started_at, now),
                    error,
                ),
            },
            None => AlertStep::Post { text: disconnected_message(chain_name, error) },
        }
    }

    /// Keep track of a disconnection whose message was posted at `now`, or could
    /// not be.
    pub fn track_disconnect(&mut self, chain_name: &str, posted: Option<MessageRef>, now: u64)
        ensures
            final(self)@ == (SlackState {
                disconnects: old(self)@.disconnects.insert(
                    chain_name@,
                    final(self)@.disconnects[chain_name@],
                ),
                ..old(self)@
            }),
            is_alert_of(final(self)@.disconnects[chain_name@], posted, now),
    {
        self.disconnect_alerts.insert(chain_name.to_string(), new_alert(posted, now));
    }

    /// Report reconnection: the message shows it, and is deleted after a delay.
    pub fn report_reconnect(&mut self, chain_name: &str, now: u64) -> (r: Option<Recovery>)
        ensures
            final(self)@ == (SlackState {
                disconnects: old(self)@.disconnects.remove(chain_name@),
                ..old(self)@
            }),
            ({
                let alert = alert_of(old(self)@.disconnects, chain_name@);
                recovers(
                    alert,
                    r,
                    reconnected_text(chain_name@, elapsed(alert->0.started_at, now)),
                )
            }),
    {
        let r = match self.disconnect_alerts.get(chain_name) {
            Some(alert) => {
                if knows(&alert.message_ref) {
                    Some(
                        Recovery {
                            message_ref: copy_ref(&alert.message_ref),
                            text: reconnected_message(
                                chain_name,
                                elapsed_time(alert.started_at, now),
                            ),
                            delete_after_secs: DELETE_DELAY_SECS,
                        },
                    )
                } else {
                    None
                }
            },
            None => None,
        };
        self.disconnect_alerts.remove(chain_name);
        r
    }

    /// Report no blocks authored: posts a new message or updates the existing one.
    pub fn report_no_blocks(&self, chain_name: &str, duration_since_last: u64) -> (r: AlertStep)
        ensures
            ({
                let message = no_blocks_text(chain_name@, duration_since_last, self@.ops);
                match alert_of(self@.block_alerts, chain_name@) {
                    Some(alert) => if is_known(alert.message_ref) {
                        r matches AlertStep::Update { message_ref, text } && message_ref
                            == alert.message_ref && text@ == message
                    } else {
                        r is Nothing
                    },
                    None => r matches AlertStep::Post { text } && text@ == message,
                }
            }),
            tells_no_blocks(self@, chain_name@, duration_since_last, r),
    {
        let text = no_blocks_message(chain_name, duration_since_last, &self.user_ids_ops);
        match self.block_alerts.get(chain_name) {
            Some(alert) => {
                if knows(&alert.message_ref) {
                    AlertStep::Update { message_ref: copy_ref(&alert.message_ref), text }
                } else {
                    AlertStep::Nothing
                }
            },
            None => AlertStep::Post { text },
        }
    }

    /// Keep track of a lack of blocks whose message was posted at `now`, or could
    /// not be.
    pub fn track_no_blocks(&mut self, chain_name: &str, posted: Option<MessageRef>, now: u64)
        ensures
            final(self)@ == (SlackState {
                block_alerts: old(self)@.block_alerts.insert(
                    chain_name@,
                    final(self)@.block_alerts[chain_name@],
                ),
                ..old(self)@
            }),
            is_alert_of(final(self)@.block_alerts[chain_name@], posted, now),
    {
        self.block_alerts.insert(chain_name.to_string(), new_alert(posted, now));
    }

    /// Report block authored: the message shows it, and is deleted after a delay.
    pub fn report_block_authored(&mut self, chain_name: &str, now: u64) -> (r: Option<Recovery>)
        ensures
            final(self)@ == (SlackState {
                block_alerts: old(self)@.block_alerts.remove(chain_name@),
                ..old(self)@
            }),
            ({
                let alert = alert_of(old(self)@.block_alerts, chain_name@);
                recovers(alert, r, restored_text(chain_name@, elapsed(alert->0.started_at, now)))
            }),
    {
        let r = match self.block_alerts.get(chain_name) {
            Some(alert) => {
                if knows(&alert.message_ref) {
                    Some(
                        Recovery {
                            message_ref: copy_ref(&alert.message_ref),
                            text: restored_message(chain_name, elapsed_time(alert.started_at, now)),
                            delete_after_secs: DELETE_DELAY_SECS,
                        },
                    )
                } else {
                    None
                }
            },
            None => None,
        };
        self.block_alerts.remove(chain_name);
        r
    }

    /// The request that posts a message whose reference is wanted: with the bot's
    /// token, else to the webhook, else none.
    pub fn post_message(&self, text: &str) -> (r: Option<SlackRequest>)
        ensures
            match (self@.bot_token, self@.channel, self@.webhook_url) {
                (Some(token), Some(channel), _) => r matches Some(q) && posts(
                    q,
                    token,
                    channel,
                    text@,
                ),
                (_, _, Some(url)) => r matches Some(q) && hooks(q, url, text@),
                _ => r is None,
            },
            is_post_of(self@, text@, r),
    {
        match (&self.bot_token, &self.channel) {
            (Some(token), Some(channel)) => Some(post_request(token, channel, text)),
            _ => match &self.webhook_url {
                Some(url) => Some(webhook_request(url, text)),
                None => None,
            },
        }
    }

    /// The reference that Slack's response to a posted message gives, if any.
    pub fn posted_ref(response: SlackResponse, now: u64) -> (r: Option<MessageRef>)
        ensures
            r == match (response.ts, response.channel) {
                (Some(ts), Some(channel)) => if response.ok {
                    Some(MessageRef { channel, ts, posted_at: now })
                } else {
                    None
                },
                _ => None,
            },
    {
        if !response.ok {
            return None;
        }
        match (response.ts, response.channel) {
            (Some(ts), Some(channel)) => Some(MessageRef { channel, ts, posted_at: now }),
            _ => None,
        }
    }

    /// The timestamp of a posted message (for later deletion).
    pub fn send_and_get_ts(posted: Option<MessageRef>) -> (r: Option<String>)
        ensures
            r == match posted {
                Some(m) => Some(m.ts),
                None => None,
            },
    {
        match posted {
            Some(m) => Some(m.ts),
            None => None,
        }
    }

    /// The request that updates an existing message: none without a bot's token.
    pub fn update_message(&self, message: &MessageRef, text: &str) -> (r: Option<SlackRequest>)
        ensures
            match self@.bot_token {
                Some(token) => r matches Some(q) && updates(q, token, *message, text@),
                None => r is None,
            },
    {
        match &self.bot_token {
            Some(token) => Some(
                SlackRequest::Update {
                    token: token.clone(),
                    payload: SlackUpdateMessage {
                        channel: message.channel.clone(),
                        ts: message.ts.clone(),
                        text: text.to_string(),
                        blocks: section(text),
                    },
                },
            ),
            None => None,
        }
    }

    /// The request that deletes a message by reference: none without a bot's token.
    pub fn delete_message_by_ref(&self, message: &MessageRef) -> (r: Option<SlackRequest>)
        ensures
            match self@.bot_token {
                Some(token) => r matches Some(q) && deletes(
                    q,
                    token,
                    message.channel@,
                    message.ts@,
                ),
                None => r is None,
            },
    {
        match &self.bot_token {
            Some(token) => Some(delete_request(token, message.channel.as_str(), message.ts.as_str())),
            None => None,
        }
    }

    /// The request that deletes a message of the notifier's channel by timestamp:
    /// none without a bot's token and a channel.
    pub fn delete_message(&self, ts: &str) -> (r: Option<SlackRequest>)
        ensures
            match (self@.bot_token, self@.channel) {
                (Some(token), Some(channel)) => r matches Some(q) && deletes(q, token, channel, ts@),
                _ => r is None,
            },
    {
        match (&self.bot_token, &self.channel) {
            (Some(token), Some(channel)) => Some(delete_request(token, channel.as_str(), ts)),
            _ => None,
        }
    }

    /// What is needed to delete messages later.
    pub fn clone_for_delete(&self) -> (r: DeleteHelper)
        ensures
            text_view(r.bot_token) == self@.bot_token,
    {
        let bot_token = match &self.bot_token {
            Some(token) => Some(token.clone()),
            None => None,
        };
        DeleteHelper { bot_token }
    }

    /// What sending a message does next, after what happened so far.
    pub fn send(&self, message: &str, progress: SendProgress) -> (r: SendStep)
        ensures
            sends(self@, message@, progress, r),
    {
        match progress {
            SendProgress::Start => match (&self.bot_token, &self.channel) {
                (Some(token), Some(channel)) => SendStep::Request(
                    post_request(token, channel, message),
                ),
                _ => match &self.webhook_url {
                    Some(url) => SendStep::Request(webhook_request(url, message)),
                    None => SendStep::Done,
                },
            },
            SendProgress::Posted { success } => if success {
                SendStep::Done
            } else {
                match &self.webhook_url {
                    Some(url) => SendStep::Request(webhook_request(url, message)),
                    None => SendStep::Done,
                }
            },
            SendProgress::Hooked { success, status, body } => if success {
                SendStep::Done
            } else {
                let mut e = "Slack notification failed: ".to_string();
                e.append(status.as_str());
                e.append(" - ");
                e.append(body.as_str());
                SendStep::Failed(e)
            },
        }
    }
}

/// What is needed to delete messages later.
#[derive(Debug)]
pub struct DeleteHelper {
    pub bot_token: Option<String>,
}

impl DeleteHelper {
    /// The request that deletes a message: none without a bot's token, and none
    /// for a message that Slack does not know.
    pub fn delete_message_by_ref(&self, message: &MessageRef) -> (r: Option<SlackRequest>)
        ensures
            match self.bot_token {
                Some(token) => if is_known(*message) {
                    r matches Some(q) && deletes(q, token@, message.channel@, message.ts@)
                } else {
                    r is None
                },
                None => r is None,
            },
    {
        match &self.bot_token {
            Some(token) => {
                if knows(message) {
                    Some(delete_request(token, message.channel.as_str(), message.ts.as_str()))
                } else {
                    None
                }
            },
            None => None,
        }
    }
}

/// How far the sending of a message is.
#[derive(Debug)]
pub enum SendProgress {
    /// Nothing was tried
    Start,
    /// Slack answered to the message that was posted with the bot's token
    Posted { success: bool },
    /// The webhook answered
    Hooked { success: bool, status: String, body: String },
}

/// What sending a message does next.
#[derive(Debug)]
pub enum SendStep {
    /// Make a request, and tell how it was answered
    Request(SlackRequest),
    /// The message was sent, or there is no way to send it
    Done,
    /// The message could not be sent
    Failed(String),
}

/// What sending a message does next: the bot's token is tried first, then the
/// webhook; that both are missing is no failure.
pub open spec fn sends(
    state: SlackState,
    message: Seq<char>,
    progress: SendProgress,
    r: SendStep,
) -> bool {
    let by_webhook = match state.webhook_url {
        Some(url) => r matches SendStep::Request(q) && hooks(q, url, message),
        None => r is Done,
    };
    match progress {
        SendProgress::Start => match (state.bot_token, state.channel) {
            (Some(token), Some(channel)) => r matches SendStep::Request(q) && posts(
                q,
                token,
                channel,
                message,
            ),
            _ => by_webhook,
        },
        SendProgress::Posted { success } => if success {
            r is Done
        } else {
            by_webhook
        },
        SendProgress::Hooked { success, status, body } => if success {
            r is Done
        } else {
            r matches SendStep::Failed(e) && e@ == "Slack notification failed: "@ + status@ + " - "@
                + body@
        },
    }
}

fn post_request(token: &String, channel: &String, text: &str) -> (r: SlackRequest)
    ensures
        posts(r, token@, channel@, text@),
{
    SlackRequest::Post {
        token: token.clone(),
        payload: SlackPostMessage {
            channel: channel.clone(),
            text: text.to_string(),
            blocks: section(text),
        },
    }
}

fn webhook_request(url: &String, text: &str) -> (r: SlackRequest)
    ensures
        hooks(r, url@, text@),
{
    SlackRequest::Webhook {
        url: url.clone(),
        payload: SlackWebhookMessage { text: text.to_string(), blocks: section(text) },
    }
}

fn delete_request(token: &String, channel: &str, ts: &str) -> (r: SlackRequest)
    ensures
        deletes(r, token@, channel@, ts@),
{
    SlackRequest::Delete {
        token: token.clone(),
        payload: SlackDeleteMessage { channel: channel.to_string(), ts: ts.to_string() },
    }
}

fn copy_texts(list: &Vec<String>) -> (r: Vec<String>)
    ensures
        views(r@) == views(list@),
{
    let mut r: Vec<String> = Vec::new();
    let mut i: usize = 0;
    while i < list.len()
        invariant
            i <= list@.len(),
            r@.len() == i,
            forall|j: int| 0 <= j < i ==> (#[trigger] r@[j])@ == list@[j]@,
        decreases list@.len() - i,
    {
        r.push(list[i].clone());
        i = i + 1;
    }
    assert(views(r@) =~= views(list@));
    r
}

/// The notifier of a configuration: with the bot's token where it and a channel
/// are given, else with the webhook.
pub fn notifier_of(config: &AppConfig) -> (r: SlackNotifier)
    ensures
        r@ == match (text_view(config.slack_bot_token), text_view(config.slack_channel)) {
            (Some(token), Some(channel)) => fresh(
                None,
                Some(token),
                Some(channel),
                views(config.slack_user_ids_onchain@),
                views(config.slack_user_ids_ops@),
            ),
            _ => fresh(
                text_view(config.slack_webhook_url),
                None,
                None,
                views(config.slack_user_ids_onchain@),
                views(config.slack_user_ids_ops@),
            ),
        },
{
    match (&config.slack_bot_token, &config.slack_channel) {
        (Some(token), Some(channel)) => SlackNotifier::with_bot_token(
            token.clone(),
            channel.clone(),
            copy_texts(&config.slack_user_ids_onchain),
            copy_texts(&config.slack_user_ids_ops),
        ),
        _ => webhook_notifier_of(config),
    }
}

/// The notifier of a configuration that posts to the webhook alone.
pub fn webhook_notifier_of(config: &AppConfig) -> (r: SlackNotifier)
    ensures
        r@ == fresh(
            text_view(config.slack_webhook_url),
            None,
            None,
            views(config.slack_user_ids_onchain@),
            views(config.slack_user_ids_ops@),
        ),
{
    let url = match &config.slack_webhook_url {
        Some(u) => Some(u.clone()),
        None => None,
    };
    SlackNotifier::new(
        url,
        copy_texts(&config.slack_user_ids_onchain),
        copy_texts(&config.slack_user_ids_ops),
    )
}

proof fn lemma_kind_names(a: AlertKind, b: AlertKind)
    ensures
        a != b ==> a.spec_name().len() != b.spec_name().len(),
        forall|i: int| 0 <= i < a.spec_name().len() ==> #[trigger] a.spec_name()[i] != ':',
        ":"@.len() == 1,
        ":"@[0] == ':',
{
    reveal_strlit("insufficient_funds");
    reveal_strlit("manual_action");
    reveal_strlit("cannot_compete");
    reveal_strlit("error");
    reveal_strlit(":");
}

/// The keys of two chains or of two kinds of alert are never the same.
pub proof fn law_rate_keys_differ(c1: Seq<char>, k1: AlertKind, c2: Seq<char>, k2: AlertKind)
    requires
        rate_key(c1, k1) == rate_key(c2, k2),
    ensures
        c1 == c2,
        k1 == k2,
{
    lemma_kind_names(k1, k2);
    lemma_kind_names(k2, k1);
    let x = rate_key(c1, k1);
    let y = rate_key(c2, k2);
    let n1 = k1.spec_name().len() as int;
    let n2 = k2.spec_name().len() as int;
    assert(x.len() == c1.len() + 1 + n1);
    assert(y.len() == c2.len() + 1 + n2);
    assert(x[c1.len() as int] == ':');
    assert(y[c2.len() as int] == ':');
    if n1 < n2 {
        let at = c1.len() as int;
        assert(y[at] == k2.spec_name()[at - c2.len() - 1]);
    } else if n2 < n1 {
        let at = c2.len() as int;
        assert(x[at] == k1.spec_name()[at - c1.len() - 1]);
    }
    assert(c1 =~= x.take(c1.len() as int));
    assert(c2 =~= y.take(c2.len() as int));
}

/// An alert that was sent is not repeated within four hours, and may be sent
/// again once they have passed.
pub proof fn law_alerts_are_rate_limited(
    state: SlackState,
    chain_name: Seq<char>,
    kind: AlertKind,
    sent: u64,
    now: u64,
)
    requires
        may_notify(state, rate_key(chain_name, kind), sent),
        sent <= now,
    ensures
        may_notify(after_alert(state, chain_name, kind, sent), rate_key(chain_name, kind), now)
            <==> now - sent >= 14_400_000_000_000,
{
}

/// An alert does not hold back an alert of another kind or on another chain.
pub proof fn law_limits_are_per_chain_and_kind(
    state: SlackState,
    c1: Seq<char>,
    k1: AlertKind,
    c2: Seq<char>,
    k2: AlertKind,
    t1: u64,
    t2: u64,
)
    requires
        c1 != c2 || k1 != k2,
    ensures
        may_notify(after_alert(state, c1, k1, t1), rate_key(c2, k2), t2) == may_notify(
            state,
            rate_key(c2, k2),
            t2,
        ),
{
    if rate_key(c1, k1) == rate_key(c2, k2) {
        law_rate_keys_differ(c1, k1, c2, k2);
    }
}

/// After a success on a chain, a registration or a raised bond, any alert on that
/// chain may be sent at once; other chains are held back as before.
pub proof fn law_success_lifts_the_limits(
    state: SlackState,
    chain_name: Seq<char>,
    other: Seq<char>,
    kind: AlertKind,
    now: u64,
)
    requires
        other != chain_name,
    ensures
        may_notify(without_limits(state, chain_name), rate_key(chain_name, kind), now),
        may_notify(
            without_limits(without_issue(state, chain_name), chain_name),
            rate_key(chain_name, kind),
            now,
        ),
        may_notify(without_limits(state, chain_name), rate_key(other, kind), now) == may_notify(
            state,
            rate_key(other, kind),
            now,
        ),
{
    assert forall|k: AlertKind| rate_key(other, kind) != #[trigger] rate_key(chain_name, k) by {
        if rate_key(other, kind) == rate_key(chain_name, k) {
            law_rate_keys_differ(other, kind, chain_name, k);
        }
    }
    assert(rate_key(other, kind) != rate_key(chain_name, AlertKind::InsufficientFunds));
    assert(rate_key(other, kind) != rate_key(chain_name, AlertKind::ManualAction));
    assert(rate_key(other, kind) != rate_key(chain_name, AlertKind::CannotCompete));
    assert(rate_key(other, kind) != rate_key(chain_name, AlertKind::Error));
}

/// A chain has an issue open from an alert other than an error on, until it is
/// resolved or the collator registers; what is open on other chains stays.
pub proof fn law_issues_are_open_until_resolved(
    state: SlackState,
    chain_name: Seq<char>,
    other: Seq<char>,
    kind: AlertKind,
    now: u64,
)
    requires
        other != chain_name,
    ensures
        !(kind is Error) ==> after_alert(state, chain_name, kind, now).outstanding.contains(
            chain_name,
        ),
        kind is ManualAction ==> after_alert(state, chain_name, kind, now).manual.contains(
            chain_name,
        ),
        !without_issue(state, chain_name).outstanding.contains(chain_name),
        !without_issue(state, chain_name).manual.contains(chain_name),
        !without_limits(without_issue(state, chain_name), chain_name).outstanding.contains(
            chain_name,
        ),
        after_alert(state, chain_name, kind, now).outstanding.contains(other)
            == state.outstanding.contains(other),
        without_issue(state, chain_name).outstanding.contains(other) == state.outstanding.contains(
            other,
        ),
        after_alert(state, chain_name, kind, now).manual.contains(other) == state.manual.contains(
            other,
        ),
        without_issue(state, chain_name).manual.contains(other) == state.manual.contains(other),
{
}

/// A trouble that is tracked on a chain stays the alert of that chain, with the
/// time it began, until the chain recovers; then there is none, and the next
/// trouble is posted anew. The alerts of other chains stay.
pub proof fn law_alerts_last_until_recovery(
    alerts: Map<Seq<char>, TrackedAlert>,
    chain_name: Seq<char>,
    other: Seq<char>,
    alert: TrackedAlert,
)
    requires
        other != chain_name,
    ensures
        alert_of(alerts.insert(chain_name, alert), chain_name) == Some(alert),
        alert_of(alerts.remove(chain_name), chain_name) is None,
        alert_of(alerts.insert(chain_name, alert).remove(chain_name), chain_name) is None,
        alert_of(alerts.insert(chain_name, alert), other) == alert_of(alerts, other),
        alert_of(alerts.remove(chain_name), other) == alert_of(alerts, other),
{
}

/// A notification under a key may be sent exactly where none was sent, or the last
/// one was sent four hours ago or more; asking keeps when it was asked for, where it
/// may be sent, and changes nothing else.
pub proof fn law_notifications_may_be_sent(
    state: SlackState,
    key: Seq<char>,
    other: Seq<char>,
    now: u64,
)
    requires
        other != key,
    ensures
        ({
            let may = !state.last_notification.contains_key(key) || now
                - state.last_notification[key] >= 14_400_000_000_000;
            let after = after_asking(state, key, now);
            &&& may_notify(state, key, now) <==> may
            &&& may ==> after.last_notification.contains_key(key) && after.last_notification[key]
                == now
            &&& !may ==> after == state
            &&& after.last_notification.contains_key(other)
                <==> state.last_notification.contains_key(other)
            &&& after.last_notification.contains_key(other) ==> after.last_notification[other]
                == state.last_notification[other]
            &&& after == SlackState { last_notification: after.last_notification, ..state }
        }),
{
}

/// A text that may be missing is seen as its characters where it is there.
pub proof fn law_texts_that_may_be_missing(text: String)
    ensures
        text_view(Some(text)) == Some(text@),
        text_view(None) is None,
{
}

/// What an alert leaves behind: where it may be sent, when it was asked for is kept
/// for its chain and kind; where it may not, when the last one was sent stays. The
/// chain has an issue open unless the alert is of an error, and waits for the
/// operator where it is a request; sent or not. Nothing else changes.
pub proof fn law_alerts_leave_their_marks(
    state: SlackState,
    chain_name: Seq<char>,
    kind: AlertKind,
    now: u64,
    key: Seq<char>,
    name: Seq<char>,
)
    ensures
        ({
            let own = rate_key(chain_name, kind);
            let after = after_alert(state, chain_name, kind, now);
            &&& may_notify(state, own, now) ==> after.last_notification.contains_key(own)
                && after.last_notification[own] == now
            &&& !may_notify(state, own, now) ==> after.last_notification == state.last_notification
            &&& key != own ==> (after.last_notification.contains_key(key)
                <==> state.last_notification.contains_key(key)) && (
            after.last_notification.contains_key(key) ==> after.last_notification[key]
                == state.last_notification[key])
            &&& after.outstanding.contains(name) <==> state.outstanding.contains(name) || (name
                == chain_name && !(kind is Error))
            &&& after.manual.contains(name) <==> state.manual.contains(name) || (name == chain_name
                && kind is ManualAction)
            &&& after.webhook_url == state.webhook_url
            &&& after.bot_token == state.bot_token
            &&& after.channel == state.channel
            &&& after.onchain == state.onchain
            &&& after.ops == state.ops
            &&& after.disconnects == state.disconnects
            &&& after.block_alerts == state.block_alerts
        }),
{
}

/// A success forgets when alerts were sent on its chain, and nothing else: no key
/// of another chain, and no other matter.
pub proof fn law_success_forgets_its_chain_alone(
    state: SlackState,
    chain_name: Seq<char>,
    key: Seq<char>,
)
    ensures
        ({
            let after = without_limits(state, chain_name);
            let of_chain = key == rate_key(chain_name, AlertKind::InsufficientFunds) || key
                == rate_key(chain_name, AlertKind::ManualAction) || key == rate_key(
                chain_name,
                AlertKind::CannotCompete,
            ) || key == rate_key(chain_name, AlertKind::Error);
            &&& after.last_notification.contains_key(key)
                <==> state.last_notification.contains_key(key) && !of_chain
            &&& after.last_notification.contains_key(key) ==> after.last_notification[key]
                == state.last_notification[key]
            &&& after == SlackState { last_notification: after.last_notification, ..state }
        }),
{
}

/// A resolved issue is open no more, nor waits for the operator; other chains, when
/// alerts were sent and all else stay as they are.
pub proof fn law_resolution_closes_its_chain_alone(
    state: SlackState,
    chain_name: Seq<char>,
    name: Seq<char>,
)
    ensures
        ({
            let after = without_issue(state, chain_name);
            &&& after.outstanding.contains(name) <==> state.outstanding.contains(name) && name
                != chain_name
            &&& after.manual.contains(name) <==> state.manual.contains(name) && name != chain_name
            &&& after == SlackState {
                outstanding: after.outstanding,
                manual: after.manual,
                ..state
            }
        }),
{
}

/// A key is the chain, a colon and the kind.
pub proof fn law_rate_keys_name_chain_and_kind(chain_name: Seq<char>, kind: AlertKind)
    ensures
        rate_key(chain_name, kind) == chain_name + match kind {
            AlertKind::InsufficientFunds => ":insufficient_funds"@,
            AlertKind::ManualAction => ":manual_action"@,
            AlertKind::CannotCompete => ":cannot_compete"@,
            AlertKind::Error => ":error"@,
        },
{
    reveal_strlit(":");
    reveal_strlit("insufficient_funds");
    reveal_strlit("manual_action");
    reveal_strlit("cannot_compete");
    reveal_strlit("error");
    reveal_strlit(":insufficient_funds");
    reveal_strlit(":manual_action");
    reveal_strlit(":cannot_compete");
    reveal_strlit(":error");
    let key = rate_key(chain_name, kind);
    match kind {
        AlertKind::InsufficientFunds => assert(key =~= chain_name + ":insufficient_funds"@),
        AlertKind::ManualAction => assert(key =~= chain_name + ":manual_action"@),
        AlertKind::CannotCompete => assert(key =~= chain_name + ":cannot_compete"@),
        AlertKind::Error => assert(key =~= chain_name + ":error"@),
    }
}

/// A notifier that has sent nothing may send any alert, and has nothing open.
pub proof fn law_fresh_notifier_has_nothing_open(
    webhook_url: Option<Seq<char>>,
    bot_token: Option<Seq<char>>,
    channel: Option<Seq<char>>,
    onchain: Seq<Seq<char>>,
    ops: Seq<Seq<char>>,
    name: Seq<char>,
    now: u64,
)
    ensures
        ({
            let state = fresh(webhook_url, bot_token, channel, onchain, ops);
            &&& may_notify(state, name, now)
            &&& !state.outstanding.contains(name)
            &&& !state.manual.contains(name)
            &&& alert_of(state.disconnects, name) is None
            &&& alert_of(state.block_alerts, name) is None
            &&& state.webhook_url == webhook_url
            &&& state.bot_token == bot_token
            &&& state.channel == channel
            &&& state.onchain == onchain
            &&& state.ops == ops
        }),
{
}

/// Every request that carries a text carries it twice, plainly and as one section
/// that Slack formats: with the token to the channel, to the webhook, or over the
/// message of the reference. A request that deletes names the channel and the
/// message.
pub proof fn law_requests_carry_their_text(
    request: SlackRequest,
    place: Seq<char>,
    channel: Seq<char>,
    message: MessageRef,
    text: Seq<char>,
)
    ensures
        posts(request, place, channel, text) ==> (request matches SlackRequest::Post {
            token,
            payload,
        } && token@ == place && payload.channel@ == channel && payload.text@ == text
            && is_section(payload.blocks, text)),
        hooks(request, place, text) ==> (request matches SlackRequest::Webhook { url, payload }
            && url@ == place && payload.text@ == text && is_section(payload.blocks, text)),
        updates(request, place, message, text) ==> (request matches SlackRequest::Update {
            token,
            payload,
        } && token@ == place && payload.channel@ == message.channel@ && payload.ts@ == message.ts@
            && payload.text@ == text && is_section(payload.blocks, text)),
        deletes(request, place, channel, message.ts@) ==> (request matches SlackRequest::Delete {
            token,
            payload,
        } && token@ == place && payload.channel@ == channel && payload.ts@ == message.ts@),
        forall|blocks: Option<Vec<SlackBlock>>| #[trigger]
            is_section(blocks, text) ==> blocks is Some && blocks->0@.len() == 1
                && blocks->0@[0].block_type@ == "section"@ && (blocks->0@[0].text matches Some(t)
                && t.text_type@ == "mrkdwn"@ && t.text@ == text),
{
}

/// A message goes to the channel with the bot's token where there are both; else,
/// and where that fails, to the webhook; without one, nothing more is done. What
/// succeeds is not repeated. Only a webhook that fails is a failure, with its status
/// and its answer.
pub proof fn law_messages_go_to_the_channel_first(
    state: SlackState,
    message: Seq<char>,
    progress: SendProgress,
    step: SendStep,
)
    requires
        sends(state, message, progress, step),
    ensures
        ({
            let with_bot = state.bot_token is Some && state.channel is Some;
            match progress {
                SendProgress::Start if with_bot => step is Request && posts(
                    step->Request_0,
                    state.bot_token->0,
                    state.channel->0,
                    message,
                ),
                SendProgress::Posted { success: true } => step is Done,
                SendProgress::Hooked { success: true, status: _, body: _ } => step is Done,
                SendProgress::Hooked { success: false, status, body } => step is Failed
                    && step->Failed_0@ == "Slack notification failed: "@ + status@ + " - "@ + body@,
                _ => if state.webhook_url is Some {
                    step is Request && hooks(step->Request_0, state.webhook_url->0, message)
                } else {
                    step is Done
                },
            }
        }),
{
}

/// A trouble that is over is told over its message, which is deleted a minute later,
/// exactly where there was an alert whose message Slack knows by a timestamp.
pub proof fn law_recoveries_are_told_and_deleted(
    alert: Option<TrackedAlert>,
    r: Option<Recovery>,
    text: Seq<char>,
)
    requires
        recovers(alert, r, text),
    ensures
        r is Some <==> alert is Some && alert->0.message_ref.ts@.len() > 0,
        r matches Some(done) ==> done.message_ref == alert->0.message_ref && done.text@ == text
            && done.delete_after_secs == 60,
{
}

/// The alert that is kept begins now, with the message that was posted, or with one
/// that Slack does not know where none could be.
pub proof fn law_alerts_begin_now(alert: TrackedAlert, posted: Option<MessageRef>, now: u64)
    requires
        is_alert_of(alert, posted, now),
    ensures
        alert.started_at == now,
        posted matches Some(m) ==> alert.message_ref == m,
        posted is None ==> alert.message_ref.ts@.len() == 0 && !is_known(alert.message_ref),
        is_known(alert.message_ref) <==> alert.message_ref.ts@.len() > 0,
{
}

/// A lost connection is posted exactly once: where no alert of the chain is kept, the
/// first report is posted; else the message of that alert tells how long it has been
/// lost, whether or not Slack knows it. It is never passed over.
pub proof fn law_loss_of_connection_is_posted_once(
    state: SlackState,
    chain_name: Seq<char>,
    error: Seq<char>,
    now: u64,
    step: AlertStep,
)
    requires
        tells_disconnect(state, chain_name, error, now, step),
    ensures
        step is Post <==> !state.disconnects.contains_key(chain_name),
        step is Update <==> state.disconnects.contains_key(chain_name),
        step matches AlertStep::Post { text } ==> text@ == disconnected_text(chain_name, error),
        step matches AlertStep::Update { message_ref, text } ==> {
            let alert = state.disconnects[chain_name];
            &&& message_ref == alert.message_ref
            &&& alert.started_at <= now ==> text@ == still_disconnected_text(
                chain_name,
                (now - alert.started_at) as u64,
                error,
            )
        },
{
}

/// A lack of blocks is posted exactly once, with the users of operations mentioned:
/// where an alert of the chain is kept, its message is told anew if Slack knows it by
/// a timestamp, and nothing is sent if not.
pub proof fn law_lack_of_blocks_is_posted_once(
    state: SlackState,
    chain_name: Seq<char>,
    duration: u64,
    step: AlertStep,
)
    requires
        tells_no_blocks(state, chain_name, duration, step),
    ensures
        ({
            let kept = state.block_alerts.contains_key(chain_name);
            let message = state.block_alerts[chain_name].message_ref;
            &&& step is Post <==> !kept
            &&& step is Update <==> kept && message.ts@.len() > 0
            &&& step is Nothing <==> kept && message.ts@.len() == 0
            &&& step matches AlertStep::Post { text } ==> text@ == no_blocks_text(
                chain_name,
                duration,
                state.ops,
            )
            &&& step matches AlertStep::Update { message_ref, text } ==> message_ref == message
                && text@ == no_blocks_text(chain_name, duration, state.ops)
        }),
{
}

/// A message whose reference is wanted is posted to the channel where there are a
/// token and a channel, whether or not there is a webhook; else to the webhook; and
/// not at all exactly where there is neither way.
pub proof fn law_posts_prefer_the_channel(
    state: SlackState,
    text: Seq<char>,
    r: Option<SlackRequest>,
)
    requires
        is_post_of(state, text, r),
    ensures
        state.bot_token is Some && state.channel is Some ==> r is Some && posts(
            r->0,
            state.bot_token->0,
            state.channel->0,
            text,
        ),
        !(state.bot_token is Some && state.channel is Some) && state.webhook_url is Some ==> r is Some
            && hooks(r->0, state.webhook_url->0, text),
        r is None <==> !(state.bot_token is Some && state.channel is Some)
            && state.webhook_url is None,
{
}

} // verus!
