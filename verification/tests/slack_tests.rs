use collator_monitor::config::AppConfig;
use collator_monitor::messages::{format_balance, format_duration, format_mentions, ChainSlotInfo};
use collator_monitor::slack::{
    notifier_of, rate_key_text, webhook_notifier_of, AlertKind, AlertStep, MessageRef,
    SendProgress, SendStep, SlackBlock, SlackNotifier, SlackRequest, SlackResponse,
};

const SECOND: u64 = 1_000_000_000;
const HOUR: u64 = 3600 * SECOND;

fn ids(list: &[&str]) -> Vec<String> {
    list.iter().map(|s| s.to_string()).collect()
}

fn bot() -> SlackNotifier {
    SlackNotifier::with_bot_token(
        "token".to_string(),
        "channel".to_string(),
        ids(&["U1", "U2"]),
        ids(&["OPS"]),
    )
}

fn hook() -> SlackNotifier {
    SlackNotifier::new(Some("https://hook".to_string()), ids(&["U1"]), vec![])
}

fn silent() -> SlackNotifier {
    SlackNotifier::new(None, vec![], vec![])
}

fn message(ts: &str) -> MessageRef {
    MessageRef { channel: "C1".to_string(), ts: ts.to_string(), posted_at: 3 }
}

fn is_section(blocks: &Option<Vec<SlackBlock>>, text: &str) -> bool {
    match blocks {
        Some(list) => {
            list.len() == 1
                && list[0].block_type == "section"
                && match &list[0].text {
                    Some(t) => t.text_type == "mrkdwn" && t.text == text,
                    None => false,
                }
        }
        None => false,
    }
}

fn funds(n: &mut SlackNotifier, chain: &str, now: u64) -> Option<String> {
    n.alert_insufficient_funds(chain, "5Addr", 15_000_000_000, 1_000_000_000_000, "DOT", 10, now)
}

#[test]
fn balances_with_up_to_four_digits() {
    assert_eq!(format_balance(15_000_000_000, 10, "DOT"), "1.5000 DOT");
    assert_eq!(format_balance(123_456_789, 10, "DOT"), "0.0123 DOT");
    assert_eq!(format_balance(7, 0, "X"), "7.0 X");
    assert_eq!(format_balance(1234, 3, "X"), "1.234 X");
}

#[test]
fn durations() {
    assert_eq!(format_duration(59 * SECOND + 999), "59s");
    assert_eq!(format_duration(60 * SECOND), "1m 0s");
    assert_eq!(format_duration(3599 * SECOND), "59m 59s");
    assert_eq!(format_duration(3660 * SECOND), "1h 1m");
    assert_eq!(format_duration(0), "0s");
}

#[test]
fn mentions() {
    assert_eq!(format_mentions(&vec![]), "");
    assert_eq!(format_mentions(&ids(&["A"])), "\n\ncc: <@A>");
    assert_eq!(bot().format_onchain_mentions(), "\n\ncc: <@U1> <@U2>");
    assert_eq!(bot().format_ops_mentions(), "\n\ncc: <@OPS>");
    assert_eq!(silent().format_ops_mentions(), "");
}

#[test]
fn insufficient_funds_text() {
    let mut n = hook();
    assert_eq!(
        funds(&mut n, "DOT People", 0).unwrap(),
        "⚠️ *Insufficient funds* on *DOT People*\n\nCollator: `5Addr`\nAvailable: 1.5000 DOT\n\
         Required: 100.0000 DOT\n\nPlease add funds to continue as a candidate.\n\ncc: <@U1>\n\n\
         _This alert is rate-limited to once every 4 hours._"
    );
    assert!(n.has_outstanding_issue("DOT People"));
    assert!(!n.was_manual_action_required("DOT People"));
}

#[test]
fn alerts_are_rate_limited() {
    let mut n = hook();
    assert!(funds(&mut n, "a", 0).is_some());
    assert!(funds(&mut n, "a", 4 * HOUR - 1).is_none());
    assert!(n.has_outstanding_issue("a"));
    assert!(funds(&mut n, "b", 1).is_some());
    assert!(n.alert_cannot_compete("a", "x", 1, 2, 2, "DOT", 10, 1).is_some());
    assert!(funds(&mut n, "a", 4 * HOUR).is_some());
    assert!(funds(&mut n, "a", 4 * HOUR + 1).is_none());
}

#[test]
fn errors_are_rate_limited_per_chain() {
    let mut n = hook();
    assert_eq!(n.notify_error("a", "boom", 0).unwrap(), "❌ *Error* on *a*\n\n`boom`");
    assert!(n.notify_error("a", "boom", HOUR).is_none());
    assert!(n.notify_error("b", "boom", HOUR).is_some());
    assert!(!n.has_outstanding_issue("a"));
}

#[test]
fn success_lifts_the_limits_of_its_chain() {
    let mut n = hook();
    assert!(funds(&mut n, "a", 0).is_some());
    assert!(funds(&mut n, "b", 0).is_some());
    assert!(n.notify_error("a", "e", 0).is_some());
    let text = n.notify_bond_update("a", "5Addr", 10_000_000_000, 20_000_000_000, "DOT", 10);
    assert_eq!(
        text,
        "📈 *Bond updated* on *a*\n\nCollator: `5Addr`\nPrevious: 1.0000 DOT\nNew: 2.0000 DOT"
    );
    assert!(n.has_outstanding_issue("a"));
    assert!(funds(&mut n, "a", 1).is_some());
    assert!(n.notify_error("a", "e", 1).is_some());
    assert!(funds(&mut n, "b", 1).is_none());
}

#[test]
fn registration_closes_the_issue() {
    let mut n = hook();
    assert!(n.alert_manual_action_required("a", "x", "act", None, 0).is_some());
    let text = n.notify_registration_success("a", "5Addr", 10_000_000_000, "DOT", 10);
    assert_eq!(
        text,
        "✅ *Registered as candidate* on *a*\n\nCollator: `5Addr`\nBond: 1.0000 DOT"
    );
    assert!(!n.has_outstanding_issue("a"));
    assert!(!n.was_manual_action_required("a"));
    assert!(n.alert_manual_action_required("a", "x", "act", None, 1).is_some());
}

#[test]
fn manual_action_text() {
    let mut n = hook();
    let text = n.alert_manual_action_required("KSM Bridge Hub", "5Addr", "Do it", Some("0x00"), 0);
    assert_eq!(
        text.unwrap(),
        "🔧 *Manual Action Required*\n\n*Chain:* KSM Bridge Hub\n*Collator:* `5Addr`\n\n\
         Automatic action not possible on this chain.\n*Action needed:* Do it\n\n\
         *Batch Call Data* (for Polkadot.js Developer > Extrinsics > Decode):\n```0x00```\n\n\
         Please perform this action manually via Polkadot.js or similar.\n\ncc: <@U1>\n\n\
         _This alert is rate-limited to once every 4 hours._"
    );
    assert!(n.was_manual_action_required("KSM Bridge Hub"));
}

#[test]
fn cannot_compete_text() {
    let mut n = silent();
    let text = n.alert_cannot_compete(
        "DOT People",
        "5Addr",
        10_000_000_000,
        20_000_000_000,
        10_000_000_001,
        "DOT",
        10,
        0,
    );
    assert_eq!(
        text.unwrap(),
        "⚠️ *Cannot Compete* on *DOT People*\n\nCollator: `5Addr`\nAvailable: 1.0000 DOT\n\
         Lowest candidate bond: 2.0000 DOT\nNeed at least: 1.0000 DOT more\n\n\
         Please add funds to register as a candidate.\n\n\
         _This alert is rate-limited to once every 4 hours._"
    );
}

#[test]
fn issues_are_resolved_once() {
    let mut n = hook();
    assert!(n.notify_issue_resolved("a", "5Addr", "fine").is_none());
    n.add_outstanding_issue("a");
    assert_eq!(
        n.notify_issue_resolved("a", "5Addr", "fine").unwrap(),
        "✅ *Issue Resolved* on *a*\n\nCollator: `5Addr`\nCurrent status: fine"
    );
    assert!(n.notify_issue_resolved("a", "5Addr", "fine").is_none());
    n.mark_manual_action_required("a");
    assert!(n.notify_issue_resolved("a", "5Addr", "fine").is_some());
    n.mark_manual_action_required("a");
    n.clear_manual_action_required("a");
    n.add_outstanding_issue("a");
    n.remove_outstanding_issue("a");
    assert!(n.notify_issue_resolved("a", "5Addr", "fine").is_none());
}

#[test]
fn rate_keys() {
    assert_eq!(rate_key_text("DOT People", AlertKind::CannotCompete), "DOT People:cannot_compete");
    assert_eq!(rate_key_text("a:error", AlertKind::Error), "a:error:error");
    let mut n = hook();
    assert!(n.should_notify("k", 5));
    assert!(!n.should_notify("k", 6));
    n.clear_rate_limits("k");
    assert!(!n.should_notify("k", 7));
}

#[test]
fn disconnections_are_posted_then_updated() {
    let mut n = bot();
    match n.report_disconnect("DOT People", "gone", 0) {
        AlertStep::Post { text } => assert_eq!(
            text,
            "⚠️ *DOT People* disconnected\nError: `gone`\nReconnecting..."
        ),
        other => panic!("{:?}", other),
    }
    n.track_disconnect("DOT People", Some(message("1.5")), 0);
    match n.report_disconnect("DOT People", "gone", 90 * SECOND) {
        AlertStep::Update { message_ref, text } => {
            assert_eq!(message_ref.ts, "1.5");
            assert_eq!(message_ref.channel, "C1");
            assert_eq!(
                text,
                "⚠️ *DOT People* disconnected for *1m 30s*\nError: `gone`\nReconnecting..."
            );
        }
        other => panic!("{:?}", other),
    }
    assert!(n.report_reconnect("KSM People", 100 * SECOND).is_none());
    let done = n.report_reconnect("DOT People", 100 * SECOND).unwrap();
    assert_eq!(done.text, "✅ *DOT People* reconnected after *1m 40s*");
    assert_eq!(done.message_ref.ts, "1.5");
    assert_eq!(done.delete_after_secs, 60);
    assert!(n.report_reconnect("DOT People", 101 * SECOND).is_none());
    assert!(matches!(n.report_disconnect("DOT People", "gone", 0), AlertStep::Post { .. }));
}

#[test]
fn disconnections_without_a_bot_are_tracked_too() {
    let mut n = hook();
    n.track_disconnect("a", None, 0);
    match n.report_disconnect("a", "gone", SECOND) {
        AlertStep::Update { message_ref, .. } => assert_eq!(message_ref.ts, ""),
        other => panic!("{:?}", other),
    }
    assert!(n.report_reconnect("a", SECOND).is_none());
    assert!(matches!(n.report_disconnect("a", "gone", 0), AlertStep::Post { .. }));
}

#[test]
fn missing_blocks_are_posted_then_updated() {
    let mut n = bot();
    let expected = "⏰ *a* - No blocks authored in *30m 0s*\nPlease check collator status.\
                    \n\ncc: <@OPS>";
    match n.report_no_blocks("a", 1800 * SECOND) {
        AlertStep::Post { text } => assert_eq!(text, expected),
        other => panic!("{:?}", other),
    }
    n.track_no_blocks("a", Some(message("2")), 0);
    match n.report_no_blocks("a", 1800 * SECOND) {
        AlertStep::Update { text, .. } => assert_eq!(text, expected),
        other => panic!("{:?}", other),
    }
    let done = n.report_block_authored("a", 5 * SECOND).unwrap();
    assert_eq!(done.text, "✅ *a* - Block production restored after *5s*");
    assert!(n.report_block_authored("a", 5 * SECOND).is_none());
    n.track_no_blocks("a", None, 0);
    assert!(matches!(n.report_no_blocks("a", 1800 * SECOND), AlertStep::Nothing));
    assert!(n.report_block_authored("a", 5 * SECOND).is_none());
}

#[test]
fn messages_are_posted_by_the_bot_or_the_webhook() {
    match bot().post_message("hi").unwrap() {
        SlackRequest::Post { token, payload } => {
            assert_eq!(token, "token");
            assert_eq!(payload.channel, "channel");
            assert_eq!(payload.text, "hi");
            assert!(is_section(&payload.blocks, "hi"));
        }
        other => panic!("{:?}", other),
    }
    match hook().post_message("hi").unwrap() {
        SlackRequest::Webhook { url, payload } => {
            assert_eq!(url, "https://hook");
            assert_eq!(payload.text, "hi");
            assert!(is_section(&payload.blocks, "hi"));
        }
        other => panic!("{:?}", other),
    }
    assert!(silent().post_message("hi").is_none());
    assert!(bot().has_bot_token());
    assert!(!hook().has_bot_token());
}

#[test]
fn responses_give_references() {
    let answer = |ok, ts: Option<&str>, channel: Option<&str>| SlackResponse {
        ok,
        ts: ts.map(|s| s.to_string()),
        channel: channel.map(|s| s.to_string()),
        error: None,
    };
    let m = SlackNotifier::posted_ref(answer(true, Some("1"), Some("C")), 9).unwrap();
    assert_eq!((m.ts.as_str(), m.channel.as_str(), m.posted_at), ("1", "C", 9));
    assert!(SlackNotifier::posted_ref(answer(false, Some("1"), Some("C")), 9).is_none());
    assert!(SlackNotifier::posted_ref(answer(true, None, Some("C")), 9).is_none());
    assert!(SlackNotifier::posted_ref(answer(true, Some("1"), None), 9).is_none());
    assert_eq!(SlackNotifier::send_and_get_ts(Some(message("7"))).as_deref(), Some("7"));
    assert!(SlackNotifier::send_and_get_ts(None).is_none());
}

#[test]
fn messages_are_updated_and_deleted_by_the_bot() {
    let m = message("4");
    match bot().update_message(&m, "new").unwrap() {
        SlackRequest::Update { token, payload } => {
            assert_eq!(token, "token");
            assert_eq!((payload.channel.as_str(), payload.ts.as_str()), ("C1", "4"));
            assert_eq!(payload.text, "new");
            assert!(is_section(&payload.blocks, "new"));
        }
        other => panic!("{:?}", other),
    }
    assert!(hook().update_message(&m, "new").is_none());
    match bot().delete_message_by_ref(&m).unwrap() {
        SlackRequest::Delete { token, payload } => {
            assert_eq!(token, "token");
            assert_eq!((payload.channel.as_str(), payload.ts.as_str()), ("C1", "4"));
        }
        other => panic!("{:?}", other),
    }
    assert!(hook().delete_message_by_ref(&m).is_none());
    match bot().delete_message("9").unwrap() {
        SlackRequest::Delete { payload, .. } => {
            assert_eq!((payload.channel.as_str(), payload.ts.as_str()), ("channel", "9"));
        }
        other => panic!("{:?}", other),
    }
    assert!(hook().delete_message("9").is_none());
    let helper = bot().clone_for_delete();
    assert!(helper.delete_message_by_ref(&m).is_some());
    assert!(helper.delete_message_by_ref(&message("")).is_none());
    assert!(hook().clone_for_delete().delete_message_by_ref(&m).is_none());
}

#[test]
fn sending_starts_with_the_bot_or_the_webhook() {
    assert!(matches!(
        bot().send("hi", SendProgress::Start),
        SendStep::Request(SlackRequest::Post { .. })
    ));
    assert!(matches!(
        hook().send("hi", SendProgress::Start),
        SendStep::Request(SlackRequest::Webhook { .. })
    ));
    assert!(matches!(silent().send("hi", SendProgress::Start), SendStep::Done));
}

#[test]
fn sending_ends() {
    assert!(matches!(bot().send("hi", SendProgress::Posted { success: true }), SendStep::Done));
    assert!(matches!(bot().send("hi", SendProgress::Posted { success: false }), SendStep::Done));
    let answer = |success| SendProgress::Hooked {
        success,
        status: "500".to_string(),
        body: "oops".to_string(),
    };
    assert!(matches!(hook().send("hi", answer(true)), SendStep::Done));
    match hook().send("hi", answer(false)) {
        SendStep::Failed(e) => assert_eq!(e, "Slack notification failed: 500 - oops"),
        other => panic!("{:?}", other),
    }
}

#[test]
fn alerts_mention_operations() {
    assert_eq!(bot().send_alert("look"), "look\n\ncc: <@OPS>");
    assert_eq!(bot().notify("look"), "look");
}

#[test]
fn notifier_of_a_configuration() {
    let mut c = AppConfig::new("a".to_string(), "b".to_string(), "s".to_string());
    c.slack_webhook_url = Some("https://hook".to_string());
    c.slack_user_ids_ops = ids(&["X"]);
    assert!(matches!(
        notifier_of(&c).post_message("hi").unwrap(),
        SlackRequest::Webhook { .. }
    ));
    c.slack_bot_token = Some("t".to_string());
    assert!(!notifier_of(&c).has_bot_token());
    c.slack_channel = Some("c".to_string());
    let n = notifier_of(&c);
    assert!(n.has_bot_token());
    assert_eq!(n.format_ops_mentions(), "\n\ncc: <@X>");
    assert!(!webhook_notifier_of(&c).has_bot_token());
}

fn slot(name: &str) -> ChainSlotInfo {
    ChainSlotInfo {
        chain_name: name.to_string(),
        is_invulnerable: false,
        is_candidate: true,
        position: Some(3),
        max_candidates: Some(5),
        total_candidates: 8,
        your_bond: Some(1),
        lowest_bond: Some(1),
        distance_from_last: None,
        last_block_time: None,
        token_symbol: "DOT".to_string(),
        decimals: 10,
    }
}

#[test]
fn summary_of_all_chains() {
    let mut safe = slot("A");
    safe.is_invulnerable = true;
    safe.is_candidate = false;
    safe.last_block_time = Some(65 * SECOND);
    let mut ahead = slot("B");
    ahead.distance_from_last = Some(5_000_000_000);
    let mut outside = slot("C");
    outside.position = Some(6);
    let mut unlimited = slot("D");
    unlimited.position = Some(6);
    unlimited.max_candidates = Some(0);
    let mut unknown = slot("E");
    unknown.max_candidates = None;
    let mut none = slot("F");
    none.is_candidate = false;
    let text = bot().send_status_summary(&vec![safe, ahead, outside, unlimited, unknown, none]);
    assert_eq!(
        text,
        "📊 *Collator Slot Status Summary*\n\n\
         • *A*: 🛡️ Safe (Invulnerable) | Last block: 1m 5s ago\n\
         • *B*: ✅ #3 of 8 (max 5) | +0.5000 DOT DOT from last\n\
         • *C*: ⚠️ #6 of 8 (max 5) *OUTSIDE ACTIVE SET*\n\
         • *D*: ✅ #6 of 8 (max 0)\n\
         • *E*: ✅ Candidate\n\
         • *F*: ❌ Not a collator"
    );
    assert_eq!(bot().send_status_summary(&vec![]), "📊 *Collator Slot Status Summary*\n");
}
