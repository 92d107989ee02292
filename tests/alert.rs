use validator_switch::alert::{
    catchup_failure_message, delivery_error, delivery_succeeded, switch_result_message,
    telegram_payload, telegram_payload_from, AlertEvent, AlertManager,
};
use validator_switch::config::{AlertConfig, TelegramConfig};

fn manager(enabled: bool, telegram: bool) -> AlertManager {
    AlertManager::new(AlertConfig {
        enabled,
        delinquency_threshold_seconds: 60,
        telegram: if telegram {
            Some(TelegramConfig { bot_token: "123:token".to_string(), chat_id: "-100200".to_string() })
        } else {
            None
        },
    })
}

#[test]
fn delinquency_message_text() {
    let m = manager(true, true);
    assert_eq!(
        m.delinquency_message("Ident111", "node-a", true, 312345, 65),
        "🚨 *VALIDATOR DELINQUENCY ALERT* 🚨\n\n*Validator:* `Ident111`\n*Node:* node-a (Active)\n*Last Vote Slot:* 312345\n*Time Since Last Vote:* 65 seconds\n*Threshold:* 60 seconds\n\n⚠️ *Action Required:* Check validator health"
    );
    assert!(m.delinquency_message("x", "n", false, 0, 0).contains("*Node:* n (Standby)"));
}

#[test]
fn test_message_lists_validators() {
    let m = manager(true, true);
    let text = m.test_message(&vec![("Id1", "Vote1"), ("Id2", "Vote2")]);
    assert_eq!(
        text,
        "✅ *SVS Alert Test* ✅\n\nThis is a test message from Solana Validator Switch.\nYour Telegram alerts are configured correctly!\n\n*Monitoring Validators:*\n*Identity:* `Id1`\n*Vote:* `Vote1`\n\n*Identity:* `Id2`\n*Vote:* `Vote2`\n\n*Delinquency Threshold:* 60 seconds\n\nAlerts will be sent when any validator stops voting for more than 60 seconds."
    );
}

#[test]
fn switch_result_messages() {
    assert_eq!(
        switch_result_message(true, "node-a", "node-b", Some(1234), None),
        "✅ *VALIDATOR SWITCH SUCCESSFUL* in 1234ms\n\n*Previous Active:* node-a\n*New Active:* node-b\n\nSwitch completed successfully!"
    );
    assert_eq!(
        switch_result_message(true, "a", "b", None, None),
        "✅ *VALIDATOR SWITCH SUCCESSFUL*\n\n*Previous Active:* a\n*New Active:* b\n\nSwitch completed successfully!"
    );
    assert_eq!(
        switch_result_message(false, "a", "b", None, None),
        "❌ *VALIDATOR SWITCH FAILED*\n\n*Active Node:* a\n*Standby Node:* b\n*Error:* Unknown error\n\n⚠️ *Manual intervention may be required*"
    );
    assert!(switch_result_message(false, "a", "b", None, Some("vote stalled")).contains("*Error:* vote stalled"));
}

#[test]
fn catchup_failure_text() {
    assert_eq!(
        catchup_failure_message("Id1", "node-b", 3),
        "⚠️ *STANDBY NODE CATCHUP FAILURE* ⚠️\n\n*Validator:* `Id1`\n*Standby Node:* node-b\n*Consecutive Failures:* 3\n\nThe standby node has failed catchup check 3 times in a row.\nThis may indicate issues with the standby node's sync status."
    );
}

#[test]
fn payload_escapes_its_strings() {
    assert_eq!(
        telegram_payload("-100200", "say \"hi\"\nnow"),
        "{\"chat_id\":\"-100200\",\"text\":\"say \\\"hi\\\"\\nnow\",\"parse_mode\":\"Markdown\",\"disable_web_page_preview\":true}"
    );
    assert_eq!(
        telegram_payload_from("1", "\"t\""),
        "{\"chat_id\":1,\"text\":\"t\",\"parse_mode\":\"Markdown\",\"disable_web_page_preview\":true}"
    );
}

#[test]
fn requests_only_when_enabled_and_configured() {
    assert!(manager(false, true).telegram_request("x").is_none());
    assert!(manager(true, false).telegram_request("x").is_none());
    let q = manager(true, true).telegram_request("hello").unwrap();
    assert_eq!(q.url, "https://api.telegram.org/bot123:token/sendMessage");
    assert_eq!(
        q.body,
        "{\"chat_id\":\"-100200\",\"text\":\"hello\",\"parse_mode\":\"Markdown\",\"disable_web_page_preview\":true}"
    );
}

#[test]
fn test_alert_summaries() {
    assert_eq!(manager(false, true).test_alert_summary(Ok(())), "Alerts are disabled");
    assert_eq!(manager(true, false).test_alert_summary(Ok(())), "⚠️  Telegram: Not configured");
    assert_eq!(
        manager(true, true).test_alert_summary(Ok(())),
        "✅ Telegram: Test message sent successfully"
    );
    assert_eq!(
        manager(true, true).test_alert_summary(Err("Telegram API error: Unauthorized")),
        "❌ Telegram: Telegram API error: Unauthorized"
    );
}

#[test]
fn delivery_status() {
    assert!(delivery_succeeded(200));
    assert!(delivery_succeeded(299));
    assert!(!delivery_succeeded(300));
    assert!(!delivery_succeeded(199));
    assert_eq!(delivery_error("Bad Request"), "Telegram API error: Bad Request");
}

#[test]
fn typed_events_render_as_their_messages() {
    let m = manager(true, true);
    let e = AlertEvent::CatchupFailure {
        validator_identity: "Id1".to_string(),
        node_label: "node-b".to_string(),
        consecutive_failures: 3,
    };
    assert_eq!(m.message_for(&e), catchup_failure_message("Id1", "node-b", 3));
    let d = AlertEvent::Delinquency {
        validator_identity: "Id1".to_string(),
        node_label: "node-a".to_string(),
        is_active: true,
        last_vote_slot: 7,
        seconds_since_vote: 65,
    };
    assert_eq!(m.message_for(&d), m.delinquency_message("Id1", "node-a", true, 7, 65));
    let s = AlertEvent::SwitchResult {
        success: false,
        active_node: "a".to_string(),
        standby_node: "b".to_string(),
        total_millis: None,
        error: Some("PostVerifyFailed".to_string()),
    };
    assert!(m.message_for(&s).contains("*Error:* PostVerifyFailed"));
}

#[test]
fn control_characters_are_escaped() {
    assert_eq!(
        telegram_payload("c", "a\u{1}b\tc\\"),
        "{\"chat_id\":\"c\",\"text\":\"a\\u0001b\\tc\\\\\",\"parse_mode\":\"Markdown\",\"disable_web_page_preview\":true}"
    );
}
