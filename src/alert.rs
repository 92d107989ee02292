use vstd::prelude::*;
use crate::config::AlertConfig;
use crate::text::{decimal, decimal_text, digit_char};

verus! {

/// A lower-case hexadecimal digit.
pub open spec fn hex_digit(n: nat) -> char {
    if n < 10 {
        digit_char(n)
    } else if n == 10 {
        'a'
    } else if n == 11 {
        'b'
    } else if n == 12 {
        'c'
    } else if n == 13 {
        'd'
    } else if n == 14 {
        'e'
    } else {
        'f'
    }
}

/// How a character is written inside a JSON string: `"` and `\` after a backslash,
/// backspace, tab, line feed, form feed and carriage return as `\b \t \n \f \r`, the
/// other characters below U+0020 as `\u00xx`, anything else as it is.
pub open spec fn json_char(c: char) -> Seq<char> {
    let u = c as u32;
    if c == '"' {
        seq!['\\', '"']
    } else if c == '\\' {
        seq!['\\', '\\']
    } else if u == 0x08 {
        seq!['\\', 'b']
    } else if u == 0x09 {
        seq!['\\', 't']
    } else if u == 0x0a {
        seq!['\\', 'n']
    } else if u == 0x0c {
        seq!['\\', 'f']
    } else if u == 0x0d {
        seq!['\\', 'r']
    } else if u < 0x20 {
        seq!['\\', 'u', '0', '0', hex_digit((u / 16) as nat), hex_digit((u % 16) as nat)]
    } else {
        seq![c]
    }
}

/// The characters of a JSON string literal between its quotes.
pub open spec fn json_body(s: Seq<char>) -> Seq<char>
    decreases s.len(),
{
    if s.len() == 0 {
        Seq::empty()
    } else {
        json_body(s.drop_last()) + json_char(s.last())
    }
}

/// The JSON string literal (quoted and escaped) that stands for a text.
pub open spec fn json_string(s: Seq<char>) -> Seq<char> {
    seq!['"'] + json_body(s) + seq!['"']
}

/// Relies on `serde_json::to_string` applied to a `str`: it writes the JSON string
/// literal of the text, escaping as `json_char` states; writing into memory cannot fail,
/// so the default is never taken.
#[verifier::external_body]
fn json_quote(s: &str) -> (r: String)
    ensures
        r@ == json_string(s@),
{
    serde_json::to_string(s).unwrap_or_default()
}

/// An HTTPS POST of a JSON body that delivers one message.
pub struct TelegramRequest {
    pub url: String,
    pub body: String,
}

/// Something worth telling the operator.
pub enum AlertEvent {
    Delinquency {
        validator_identity: String,
        node_label: String,
        is_active: bool,
        last_vote_slot: u64,
        seconds_since_vote: u64,
    },
    SwitchResult {
        success: bool,
        active_node: String,
        standby_node: String,
        total_millis: Option<u64>,
        error: Option<String>,
    },
    CatchupFailure { validator_identity: String, node_label: String, consecutive_failures: u32 },
}

/// The message that tells of `e`, with `threshold` the delinquency threshold in seconds.
pub open spec fn event_text(e: AlertEvent, threshold: u64) -> Seq<char> {
    match e {
        AlertEvent::Delinquency {
            validator_identity,
            node_label,
            is_active,
            last_vote_slot,
            seconds_since_vote,
        } => delinquency_text(
            validator_identity@,
            node_label@,
            is_active,
            last_vote_slot,
            seconds_since_vote,
            threshold,
        ),
        AlertEvent::SwitchResult { success, active_node, standby_node, total_millis, error } =>
            switch_result_text(
            success,
            active_node@,
            standby_node@,
            total_millis,
            match error {
                Some(t) => Some(t@),
                None => None,
            },
        ),
        AlertEvent::CatchupFailure { validator_identity, node_label, consecutive_failures } =>
            catchup_failure_text(validator_identity@, node_label@, consecutive_failures),
    }
}

/// Formats alert messages and addresses them to the configured channel.
pub struct AlertManager {
    config: AlertConfig,
}

pub open spec fn delinquency_text(
    identity: Seq<char>,
    label: Seq<char>,
    is_active: bool,
    last_vote_slot: u64,
    seconds_since_vote: u64,
    threshold: u64,
) -> Seq<char> {
    "🚨 *VALIDATOR DELINQUENCY ALERT* 🚨\n\n*Validator:* `"@ + identity + "`\n*Node:* "@ + label
        + " ("@ + (if is_active {
        "Active"@
    } else {
        "Standby"@
    }) + ")\n*Last Vote Slot:* "@ + decimal(last_vote_slot as nat) + "\n*Time Since Last Vote:* "@
        + decimal(seconds_since_vote as nat) + " seconds\n*Threshold:* "@ + decimal(
        threshold as nat,
    ) + " seconds\n\n⚠️ *Action Required:* Check validator health"@
}

/// The lines that list the monitored validators in a test message.
pub open spec fn validators_text(info: Seq<(Seq<char>, Seq<char>)>) -> Seq<char>
    decreases info.len(),
{
    if info.len() == 0 {
        Seq::empty()
    } else {
        validators_text(info.drop_last()) + "*Identity:* `"@ + info.last().0 + "`\n*Vote:* `"@
            + info.last().1 + "`\n\n"@
    }
}

pub open spec fn test_text(info: Seq<(Seq<char>, Seq<char>)>, threshold: u64) -> Seq<char> {
    "✅ *SVS Alert Test* ✅\n\nThis is a test message from Solana Validator Switch.\nYour Telegram alerts are configured correctly!\n\n*Monitoring Validators:*\n"@
        + validators_text(info) + "*Delinquency Threshold:* "@ + decimal(threshold as nat)
        + " seconds\n\nAlerts will be sent when any validator stops voting for more than "@
        + decimal(threshold as nat) + " seconds."@
}

pub open spec fn switch_result_text(
    success: bool,
    active_node: Seq<char>,
    standby_node: Seq<char>,
    total_millis: Option<u64>,
    error: Option<Seq<char>>,
) -> Seq<char> {
    if success {
        "✅ *VALIDATOR SWITCH SUCCESSFUL*"@ + match total_millis {
            Some(ms) => " in "@ + decimal(ms as nat) + "ms"@,
            None => Seq::empty(),
        } + "\n\n*Previous Active:* "@ + active_node + "\n*New Active:* "@ + standby_node
            + "\n\nSwitch completed successfully!"@
    } else {
        "❌ *VALIDATOR SWITCH FAILED*\n\n*Active Node:* "@ + active_node + "\n*Standby Node:* "@
            + standby_node + "\n*Error:* "@ + match error {
            Some(e) => e,
            None => "Unknown error"@,
        } + "\n\n⚠️ *Manual intervention may be required*"@
    }
}

pub open spec fn catchup_failure_text(identity: Seq<char>, label: Seq<char>, failures: u32) -> Seq<
    char,
> {
    "⚠️ *STANDBY NODE CATCHUP FAILURE* ⚠️\n\n*Validator:* `"@ + identity + "`\n*Standby Node:* "@
        + label + "\n*Consecutive Failures:* "@ + decimal(failures as nat)
        + "\n\nThe standby node has failed catchup check "@ + decimal(failures as nat)
        + " times in a row.\nThis may indicate issues with the standby node's sync status."@
}

pub open spec fn send_url_text(bot_token: Seq<char>) -> Seq<char> {
    "https://api.telegram.org/bot"@ + bot_token + "/sendMessage"@
}

/// The JSON body of a message, from the JSON literals of the chat id and of the text.
pub open spec fn payload_text(chat_json: Seq<char>, text_json: Seq<char>) -> Seq<char> {
    "{\"chat_id\":"@ + chat_json + ",\"text\":"@ + text_json
        + ",\"parse_mode\":\"Markdown\",\"disable_web_page_preview\":true}"@
}

/// The body of a message to `chat_id`.
pub fn telegram_payload_from(chat_json: &str, text_json: &str) -> (r: String)
    ensures
        r@ == payload_text(chat_json@, text_json@),
{
    let mut r = String::from_str("{\"chat_id\":");
    r.append(chat_json);
    r.append(",\"text\":");
    r.append(text_json);
    r.append(",\"parse_mode\":\"Markdown\",\"disable_web_page_preview\":true}");
    r
}

/// The body of a message `text` to `chat_id`, both written as JSON strings.
pub fn telegram_payload(chat_id: &str, text: &str) -> (r: String)
    ensures
        r@ == payload_text(json_string(chat_id@), json_string(text@)),
{
    let c = json_quote(chat_id);
    let t = json_quote(text);
    telegram_payload_from(c.as_str(), t.as_str())
}

/// A delivery succeeded when the endpoint answered with a 2xx status.
pub fn delivery_succeeded(status: u16) -> (r: bool)
    ensures
        r == (200 <= status <= 299),
{
    200 <= status && status <= 299
}

/// The error reported for a refused delivery, with the endpoint's answer.
pub fn delivery_error(response_text: &str) -> (r: String)
    ensures
        r@ == "Telegram API error: "@ + response_text@,
{
    let mut r = String::from_str("Telegram API error: ");
    r.append(response_text);
    r
}

pub fn switch_result_message(
    success: bool,
    active_node: &str,
    standby_node: &str,
    total_millis: Option<u64>,
    error: Option<&str>,
) -> (r: String)
    ensures
        r@ == switch_result_text(
            success,
            active_node@,
            standby_node@,
            total_millis,
            match error {
                Some(e) => Some(e@),
                None => None,
            },
        ),
{
    if success {
        let mut r = String::from_str("✅ *VALIDATOR SWITCH SUCCESSFUL*");
        if let Some(ms) = total_millis {
            r.append(" in ");
            let d = decimal_text(ms);
            r.append(d.as_str());
            r.append("ms");
        }
        r.append("\n\n*Previous Active:* ");
        r.append(active_node);
        r.append("\n*New Active:* ");
        r.append(standby_node);
        r.append("\n\nSwitch completed successfully!");
        r
    } else {
        let mut r = String::from_str("❌ *VALIDATOR SWITCH FAILED*\n\n*Active Node:* ");
        r.append(active_node);
        r.append("\n*Standby Node:* ");
        r.append(standby_node);
        r.append("\n*Error:* ");
        match error {
            Some(e) => r.append(e),
            None => r.append("Unknown error"),
        }
        r.append("\n\n⚠️ *Manual intervention may be required*");
        r
    }
}

pub fn catchup_failure_message(identity: &str, label: &str, failures: u32) -> (r: String)
    ensures
        r@ == catchup_failure_text(identity@, label@, failures),
{
    let n = decimal_text(failures as u64);
    let mut r = String::from_str("⚠️ *STANDBY NODE CATCHUP FAILURE* ⚠️\n\n*Validator:* `");
    r.append(identity);
    r.append("`\n*Standby Node:* ");
    r.append(label);
    r.append("\n*Consecutive Failures:* ");
    r.append(n.as_str());
    r.append("\n\nThe standby node has failed catchup check ");
    r.append(n.as_str());
    r.append(" times in a row.\nThis may indicate issues with the standby node's sync status.");
    r
}

impl AlertManager {
    pub closed spec fn enabled(&self) -> bool {
        self.config.enabled
    }

    pub closed spec fn threshold(&self) -> u64 {
        self.config.delinquency_threshold_seconds
    }

    /// The bot token and chat id of the Telegram channel, when one is configured.
    pub closed spec fn telegram(&self) -> Option<(Seq<char>, Seq<char>)> {
        match self.config.telegram {
            Some(t) => Some((t.bot_token@, t.chat_id@)),
            None => None,
        }
    }

    pub fn new(config: AlertConfig) -> (r: Self)
        ensures
            r.enabled() == config.enabled,
            r.threshold() == config.delinquency_threshold_seconds,
            r.telegram() == match config.telegram {
                Some(t) => Some((t.bot_token@, t.chat_id@)),
                None => None,
            },
    {
        AlertManager { config }
    }

    /// The request that delivers `message`, or `None` when alerts are off or no channel
    /// is configured.
    pub fn telegram_request(&self, message: &str) -> (r: Option<TelegramRequest>)
        ensures
            (self.enabled() && self.telegram() is Some) <==> r is Some,
            r matches Some(q) ==> self.telegram() matches Some((token, chat)) && q.url@
                == send_url_text(token) && q.body@ == payload_text(
                json_string(chat),
                json_string(message@),
            ),
    {
        if !self.config.enabled {
            return None;
        }
        match &self.config.telegram {
            Some(t) => {
                let mut url = String::from_str("https://api.telegram.org/bot");
                url.append(t.bot_token.as_str());
                url.append("/sendMessage");
                let body = telegram_payload(t.chat_id.as_str(), message);
                Some(TelegramRequest { url, body })
            },
            None => None,
        }
    }

    /// The message that tells of `event`.
    pub fn message_for(&self, event: &AlertEvent) -> (r: String)
        ensures
            r@ == event_text(*event, self.threshold()),
    {
        match event {
            AlertEvent::Delinquency {
                validator_identity,
                node_label,
                is_active,
                last_vote_slot,
                seconds_since_vote,
            } => self.delinquency_message(
                validator_identity.as_str(),
                node_label.as_str(),
                *is_active,
                *last_vote_slot,
                *seconds_since_vote,
            ),
            AlertEvent::SwitchResult { success, active_node, standby_node, total_millis, error } => {
                let e = match error {
                    Some(t) => Some(t.as_str()),
                    None => None,
                };
                switch_result_message(
                    *success,
                    active_node.as_str(),
                    standby_node.as_str(),
                    *total_millis,
                    e,
                )
            },
            AlertEvent::CatchupFailure { validator_identity, node_label, consecutive_failures } =>
                catchup_failure_message(
                validator_identity.as_str(),
                node_label.as_str(),
                *consecutive_failures,
            ),
        }
    }

    pub fn delinquency_message(
        &self,
        validator_identity: &str,
        node_label: &str,
        is_active: bool,
        last_vote_slot: u64,
        seconds_since_vote: u64,
    ) -> (r: String)
        ensures
            r@ == delinquency_text(
                validator_identity@,
                node_label@,
                is_active,
                last_vote_slot,
                seconds_since_vote,
                self.threshold(),
            ),
    {
        let mut r = String::from_str("🚨 *VALIDATOR DELINQUENCY ALERT* 🚨\n\n*Validator:* `");
        r.append(validator_identity);
        r.append("`\n*Node:* ");
        r.append(node_label);
        r.append(" (");
        if is_active {
            r.append("Active");
        } else {
            r.append("Standby");
        }
        r.append(")\n*Last Vote Slot:* ");
        let slot = decimal_text(last_vote_slot);
        r.append(slot.as_str());
        r.append("\n*Time Since Last Vote:* ");
        let secs = decimal_text(seconds_since_vote);
        r.append(secs.as_str());
        r.append(" seconds\n*Threshold:* ");
        let th = decimal_text(self.config.delinquency_threshold_seconds);
        r.append(th.as_str());
        r.append(" seconds\n\n⚠️ *Action Required:* Check validator health");
        r
    }

    pub fn test_message(&self, validators_info: &Vec<(&str, &str)>) -> (r: String)
        ensures
            r@ == test_text(
                validators_info@.map_values(|p: (&str, &str)| (p.0@, p.1@)),
                self.threshold(),
            ),
    {
        let ghost info = validators_info@.map_values(|p: (&str, &str)| (p.0@, p.1@));
        let mut list = String::new();
        let mut i: usize = 0;
        while i < validators_info.len()
            invariant
                i <= validators_info.len(),
                info == validators_info@.map_values(|p: (&str, &str)| (p.0@, p.1@)),
                list@ == validators_text(info.take(i as int)),
            decreases validators_info.len() - i,
        {
            let (identity, vote) = validators_info[i];
            assert(info.take(i + 1).drop_last() =~= info.take(i as int));
            list.append("*Identity:* `");
            list.append(identity);
            list.append("`\n*Vote:* `");
            list.append(vote);
            list.append("`\n\n");
            i = i + 1;
        }
        assert(info.take(validators_info.len() as int) =~= info);
        let th = decimal_text(self.config.delinquency_threshold_seconds);
        let mut r = String::from_str(
            "✅ *SVS Alert Test* ✅\n\nThis is a test message from Solana Validator Switch.\nYour Telegram alerts are configured correctly!\n\n*Monitoring Validators:*\n",
        );
        r.append(list.as_str());
        r.append("*Delinquency Threshold:* ");
        r.append(th.as_str());
        r.append(" seconds\n\nAlerts will be sent when any validator stops voting for more than ");
        r.append(th.as_str());
        r.append(" seconds.");
        r
    }

    /// The report of an alert test: alerts off, no channel, or how the delivery went.
    pub fn test_alert_summary(&self, delivery: Result<(), &str>) -> (r: String)
        ensures
            !self.enabled() ==> r@ == "Alerts are disabled"@,
            self.enabled() && self.telegram() is None ==> r@ == "⚠️  Telegram: Not configured"@,
            self.enabled() && self.telegram() is Some ==> r@ == match delivery {
                Ok(_) => "✅ Telegram: Test message sent successfully"@,
                Err(e) => "❌ Telegram: "@ + e@,
            },
    {
        if !self.config.enabled {
            return String::from_str("Alerts are disabled");
        }
        match &self.config.telegram {
            Some(_) => match delivery {
                Ok(_) => String::from_str("✅ Telegram: Test message sent successfully"),
                Err(e) => {
                    let mut r = String::from_str("❌ Telegram: ");
                    r.append(e);
                    r
                },
            },
            None => String::from_str("⚠️  Telegram: Not configured"),
        }
    }
}

} // verus!
