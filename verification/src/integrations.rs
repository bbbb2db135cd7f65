//! Outbound notifications to messaging platforms: Slack, Discord, Microsoft
//! Teams, Signal (signald), Matrix, Telegram, email (Mailgun) and SMS (Twilio).
//!
//! Each channel is gated by environment variables: without its credentials a
//! channel reports `disabled` instead of failing. The application reads the
//! environment and performs the HTTP request; this module decides whether a
//! message goes out, to which URL, with which credentials and payload, and
//! what the answer means.

use vstd::prelude::*;
use crate::llm::{strip_trailing_slashes, trim_trailing_slashes};
use crate::text::{chars_of, json_quote, json_quoted, push_chars, push_str, string_from_chars};

verus! {

/// Outcome of an integration attempt.
#[derive(Debug, Clone)]
pub struct IntegrationResult {
    /// One of `sent`, `disabled`, `error`.
    pub status: String,
    /// Error message or configuration hint.
    pub detail: Option<String>,
    /// HTTP status when a request was made.
    pub http_code: Option<u16>,
}

impl IntegrationResult {
    /// A message was delivered with this HTTP status.
    pub fn sent(http_code: u16) -> (r: Self)
        ensures
            r.status@ == "sent"@,
            r.detail is None,
            r.http_code == Some(http_code),
    {
        IntegrationResult { status: String::from_str("sent"), detail: None, http_code: Some(http_code) }
    }

    /// The channel is not configured; `message` says how to enable it.
    pub fn disabled(message: &str) -> (r: Self)
        ensures
            r.status@ == "disabled"@,
            r.detail matches Some(d) && d@ == message@,
            r.http_code is None,
    {
        IntegrationResult {
            status: String::from_str("disabled"),
            detail: Some(String::from_str(message)),
            http_code: None,
        }
    }

    /// The attempt failed with `detail`.
    pub fn error(detail: &str) -> (r: Self)
        ensures
            r.status@ == "error"@,
            r.detail matches Some(d) && d@ == detail@,
            r.http_code is None,
    {
        IntegrationResult { status: String::from_str("error"), detail: Some(String::from_str(detail)), http_code: None }
    }
}

/// How a request authenticates.
#[derive(Debug, Clone)]
pub enum Auth {
    /// No credentials.
    NoAuth,
    /// `Authorization: Bearer <token>`.
    Bearer(String),
    /// HTTP basic authentication.
    Basic { user: String, password: String },
}

/// The body of a request.
#[derive(Debug, Clone)]
pub enum Body {
    /// A JSON document (its text).
    Json(String),
    /// A URL-encoded form, fields in order.
    Form(Vec<(String, String)>),
}

/// An HTTP POST to make.
#[derive(Debug, Clone)]
pub struct OutboundRequest {
    /// Where to post.
    pub url: String,
    /// Credentials.
    pub auth: Auth,
    /// What to post.
    pub body: Body,
    /// Whether only a success status counts as delivered (a failure status
    /// then reports the response text).
    pub require_success: bool,
}

/// Whether a message goes out.
#[derive(Debug, Clone)]
pub enum Plan {
    /// It does not; this is the outcome.
    Skip(IntegrationResult),
    /// It does, with this request.
    Send(OutboundRequest),
}

/// The outcome of a request that got an HTTP answer with `status`. When the
/// channel requires success, a status outside 2xx is an error carrying the
/// response text.
pub fn http_outcome(require_success: bool, status: u16, response_text: &str) -> (r: IntegrationResult)
    ensures
        !require_success || (200 <= status < 300) ==> r.status@ == "sent"@ && r.detail is None && r.http_code == Some(status),
        require_success && !(200 <= status < 300) ==> r.status@ == "error"@ && (r.detail matches Some(d) && d@
            == response_text@) && r.http_code == Some(status),
{
    if !require_success || (200 <= status && status < 300) {
        IntegrationResult::sent(status)
    } else {
        IntegrationResult {
            status: String::from_str("error"),
            detail: Some(String::from_str(response_text)),
            http_code: Some(status),
        }
    }
}

/// A JSON object with the given keys (already in sorted order) and string values.
pub open spec fn json_object(fields: Seq<(Seq<char>, Seq<char>)>) -> Seq<char>
    decreases fields.len(),
{
    if fields.len() == 0 {
        "{}"@
    } else {
        "{"@ + json_members(fields) + "}"@
    }
}

/// The members of a JSON object, comma-separated.
pub open spec fn json_members(fields: Seq<(Seq<char>, Seq<char>)>) -> Seq<char>
    decreases fields.len(),
{
    if fields.len() == 0 {
        seq![]
    } else if fields.len() == 1 {
        json_quote(fields[0].0) + ":"@ + json_quote(fields[0].1)
    } else {
        json_members(fields.drop_last()) + ","@ + json_quote(fields.last().0) + ":"@ + json_quote(fields.last().1)
    }
}

fn push_member(v: &mut Vec<char>, key: &str, value: &str)
    ensures
        final(v)@ == old(v)@ + json_quote(key@) + ":"@ + json_quote(value@),
{
    let k = json_quoted(key);
    push_str(v, k.as_str());
    push_str(v, ":");
    let q = json_quoted(value);
    push_str(v, q.as_str());
}

/// A JSON object of one string field.
pub fn json_object1(k1: &str, v1: &str) -> (t: String)
    ensures
        t@ == json_object(seq![(k1@, v1@)]),
{
    let mut v: Vec<char> = Vec::new();
    push_str(&mut v, "{");
    push_member(&mut v, k1, v1);
    push_str(&mut v, "}");
    proof {
        let f = seq![(k1@, v1@)];
        assert(json_members(f) == json_quote(k1@) + ":"@ + json_quote(v1@));
        assert(v@ =~= "{"@ + json_members(f) + "}"@);
    }
    string_from_chars(&v)
}

/// A JSON object of two string fields (`k1` sorts before `k2`).
pub fn json_object2(k1: &str, v1: &str, k2: &str, v2: &str) -> (t: String)
    ensures
        t@ == json_object(seq![(k1@, v1@), (k2@, v2@)]),
{
    let mut v: Vec<char> = Vec::new();
    push_str(&mut v, "{");
    push_member(&mut v, k1, v1);
    push_str(&mut v, ",");
    push_member(&mut v, k2, v2);
    push_str(&mut v, "}");
    proof {
        let f = seq![(k1@, v1@), (k2@, v2@)];
        let f1 = seq![(k1@, v1@)];
        assert(f.drop_last() =~= f1);
        assert(json_members(f1) == json_quote(k1@) + ":"@ + json_quote(v1@));
        assert(json_members(f) == json_members(f1) + ","@ + json_quote(k2@) + ":"@ + json_quote(v2@));
        assert(v@ =~= "{"@ + json_members(f) + "}"@);
    }
    string_from_chars(&v)
}

/// A JSON object of four string fields (keys in sorted order).
pub fn json_object4(k1: &str, v1: &str, k2: &str, v2: &str, k3: &str, v3: &str, k4: &str, v4: &str) -> (t: String)
    ensures
        t@ == json_object(seq![(k1@, v1@), (k2@, v2@), (k3@, v3@), (k4@, v4@)]),
{
    let mut v: Vec<char> = Vec::new();
    push_str(&mut v, "{");
    push_member(&mut v, k1, v1);
    push_str(&mut v, ",");
    push_member(&mut v, k2, v2);
    push_str(&mut v, ",");
    push_member(&mut v, k3, v3);
    push_str(&mut v, ",");
    push_member(&mut v, k4, v4);
    push_str(&mut v, "}");
    proof {
        let f = seq![(k1@, v1@), (k2@, v2@), (k3@, v3@), (k4@, v4@)];
        let f3 = seq![(k1@, v1@), (k2@, v2@), (k3@, v3@)];
        let f2 = seq![(k1@, v1@), (k2@, v2@)];
        let f1 = seq![(k1@, v1@)];
        assert(f.drop_last() =~= f3);
        assert(f3.drop_last() =~= f2);
        assert(f2.drop_last() =~= f1);
        assert(json_members(f1) == json_quote(k1@) + ":"@ + json_quote(v1@));
        assert(json_members(f2) == json_members(f1) + ","@ + json_quote(k2@) + ":"@ + json_quote(v2@));
        assert(json_members(f3) == json_members(f2) + ","@ + json_quote(k3@) + ":"@ + json_quote(v3@));
        assert(json_members(f) == json_members(f3) + ","@ + json_quote(k4@) + ":"@ + json_quote(v4@));
        assert(v@ =~= "{"@ + json_members(f) + "}"@);
    }
    string_from_chars(&v)
}

fn field(k: &str, v: &str) -> (r: (String, String))
    ensures
        r.0@ == k@,
        r.1@ == v@,
{
    (String::from_str(k), String::from_str(v))
}

/// A message to post as JSON to `url`.
pub open spec fn json_post(p: Plan, url: Seq<char>, payload: Seq<char>) -> bool {
    p matches Plan::Send(r) && r.url@ == url && r.auth is NoAuth && (r.body matches Body::Json(j) && j@ == payload)
        && !r.require_success
}

/// The outcome when a channel is not configured.
pub open spec fn skipped(p: Plan, status: Seq<char>, detail: Seq<char>) -> bool {
    p matches Plan::Skip(r) && r.status@ == status && (r.detail matches Some(d) && d@ == detail) && r.http_code is None
}

/// Slack, through the incoming webhook `webhook_url` (`SLACK_WEBHOOK_URL`).
pub fn plan_slack(webhook_url: &str, text: &str) -> (p: Plan)
    ensures
        webhook_url@.len() == 0 ==> skipped(p, "disabled"@, "Set SLACK_WEBHOOK_URL env to enable Slack notifications"@),
        webhook_url@.len() > 0 ==> json_post(p, webhook_url@, json_object(seq![("text"@, text@)])),
{
    if webhook_url.is_empty() {
        return Plan::Skip(IntegrationResult::disabled("Set SLACK_WEBHOOK_URL env to enable Slack notifications"));
    }
    Plan::Send(
        OutboundRequest {
            url: String::from_str(webhook_url),
            auth: Auth::NoAuth,
            body: Body::Json(json_object1("text", text)),
            require_success: false,
        },
    )
}

/// Discord, through the webhook `webhook_url` (`DISCORD_WEBHOOK_URL`).
pub fn plan_discord(webhook_url: &str, content: &str) -> (p: Plan)
    ensures
        webhook_url@.len() == 0 ==> skipped(
            p,
            "disabled"@,
            "Set DISCORD_WEBHOOK_URL env to enable Discord notifications"@,
        ),
        webhook_url@.len() > 0 ==> json_post(p, webhook_url@, json_object(seq![("content"@, content@)])),
{
    if webhook_url.is_empty() {
        return Plan::Skip(IntegrationResult::disabled("Set DISCORD_WEBHOOK_URL env to enable Discord notifications"));
    }
    Plan::Send(
        OutboundRequest {
            url: String::from_str(webhook_url),
            auth: Auth::NoAuth,
            body: Body::Json(json_object1("content", content)),
            require_success: false,
        },
    )
}

/// Microsoft Teams, through the webhook `webhook_url` (`TEAMS_WEBHOOK_URL`),
/// as a message card.
pub fn plan_teams(webhook_url: &str, text: &str, title: &str) -> (p: Plan)
    ensures
        webhook_url@.len() == 0 ==> skipped(p, "disabled"@, "Set TEAMS_WEBHOOK_URL env to enable Teams notifications"@),
        webhook_url@.len() > 0 ==> json_post(
            p,
            webhook_url@,
            json_object(
                seq![
                    ("@context"@, "http://schema.org/extensions"@),
                    ("@type"@, "MessageCard"@),
                    ("text"@, text@),
                    ("title"@, title@),
                ],
            ),
        ),
{
    if webhook_url.is_empty() {
        return Plan::Skip(IntegrationResult::disabled("Set TEAMS_WEBHOOK_URL env to enable Teams notifications"));
    }
    Plan::Send(
        OutboundRequest {
            url: String::from_str(webhook_url),
            auth: Auth::NoAuth,
            body: Body::Json(
                json_object4("@context", "http://schema.org/extensions", "@type", "MessageCard", "text", text, "title", title),
            ),
            require_success: false,
        },
    )
}

/// Signal, through the signald REST endpoint `signald_url` (`SIGNALD_REST_URL`).
pub fn plan_signal(signald_url: &str, recipient: &str, message: &str) -> (p: Plan)
    ensures
        signald_url@.len() == 0 ==> skipped(p, "disabled"@, "Set SIGNALD_REST_URL env to enable Signal notifications"@),
        signald_url@.len() > 0 && recipient@.len() == 0 ==> skipped(p, "error"@, "recipient field required (phone number)"@),
        signald_url@.len() > 0 && recipient@.len() > 0 ==> json_post(
            p,
            trim_trailing_slashes(signald_url@) + "/v2/send"@,
            json_object(seq![("message"@, message@), ("number"@, recipient@)]),
        ),
{
    if signald_url.is_empty() {
        return Plan::Skip(IntegrationResult::disabled("Set SIGNALD_REST_URL env to enable Signal notifications"));
    }
    if recipient.is_empty() {
        return Plan::Skip(IntegrationResult::error("recipient field required (phone number)"));
    }
    let base = strip_trailing_slashes(&chars_of(signald_url));
    let mut v: Vec<char> = Vec::new();
    push_chars(&mut v, &base);
    push_str(&mut v, "/v2/send");
    Plan::Send(
        OutboundRequest {
            url: string_from_chars(&v),
            auth: Auth::NoAuth,
            body: Body::Json(json_object2("message", message, "number", recipient)),
            require_success: false,
        },
    )
}

/// Matrix, on `homeserver` with `access_token` (`MATRIX_HOMESERVER`,
/// `MATRIX_ACCESS_TOKEN`), in `room_id` or else `default_room` (`MATRIX_ROOM_ID`).
/// All three are required: with no room to send to, the integration is disabled.
pub fn plan_matrix(homeserver: &str, access_token: &str, default_room: &str, room_id: &str, message: &str) -> (p: Plan)
    ensures
        homeserver@.len() == 0 || access_token@.len() == 0 || (room_id@.len() == 0 && default_room@.len() == 0)
            ==> skipped(p, "disabled"@, "Set MATRIX_HOMESERVER, MATRIX_ACCESS_TOKEN, MATRIX_ROOM_ID env vars"@),
        homeserver@.len() > 0 && access_token@.len() > 0 && (room_id@.len() > 0 || default_room@.len() > 0) ==> (
        p matches Plan::Send(r) && r.url@
            == trim_trailing_slashes(homeserver@) + "/_matrix/client/r0/rooms/"@ + (if room_id@.len() == 0 {
            default_room@
        } else {
            room_id@
        }) + "/send/m.room.message"@ && (r.auth matches Auth::Bearer(t) && t@ == access_token@) && (r.body matches Body::Json(
            j,
        ) && j@ == json_object(seq![("body"@, message@), ("msgtype"@, "m.text"@)])) && !r.require_success),
{
    let room = if room_id.is_empty() { default_room } else { room_id };
    if homeserver.is_empty() || access_token.is_empty() || room.is_empty() {
        return Plan::Skip(IntegrationResult::disabled("Set MATRIX_HOMESERVER, MATRIX_ACCESS_TOKEN, MATRIX_ROOM_ID env vars"));
    }
    let base = strip_trailing_slashes(&chars_of(homeserver));
    let mut v: Vec<char> = Vec::new();
    push_chars(&mut v, &base);
    push_str(&mut v, "/_matrix/client/r0/rooms/");
    push_str(&mut v, room);
    push_str(&mut v, "/send/m.room.message");
    Plan::Send(
        OutboundRequest {
            url: string_from_chars(&v),
            auth: Auth::Bearer(String::from_str(access_token)),
            body: Body::Json(json_object2("body", message, "msgtype", "m.text")),
            require_success: false,
        },
    )
}

/// Telegram, through the Bot API with `token` and `chat_id`
/// (`TELEGRAM_BOT_TOKEN`, `TELEGRAM_CHAT_ID`).
pub fn plan_telegram(token: &str, chat_id: &str, text: &str) -> (p: Plan)
    ensures
        token@.len() == 0 || chat_id@.len() == 0 ==> skipped(
            p,
            "disabled"@,
            "Set TELEGRAM_BOT_TOKEN and TELEGRAM_CHAT_ID env vars to enable Telegram"@,
        ),
        token@.len() > 0 && chat_id@.len() > 0 ==> json_post(
            p,
            "https://api.telegram.org/bot"@ + token@ + "/sendMessage"@,
            json_object(seq![("chat_id"@, chat_id@), ("text"@, text@)]),
        ),
{
    if token.is_empty() || chat_id.is_empty() {
        return Plan::Skip(
            IntegrationResult::disabled("Set TELEGRAM_BOT_TOKEN and TELEGRAM_CHAT_ID env vars to enable Telegram"),
        );
    }
    let mut v: Vec<char> = Vec::new();
    push_str(&mut v, "https://api.telegram.org/bot");
    push_str(&mut v, token);
    push_str(&mut v, "/sendMessage");
    Plan::Send(
        OutboundRequest {
            url: string_from_chars(&v),
            auth: Auth::NoAuth,
            body: Body::Json(json_object2("chat_id", chat_id, "text", text)),
            require_success: false,
        },
    )
}

/// Email, through Mailgun with `api_key` for `domain` (`MAILGUN_API_KEY`,
/// `MAILGUN_DOMAIN`).
pub fn plan_email(api_key: &str, domain: &str, to: &str, subject: &str, body: &str) -> (p: Plan)
    ensures
        api_key@.len() == 0 || domain@.len() == 0 ==> skipped(
            p,
            "disabled"@,
            "Set MAILGUN_API_KEY and MAILGUN_DOMAIN env vars to enable email"@,
        ),
        api_key@.len() > 0 && domain@.len() > 0 ==> (p matches Plan::Send(r) && r.url@ == "https://api.mailgun.net/v3/"@
            + domain@ + "/messages"@ && (r.auth matches Auth::Basic { user, password } && user@ == "api"@ && password@
            == api_key@) && (r.body matches Body::Form(fs) && fs@.len() == 4 && fs@[0].0@ == "from"@ && fs@[0].1@
            == "RavenClaws <noreply@"@ + domain@ + ">"@ && fs@[1].0@ == "to"@ && fs@[1].1@ == to@ && fs@[2].0@
            == "subject"@ && fs@[2].1@ == subject@ && fs@[3].0@ == "text"@ && fs@[3].1@ == body@) && r.require_success),
{
    if api_key.is_empty() || domain.is_empty() {
        return Plan::Skip(IntegrationResult::disabled("Set MAILGUN_API_KEY and MAILGUN_DOMAIN env vars to enable email"));
    }
    let mut url: Vec<char> = Vec::new();
    push_str(&mut url, "https://api.mailgun.net/v3/");
    push_str(&mut url, domain);
    push_str(&mut url, "/messages");
    let mut from: Vec<char> = Vec::new();
    push_str(&mut from, "RavenClaws <noreply@");
    push_str(&mut from, domain);
    push_str(&mut from, ">");
    let mut fields: Vec<(String, String)> = Vec::new();
    fields.push((String::from_str("from"), string_from_chars(&from)));
    fields.push(field("to", to));
    fields.push(field("subject", subject));
    fields.push(field("text", body));
    Plan::Send(
        OutboundRequest {
            url: string_from_chars(&url),
            auth: Auth::Basic { user: String::from_str("api"), password: String::from_str(api_key) },
            body: Body::Form(fields),
            require_success: true,
        },
    )
}

/// SMS, through Twilio with `account_sid`, `auth_token` and the sender number
/// `from_phone` (`TWILIO_ACCOUNT_SID`, `TWILIO_AUTH_TOKEN`, `TWILIO_PHONE_NUMBER`).
pub fn plan_sms(account_sid: &str, auth_token: &str, from_phone: &str, to: &str, message: &str) -> (p: Plan)
    ensures
        account_sid@.len() == 0 || auth_token@.len() == 0 || from_phone@.len() == 0 ==> skipped(
            p,
            "disabled"@,
            "Set TWILIO_ACCOUNT_SID, TWILIO_AUTH_TOKEN, TWILIO_PHONE_NUMBER env vars to enable SMS"@,
        ),
        account_sid@.len() > 0 && auth_token@.len() > 0 && from_phone@.len() > 0 && to@.len() == 0 ==> skipped(
            p,
            "error"@,
            "to field required (phone number)"@,
        ),
        account_sid@.len() > 0 && auth_token@.len() > 0 && from_phone@.len() > 0 && to@.len() > 0 ==> (p matches Plan::Send(
            r,
        ) && r.url@ == "https://api.twilio.com/2010-04-01/Accounts/"@ + account_sid@ + "/Messages.json"@ && (r.auth matches Auth::Basic {
            user,
            password,
        } && user@ == account_sid@ && password@ == auth_token@) && (r.body matches Body::Form(fs) && fs@.len() == 3
            && fs@[0].0@ == "From"@ && fs@[0].1@ == from_phone@ && fs@[1].0@ == "To"@ && fs@[1].1@ == to@ && fs@[2].0@
            == "Body"@ && fs@[2].1@ == message@) && r.require_success),
{
    if account_sid.is_empty() || auth_token.is_empty() || from_phone.is_empty() {
        return Plan::Skip(
            IntegrationResult::disabled(
                "Set TWILIO_ACCOUNT_SID, TWILIO_AUTH_TOKEN, TWILIO_PHONE_NUMBER env vars to enable SMS",
            ),
        );
    }
    if to.is_empty() {
        return Plan::Skip(IntegrationResult::error("to field required (phone number)"));
    }
    let mut url: Vec<char> = Vec::new();
    push_str(&mut url, "https://api.twilio.com/2010-04-01/Accounts/");
    push_str(&mut url, account_sid);
    push_str(&mut url, "/Messages.json");
    let mut fields: Vec<(String, String)> = Vec::new();
    fields.push(field("From", from_phone));
    fields.push(field("To", to));
    fields.push(field("Body", message));
    Plan::Send(
        OutboundRequest {
            url: string_from_chars(&url),
            auth: Auth::Basic { user: String::from_str(account_sid), password: String::from_str(auth_token) },
            body: Body::Form(fields),
            require_success: true,
        },
    )
}

} // verus!
