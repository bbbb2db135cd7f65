use ravenclaws::integrations::{
    http_outcome, json_object2, plan_discord, plan_email, plan_matrix, plan_signal, plan_slack, plan_sms,
    plan_teams, plan_telegram, Auth, Body, IntegrationResult, Plan,
};

fn skipped_status(p: &Plan) -> &str {
    match p {
        Plan::Skip(r) => r.status.as_str(),
        Plan::Send(_) => "send",
    }
}

#[test]
fn test_send_slack_disabled_without_env() {
    assert_eq!(skipped_status(&plan_slack("", "hello")), "disabled");
}

#[test]
fn test_send_discord_disabled_without_env() {
    assert_eq!(skipped_status(&plan_discord("", "hello")), "disabled");
}

#[test]
fn test_send_telegram_disabled_without_env() {
    assert_eq!(skipped_status(&plan_telegram("", "", "hello")), "disabled");
}

#[test]
fn test_send_teams_disabled_without_env() {
    assert_eq!(skipped_status(&plan_teams("", "hello", "title")), "disabled");
}

#[test]
fn test_send_email_disabled_without_env() {
    assert_eq!(skipped_status(&plan_email("", "", "to@example.com", "subject", "body")), "disabled");
}

#[test]
fn test_send_sms_disabled_without_env() {
    assert_eq!(skipped_status(&plan_sms("", "", "", "+15551234567", "hello")), "disabled");
}

#[test]
fn test_send_sms_requires_recipient() {
    assert_eq!(skipped_status(&plan_sms("sid", "token", "+10000000000", "", "hello")), "error");
}

#[test]
fn test_send_signal_disabled_without_env() {
    assert_eq!(skipped_status(&plan_signal("", "+15551234567", "hello")), "disabled");
}

#[test]
fn test_send_matrix_disabled_without_env() {
    assert_eq!(skipped_status(&plan_matrix("", "", "", "", "hello")), "disabled");
}

// ── Additional scenarios ────────────────────────────────────────────────

#[test]
fn slack_request_shape() {
    match plan_slack("https://hooks.slack.com/x", "hi \"you\"") {
        Plan::Send(req) => {
            assert_eq!(req.url, "https://hooks.slack.com/x");
            assert!(matches!(req.auth, Auth::NoAuth));
            match req.body {
                Body::Json(j) => assert_eq!(j, "{\"text\":\"hi \\\"you\\\"\"}"),
                _ => panic!("expected JSON"),
            }
        },
        Plan::Skip(_) => panic!("expected a request"),
    }
}

#[test]
fn json_objects_in_key_order() {
    assert_eq!(json_object2("a", "1", "b", "2"), "{\"a\":\"1\",\"b\":\"2\"}");
}

#[test]
fn outcome_classification() {
    let ok = http_outcome(false, 200, "");
    assert_eq!(ok.status, "sent");
    let r: IntegrationResult = http_outcome(true, 500, "bad");
    assert_eq!(r.status, "error");
}

#[test]
fn matrix_without_room_is_disabled() {
    assert_eq!(skipped_status(&plan_matrix("https://m.org", "tok", "", "", "hello")), "disabled");
}

#[test]
fn matrix_room_argument_wins_over_default() {
    match plan_matrix("https://m.org/", "tok", "!def:m.org", "!room:m.org", "hi") {
        Plan::Send(req) => {
            assert_eq!(req.url, "https://m.org/_matrix/client/r0/rooms/!room:m.org/send/m.room.message");
        },
        Plan::Skip(_) => panic!("expected a request"),
    }
    match plan_matrix("https://m.org", "tok", "!def:m.org", "", "hi") {
        Plan::Send(req) => {
            assert_eq!(req.url, "https://m.org/_matrix/client/r0/rooms/!def:m.org/send/m.room.message");
        },
        Plan::Skip(_) => panic!("expected a request"),
    }
}
