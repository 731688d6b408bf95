use discord_facade::error::{error_guard, DiscordError, InnerTwilightError};
use discord_facade::operation::DiscordOperation;

#[test]
fn transport_failure_display() {
    let inner = InnerTwilightError::TwilightError("connection reset".to_owned());
    assert_eq!(inner.display_string(), "Twilight error (connection reset)");
}

#[test]
fn deserialize_failure_display() {
    let inner = InnerTwilightError::DeserializeError("missing field id".to_owned());
    assert_eq!(inner.display_string(), "Deserialize error (missing field id)");
}

#[test]
fn validation_failure_display() {
    let inner = InnerTwilightError::ValidationError("content too long".to_owned());
    assert_eq!(inner.display_string(), "Validation error (content too long)");
}

#[test]
fn error_display_is_two_lines() {
    let err = DiscordError::new(
        InnerTwilightError::TwilightError("status 404".to_owned()),
        DiscordOperation::GetChannel { channel_id: 42 },
    );
    assert_eq!(
        err.display_string(),
        "Error while performing operation \"Get channel 42\":\nTwilight error (status 404)"
    );
}

#[test]
fn wrapping_preserves_transport_cause() {
    let err = DiscordError::new(
        InnerTwilightError::TwilightError("socket closed".to_owned()),
        DiscordOperation::GetGuild { guild_id: 1 },
    );
    assert!(err.display_string().contains("socket closed"));
}

#[test]
fn wrapping_preserves_deserialize_cause() {
    let err = DiscordError::new(
        InnerTwilightError::DeserializeError("unexpected null".to_owned()),
        DiscordOperation::GetUser { user_id: 2 },
    );
    assert!(err.display_string().contains("unexpected null"));
}

#[test]
fn wrapping_preserves_validation_cause() {
    let err = DiscordError::new(
        InnerTwilightError::ValidationError("embed too large".to_owned()),
        DiscordOperation::CreateMessage { channel_id: 3 },
    );
    assert!(err.display_string().contains("embed too large"));
}

#[test]
fn guard_passes_success_through_unchanged() {
    let op = DiscordOperation::GetCurrentUser;
    let r: Result<u32, DiscordError> = error_guard(op, Ok(99));
    assert_eq!(r.unwrap(), 99);
}

#[test]
fn guard_tags_failure_with_operation() {
    let op = DiscordOperation::GetMessage { channel_id: 10, message_id: 20 };
    let r: Result<(), DiscordError> =
        error_guard(op, Err(InnerTwilightError::TwilightError("timeout".to_owned())));
    let err = r.unwrap_err();
    assert_eq!(err.operation, op);
    assert!(matches!(err.inner, InnerTwilightError::TwilightError(_)));
}

#[test]
fn guard_wrapping_is_deterministic() {
    let op = DiscordOperation::AddRole { guild_id: 1, user_id: 2, role_id: 3 };
    let r1: Result<(), DiscordError> =
        error_guard(op, Err(InnerTwilightError::DeserializeError("bad json".to_owned())));
    let r2: Result<(), DiscordError> =
        error_guard(op, Err(InnerTwilightError::DeserializeError("bad json".to_owned())));
    let e1 = r1.unwrap_err();
    let e2 = r2.unwrap_err();
    assert_eq!(e1.operation, e2.operation);
    assert_eq!(e1.display_string(), e2.display_string());
}

#[test]
fn member_not_found_scenario() {
    let op = DiscordOperation::GetMember { guild_id: 100, user_id: 200 };
    let r: Result<(), DiscordError> =
        error_guard(op, Err(InnerTwilightError::TwilightError("not found".to_owned())));
    let err = r.unwrap_err();
    assert!(matches!(err.inner, InnerTwilightError::TwilightError(_)));
    assert_eq!(err.operation, DiscordOperation::GetMember { guild_id: 100, user_id: 200 });
    assert!(err
        .display_string()
        .starts_with("Error while performing operation \"Get member 200 in guild 100\""));
}

#[test]
fn cause_stays_inspectable_after_wrapping() {
    let err = DiscordError::new(
        InnerTwilightError::DeserializeError("trailing bytes".to_owned()),
        DiscordOperation::GetCurrentUser,
    );
    assert_eq!(err.inner.cause(), "trailing bytes");
}
