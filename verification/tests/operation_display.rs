use discord_facade::operation::DiscordOperation;

#[test]
fn get_current_user_display() {
    let op = DiscordOperation::GetCurrentUser;
    assert_eq!(op.display_string(), "Get current user");
}

#[test]
fn get_channel_display() {
    let op = DiscordOperation::GetChannel { channel_id: 42 };
    assert_eq!(op.display_string(), "Get channel 42");
}

#[test]
fn get_guild_display() {
    let op = DiscordOperation::GetGuild { guild_id: 9 };
    assert_eq!(op.display_string(), "Get guild 9");
}

#[test]
fn get_message_display() {
    let op = DiscordOperation::GetMessage { channel_id: 3, message_id: 14 };
    assert_eq!(op.display_string(), "Get message 14 in channel 3");
}

#[test]
fn get_member_display() {
    let op = DiscordOperation::GetMember { guild_id: 100, user_id: 200 };
    assert_eq!(op.display_string(), "Get member 200 in guild 100");
}

#[test]
fn get_user_display() {
    let op = DiscordOperation::GetUser { user_id: 77 };
    assert_eq!(op.display_string(), "Get user 77");
}

#[test]
fn create_message_display() {
    let op = DiscordOperation::CreateMessage { channel_id: 7 };
    assert_eq!(op.display_string(), "Create message in channel 7");
}

#[test]
fn update_message_display() {
    let op = DiscordOperation::UpdateMessage { channel_id: 1, message_id: 2 };
    assert_eq!(op.display_string(), "Update message 2 in channel 1");
}

#[test]
fn delete_message_display() {
    let op = DiscordOperation::DeleteMessage { channel_id: 5, message_id: 6 };
    assert_eq!(op.display_string(), "Delete message 6 in channel 5");
}

#[test]
fn add_role_display() {
    let op = DiscordOperation::AddRole { guild_id: 1, user_id: 2, role_id: 3 };
    assert_eq!(op.display_string(), "Add role 3 to user 2 in guild 1");
}

#[test]
fn remove_role_display() {
    let op = DiscordOperation::RemoveRole { guild_id: 1, user_id: 2, role_id: 3 };
    assert_eq!(op.display_string(), "Remove role 3 from user 2 in guild 1");
}

#[test]
fn add_reaction_display() {
    let op = DiscordOperation::AddReaction { channel_id: 4, message_id: 8 };
    assert_eq!(op.display_string(), "Add reaction to message 8 in channel 4");
}

#[test]
fn remove_own_reaction_display() {
    let op = DiscordOperation::RemoveOwnReaction { channel_id: 4, message_id: 8 };
    assert_eq!(op.display_string(), "Remove own reaction from message 8 in channel 4");
}

#[test]
fn remove_reaction_display() {
    let op = DiscordOperation::RemoveReaction { channel_id: 4, message_id: 8, user_id: 15 };
    assert_eq!(op.display_string(), "Remove reaction from message 8 in channel 4 by user 15");
}

#[test]
fn large_identifiers_render_in_full_decimal() {
    let op = DiscordOperation::GetUser { user_id: u64::MAX };
    assert_eq!(op.display_string(), "Get user 18446744073709551615");
}

#[test]
fn zero_identifier_renders_as_zero() {
    let op = DiscordOperation::GetChannel { channel_id: 0 };
    assert_eq!(op.display_string(), "Get channel 0");
}

#[test]
fn every_variant_display_is_nonempty_and_lists_ids() {
    let ops = vec![
        DiscordOperation::GetCurrentUser,
        DiscordOperation::GetChannel { channel_id: 123 },
        DiscordOperation::GetGuild { guild_id: 456 },
        DiscordOperation::GetMessage { channel_id: 123, message_id: 789 },
        DiscordOperation::GetMember { guild_id: 456, user_id: 135 },
        DiscordOperation::GetUser { user_id: 135 },
        DiscordOperation::CreateMessage { channel_id: 123 },
        DiscordOperation::UpdateMessage { channel_id: 123, message_id: 789 },
        DiscordOperation::DeleteMessage { channel_id: 123, message_id: 789 },
        DiscordOperation::AddRole { guild_id: 456, user_id: 135, role_id: 246 },
        DiscordOperation::RemoveRole { guild_id: 456, user_id: 135, role_id: 246 },
        DiscordOperation::AddReaction { channel_id: 123, message_id: 789 },
        DiscordOperation::RemoveOwnReaction { channel_id: 123, message_id: 789 },
        DiscordOperation::RemoveReaction { channel_id: 123, message_id: 789, user_id: 135 },
    ];
    let mentioned: Vec<(DiscordOperation, Vec<&str>)> = vec![
        (ops[0], vec![]),
        (ops[1], vec!["123"]),
        (ops[2], vec!["456"]),
        (ops[3], vec!["123", "789"]),
        (ops[4], vec!["456", "135"]),
        (ops[5], vec!["135"]),
        (ops[6], vec!["123"]),
        (ops[7], vec!["123", "789"]),
        (ops[8], vec!["123", "789"]),
        (ops[9], vec!["456", "135", "246"]),
        (ops[10], vec!["456", "135", "246"]),
        (ops[11], vec!["123", "789"]),
        (ops[12], vec!["123", "789"]),
        (ops[13], vec!["123", "789", "135"]),
    ];
    for (op, expected_ids) in mentioned {
        let text = op.display_string();
        assert!(!text.is_empty());
        for id in expected_ids {
            assert!(text.contains(id), "{} missing from {}", id, text);
        }
    }
}
