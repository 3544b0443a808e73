use vnox_ui::theme::{
    action_icon, avatar_color_for, msg_color, nick_avatar_color, nick_color, parse_hex_rgb,
    status_color, user_color, Color,
};

fn rgb(r: u8, g: u8, b: u8) -> Color {
    Color { r, g, b, a: 255 }
}

#[test]
fn user_color_empty_is_secondary() {
    assert_eq!(user_color(""), rgb(170, 170, 170));
}

#[test]
fn user_color_by_byte_sum() {
    // 'a' = 97; 97 % 6 == 1.
    assert_eq!(user_color("a"), rgb(106, 158, 207));
    // "ab" = 97 + 98 = 195; 195 % 6 == 3.
    assert_eq!(user_color("ab"), rgb(220, 170, 60));
    // 'f' = 102; 102 % 6 == 0.
    assert_eq!(user_color("f"), rgb(170, 170, 170));
}

#[test]
fn user_color_counts_utf8_bytes() {
    // 'é' is 0xC3 0xA9: 195 + 169 = 364; 364 % 6 == 4.
    assert_eq!(user_color("é"), rgb(190, 140, 200));
}

#[test]
fn nick_colors() {
    // 'a' = 97; 97 % 5 == 2 -> warning.
    assert_eq!(nick_color("a"), rgb(220, 170, 60));
    // empty: sum 0 -> accent.
    assert_eq!(nick_color(""), rgb(230, 126, 34));
    // 97 % 6 == 1 -> success.
    assert_eq!(nick_avatar_color("a"), rgb(80, 180, 90));
    // 'e' = 101; 101 % 6 == 5 -> teal.
    assert_eq!(nick_avatar_color("e"), rgb(120, 190, 180));
}

#[test]
fn avatar_colors() {
    assert_eq!(avatar_color_for("anyone", true), rgb(80, 180, 90));
    // 'a' = 97; 97 % 4 == 1.
    assert_eq!(avatar_color_for("a", false), rgb(50, 70, 100));
    // 'd' = 100; 100 % 4 == 0 -> faint accent.
    assert_eq!(avatar_color_for("d", false), Color { r: 230, g: 126, b: 34, a: 25 });
}

#[test]
fn status_colors() {
    assert_eq!(status_color("online"), rgb(80, 180, 90));
    assert_eq!(status_color("idle"), rgb(220, 170, 60));
    assert_eq!(status_color("dnd"), rgb(210, 90, 80));
    assert_eq!(status_color("offline"), rgb(90, 90, 90));
}

#[test]
fn message_colors() {
    assert_eq!(msg_color("Connection REFUSED"), rgb(210, 90, 80));
    assert_eq!(msg_color("handshake failed"), rgb(210, 90, 80));
    assert_eq!(msg_color("Error: x"), rgb(210, 90, 80));
    assert_eq!(msg_color("Connected to node"), rgb(80, 180, 90));
    assert_eq!(msg_color("reconnecting in 2s"), rgb(136, 136, 136));
    // "disconnected" contains "connected".
    assert_eq!(msg_color("disconnected: bye"), rgb(80, 180, 90));
}

#[test]
fn audit_action_icons() {
    assert_eq!(action_icon("guild_create"), ("[+]", rgb(80, 180, 90)));
    assert_eq!(action_icon("GUILD_DELETE"), ("[-]", rgb(210, 90, 80)));
    assert_eq!(action_icon("member_kick"), ("[kick]", rgb(210, 90, 80)));
    assert_eq!(action_icon("MEMBER_LEAVE"), ("[leave]", rgb(220, 170, 60)));
    assert_eq!(action_icon("role_create"), ("[role+]", rgb(90, 155, 210)));
    assert_eq!(action_icon("role_delete"), ("[role-]", rgb(210, 90, 80)));
    assert_eq!(action_icon("ROLE_ASSIGN"), ("[role=]", rgb(90, 155, 210)));
    assert_eq!(action_icon("role_unassign"), ("[role!=]", rgb(220, 170, 60)));
    assert_eq!(action_icon("invite_create"), ("[invite+]", rgb(80, 180, 90)));
    assert_eq!(action_icon("invite_delete"), ("[invite-]", rgb(210, 90, 80)));
    assert_eq!(action_icon("INVITE_ACCEPT"), ("[invite=]", rgb(80, 180, 90)));
    assert_eq!(action_icon("Guild_Create"), ("[*]", rgb(136, 136, 136)));
}

#[test]
fn hex_rgb_parsing() {
    assert_eq!(parse_hex_rgb("#e67e22"), Some(rgb(0xe6, 0x7e, 0x22)));
    assert_eq!(parse_hex_rgb("##00FF10"), Some(rgb(0, 255, 16)));
    assert_eq!(parse_hex_rgb("+f+f+f"), Some(rgb(15, 15, 15)));
    assert_eq!(parse_hex_rgb("#12345"), None);
    assert_eq!(parse_hex_rgb("#1234567"), None);
    assert_eq!(parse_hex_rgb("zz0000"), None);
    assert_eq!(parse_hex_rgb("-10000"), None);
    assert_eq!(parse_hex_rgb(""), None);
}
