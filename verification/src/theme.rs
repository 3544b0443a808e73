//! The colours the client picks for names, statuses, messages and audit
//! entries.

use vstd::prelude::*;
use vstd::string::StringSliceAdditionalSpecFns;

use crate::text::{ascii_lower_seq, contains_seq, contains_str, to_ascii_lowercase};

verus! {

/// A colour: red, green, blue and alpha, the colour channels premultiplied by
/// alpha.
#[derive(Debug, Clone, Copy, PartialEq, Eq, Structural)]
pub struct Color {
    pub r: u8,
    pub g: u8,
    pub b: u8,
    pub a: u8,
}

/// An opaque colour.
pub open spec fn rgb(r: u8, g: u8, b: u8) -> Color {
    Color { r, g, b, a: 255 }
}

pub open spec fn accent() -> Color {
    rgb(230, 126, 34)
}

/// The accent at a tenth of full strength.
pub open spec fn accent_10() -> Color {
    Color { r: 230, g: 126, b: 34, a: 25 }
}

pub open spec fn success() -> Color {
    rgb(80, 180, 90)
}

pub open spec fn warning() -> Color {
    rgb(220, 170, 60)
}

pub open spec fn error() -> Color {
    rgb(210, 90, 80)
}

pub open spec fn info() -> Color {
    rgb(90, 155, 210)
}

pub open spec fn text_secondary() -> Color {
    rgb(170, 170, 170)
}

pub open spec fn text_muted() -> Color {
    rgb(136, 136, 136)
}

pub open spec fn text_disabled() -> Color {
    rgb(90, 90, 90)
}

/// The sum of some bytes.
pub open spec fn byte_sum(bs: Seq<u8>) -> nat
    decreases bs.len(),
{
    if bs.len() == 0 {
        0
    } else {
        byte_sum(bs.drop_last()) + bs.last() as nat
    }
}

/// The sum of the UTF-8 bytes of a name, wrapped to the width of `usize`.
pub open spec fn name_hash(s: Seq<char>) -> nat {
    byte_sum(vstd::utf8::encode_utf8(s)) % (usize::MAX as nat + 1)
}

/// The palette user names are drawn from.
pub open spec fn name_palette(i: nat) -> Color {
    if i == 0 {
        rgb(170, 170, 170)
    } else if i == 1 {
        rgb(106, 158, 207)
    } else if i == 2 {
        rgb(124, 184, 122)
    } else if i == 3 {
        rgb(220, 170, 60)
    } else if i == 4 {
        rgb(190, 140, 200)
    } else {
        rgb(120, 190, 180)
    }
}

/// The colour of a user's name: secondary text for no user, else a palette
/// entry picked by the name's byte sum.
pub open spec fn user_color_spec(user_id: Seq<char>) -> Color {
    if user_id.len() == 0 {
        text_secondary()
    } else {
        name_palette(name_hash(user_id) % 6)
    }
}

/// The five colours nicknames are drawn from in chat and voice lists.
pub open spec fn nick_palette(i: nat) -> Color {
    if i == 0 {
        accent()
    } else if i == 1 {
        success()
    } else if i == 2 {
        warning()
    } else if i == 3 {
        info()
    } else {
        rgb(200, 100, 180)
    }
}

/// The six colours member avatars are drawn from.
pub open spec fn member_avatar_palette(i: nat) -> Color {
    if i < 5 {
        nick_palette(i)
    } else {
        rgb(120, 190, 180)
    }
}

/// The four colours of the user bar's avatar.
pub open spec fn userbar_palette(i: nat) -> Color {
    if i == 0 {
        accent_10()
    } else if i == 1 {
        rgb(50, 70, 100)
    } else if i == 2 {
        rgb(60, 80, 50)
    } else {
        rgb(80, 60, 80)
    }
}

/// The colour of a presence status.
pub open spec fn status_color_spec(s: Seq<char>) -> Color {
    if s == "online"@ {
        success()
    } else if s == "idle"@ {
        warning()
    } else if s == "dnd"@ {
        error()
    } else {
        text_disabled()
    }
}

/// The colour of a status message: errors and refusals in the error colour,
/// connections in the success colour, anything else muted. Case is ignored.
pub open spec fn msg_color_spec(m: Seq<char>) -> Color {
    let l = ascii_lower_seq(m);
    if contains_seq(l, "error"@) || contains_seq(l, "fail"@) || contains_seq(l, "refuse"@) {
        error()
    } else if contains_seq(l, "connected"@) {
        success()
    } else {
        text_muted()
    }
}

/// The tag and colour of an audit-log action, written in lower or upper case.
pub open spec fn action_icon_spec(a: Seq<char>) -> (Seq<char>, Color) {
    if a == "guild_create"@ || a == "GUILD_CREATE"@ {
        ("[+]"@, success())
    } else if a == "guild_delete"@ || a == "GUILD_DELETE"@ {
        ("[-]"@, error())
    } else if a == "member_kick"@ || a == "MEMBER_KICK"@ {
        ("[kick]"@, error())
    } else if a == "member_leave"@ || a == "MEMBER_LEAVE"@ {
        ("[leave]"@, warning())
    } else if a == "role_create"@ || a == "ROLE_CREATE"@ {
        ("[role+]"@, info())
    } else if a == "role_delete"@ || a == "ROLE_DELETE"@ {
        ("[role-]"@, error())
    } else if a == "role_assign"@ || a == "ROLE_ASSIGN"@ {
        ("[role=]"@, info())
    } else if a == "role_unassign"@ || a == "ROLE_UNASSIGN"@ {
        ("[role!=]"@, warning())
    } else if a == "invite_create"@ || a == "INVITE_CREATE"@ {
        ("[invite+]"@, success())
    } else if a == "invite_delete"@ || a == "INVITE_DELETE"@ {
        ("[invite-]"@, error())
    } else if a == "invite_accept"@ || a == "INVITE_ACCEPT"@ {
        ("[invite=]"@, success())
    } else {
        ("[*]"@, text_muted())
    }
}

fn color(r: u8, g: u8, b: u8, a: u8) -> (c: Color)
    ensures
        c == (Color { r, g, b, a }),
{
    Color { r, g, b, a }
}

/// `name_hash`: the byte sum of `s`, wrapping as `usize` addition does.
fn name_hash_of(s: &str) -> (h: usize)
    ensures
        h == name_hash(s@),
{
    let bytes = s.as_bytes();
    let ghost bs = bytes@;
    let ghost m: int = usize::MAX as int + 1;
    assert(bs == vstd::utf8::encode_utf8(s@));
    let mut acc: usize = 0;
    let mut i: usize = 0;
    while i < bytes.len()
        invariant
            bytes@ == bs,
            m == usize::MAX as int + 1,
            i <= bs.len(),
            acc == byte_sum(bs.take(i as int)) % (m as nat),
        decreases bs.len() - i,
    {
        let b = bytes[i];
        let ghost before = byte_sum(bs.take(i as int));
        assert(bs.take(i + 1).drop_last() =~= bs.take(i as int));
        assert(byte_sum(bs.take(i + 1)) == before + b);
        let next: usize = if acc > usize::MAX - (b as usize) {
            acc - (usize::MAX - (b as usize)) - 1
        } else {
            acc + (b as usize)
        };
        proof {
            vstd::arithmetic::div_mod::lemma_add_mod_noop(before as int, b as int, m);
            vstd::arithmetic::div_mod::lemma_small_mod(b as nat, m as nat);
            if acc + b >= m {
                vstd::arithmetic::div_mod::lemma_small_mod((acc + b - m) as nat, m as nat);
                vstd::arithmetic::div_mod::lemma_mod_add_multiples_vanish(acc + b - m, m);
            } else {
                vstd::arithmetic::div_mod::lemma_small_mod((acc + b) as nat, m as nat);
            }
        }
        acc = next;
        i = i + 1;
    }
    assert(bs.take(bs.len() as int) =~= bs);
    acc
}

/// The colour of a user's name: secondary text for an empty id, else one of
/// six colours picked by the sum of the id's bytes.
pub fn user_color(user_id: &str) -> (c: Color)
    ensures
        c == user_color_spec(user_id@),
{
    if user_id.is_empty() {
        return color(170, 170, 170, 255);
    }
    let i = name_hash_of(user_id) % 6;
    if i == 0 {
        color(170, 170, 170, 255)
    } else if i == 1 {
        color(106, 158, 207, 255)
    } else if i == 2 {
        color(124, 184, 122, 255)
    } else if i == 3 {
        color(220, 170, 60, 255)
    } else if i == 4 {
        color(190, 140, 200, 255)
    } else {
        color(120, 190, 180, 255)
    }
}

fn nick_palette_at(i: usize) -> (c: Color)
    requires
        i < 5,
    ensures
        c == nick_palette(i as nat),
{
    if i == 0 {
        color(230, 126, 34, 255)
    } else if i == 1 {
        color(80, 180, 90, 255)
    } else if i == 2 {
        color(220, 170, 60, 255)
    } else if i == 3 {
        color(90, 155, 210, 255)
    } else {
        color(200, 100, 180, 255)
    }
}

/// The colour of a nickname in the voice panel: one of five colours picked by
/// the sum of its bytes.
pub fn nick_color(nick: &str) -> (c: Color)
    ensures
        c == nick_palette(name_hash(nick@) % 5),
{
    nick_palette_at(name_hash_of(nick) % 5)
}

/// The colour of a member's avatar: one of six colours picked by the sum of
/// the nickname's bytes.
pub fn nick_avatar_color(nick: &str) -> (c: Color)
    ensures
        c == member_avatar_palette(name_hash(nick@) % 6),
{
    let i = name_hash_of(nick) % 6;
    if i < 5 {
        nick_palette_at(i)
    } else {
        color(120, 190, 180, 255)
    }
}

/// The colour of the user bar's avatar: the success colour while speaking,
/// else one of four colours picked by the sum of the nickname's bytes.
pub fn avatar_color_for(nick: &str, speaking: bool) -> (c: Color)
    ensures
        c == if speaking {
            success()
        } else {
            userbar_palette(name_hash(nick@) % 4)
        },
{
    if speaking {
        return color(80, 180, 90, 255);
    }
    let i = name_hash_of(nick) % 4;
    if i == 0 {
        color(230, 126, 34, 25)
    } else if i == 1 {
        color(50, 70, 100, 255)
    } else if i == 2 {
        color(60, 80, 50, 255)
    } else {
        color(80, 60, 80, 255)
    }
}

/// The colour of a presence status: online, idle and do-not-disturb have
/// their own; anything else is greyed out.
pub fn status_color(status: &str) -> (c: Color)
    ensures
        c == status_color_spec(status@),
{
    if status.eq("online") {
        color(80, 180, 90, 255)
    } else if status.eq("idle") {
        color(220, 170, 60, 255)
    } else if status.eq("dnd") {
        color(210, 90, 80, 255)
    } else {
        color(90, 90, 90, 255)
    }
}

/// The colour a status message is shown in.
pub fn msg_color(msg: &str) -> (c: Color)
    ensures
        c == msg_color_spec(msg@),
{
    let l = to_ascii_lowercase(msg);
    if contains_str(l.as_str(), "error") || contains_str(l.as_str(), "fail") || contains_str(
        l.as_str(),
        "refuse",
    ) {
        color(210, 90, 80, 255)
    } else if contains_str(l.as_str(), "connected") {
        color(80, 180, 90, 255)
    } else {
        color(136, 136, 136, 255)
    }
}

/// The tag and colour shown for an audit-log action.
pub fn action_icon(action: &str) -> (r: (&'static str, Color))
    ensures
        (r.0@, r.1) == action_icon_spec(action@),
{
    if action.eq("guild_create") || action.eq("GUILD_CREATE") {
        ("[+]", color(80, 180, 90, 255))
    } else if action.eq("guild_delete") || action.eq("GUILD_DELETE") {
        ("[-]", color(210, 90, 80, 255))
    } else if action.eq("member_kick") || action.eq("MEMBER_KICK") {
        ("[kick]", color(210, 90, 80, 255))
    } else if action.eq("member_leave") || action.eq("MEMBER_LEAVE") {
        ("[leave]", color(220, 170, 60, 255))
    } else if action.eq("role_create") || action.eq("ROLE_CREATE") {
        ("[role+]", color(90, 155, 210, 255))
    } else if action.eq("role_delete") || action.eq("ROLE_DELETE") {
        ("[role-]", color(210, 90, 80, 255))
    } else if action.eq("role_assign") || action.eq("ROLE_ASSIGN") {
        ("[role=]", color(90, 155, 210, 255))
    } else if action.eq("role_unassign") || action.eq("ROLE_UNASSIGN") {
        ("[role!=]", color(220, 170, 60, 255))
    } else if action.eq("invite_create") || action.eq("INVITE_CREATE") {
        ("[invite+]", color(80, 180, 90, 255))
    } else if action.eq("invite_delete") || action.eq("INVITE_DELETE") {
        ("[invite-]", color(210, 90, 80, 255))
    } else if action.eq("invite_accept") || action.eq("INVITE_ACCEPT") {
        ("[invite=]", color(80, 180, 90, 255))
    } else {
        ("[*]", color(136, 136, 136, 255))
    }
}

/// The value of an ASCII hexadecimal digit byte.
pub open spec fn hex_val(b: u8) -> Option<u8> {
    if 0x30 <= b <= 0x39 {
        Some((b - 0x30) as u8)
    } else if 0x61 <= b <= 0x66 {
        Some((b - 0x61 + 10) as u8)
    } else if 0x41 <= b <= 0x46 {
        Some((b - 0x41 + 10) as u8)
    } else {
        None
    }
}

/// A two-byte text read as a base-16 `u8` the way `u8::from_str_radix` reads
/// it: an optional leading `+`, then hexadecimal digits.
pub open spec fn hex_pair(b0: u8, b1: u8) -> Option<u8> {
    if b0 == 0x2b {
        hex_val(b1)
    } else {
        match (hex_val(b0), hex_val(b1)) {
            (Some(hi), Some(lo)) => Some((16 * hi + lo) as u8),
            _ => None,
        }
    }
}

/// The bytes after any leading `#`.
pub open spec fn strip_hash_bytes(bs: Seq<u8>) -> Seq<u8>
    decreases bs.len(),
{
    if bs.len() > 0 && bs[0] == 0x23 {
        strip_hash_bytes(bs.drop_first())
    } else {
        bs
    }
}

/// A colour written as six hexadecimal digits in pairs, after any leading
/// `#`.
pub open spec fn parse_hex_rgb_spec(bs: Seq<u8>) -> Option<Color> {
    let t = strip_hash_bytes(bs);
    if t.len() != 6 {
        None
    } else {
        match (hex_pair(t[0], t[1]), hex_pair(t[2], t[3]), hex_pair(t[4], t[5])) {
            (Some(r), Some(g), Some(b)) => Some(rgb(r, g, b)),
            _ => None,
        }
    }
}

fn hex_val_of(b: u8) -> (v: Option<u8>)
    ensures
        v == hex_val(b),
{
    if 0x30 <= b && b <= 0x39 {
        Some(b - 0x30)
    } else if 0x61 <= b && b <= 0x66 {
        Some(b - 0x61 + 10)
    } else if 0x41 <= b && b <= 0x46 {
        Some(b - 0x41 + 10)
    } else {
        None
    }
}

fn hex_pair_of(b0: u8, b1: u8) -> (v: Option<u8>)
    ensures
        v == hex_pair(b0, b1),
{
    if b0 == 0x2b {
        hex_val_of(b1)
    } else {
        match (hex_val_of(b0), hex_val_of(b1)) {
            (Some(hi), Some(lo)) => Some(16 * hi + lo),
            _ => None,
        }
    }
}

/// Reads a colour such as `#e67e22` (role colours): any leading `#` is
/// dropped, and the six bytes left are read in pairs as base-16 numbers for
/// red, green and blue. Anything else gives `None`.
pub fn parse_hex_rgb(hex: &str) -> (r: Option<Color>)
    requires
        ({
            let t = strip_hash_bytes(hex.spec_bytes());
            t.len() == 6 ==> vstd::utf8::is_char_boundary(t, 2) && vstd::utf8::is_char_boundary(
                t,
                4,
            )
        }),
    ensures
        r == parse_hex_rgb_spec(hex.spec_bytes()),
{
    let bytes = hex.as_bytes();
    let ghost bs = bytes@;
    let mut start: usize = 0;
    assert(bs.skip(0) =~= bs);
    while start < bytes.len() && bytes[start] == 0x23
        invariant
            bytes@ == bs,
            start <= bs.len(),
            strip_hash_bytes(bs.skip(start as int)) == strip_hash_bytes(bs),
        decreases bs.len() - start,
    {
        assert(bs.skip(start as int).drop_first() =~= bs.skip(start + 1));
        start = start + 1;
    }
    let ghost t = bs.skip(start as int);
    assert(strip_hash_bytes(t) == t);
    if bytes.len() - start != 6 {
        return None;
    }
    assert(t[0] == bs[start as int]);
    let r = hex_pair_of(bytes[start], bytes[start + 1]);
    let g = hex_pair_of(bytes[start + 2], bytes[start + 3]);
    let b = hex_pair_of(bytes[start + 4], bytes[start + 5]);
    match (r, g, b) {
        (Some(r), Some(g), Some(b)) => Some(color(r, g, b, 255)),
        _ => None,
    }
}

/// The colour of a round-trip time: good below 80 ms, fair below 200 ms,
/// poor above.
pub fn rtt_color(rtt_ms: u32) -> (c: Color)
    ensures
        c == if rtt_ms < 80 {
            success()
        } else if rtt_ms < 200 {
            warning()
        } else {
            error()
        },
{
    if rtt_ms < 80 {
        color(80, 180, 90, 255)
    } else if rtt_ms < 200 {
        color(220, 170, 60, 255)
    } else {
        color(210, 90, 80, 255)
    }
}

} // verus!
