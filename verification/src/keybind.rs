//! Which input a key binding is read from: a mouse button, the space bar, or
//! a key combination, and how the held modifiers must match it. The bindings
//! are compared trimmed and in lower case.

use vstd::prelude::*;

use crate::forms::{
    combo_text, combo_text_spec, law_combo_round_trip, no_plus, split_combo_spec, Mods,
};
use crate::members::{lower_case, lower_case_of};
use crate::text::{to_string, trim, trim_seq};

verus! {

/// A mouse button a binding can name.
#[derive(Debug, Clone, Copy, PartialEq, Eq, Structural)]
pub enum MouseButton {
    Primary,
    Secondary,
    Middle,
    Extra1,
    Extra2,
}

/// What a push-to-talk binding is held with.
#[derive(Debug, Clone, Copy, PartialEq, Eq, Structural)]
pub enum HoldInput {
    Button(MouseButton),
    Space,
    /// The binding is a key combination: held while its key is down and the
    /// modifiers held are exactly its own.
    Combo,
}

/// What makes a toggle binding fire on a press.
#[derive(Debug, Clone, PartialEq, Eq)]
pub enum PressRule {
    Button(MouseButton),
    /// The key is pressed while at least these modifiers are held.
    AtLeast { mods: Mods, key: String },
    /// The binding is a key combination: its key is pressed and the modifiers
    /// held are exactly its own.
    Combo,
}

/// The binding as it is compared: trimmed, then in lower case.
pub open spec fn normal_binding(binding: Seq<char>) -> Seq<char> {
    lower_case_of(trim_seq(binding))
}

/// The names of the first extra mouse button.
pub open spec fn extra1_name(b: Seq<char>) -> bool {
    b == "mouse4"@ || b == "mb4"@ || b == "x1"@
}

/// The names of the second extra mouse button.
pub open spec fn extra2_name(b: Seq<char>) -> bool {
    b == "mouse5"@ || b == "mb5"@ || b == "x2"@
}

/// What a normalised push-to-talk binding is held with.
pub open spec fn hold_input_spec(b: Seq<char>) -> HoldInput {
    if extra1_name(b) {
        HoldInput::Button(MouseButton::Extra1)
    } else if extra2_name(b) {
        HoldInput::Button(MouseButton::Extra2)
    } else if b == "lmb"@ || b == "mouse1"@ {
        HoldInput::Button(MouseButton::Primary)
    } else if b == "rmb"@ || b == "mouse2"@ {
        HoldInput::Button(MouseButton::Secondary)
    } else if b == "mmb"@ || b == "mouse3"@ {
        HoldInput::Button(MouseButton::Middle)
    } else if b == "space"@ {
        HoldInput::Space
    } else {
        HoldInput::Combo
    }
}

/// What makes a normalised toggle binding fire.
pub open spec fn press_rule_spec(b: Seq<char>, r: PressRule) -> bool {
    if extra1_name(b) {
        r == PressRule::Button(MouseButton::Extra1)
    } else if extra2_name(b) {
        r == PressRule::Button(MouseButton::Extra2)
    } else if b == "ctrl+m"@ {
        r matches PressRule::AtLeast { mods, key } && mods == (Mods { ctrl: true, shift: false, alt: false })
            && key@ == "m"@
    } else if b == "ctrl+d"@ {
        r matches PressRule::AtLeast { mods, key } && mods == (Mods { ctrl: true, shift: false, alt: false })
            && key@ == "d"@
    } else if b == "ctrl+shift+o"@ {
        r matches PressRule::AtLeast { mods, key } && mods == (Mods { ctrl: true, shift: true, alt: false })
            && key@ == "o"@
    } else {
        r == PressRule::Combo
    }
}

/// A binding trimmed and in lower case.
pub fn normalize_binding(binding: &str) -> (r: String)
    ensures
        r@ == normal_binding(binding@),
{
    let t = trim(binding);
    lower_case(t.as_str())
}

/// What push-to-talk binding `binding` is held with.
pub fn hold_input(binding: &str) -> (r: HoldInput)
    ensures
        r == hold_input_spec(normal_binding(binding@)),
{
    let n = normalize_binding(binding);
    let b = n.as_str();
    if b.eq("mouse4") || b.eq("mb4") || b.eq("x1") {
        HoldInput::Button(MouseButton::Extra1)
    } else if b.eq("mouse5") || b.eq("mb5") || b.eq("x2") {
        HoldInput::Button(MouseButton::Extra2)
    } else if b.eq("lmb") || b.eq("mouse1") {
        HoldInput::Button(MouseButton::Primary)
    } else if b.eq("rmb") || b.eq("mouse2") {
        HoldInput::Button(MouseButton::Secondary)
    } else if b.eq("mmb") || b.eq("mouse3") {
        HoldInput::Button(MouseButton::Middle)
    } else if b.eq("space") {
        HoldInput::Space
    } else {
        HoldInput::Combo
    }
}

/// What makes toggle binding `binding` fire on a press.
pub fn press_rule(binding: &str) -> (r: PressRule)
    ensures
        press_rule_spec(normal_binding(binding@), r),
{
    let n = normalize_binding(binding);
    let b = n.as_str();
    if b.eq("mouse4") || b.eq("mb4") || b.eq("x1") {
        PressRule::Button(MouseButton::Extra1)
    } else if b.eq("mouse5") || b.eq("mb5") || b.eq("x2") {
        PressRule::Button(MouseButton::Extra2)
    } else if b.eq("ctrl+m") {
        PressRule::AtLeast { mods: Mods { ctrl: true, shift: false, alt: false }, key: to_string("m") }
    } else if b.eq("ctrl+d") {
        PressRule::AtLeast { mods: Mods { ctrl: true, shift: false, alt: false }, key: to_string("d") }
    } else if b.eq("ctrl+shift+o") {
        PressRule::AtLeast { mods: Mods { ctrl: true, shift: true, alt: false }, key: to_string("o") }
    } else {
        PressRule::Combo
    }
}

/// A combination's modifiers match those held only when they are the same.
pub fn combo_mods_match(want: Mods, held: Mods) -> (r: bool)
    ensures
        r == (want == held),
{
    want.ctrl == held.ctrl && want.shift == held.shift && want.alt == held.alt
}

/// Every modifier wanted is held; others may be held too.
pub fn mods_at_least(want: Mods, held: Mods) -> (r: bool)
    ensures
        r == ((want.ctrl ==> held.ctrl) && (want.shift ==> held.shift) && (want.alt ==> held.alt)),
{
    (!want.ctrl || held.ctrl) && (!want.shift || held.shift) && (!want.alt || held.alt)
}

/// The binding recorded from a mouse press while capturing, when no key was
/// pressed: the first extra button, then the second, then the middle one.
pub fn captured_mouse_binding(extra1: bool, extra2: bool, middle: bool) -> (r: Option<String>)
    ensures
        match r {
            Some(s) => if extra1 {
                s@ == "mouse4"@
            } else if extra2 {
                s@ == "mouse5"@
            } else {
                middle && s@ == "mouse3"@
            },
            None => !extra1 && !extra2 && !middle,
        },
{
    if extra1 {
        Some(to_string("mouse4"))
    } else if extra2 {
        Some(to_string("mouse5"))
    } else if middle {
        Some(to_string("mouse3"))
    } else {
        None
    }
}

/// What the binding recorder captures in one frame: the held modifiers and
/// the name of the first pressed key that has one; with no such key, the
/// first extra mouse button, the second, or the middle one, when pressed.
pub open spec fn captured_spec(
    mods: Mods,
    first_key: Option<Seq<char>>,
    extra1: bool,
    extra2: bool,
    middle: bool,
) -> Option<Seq<char>> {
    match first_key {
        Some(k) => Some(combo_text_spec(mods, k)),
        None => if extra1 {
            Some("mouse4"@)
        } else if extra2 {
            Some("mouse5"@)
        } else if middle {
            Some("mouse3"@)
        } else {
            None
        },
    }
}

/// The binding the recorder captures (see `captured_spec`); `first_key` is
/// the name of the first pressed key that has one.
pub fn captured_binding(mods: Mods, first_key: Option<&str>, extra1: bool, extra2: bool, middle: bool) -> (r:
    Option<String>)
    ensures
        match r {
            Some(s) => captured_spec(mods, opt_text(first_key), extra1, extra2, middle) == Some(s@),
            None => captured_spec(mods, opt_text(first_key), extra1, extra2, middle) is None,
        },
{
    match first_key {
        Some(k) => Some(combo_text(mods, k)),
        None => captured_mouse_binding(extra1, extra2, middle),
    }
}

/// The text of an optional key name.
pub open spec fn opt_text(k: Option<&str>) -> Option<Seq<char>> {
    match k {
        Some(t) => Some(t@),
        None => None,
    }
}

/// Whether a binding read by `rule` (its normal form `b`) fires in a frame
/// with modifiers `mods` held, the keys named in `keys` pressed, and the
/// extra mouse buttons pressed as given.
pub open spec fn rule_fires(
    r: PressRule,
    b: Seq<char>,
    mods: Mods,
    keys: Set<Seq<char>>,
    extra1: bool,
    extra2: bool,
) -> bool {
    match r {
        PressRule::Button(MouseButton::Extra1) => extra1,
        PressRule::Button(MouseButton::Extra2) => extra2,
        PressRule::Button(_) => false,
        PressRule::AtLeast { mods: want, key } => (want.ctrl ==> mods.ctrl) && (want.shift
            ==> mods.shift) && (want.alt ==> mods.alt) && keys.contains(key@),
        PressRule::Combo => split_combo_spec(b).0 == mods && keys.contains(split_combo_spec(b).1),
    }
}

/// A binding the recorder captured from a frame fires on that same frame's
/// press, given that the key names are in normal form (lower case, no white
/// space at either end), hold no `+` and are not mouse-button names, and the
/// first named key is among those pressed. A capture of the middle mouse
/// button is left out: no press rule reads that button.
pub proof fn law_captured_binding_fires(
    mods: Mods,
    keys: Set<Seq<char>>,
    first_key: Option<Seq<char>>,
    extra1: bool,
    extra2: bool,
    middle: bool,
    r: PressRule,
)
    requires
        first_key matches Some(k) ==> {
            &&& keys.contains(k)
            &&& no_plus(k)
            &&& trim_seq(k) == k
            &&& !extra1_name(k)
            &&& !extra2_name(k)
        },
        captured_spec(mods, first_key, extra1, extra2, middle) matches Some(b) && b != "mouse3"@
            && normal_binding(b) == b,
        press_rule_spec(normal_binding(captured_spec(mods, first_key, extra1, extra2, middle)->0), r),
    ensures
        rule_fires(
            r,
            normal_binding(captured_spec(mods, first_key, extra1, extra2, middle)->0),
            mods,
            keys,
            extra1,
            extra2,
        ),
{
    let b = captured_spec(mods, first_key, extra1, extra2, middle)->0;
    reveal_strlit("mouse4");
    reveal_strlit("mb4");
    reveal_strlit("x1");
    reveal_strlit("mouse5");
    reveal_strlit("mb5");
    reveal_strlit("x2");
    reveal_strlit("mouse3");
    reveal_strlit("ctrl+m");
    reveal_strlit("ctrl+d");
    reveal_strlit("ctrl+shift+o");
    reveal_strlit("m");
    reveal_strlit("d");
    reveal_strlit("o");
    reveal_strlit("ctrl+");
    reveal_strlit("shift+");
    reveal_strlit("alt+");
    let none = Mods { ctrl: false, shift: false, alt: false };
    let ctrl = Mods { ctrl: true, shift: false, alt: false };
    let ctrl_shift = Mods { ctrl: true, shift: true, alt: false };
    match first_key {
        None => {
            if !extra1 {
                assert(b == "mouse5"@);
                assert(!extra1_name(b));
            }
        },
        Some(k) => {
            law_combo_round_trip(mods, k);
            assert(split_combo_spec(b) == (mods, k));
            assert forall|t: Seq<char>|
                #![trigger extra1_name(t)]
                #![trigger extra2_name(t)]
                (extra1_name(t) || extra2_name(t)) implies combo_text_spec(none, t) == t
                && no_plus(t) && trim_seq(t) == t by {
                assert(combo_text_spec(none, t) =~= t);
                reveal_with_fuel(crate::text::trim_start_seq, 2);
                reveal_with_fuel(crate::text::trim_end_seq, 2);
            }
            if extra1_name(b) || extra2_name(b) {
                law_combo_round_trip(none, b);
                assert(false);
            } else if b == "ctrl+m"@ {
                assert(combo_text_spec(ctrl, "m"@) =~= b);
                assert(trim_seq("m"@) == "m"@) by {
                    reveal_with_fuel(crate::text::trim_start_seq, 2);
                    reveal_with_fuel(crate::text::trim_end_seq, 2);
                }
                law_combo_round_trip(ctrl, "m"@);
            } else if b == "ctrl+d"@ {
                assert(combo_text_spec(ctrl, "d"@) =~= b);
                assert(trim_seq("d"@) == "d"@) by {
                    reveal_with_fuel(crate::text::trim_start_seq, 2);
                    reveal_with_fuel(crate::text::trim_end_seq, 2);
                }
                law_combo_round_trip(ctrl, "d"@);
            } else if b == "ctrl+shift+o"@ {
                assert(combo_text_spec(ctrl_shift, "o"@) =~= b);
                assert(trim_seq("o"@) == "o"@) by {
                    reveal_with_fuel(crate::text::trim_start_seq, 2);
                    reveal_with_fuel(crate::text::trim_end_seq, 2);
                }
                law_combo_round_trip(ctrl_shift, "o"@);
            }
        },
    }
}

/// The names of mouse buttons and of the space bar differ from one another.
proof fn lemma_input_names_differ()
    ensures
        "mouse4"@ != "mb4"@,
        "mouse4"@ != "x1"@,
        "mouse4"@ != "mouse5"@,
        "mouse4"@ != "mb5"@,
        "mouse4"@ != "x2"@,
        "mouse4"@ != "lmb"@,
        "mouse4"@ != "mouse1"@,
        "mouse4"@ != "rmb"@,
        "mouse4"@ != "mouse2"@,
        "mouse4"@ != "mmb"@,
        "mouse4"@ != "mouse3"@,
        "mouse4"@ != "space"@,
        "mb4"@ != "x1"@,
        "mb4"@ != "mouse5"@,
        "mb4"@ != "mb5"@,
        "mb4"@ != "x2"@,
        "mb4"@ != "lmb"@,
        "mb4"@ != "mouse1"@,
        "mb4"@ != "rmb"@,
        "mb4"@ != "mouse2"@,
        "mb4"@ != "mmb"@,
        "mb4"@ != "mouse3"@,
        "mb4"@ != "space"@,
        "x1"@ != "mouse5"@,
        "x1"@ != "mb5"@,
        "x1"@ != "x2"@,
        "x1"@ != "lmb"@,
        "x1"@ != "mouse1"@,
        "x1"@ != "rmb"@,
        "x1"@ != "mouse2"@,
        "x1"@ != "mmb"@,
        "x1"@ != "mouse3"@,
        "x1"@ != "space"@,
        "mouse5"@ != "mb5"@,
        "mouse5"@ != "x2"@,
        "mouse5"@ != "lmb"@,
        "mouse5"@ != "mouse1"@,
        "mouse5"@ != "rmb"@,
        "mouse5"@ != "mouse2"@,
        "mouse5"@ != "mmb"@,
        "mouse5"@ != "mouse3"@,
        "mouse5"@ != "space"@,
        "mb5"@ != "x2"@,
        "mb5"@ != "lmb"@,
        "mb5"@ != "mouse1"@,
        "mb5"@ != "rmb"@,
        "mb5"@ != "mouse2"@,
        "mb5"@ != "mmb"@,
        "mb5"@ != "mouse3"@,
        "mb5"@ != "space"@,
        "x2"@ != "lmb"@,
        "x2"@ != "mouse1"@,
        "x2"@ != "rmb"@,
        "x2"@ != "mouse2"@,
        "x2"@ != "mmb"@,
        "x2"@ != "mouse3"@,
        "x2"@ != "space"@,
        "lmb"@ != "mouse1"@,
        "lmb"@ != "rmb"@,
        "lmb"@ != "mouse2"@,
        "lmb"@ != "mmb"@,
        "lmb"@ != "mouse3"@,
        "lmb"@ != "space"@,
        "mouse1"@ != "rmb"@,
        "mouse1"@ != "mouse2"@,
        "mouse1"@ != "mmb"@,
        "mouse1"@ != "mouse3"@,
        "mouse1"@ != "space"@,
        "rmb"@ != "mouse2"@,
        "rmb"@ != "mmb"@,
        "rmb"@ != "mouse3"@,
        "rmb"@ != "space"@,
        "mouse2"@ != "mmb"@,
        "mouse2"@ != "mouse3"@,
        "mouse2"@ != "space"@,
        "mmb"@ != "mouse3"@,
        "mmb"@ != "space"@,
        "mouse3"@ != "space"@,
{
    reveal_strlit("mouse4");
    reveal_strlit("mb4");
    reveal_strlit("x1");
    reveal_strlit("mouse5");
    reveal_strlit("mb5");
    reveal_strlit("x2");
    reveal_strlit("lmb");
    reveal_strlit("mouse1");
    reveal_strlit("rmb");
    reveal_strlit("mouse2");
    reveal_strlit("mmb");
    reveal_strlit("mouse3");
    reveal_strlit("space");
    assert("mouse4"@.len() != "mb4"@.len());
    assert("mouse4"@.len() != "x1"@.len());
    assert("mouse4"@[5] != "mouse5"@[5]);
    assert("mouse4"@.len() != "mb5"@.len());
    assert("mouse4"@.len() != "x2"@.len());
    assert("mouse4"@.len() != "lmb"@.len());
    assert("mouse4"@[5] != "mouse1"@[5]);
    assert("mouse4"@.len() != "rmb"@.len());
    assert("mouse4"@[5] != "mouse2"@[5]);
    assert("mouse4"@.len() != "mmb"@.len());
    assert("mouse4"@[5] != "mouse3"@[5]);
    assert("mouse4"@.len() != "space"@.len());
    assert("mb4"@.len() != "x1"@.len());
    assert("mb4"@.len() != "mouse5"@.len());
    assert("mb4"@[2] != "mb5"@[2]);
    assert("mb4"@.len() != "x2"@.len());
    assert("mb4"@[0] != "lmb"@[0]);
    assert("mb4"@.len() != "mouse1"@.len());
    assert("mb4"@[0] != "rmb"@[0]);
    assert("mb4"@.len() != "mouse2"@.len());
    assert("mb4"@[1] != "mmb"@[1]);
    assert("mb4"@.len() != "mouse3"@.len());
    assert("mb4"@.len() != "space"@.len());
    assert("x1"@.len() != "mouse5"@.len());
    assert("x1"@.len() != "mb5"@.len());
    assert("x1"@[1] != "x2"@[1]);
    assert("x1"@.len() != "lmb"@.len());
    assert("x1"@.len() != "mouse1"@.len());
    assert("x1"@.len() != "rmb"@.len());
    assert("x1"@.len() != "mouse2"@.len());
    assert("x1"@.len() != "mmb"@.len());
    assert("x1"@.len() != "mouse3"@.len());
    assert("x1"@.len() != "space"@.len());
    assert("mouse5"@.len() != "mb5"@.len());
    assert("mouse5"@.len() != "x2"@.len());
    assert("mouse5"@.len() != "lmb"@.len());
    assert("mouse5"@[5] != "mouse1"@[5]);
    assert("mouse5"@.len() != "rmb"@.len());
    assert("mouse5"@[5] != "mouse2"@[5]);
    assert("mouse5"@.len() != "mmb"@.len());
    assert("mouse5"@[5] != "mouse3"@[5]);
    assert("mouse5"@.len() != "space"@.len());
    assert("mb5"@.len() != "x2"@.len());
    assert("mb5"@[0] != "lmb"@[0]);
    assert("mb5"@.len() != "mouse1"@.len());
    assert("mb5"@[0] != "rmb"@[0]);
    assert("mb5"@.len() != "mouse2"@.len());
    assert("mb5"@[1] != "mmb"@[1]);
    assert("mb5"@.len() != "mouse3"@.len());
    assert("mb5"@.len() != "space"@.len());
    assert("x2"@.len() != "lmb"@.len());
    assert("x2"@.len() != "mouse1"@.len());
    assert("x2"@.len() != "rmb"@.len());
    assert("x2"@.len() != "mouse2"@.len());
    assert("x2"@.len() != "mmb"@.len());
    assert("x2"@.len() != "mouse3"@.len());
    assert("x2"@.len() != "space"@.len());
    assert("lmb"@.len() != "mouse1"@.len());
    assert("lmb"@[0] != "rmb"@[0]);
    assert("lmb"@.len() != "mouse2"@.len());
    assert("lmb"@[0] != "mmb"@[0]);
    assert("lmb"@.len() != "mouse3"@.len());
    assert("lmb"@.len() != "space"@.len());
    assert("mouse1"@.len() != "rmb"@.len());
    assert("mouse1"@[5] != "mouse2"@[5]);
    assert("mouse1"@.len() != "mmb"@.len());
    assert("mouse1"@[5] != "mouse3"@[5]);
    assert("mouse1"@.len() != "space"@.len());
    assert("rmb"@.len() != "mouse2"@.len());
    assert("rmb"@[0] != "mmb"@[0]);
    assert("rmb"@.len() != "mouse3"@.len());
    assert("rmb"@.len() != "space"@.len());
    assert("mouse2"@.len() != "mmb"@.len());
    assert("mouse2"@[5] != "mouse3"@[5]);
    assert("mouse2"@.len() != "space"@.len());
    assert("mmb"@.len() != "mouse3"@.len());
    assert("mmb"@.len() != "space"@.len());
    assert("mouse3"@.len() != "space"@.len());
}

/// Each mouse-button name, and `space`, is held with the input it names, and
/// the extra buttons' names fire on a press of those buttons.
pub proof fn law_named_inputs(b: Seq<char>, r: PressRule)
    ensures
        (b == "mouse4"@ || b == "mb4"@ || b == "x1"@) ==> hold_input_spec(b) == HoldInput::Button(
            MouseButton::Extra1,
        ),
        (b == "mouse5"@ || b == "mb5"@ || b == "x2"@) ==> hold_input_spec(b) == HoldInput::Button(
            MouseButton::Extra2,
        ),
        (b == "lmb"@ || b == "mouse1"@) ==> hold_input_spec(b) == HoldInput::Button(MouseButton::Primary),
        (b == "rmb"@ || b == "mouse2"@) ==> hold_input_spec(b) == HoldInput::Button(
            MouseButton::Secondary,
        ),
        (b == "mmb"@ || b == "mouse3"@) ==> hold_input_spec(b) == HoldInput::Button(MouseButton::Middle),
        b == "space"@ ==> hold_input_spec(b) == HoldInput::Space,
        (b == "mouse4"@ || b == "mb4"@ || b == "x1"@) && press_rule_spec(b, r) ==> r == PressRule::Button(
            MouseButton::Extra1,
        ),
        (b == "mouse5"@ || b == "mb5"@ || b == "x2"@) && press_rule_spec(b, r) ==> r == PressRule::Button(
            MouseButton::Extra2,
        ),
{
    lemma_input_names_differ();
}

/// A mouse button the recorder captured is held with that same button: the
/// first extra button, else the second, else the middle one.
pub proof fn law_captured_button_is_held(mods: Mods, extra1: bool, extra2: bool, middle: bool)
    requires
        extra1 || extra2 || middle,
    ensures
        captured_spec(mods, None, extra1, extra2, middle) matches Some(b) && hold_input_spec(b)
            == HoldInput::Button(
            if extra1 {
                MouseButton::Extra1
            } else if extra2 {
                MouseButton::Extra2
            } else {
                MouseButton::Middle
            },
        ),
{
    lemma_input_names_differ();
}

} // verus!
