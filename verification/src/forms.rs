//! The checks behind the identity dialogs and the key-binding fields.

use vstd::prelude::*;
use vstd::string::StringSliceAdditionalSpecFns;

use crate::types::UiState;
use crate::text::{is_blank, is_blank_seq, push_char, push_str, to_string, trim, trim_seq};

verus! {

/// What the set-passphrase dialog shows and allows.
#[derive(Debug, Clone, Copy, PartialEq, Eq, Structural)]
pub struct PassphraseCheck {
    /// The two entries differ (shown once something is typed).
    pub mismatch: bool,
    /// The passphrase has fewer than eight bytes (shown once something is
    /// typed).
    pub too_short: bool,
    /// The passphrase may be applied.
    pub can_apply: bool,
}

/// Checks a new passphrase and its confirmation: it must be typed twice alike
/// and be at least eight bytes long.
pub fn passphrase_check(input: &str, confirm: &str) -> (c: PassphraseCheck)
    ensures
        c.mismatch == (input@.len() > 0 && input@ != confirm@),
        c.too_short == (input.spec_bytes().len() < 8 && input@.len() > 0),
        c.can_apply == (input@.len() > 0 && input@ == confirm@ && input.spec_bytes().len() >= 8),
{
    let empty = input.is_empty();
    let same = input.eq(confirm);
    let bytes = input.as_bytes().len();
    PassphraseCheck {
        mismatch: !empty && !same,
        too_short: bytes < 8 && !empty,
        can_apply: !empty && same && bytes >= 8,
    }
}

/// Whether the remove-passphrase dialog may go ahead: the user typed
/// `REMOVE`.
pub fn removal_confirmed(input: &str) -> (ok: bool)
    ensures
        ok == (input@ == "REMOVE"@),
{
    input.eq("REMOVE")
}

/// Whether the export dialog must refuse: a passphrase was typed and the
/// confirmation differs.
pub fn export_mismatch(pass: &str, confirm: &str) -> (m: bool)
    ensures
        m == (pass@.len() > 0 && pass@ != confirm@),
{
    !pass.is_empty() && !pass.eq(confirm)
}

/// The passphrase to use for a keyfile: none when the field is empty.
pub fn optional_passphrase(pass: &str) -> (r: Option<String>)
    ensures
        match r {
            Some(p) => pass@.len() > 0 && p@ == pass@,
            None => pass@.len() == 0,
        },
{
    if pass.is_empty() {
        None
    } else {
        Some(to_string(pass))
    }
}

/// Whether the import dialog has something to import: the pasted keyfile is
/// not blank.
pub fn import_ready(input: &str) -> (ok: bool)
    ensures
        ok == !is_blank_seq(input@),
{
    !is_blank(input)
}

/// The modifier keys of a key binding.
#[derive(Debug, Clone, Copy, PartialEq, Eq, Structural)]
pub struct Mods {
    pub ctrl: bool,
    pub shift: bool,
    pub alt: bool,
}

/// `s` cut at every `+`.
pub open spec fn split_plus(s: Seq<char>) -> Seq<Seq<char>>
    decreases s.len(),
{
    if s.len() == 0 {
        seq![Seq::<char>::empty()]
    } else if s.last() == '+' {
        split_plus(s.drop_last()).push(Seq::<char>::empty())
    } else {
        let p = split_plus(s.drop_last());
        p.update(p.len() - 1, p.last().push(s.last()))
    }
}

/// Some part before the last, trimmed, is one of the given names.
pub open spec fn names_modifier(parts: Seq<Seq<char>>, a: Seq<char>, b: Seq<char>) -> bool {
    exists|i: int|
        0 <= i < parts.len() - 1 && (trim_seq(#[trigger] parts[i]) == a || trim_seq(parts[i]) == b)
}

/// A binding such as `ctrl + shift + m` read as its modifiers and the name of
/// its key: the parts between `+` signs, trimmed; every part but the last may
/// name `ctrl` (or `control`), `shift` or `alt`, and other names there are
/// ignored; the last part names the key.
pub open spec fn split_combo_spec(binding: Seq<char>) -> (Mods, Seq<char>) {
    let parts = split_plus(binding);
    (
        Mods {
            ctrl: names_modifier(parts, "ctrl"@, "control"@),
            shift: names_modifier(parts, "shift"@, "shift"@),
            alt: names_modifier(parts, "alt"@, "alt"@),
        },
        trim_seq(parts.last()),
    )
}

proof fn lemma_split_plus_len(s: Seq<char>)
    ensures
        split_plus(s).len() >= 1,
    decreases s.len(),
{
    if s.len() > 0 {
        lemma_split_plus_len(s.drop_last());
    }
}

/// The parts of a binding between `+` signs.
fn split_parts(binding: &str) -> (parts: Vec<String>)
    ensures
        parts@.len() == split_plus(binding@).len(),
        forall|i: int| 0 <= i < parts@.len() ==> #[trigger] parts@[i]@ == split_plus(binding@)[i],
{
    let n = binding.unicode_len();
    let mut parts: Vec<String> = Vec::new();
    let mut cur = String::new();
    let mut i: usize = 0;
    assert(binding@.take(0) =~= Seq::<char>::empty());
    while i < n
        invariant
            n == binding@.len(),
            i <= n,
            ({
                let sp = split_plus(binding@.take(i as int));
                &&& parts@.len() + 1 == sp.len()
                &&& forall|k: int| 0 <= k < parts@.len() ==> #[trigger] parts@[k]@ == sp[k]
                &&& cur@ == sp.last()
            }),
        decreases n - i,
    {
        let c = binding.get_char(i);
        let ghost t = binding@.take(i + 1);
        assert(t.drop_last() =~= binding@.take(i as int));
        assert(t.last() == c);
        proof {
            lemma_split_plus_len(binding@.take(i as int));
        }
        if c == '+' {
            let done = cur;
            parts.push(done);
            cur = String::new();
        } else {
            push_char(&mut cur, c);
        }
        i = i + 1;
    }
    assert(binding@.take(n as int) =~= binding@);
    parts.push(cur);
    parts
}

/// Reads a key binding into its modifiers and key name (see
/// `split_combo_spec`).
pub fn split_combo(binding: &str) -> (r: (Mods, String))
    ensures
        (r.0, r.1@) == split_combo_spec(binding@),
{
    let parts = split_parts(binding);
    let ghost sp = split_plus(binding@);
    proof {
        lemma_split_plus_len(binding@);
    }
    let n = parts.len();
    let mut mods = Mods { ctrl: false, shift: false, alt: false };
    let mut i: usize = 0;
    while i + 1 < n
        invariant
            n == parts@.len(),
            n == sp.len(),
            n >= 1,
            i + 1 <= n,
            sp == split_plus(binding@),
            forall|k: int| 0 <= k < n ==> #[trigger] parts@[k]@ == sp[k],
            mods.ctrl == exists|k: int|
                0 <= k < i && (trim_seq(#[trigger] sp[k]) == "ctrl"@ || trim_seq(sp[k]) == "control"@),
            mods.shift == exists|k: int| 0 <= k < i && trim_seq(#[trigger] sp[k]) == "shift"@,
            mods.alt == exists|k: int| 0 <= k < i && trim_seq(#[trigger] sp[k]) == "alt"@,
        decreases n - i,
    {
        let p = trim(parts[i].as_str());
        assert(p@ == trim_seq(sp[i as int]));
        if p.as_str().eq("ctrl") || p.as_str().eq("control") {
            mods.ctrl = true;
        }
        if p.as_str().eq("shift") {
            mods.shift = true;
        }
        if p.as_str().eq("alt") {
            mods.alt = true;
        }
        i = i + 1;
    }
    let key = trim(parts[n - 1].as_str());
    (mods, key)
}

/// The binding text for modifiers and a key: the held modifiers in the
/// order ctrl, shift, alt, then the key's name, joined with `+`.
pub open spec fn combo_text_spec(mods: Mods, key_name: Seq<char>) -> Seq<char> {
    (if mods.ctrl {
        "ctrl+"@
    } else {
        Seq::<char>::empty()
    }) + (if mods.shift {
        "shift+"@
    } else {
        Seq::<char>::empty()
    }) + (if mods.alt {
        "alt+"@
    } else {
        Seq::<char>::empty()
    }) + key_name
}

/// The binding text for a pressed key (see `combo_text_spec`).
pub fn combo_text(mods: Mods, key_name: &str) -> (r: String)
    ensures
        r@ == combo_text_spec(mods, key_name@),
{
    let mut s = String::new();
    if mods.ctrl {
        push_str(&mut s, "ctrl+");
    }
    if mods.shift {
        push_str(&mut s, "shift+");
    }
    if mods.alt {
        push_str(&mut s, "alt+");
    }
    push_str(&mut s, key_name);
    assert(s@ =~= combo_text_spec(mods, key_name@));
    s
}

/// The names of the held modifiers, in the order ctrl, shift, alt.
pub open spec fn mod_names(mods: Mods) -> Seq<Seq<char>> {
    (if mods.ctrl {
        seq!["ctrl"@]
    } else {
        Seq::<Seq<char>>::empty()
    }) + (if mods.shift {
        seq!["shift"@]
    } else {
        Seq::<Seq<char>>::empty()
    }) + (if mods.alt {
        seq!["alt"@]
    } else {
        Seq::<Seq<char>>::empty()
    })
}

/// `s` holds no `+`.
pub open spec fn no_plus(s: Seq<char>) -> bool {
    forall|i: int| 0 <= i < s.len() ==> s[i] != '+'
}

proof fn lemma_split_plus_word(p: Seq<char>, q: Seq<char>)
    requires
        no_plus(q),
    ensures
        split_plus(p + q) == split_plus(p).update(
            split_plus(p).len() - 1,
            split_plus(p).last() + q,
        ),
    decreases q.len(),
{
    lemma_split_plus_len(p);
    let sp = split_plus(p);
    if q.len() == 0 {
        assert(p + q =~= p);
        assert(sp.last() + q =~= sp.last());
        assert(sp.update(sp.len() - 1, sp.last() + q) =~= sp);
    } else {
        let q1 = q.drop_last();
        let c = q.last();
        assert(no_plus(q1));
        lemma_split_plus_word(p, q1);
        assert((p + q).drop_last() =~= p + q1);
        assert((p + q).last() == c);
        let p2 = split_plus(p + q1);
        assert(p2.last() == sp.last() + q1);
        assert(p2.last().push(c) =~= sp.last() + q);
        assert(p2.update(p2.len() - 1, p2.last().push(c)) =~= sp.update(sp.len() - 1, sp.last() + q));
    }
}

/// Adding a word and a `+` after text cut into `ns` and an empty last part.
proof fn lemma_split_plus_step(x: Seq<char>, ns: Seq<Seq<char>>, w: Seq<char>)
    requires
        no_plus(w),
        split_plus(x) == ns.push(Seq::<char>::empty()),
    ensures
        split_plus(x + w.push('+')) == ns.push(w).push(Seq::<char>::empty()),
{
    lemma_split_plus_word(x, w);
    assert(ns.push(Seq::<char>::empty()).last() + w =~= w);
    assert(ns.push(Seq::<char>::empty()).update(ns.len() as int, w) =~= ns.push(w));
    assert((x + w.push('+')).drop_last() =~= x + w);
    assert((x + w.push('+')).last() == '+');
}

/// A binding written from modifiers and a key name is cut into the
/// modifiers' names and the key name.
proof fn lemma_combo_parts(mods: Mods, key: Seq<char>)
    requires
        no_plus(key),
    ensures
        split_plus(combo_text_spec(mods, key)) == mod_names(mods).push(key),
{
    reveal_strlit("ctrl+");
    reveal_strlit("ctrl");
    reveal_strlit("shift+");
    reveal_strlit("shift");
    reveal_strlit("alt+");
    reveal_strlit("alt");
    let e = Seq::<char>::empty();
    assert("ctrl+"@ =~= "ctrl"@.push('+'));
    assert("shift+"@ =~= "shift"@.push('+'));
    assert("alt+"@ =~= "alt"@.push('+'));
    assert(no_plus("ctrl"@));
    assert(no_plus("shift"@));
    assert(no_plus("alt"@));
    let a = if mods.ctrl {
        "ctrl+"@
    } else {
        e
    };
    let b = if mods.shift {
        "shift+"@
    } else {
        e
    };
    let c = if mods.alt {
        "alt+"@
    } else {
        e
    };
    let na = if mods.ctrl {
        seq!["ctrl"@]
    } else {
        Seq::<Seq<char>>::empty()
    };
    let nb = if mods.shift {
        seq!["shift"@]
    } else {
        Seq::<Seq<char>>::empty()
    };
    let nc = if mods.alt {
        seq!["alt"@]
    } else {
        Seq::<Seq<char>>::empty()
    };
    assert(split_plus(e) == Seq::<Seq<char>>::empty().push(e));
    if mods.ctrl {
        lemma_split_plus_step(e, Seq::<Seq<char>>::empty(), "ctrl"@);
        assert(e + "ctrl"@.push('+') =~= a);
        assert(Seq::<Seq<char>>::empty().push("ctrl"@) =~= na);
    } else {
        assert(a =~= e);
        assert(na =~= Seq::<Seq<char>>::empty());
    }
    assert(split_plus(a) == na.push(e));
    if mods.shift {
        lemma_split_plus_step(a, na, "shift"@);
        assert(a + "shift"@.push('+') =~= a + b);
        assert(na.push("shift"@) =~= na + nb);
    } else {
        assert(a + b =~= a);
        assert(na + nb =~= na);
    }
    assert(split_plus(a + b) == (na + nb).push(e));
    if mods.alt {
        lemma_split_plus_step(a + b, na + nb, "alt"@);
        assert((a + b) + "alt"@.push('+') =~= (a + b) + c);
        assert((na + nb).push("alt"@) =~= (na + nb) + nc);
    } else {
        assert((a + b) + c =~= a + b);
        assert((na + nb) + nc =~= na + nb);
    }
    assert(split_plus((a + b) + c) == ((na + nb) + nc).push(e));
    lemma_split_plus_word((a + b) + c, key);
    assert(((na + nb) + nc).push(e).last() + key =~= key);
    assert(((na + nb) + nc).push(e).update(((na + nb) + nc).len() as int, key) =~= ((na + nb)
        + nc).push(key));
    assert(combo_text_spec(mods, key) == ((a + b) + c) + key);
    assert(mod_names(mods) == (na + nb) + nc);
}

/// A binding written from modifiers and a key name reads back as the same
/// modifiers and key name, when the key name holds no `+` and no white space
/// at either end.
pub proof fn law_combo_round_trip(mods: Mods, key: Seq<char>)
    requires
        no_plus(key),
        trim_seq(key) == key,
    ensures
        split_combo_spec(combo_text_spec(mods, key)) == (mods, key),
{
    lemma_combo_parts(mods, key);
    reveal_strlit("ctrl");
    reveal_strlit("control");
    reveal_strlit("shift");
    reveal_strlit("alt");
    let parts = mod_names(mods).push(key);
    let ns = mod_names(mods);
    assert(trim_seq("ctrl"@) == "ctrl"@) by {
        reveal_with_fuel(crate::text::trim_start_seq, 2);
        reveal_with_fuel(crate::text::trim_end_seq, 2);
    }
    assert(trim_seq("shift"@) == "shift"@) by {
        reveal_with_fuel(crate::text::trim_start_seq, 2);
        reveal_with_fuel(crate::text::trim_end_seq, 2);
    }
    assert(trim_seq("alt"@) == "alt"@) by {
        reveal_with_fuel(crate::text::trim_start_seq, 2);
        reveal_with_fuel(crate::text::trim_end_seq, 2);
    }
    assert forall|i: int| 0 <= i < ns.len() implies #[trigger] trim_seq(ns[i]) == ns[i] && (ns[i]
        == "ctrl"@ || ns[i] == "shift"@ || ns[i] == "alt"@) by {}
    assert(names_modifier(parts, "ctrl"@, "control"@) == mods.ctrl) by {
        if mods.ctrl {
            assert(parts[0] == "ctrl"@);
            assert(trim_seq(parts[0]) == "ctrl"@);
        } else {
            assert forall|i: int| 0 <= i < parts.len() - 1 implies !(trim_seq(#[trigger] parts[i])
                == "ctrl"@ || trim_seq(parts[i]) == "control"@) by {
                assert(parts[i] == ns[i]);
            }
        }
    }
    assert(names_modifier(parts, "shift"@, "shift"@) == mods.shift) by {
        if mods.shift {
            let k = if mods.ctrl {
                1int
            } else {
                0int
            };
            assert(parts[k] == "shift"@);
            assert(trim_seq(parts[k]) == "shift"@);
        } else {
            assert forall|i: int| 0 <= i < parts.len() - 1 implies !(trim_seq(#[trigger] parts[i])
                == "shift"@ || trim_seq(parts[i]) == "shift"@) by {
                assert(parts[i] == ns[i]);
            }
        }
    }
    assert(names_modifier(parts, "alt"@, "alt"@) == mods.alt) by {
        if mods.alt {
            let k = ns.len() - 1;
            assert(parts[k] == "alt"@);
            assert(trim_seq(parts[k]) == "alt"@);
        } else {
            assert forall|i: int| 0 <= i < parts.len() - 1 implies !(trim_seq(#[trigger] parts[i])
                == "alt"@ || trim_seq(parts[i]) == "alt"@) by {
                assert(parts[i] == ns[i]);
            }
        }
    }
    assert(parts.last() == key);
}

impl UiState {
    /// Opens the set-passphrase dialog with empty fields and no error.
    pub fn open_passphrase_dialog(&mut self)
        ensures
            final(self).settings_passphrase_input@.len() == 0,
            final(self).settings_passphrase_confirm@.len() == 0,
            *final(self) == (UiState {
                settings_passphrase_open: true,
                settings_passphrase_input: final(self).settings_passphrase_input,
                settings_passphrase_confirm: final(self).settings_passphrase_confirm,
                settings_passphrase_error: None,
                ..*old(self)
            }),
    {
        self.settings_passphrase_open = true;
        self.settings_passphrase_input = String::new();
        self.settings_passphrase_confirm = String::new();
        self.settings_passphrase_error = None;
    }

    /// Opens the export dialog with empty fields, no output and no error.
    pub fn open_export_dialog(&mut self)
        ensures
            final(self).settings_export_pass@.len() == 0,
            final(self).settings_export_confirm@.len() == 0,
            *final(self) == (UiState {
                settings_export_open: true,
                settings_export_pass: final(self).settings_export_pass,
                settings_export_confirm: final(self).settings_export_confirm,
                settings_export_output: None,
                settings_export_error: None,
                ..*old(self)
            }),
    {
        self.settings_export_open = true;
        self.settings_export_pass = String::new();
        self.settings_export_confirm = String::new();
        self.settings_export_output = None;
        self.settings_export_error = None;
    }

    /// Opens the import dialog with empty fields and no error.
    pub fn open_import_dialog(&mut self)
        ensures
            final(self).settings_import_input@.len() == 0,
            final(self).settings_import_pass@.len() == 0,
            *final(self) == (UiState {
                settings_import_open: true,
                settings_import_input: final(self).settings_import_input,
                settings_import_pass: final(self).settings_import_pass,
                settings_import_error: None,
                ..*old(self)
            }),
    {
        self.settings_import_open = true;
        self.settings_import_input = String::new();
        self.settings_import_pass = String::new();
        self.settings_import_error = None;
    }

    /// The identity was saved with the new passphrase (`Ok`) or not (`Err`
    /// with the reason): on success the dialog closes and its fields clear;
    /// otherwise it shows "save failed: " and the reason.
    pub fn passphrase_saved(&mut self, result: Result<(), String>)
        ensures
            match result {
                Ok(()) => {
                    &&& final(self).settings_passphrase_input@.len() == 0
                    &&& final(self).settings_passphrase_confirm@.len() == 0
                    &&& *final(self) == (UiState {
                        settings_passphrase_open: false,
                        settings_passphrase_input: final(self).settings_passphrase_input,
                        settings_passphrase_confirm: final(self).settings_passphrase_confirm,
                        ..*old(self)
                    })
                },
                Err(e) => {
                    &&& final(self).settings_passphrase_error matches Some(m) && m@ == "save failed: "@
                        + e@
                    &&& *final(self) == (UiState {
                        settings_passphrase_error: final(self).settings_passphrase_error,
                        ..*old(self)
                    })
                },
            },
    {
        match result {
            Ok(()) => {
                self.settings_passphrase_open = false;
                self.settings_passphrase_input = String::new();
                self.settings_passphrase_confirm = String::new();
            },
            Err(e) => {
                let mut m = to_string("save failed: ");
                push_str(&mut m, e.as_str());
                self.settings_passphrase_error = Some(m);
            },
        }
    }

    /// The keyfile export produced its text (`Ok`) or failed (`Err` with the
    /// reason, shown after "export failed: ").
    pub fn export_finished(&mut self, result: Result<String, String>)
        ensures
            match result {
                Ok(text) => *final(self) == (UiState {
                    settings_export_output: Some(text),
                    ..*old(self)
                }),
                Err(e) => {
                    &&& final(self).settings_export_error matches Some(m) && m@ == "export failed: "@
                        + e@
                    &&& *final(self) == (UiState {
                        settings_export_error: final(self).settings_export_error,
                        ..*old(self)
                    })
                },
            },
    {
        match result {
            Ok(text) => {
                self.settings_export_output = Some(text);
            },
            Err(e) => {
                let mut m = to_string("export failed: ");
                push_str(&mut m, e.as_str());
                self.settings_export_error = Some(m);
            },
        }
    }

    /// The outcome of importing a keyfile: whether it could be read (`Err`
    /// with the reason otherwise) and, when it could, whether the identity was
    /// saved. The dialog's message says which.
    pub fn import_finished(&mut self, read: Result<(), String>, saved: Result<(), String>)
        ensures
            final(self).settings_import_error matches Some(m) && m@ == match read {
                Err(e) => "import failed: "@ + e@,
                Ok(()) => match saved {
                    Ok(()) => "imported \u{2014} restart VNOX to use the new identity"@,
                    Err(e) => "save failed: "@ + e@,
                },
            },
            *final(self) == (UiState {
                settings_import_error: final(self).settings_import_error,
                ..*old(self)
            }),
    {
        let m = match read {
            Err(e) => {
                let mut m = to_string("import failed: ");
                push_str(&mut m, e.as_str());
                m
            },
            Ok(()) => match saved {
                Ok(()) => to_string("imported \u{2014} restart VNOX to use the new identity"),
                Err(e) => {
                    let mut m = to_string("save failed: ");
                    push_str(&mut m, e.as_str());
                    m
                },
            },
        };
        self.settings_import_error = Some(m);
    }
}

} // verus!
