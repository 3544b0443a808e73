//! The member panel beside a guild's text channel: when it shows, and the
//! names it lists, in case-insensitive order.

use vstd::prelude::*;

use crate::chat_channels::{channel_has_id, find_channel};
use crate::models::Channel;
use crate::seqs::{first_index, lemma_first_index_props};
use crate::text::{decimal, push_decimal, to_string};
use crate::types::UiState;

verus! {

/// What `str::to_lowercase` gives for a text: its Unicode lower-case mapping.
pub uninterp spec fn lower_case_of(s: Seq<char>) -> Seq<char>;

/// `str::to_lowercase`. The mapping is Unicode's and is not written out here:
/// the result is named `lower_case_of(s)`.
#[verifier::external_body]
pub(crate) fn lower_case(s: &str) -> (r: String)
    ensures
        r@ == lower_case_of(s@),
{
    s.to_lowercase()
}

/// `a` comes no later than `b` in the order of texts: character by
/// character by code point, a text before any longer text it starts.
pub open spec fn text_le(a: Seq<char>, b: Seq<char>) -> bool
    decreases a.len(),
{
    if a.len() == 0 {
        true
    } else if b.len() == 0 {
        false
    } else if (a[0] as u32) != (b[0] as u32) {
        (a[0] as u32) < (b[0] as u32)
    } else {
        text_le(a.drop_first(), b.drop_first())
    }
}

/// The entry comes after a text of key `k`.
pub open spec fn key_after(k: Seq<char>) -> spec_fn((Seq<char>, Seq<char>)) -> bool {
    |e: (Seq<char>, Seq<char>)| !text_le(e.0, k)
}

/// `x` put into `t` after every entry whose key is not greater than its own.
pub open spec fn insert_by_key(t: Seq<(Seq<char>, Seq<char>)>, x: (Seq<char>, Seq<char>)) -> Seq<
    (Seq<char>, Seq<char>),
> {
    let p = first_index(t, key_after(x.0));
    t.take(p) + seq![x] + t.skip(p)
}

/// The entries (key, name) in the order of their keys; entries with equal
/// keys keep their order.
pub open spec fn sort_by_key_spec(s: Seq<(Seq<char>, Seq<char>)>) -> Seq<(Seq<char>, Seq<char>)>
    decreases s.len(),
{
    if s.len() == 0 {
        s
    } else {
        insert_by_key(sort_by_key_spec(s.drop_last()), s.last())
    }
}

/// The names of the entries.
pub open spec fn names_of(s: Seq<(Seq<char>, Seq<char>)>) -> Seq<Seq<char>> {
    s.map_values(|e: (Seq<char>, Seq<char>)| e.1)
}

/// The nickname shown for a member entry (see `UiState::nick_for`).
pub open spec fn shown_name(ui: UiState, m: Seq<char>) -> Seq<char> {
    if ui.user_names@.dom().contains(m) {
        ui.user_names@[m]@
    } else {
        m
    }
}

/// The names of a channel's members as shown, with "you" added when no one
/// is shown under that name.
pub open spec fn with_self(ui: UiState, members: Seq<String>) -> Seq<Seq<char>> {
    let names = members.map_values(|m: String| shown_name(ui, m@));
    if names.contains("you"@) {
        names
    } else {
        names.push("you"@)
    }
}

/// The member panel's names: those of `with_self`, ordered by their lower
/// case.
pub open spec fn panel_names_spec(ui: UiState, members: Seq<String>) -> Seq<Seq<char>> {
    let names = with_self(ui, members);
    names_of(sort_by_key_spec(names.map_values(|n: Seq<char>| (lower_case_of(n), n))))
}

/// The channel whose members the panel lists: the selected channel, when a
/// guild and no conversation is open and the channel is listed as a text
/// channel.
pub open spec fn member_panel_channel_spec(ui: UiState) -> Option<Channel> {
    match ui.active_channel {
        None => None,
        Some(id) => if ui.active_guild_id is None || ui.active_dm_id is Some {
            None
        } else {
            let i = first_index(ui.channels@, channel_has_id(id@));
            if i >= ui.channels@.len() || ui.channels@[i].kind@ == "voice"@ {
                None
            } else {
                Some(ui.channels@[i])
            }
        },
    }
}

/// Whether `a` comes no later than `b` (see `text_le`).
fn texts_in_order(a: &str, b: &str) -> (r: bool)
    ensures
        r == text_le(a@, b@),
{
    let n = a.unicode_len();
    let m = b.unicode_len();
    let mut i: usize = 0;
    assert(a@.skip(0) =~= a@);
    assert(b@.skip(0) =~= b@);
    while i < n && i < m
        invariant
            n == a@.len(),
            m == b@.len(),
            i <= n,
            i <= m,
            text_le(a@, b@) == text_le(a@.skip(i as int), b@.skip(i as int)),
        decreases n - i,
    {
        let x = a.get_char(i);
        let y = b.get_char(i);
        assert(a@.skip(i as int)[0] == x);
        assert(b@.skip(i as int)[0] == y);
        if (x as u32) != (y as u32) {
            return (x as u32) < (y as u32);
        }
        assert(a@.skip(i as int).drop_first() =~= a@.skip(i + 1));
        assert(b@.skip(i as int).drop_first() =~= b@.skip(i + 1));
        i = i + 1;
    }
    i == n
}

/// The entries of a (key, name) list as texts.
pub open spec fn entry_texts(v: Seq<(String, String)>) -> Seq<(Seq<char>, Seq<char>)> {
    v.map_values(|e: (String, String)| (e.0@, e.1@))
}

/// Sorts (key, name) entries by key, keeping the order of equal keys.
fn sort_entries(v: Vec<(String, String)>) -> (r: Vec<(String, String)>)
    ensures
        entry_texts(r@) == sort_by_key_spec(entry_texts(v@)),
{
    let ghost s = entry_texts(v@);
    let mut out: Vec<(String, String)> = Vec::new();
    let mut i: usize = 0;
    assert(s.take(0) =~= Seq::<(Seq<char>, Seq<char>)>::empty());
    while i < v.len()
        invariant
            s == entry_texts(v@),
            i <= v@.len(),
            entry_texts(out@) == sort_by_key_spec(s.take(i as int)),
        decreases v@.len() - i,
    {
        let ghost t = entry_texts(out@);
        let ghost x = s[i as int];
        assert(s.take(i + 1).drop_last() =~= s.take(i as int));
        assert(s.take(i + 1).last() == x);
        assert(x == (v@[i as int].0@, v@[i as int].1@));
        let mut p: usize = 0;
        while p < out.len()
            invariant
                t == entry_texts(out@),
                x == s[i as int],
                x == (v@[i as int].0@, v@[i as int].1@),
                i < v@.len(),
                p <= out@.len(),
                forall|k: int| 0 <= k < p ==> !key_after(x.0)(#[trigger] t[k]),
            ensures
                p <= out@.len(),
                forall|k: int| 0 <= k < p ==> !key_after(x.0)(#[trigger] t[k]),
                p == out@.len() || key_after(x.0)(t[p as int]),
            decreases out@.len() - p,
        {
            if !texts_in_order(out[p].0.as_str(), v[i].0.as_str()) {
                assert(t[p as int] == (out@[p as int].0@, out@[p as int].1@));
                break;
            }
            assert(t[p as int] == (out@[p as int].0@, out@[p as int].1@));
            p = p + 1;
        }
        proof {
            crate::seqs::lemma_first_index(t, key_after(x.0), p as int);
        }
        let e = (v[i].0.clone(), v[i].1.clone());
        let ghost before = out@;
        out.insert(p, e);
        assert(entry_texts(out@) =~= t.take(p as int) + seq![x] + t.skip(p as int)) by {
            assert(out@ == before.insert(p as int, e));
            assert forall|k: int| 0 <= k < out@.len() implies entry_texts(out@)[k] == (t.take(
                p as int,
            ) + seq![x] + t.skip(p as int))[k] by {
                if k < p {
                    assert(out@[k] == before[k]);
                } else if k > p {
                    assert(out@[k] == before[k - 1]);
                }
            }
        }
        i = i + 1;
    }
    assert(s.take(v@.len() as int) =~= s);
    out
}

impl UiState {
    /// The channel the member panel lists (see `member_panel_channel_spec`).
    pub fn member_panel_channel(&self) -> (r: Option<&Channel>)
        ensures
            match r {
                Some(c) => member_panel_channel_spec(*self) == Some(*c),
                None => member_panel_channel_spec(*self) is None,
            },
    {
        let id = match &self.active_channel {
            Some(id) => id,
            None => {
                return None;
            },
        };
        if self.active_guild_id.is_none() || self.active_dm_id.is_some() {
            return None;
        }
        let i = find_channel(&self.channels, id);
        if i == self.channels.len() {
            return None;
        }
        if self.channels[i].kind.as_str().eq("voice") {
            return None;
        }
        Some(&self.channels[i])
    }

    /// The names the member panel lists for a channel's members: each as
    /// shown, "you" added when missing, in case-insensitive order.
    pub fn panel_names(&self, members: &Vec<String>) -> (r: Vec<String>)
        ensures
            r@.map_values(|n: String| n@) == panel_names_spec(*self, members@),
    {
        let ghost shown = members@.map_values(|m: String| shown_name(*self, m@));
        let mut names: Vec<String> = Vec::new();
        let mut has_you = false;
        let mut i: usize = 0;
        while i < members.len()
            invariant
                shown == members@.map_values(|m: String| shown_name(*self, m@)),
                i <= members@.len(),
                names@.map_values(|n: String| n@) == shown.take(i as int),
                has_you == shown.take(i as int).contains("you"@),
            decreases members@.len() - i,
        {
            let n = to_string(self.nick_for(members[i].as_str()));
            let ghost before = shown.take(i as int);
            assert(shown.take(i + 1) =~= before.push(n@));
            if n.as_str().eq("you") {
                has_you = true;
                assert(shown.take(i + 1)[i as int] == "you"@);
            } else if has_you {
                proof {
                    let k = choose|k: int| 0 <= k < before.len() && before[k] == "you"@;
                    assert(shown.take(i + 1)[k] == "you"@);
                }
            } else {
                assert forall|k: int| 0 <= k < i + 1 implies #[trigger] shown.take(i + 1)[k] != "you"@ by {
                    if k < i {
                        assert(shown.take(i + 1)[k] == before[k]);
                    }
                }
            }
            names.push(n);
            assert(names@.map_values(|n: String| n@) =~= shown.take(i + 1));
            i = i + 1;
        }
        assert(shown.take(members@.len() as int) =~= shown);
        if !has_you {
            names.push(to_string("you"));
            assert(names@.map_values(|n: String| n@) =~= shown.push("you"@));
        }
        let ghost listed = with_self(*self, members@);
        assert(names@.map_values(|n: String| n@) == listed);
        let mut entries: Vec<(String, String)> = Vec::new();
        let mut j: usize = 0;
        while j < names.len()
            invariant
                listed == names@.map_values(|n: String| n@),
                j <= names@.len(),
                entry_texts(entries@) == listed.take(j as int).map_values(
                    |n: Seq<char>| (lower_case_of(n), n),
                ),
            decreases names@.len() - j,
        {
            let key = lower_case(names[j].as_str());
            let ghost prev = entries@;
            entries.push((key, names[j].clone()));
            assert(listed[j as int] == names@[j as int]@);
            assert(entry_texts(entries@) =~= entry_texts(prev).push(
                (lower_case_of(listed[j as int]), listed[j as int]),
            ));
            assert(listed.take(j + 1) =~= listed.take(j as int).push(listed[j as int]));
            assert(entry_texts(entries@) =~= listed.take(j + 1).map_values(
                |n: Seq<char>| (lower_case_of(n), n),
            ));
            j = j + 1;
        }
        assert(listed.take(names@.len() as int) =~= listed);
        let sorted = sort_entries(entries);
        let mut r: Vec<String> = Vec::new();
        let mut k: usize = 0;
        while k < sorted.len()
            invariant
                k <= sorted@.len(),
                r@.map_values(|n: String| n@) == names_of(entry_texts(sorted@)).take(k as int),
            decreases sorted@.len() - k,
        {
            let ghost prev = r@;
            r.push(sorted[k].1.clone());
            assert(names_of(entry_texts(sorted@))[k as int] == sorted@[k as int].1@);
            assert(r@.map_values(|n: String| n@) =~= prev.map_values(|n: String| n@).push(
                sorted@[k as int].1@,
            ));
            assert(r@.map_values(|n: String| n@) =~= names_of(entry_texts(sorted@)).take(k + 1));
            k = k + 1;
        }
        assert(names_of(entry_texts(sorted@)).take(sorted@.len() as int) =~= names_of(
            entry_texts(sorted@),
        ));
        r
    }
}

proof fn lemma_text_le_total(a: Seq<char>, b: Seq<char>)
    ensures
        text_le(a, b) || text_le(b, a),
    decreases a.len(),
{
    if a.len() > 0 && b.len() > 0 && (a[0] as u32) == (b[0] as u32) {
        lemma_text_le_total(a.drop_first(), b.drop_first());
    }
}

proof fn lemma_text_le_trans(a: Seq<char>, b: Seq<char>, c: Seq<char>)
    requires
        text_le(a, b),
        text_le(b, c),
    ensures
        text_le(a, c),
    decreases a.len(),
{
    if a.len() > 0 && b.len() > 0 && c.len() > 0 && (a[0] as u32) == (b[0] as u32) && (b[0] as u32)
        == (c[0] as u32) {
        lemma_text_le_trans(a.drop_first(), b.drop_first(), c.drop_first());
    }
}

/// The keys of the entries never decrease.
pub open spec fn keys_in_order(t: Seq<(Seq<char>, Seq<char>)>) -> bool {
    forall|i: int, j: int| 0 <= i < j < t.len() ==> text_le(#[trigger] t[i].0, #[trigger] t[j].0)
}

proof fn lemma_insert_keeps_order(t: Seq<(Seq<char>, Seq<char>)>, x: (Seq<char>, Seq<char>))
    requires
        keys_in_order(t),
    ensures
        keys_in_order(insert_by_key(t, x)),
        insert_by_key(t, x).to_multiset() == t.to_multiset().insert(x),
{
    let p = first_index(t, key_after(x.0));
    lemma_first_index_props(t, key_after(x.0));
    let r = insert_by_key(t, x);
    assert(r =~= t.insert(p, x));
    vstd::seq_lib::to_multiset_insert(t, p, x);
    assert forall|i: int, j: int| 0 <= i < j < r.len() implies text_le(#[trigger] r[i].0, #[trigger] r[j].0) by {
        if j < p {
            assert(r[i] == t[i] && r[j] == t[j]);
        } else if j == p {
            assert(r[i] == t[i]);
            assert(!key_after(x.0)(t[i]));
        } else if i == p {
            assert(r[j] == t[j - 1]);
            assert(key_after(x.0)(t[p]));
            lemma_text_le_total(t[p].0, x.0);
            if p < j - 1 {
                lemma_text_le_trans(x.0, t[p].0, t[j - 1].0);
            }
        } else if i < p {
            assert(r[i] == t[i] && r[j] == t[j - 1]);
        } else {
            assert(r[i] == t[i - 1] && r[j] == t[j - 1]);
        }
    }
}

/// Sorting orders the keys and keeps the entries.
proof fn lemma_sort_by_key(s: Seq<(Seq<char>, Seq<char>)>)
    ensures
        keys_in_order(sort_by_key_spec(s)),
        sort_by_key_spec(s).to_multiset() == s.to_multiset(),
    decreases s.len(),
{
    if s.len() > 0 {
        lemma_sort_by_key(s.drop_last());
        lemma_insert_keeps_order(sort_by_key_spec(s.drop_last()), s.last());
        assert(s =~= s.drop_last().push(s.last()));
        s.drop_last().to_multiset_ensures();
    }
}

/// The member panel lists exactly the names of `with_self`, each as often as
/// there, ordered by their lower case.
pub proof fn law_panel_names_sorted(ui: UiState, members: Seq<String>)
    ensures
        ({
            let names = with_self(ui, members);
            let keyed = names.map_values(|n: Seq<char>| (lower_case_of(n), n));
            let sorted = sort_by_key_spec(keyed);
            &&& panel_names_spec(ui, members) == names_of(sorted)
            &&& keys_in_order(sorted)
            &&& sorted.to_multiset() == keyed.to_multiset()
            &&& forall|i: int| 0 <= i < sorted.len() ==> (#[trigger] sorted[i]).0 == lower_case_of(sorted[i].1)
        }),
{
    let names = with_self(ui, members);
    let keyed = names.map_values(|n: Seq<char>| (lower_case_of(n), n));
    lemma_sort_by_key(keyed);
    let sorted = sort_by_key_spec(keyed);
    assert forall|i: int| 0 <= i < sorted.len() implies (#[trigger] sorted[i]).0 == lower_case_of(sorted[i].1) by {
        keyed.to_multiset_ensures();
        sorted.to_multiset_ensures();
        assert(sorted.contains(sorted[i]));
        assert(sorted.to_multiset().count(sorted[i]) > 0);
        assert(keyed.contains(sorted[i]));
        let k = choose|k: int| 0 <= k < keyed.len() && keyed[k] == sorted[i];
    }
}

/// The header above a section of the member panel: the online section gives
/// its number of names, the offline section, which lists nobody, gives 0.
pub fn section_header(online: bool, count: usize) -> (r: String)
    ensures
        r@ == if online {
            "ONLINE \u{2014} "@ + decimal(count as nat)
        } else {
            "OFFLINE \u{2014} 0"@
        },
{
    if online {
        let mut s = to_string("ONLINE \u{2014} ");
        push_decimal(&mut s, count as u64);
        s
    } else {
        to_string("OFFLINE \u{2014} 0")
    }
}

} // verus!
