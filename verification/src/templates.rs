//! Build/equipment template data as the game's account API reports it, the
//! mapping from template slots to key controls, and the title formatting the
//! deck keys display.

use vstd::prelude::*;

use crate::key_control::KeyControl;

verus! {

/// A build template's display name.
#[derive(Debug, Clone)]
pub struct Build {
    pub name: Option<String>,
}

/// One build-template tab of a character.
#[derive(Debug, Clone)]
pub struct BuildTab {
    /// 1-based slot number.
    pub tab_index: u8,
    pub is_active: bool,
    pub build: Build,
}

/// One equipment-template tab of a character.
#[derive(Debug, Clone)]
pub struct EquipmentTab {
    /// 1-based slot number.
    pub tab_index: u8,
    pub name: Option<String>,
    pub is_active: bool,
}

/// A character's template tabs.
#[derive(Debug, Clone)]
pub struct CharacterData {
    pub name: String,
    pub build_tabs: Vec<BuildTab>,
    pub equipment_tabs: Vec<EquipmentTab>,
}

/// Per-slot display names, 1-based slots stored at index `slot - 1`.
#[derive(Debug, Clone)]
pub struct TemplateNames {
    pub build: [Option<String>; 9],
    pub equipment: [Option<String>; 9],
}

/// A character as the account roster lists it.
#[derive(Debug, Clone)]
pub struct Gw2Character {
    pub name: String,
}

/// How the set of known characters changed.
#[derive(Debug, Clone, Copy, PartialEq, Eq, Structural)]
pub enum CharacterChange {
    /// Character was added.
    Added,
    /// Character was removed.
    Removed,
}

// ---------- Slot-to-control mapping ----------

pub open spec fn spec_build_slot_to_control(n: u8) -> Option<KeyControl> {
    match n {
        1u8 => Some(KeyControl::TemplatesBuildTemplate1),
        2u8 => Some(KeyControl::TemplatesBuildTemplate2),
        3u8 => Some(KeyControl::TemplatesBuildTemplate3),
        4u8 => Some(KeyControl::TemplatesBuildTemplate4),
        5u8 => Some(KeyControl::TemplatesBuildTemplate5),
        6u8 => Some(KeyControl::TemplatesBuildTemplate6),
        7u8 => Some(KeyControl::TemplatesBuildTemplate7),
        8u8 => Some(KeyControl::TemplatesBuildTemplate8),
        9u8 => Some(KeyControl::TemplatesBuildTemplate9),
        _ => None,
    }
}

pub open spec fn spec_equipment_slot_to_control(n: u8) -> Option<KeyControl> {
    match n {
        1u8 => Some(KeyControl::TemplatesEquipmentTemplate1),
        2u8 => Some(KeyControl::TemplatesEquipmentTemplate2),
        3u8 => Some(KeyControl::TemplatesEquipmentTemplate3),
        4u8 => Some(KeyControl::TemplatesEquipmentTemplate4),
        5u8 => Some(KeyControl::TemplatesEquipmentTemplate5),
        6u8 => Some(KeyControl::TemplatesEquipmentTemplate6),
        7u8 => Some(KeyControl::TemplatesEquipmentTemplate7),
        8u8 => Some(KeyControl::TemplatesEquipmentTemplate8),
        9u8 => Some(KeyControl::TemplatesEquipmentTemplate9),
        _ => None,
    }
}

/// The key control that switches to build-template slot `n` (1 through 9).
pub fn build_slot_to_control(n: u8) -> (r: Option<KeyControl>)
    ensures
        r == spec_build_slot_to_control(n),
{
    match n {
        1u8 => Some(KeyControl::TemplatesBuildTemplate1),
        2u8 => Some(KeyControl::TemplatesBuildTemplate2),
        3u8 => Some(KeyControl::TemplatesBuildTemplate3),
        4u8 => Some(KeyControl::TemplatesBuildTemplate4),
        5u8 => Some(KeyControl::TemplatesBuildTemplate5),
        6u8 => Some(KeyControl::TemplatesBuildTemplate6),
        7u8 => Some(KeyControl::TemplatesBuildTemplate7),
        8u8 => Some(KeyControl::TemplatesBuildTemplate8),
        9u8 => Some(KeyControl::TemplatesBuildTemplate9),
        _ => None,
    }
}

/// The key control that switches to equipment-template slot `n` (1 through 9).
pub fn equipment_slot_to_control(n: u8) -> (r: Option<KeyControl>)
    ensures
        r == spec_equipment_slot_to_control(n),
{
    match n {
        1u8 => Some(KeyControl::TemplatesEquipmentTemplate1),
        2u8 => Some(KeyControl::TemplatesEquipmentTemplate2),
        3u8 => Some(KeyControl::TemplatesEquipmentTemplate3),
        4u8 => Some(KeyControl::TemplatesEquipmentTemplate4),
        5u8 => Some(KeyControl::TemplatesEquipmentTemplate5),
        6u8 => Some(KeyControl::TemplatesEquipmentTemplate6),
        7u8 => Some(KeyControl::TemplatesEquipmentTemplate7),
        8u8 => Some(KeyControl::TemplatesEquipmentTemplate8),
        9u8 => Some(KeyControl::TemplatesEquipmentTemplate9),
        _ => None,
    }
}

/// The template kind named by a settings payload.
pub open spec fn build_kind_chars() -> Seq<char> {
    seq!['b', 'u', 'i', 'l', 'd']
}

pub open spec fn equipment_kind_chars() -> Seq<char> {
    seq!['e', 'q', 'u', 'i', 'p', 'm', 'e', 'n', 't']
}

pub open spec fn spec_resolve_key_control(kind: Seq<char>, index: u8) -> Option<KeyControl> {
    if !(1 <= index <= 9) {
        None
    } else if kind == build_kind_chars() {
        spec_build_slot_to_control(index)
    } else if kind == equipment_kind_chars() {
        spec_equipment_slot_to_control(index)
    } else {
        None
    }
}

/// Whether two strings hold the same characters (compared one at a time).
pub fn str_chars_eq(s: &str, probe: &str) -> (r: bool)
    ensures
        r == (s@ == probe@),
{
    let n = s.unicode_len();
    let m = probe.unicode_len();
    if n != m {
        return false;
    }
    let mut i: usize = 0;
    while i < n
        invariant
            n == s@.len() == probe@.len(),
            0 <= i <= n,
            forall|j: int| 0 <= j < i ==> s@[j] == probe@[j],
        decreases n - i,
    {
        if s.get_char(i) != probe.get_char(i) {
            return false;
        }
        i = i + 1;
    }
    proof {
        assert(s@ =~= probe@);
    }
    true
}

/// Resolve a settings payload's template kind (`build` or `equipment`) and
/// 1-based slot index to the key control that activates the slot.
pub fn resolve_key_control(template_type: &str, index: u8) -> (r: Option<KeyControl>)
    ensures
        r == spec_resolve_key_control(template_type@, index),
{
    if index < 1 || index > 9 {
        return None;
    }
    let ghost bk = build_kind_chars();
    let ghost ek = equipment_kind_chars();
    proof {
        reveal_strlit("build");
        reveal_strlit("equipment");
        assert("build"@ =~= bk);
        assert("equipment"@ =~= ek);
    }
    if str_chars_eq(template_type, "build") {
        build_slot_to_control(index)
    } else if str_chars_eq(template_type, "equipment") {
        equipment_slot_to_control(index)
    } else {
        None
    }
}

// ---------- Template-name extraction ----------

/// Every character of the string is ASCII whitespace.
pub open spec fn spec_is_blank(s: Seq<char>) -> bool {
    forall|i: int| 0 <= i < s.len() ==> is_wsc(#[trigger] s[i])
}

/// ASCII whitespace, as word splitting and blank detection use it.
pub open spec fn is_wsc(c: char) -> bool {
    c == ' ' || c == '\t' || c == '\n' || c == '\r' || c == '\u{b}' || c == '\u{c}'
}

/// Whether the string holds only whitespace (or nothing).
pub fn is_blank(s: &str) -> (r: bool)
    ensures
        r == spec_is_blank(s@),
{
    let n = s.unicode_len();
    let mut i: usize = 0;
    while i < n
        invariant
            n == s@.len(),
            0 <= i <= n,
            forall|j: int| 0 <= j < i ==> is_wsc(#[trigger] s@[j]),
        decreases n - i,
    {
        let c = s.get_char(i);
        if !(c == ' ' || c == '\t' || c == '\n' || c == '\r' || c == '\u{b}' || c == '\u{c}') {
            return false;
        }
        i = i + 1;
    }
    true
}

/// The per-slot template names a character's tabs define: slots 1 through 9,
/// a slot's name dropped when it is missing or blank; later tabs override
/// earlier ones for the same slot.
pub open spec fn spec_slot_names<T>(
    tabs: Seq<T>,
    slot_of: spec_fn(T) -> u8,
    name_of: spec_fn(T) -> Option<Seq<char>>,
) -> Seq<Option<Seq<char>>>
    decreases tabs.len(),
{
    if tabs.len() == 0 {
        Seq::new(9, |i: int| None)
    } else {
        let prev = spec_slot_names(tabs.drop_last(), slot_of, name_of);
        let t = tabs.last();
        let slot = slot_of(t);
        if 1 <= slot <= 9 {
            let entry = match name_of(t) {
                Some(n) => if n.len() > 0 && !spec_is_blank(n) {
                    Some(n)
                } else {
                    None
                },
                None => None,
            };
            prev.update(slot - 1, entry)
        } else {
            prev
        }
    }
}

pub open spec fn sel_build_slot() -> spec_fn(BuildTab) -> u8 {
    |t: BuildTab| t.tab_index
}

pub open spec fn sel_build_name() -> spec_fn(BuildTab) -> Option<Seq<char>> {
    |t: BuildTab|
        match t.build.name {
            Some(n) => Some(n@),
            None => None,
        }
}

pub open spec fn sel_equip_slot() -> spec_fn(EquipmentTab) -> u8 {
    |t: EquipmentTab| t.tab_index
}

pub open spec fn sel_equip_name() -> spec_fn(EquipmentTab) -> Option<Seq<char>> {
    |t: EquipmentTab|
        match t.name {
            Some(n) => Some(n@),
            None => None,
        }
}

/// The name sequence a `TemplateNames` array denotes.
pub open spec fn names_view(a: [Option<String>; 9]) -> Seq<Option<Seq<char>>> {
    Seq::new(9, |i: int| match a[i] {
        Some(n) => Some(n@),
        None => None,
    })
}

/// Collect the per-slot display names of a character's build and equipment
/// tabs; missing or blank names leave their slot empty.
pub fn into_template_names(c: &CharacterData) -> (r: TemplateNames)
    ensures
        names_view(r.build) == spec_slot_names(c.build_tabs@, sel_build_slot(), sel_build_name()),
        names_view(r.equipment) == spec_slot_names(
            c.equipment_tabs@,
            sel_equip_slot(),
            sel_equip_name(),
        ),
{
    let mut build: [Option<String>; 9] = [None, None, None, None, None, None, None, None, None];
    let mut equipment: [Option<String>; 9] = [
        None,
        None,
        None,
        None,
        None,
        None,
        None,
        None,
        None,
    ];
    proof {
        assert(names_view(build) =~= spec_slot_names(
            c.build_tabs@.take(0),
            sel_build_slot(),
            sel_build_name(),
        ));
        assert(names_view(equipment) =~= spec_slot_names(
            c.equipment_tabs@.take(0),
            sel_equip_slot(),
            sel_equip_name(),
        ));
    }

    let mut i: usize = 0;
    let n = c.build_tabs.len();
    while i < n
        invariant
            n == c.build_tabs@.len(),
            0 <= i <= n,
            names_view(build) == spec_slot_names(
                c.build_tabs@.take(i as int),
                sel_build_slot(),
                sel_build_name(),
            ),
        decreases n - i,
    {
        let ghost pre = names_view(build);
        let tab = &c.build_tabs[i];
        proof {
            assert(c.build_tabs@.take(i as int + 1).drop_last() =~= c.build_tabs@.take(i as int));
            assert(c.build_tabs@.take(i as int + 1).last() == c.build_tabs@[i as int]);
        }
        if 1 <= tab.tab_index && tab.tab_index <= 9 {
            let idx = (tab.tab_index - 1) as usize;
            let entry: Option<String> = match &tab.build.name {
                Some(nm) => {
                    if nm.as_str().unicode_len() > 0 && !is_blank(nm.as_str()) {
                        Some(nm.clone())
                    } else {
                        None
                    }
                },
                None => None,
            };
            build[idx] = entry;
            proof {
                assert(names_view(build) =~= pre.update(idx as int, match c.build_tabs@[i as int].build.name {
                    Some(nm) => if nm@.len() > 0 && !spec_is_blank(nm@) {
                        Some(nm@)
                    } else {
                        None
                    },
                    None => None,
                }));
            }
        }
        i = i + 1;
    }
    proof {
        assert(c.build_tabs@.take(n as int) =~= c.build_tabs@);
    }

    let mut j: usize = 0;
    let m = c.equipment_tabs.len();
    while j < m
        invariant
            m == c.equipment_tabs@.len(),
            0 <= j <= m,
            names_view(equipment) == spec_slot_names(
                c.equipment_tabs@.take(j as int),
                sel_equip_slot(),
                sel_equip_name(),
            ),
        decreases m - j,
    {
        let ghost pre = names_view(equipment);
        let tab = &c.equipment_tabs[j];
        proof {
            assert(c.equipment_tabs@.take(j as int + 1).drop_last() =~= c.equipment_tabs@.take(
                j as int,
            ));
            assert(c.equipment_tabs@.take(j as int + 1).last() == c.equipment_tabs@[j as int]);
        }
        if 1 <= tab.tab_index && tab.tab_index <= 9 {
            let idx = (tab.tab_index - 1) as usize;
            let entry: Option<String> = match &tab.name {
                Some(nm) => {
                    if nm.as_str().unicode_len() > 0 && !is_blank(nm.as_str()) {
                        Some(nm.clone())
                    } else {
                        None
                    }
                },
                None => None,
            };
            equipment[idx] = entry;
            proof {
                assert(names_view(equipment) =~= pre.update(idx as int, match c.equipment_tabs@[j as int].name {
                    Some(nm) => if nm@.len() > 0 && !spec_is_blank(nm@) {
                        Some(nm@)
                    } else {
                        None
                    },
                    None => None,
                }));
            }
        }
        j = j + 1;
    }
    proof {
        assert(c.equipment_tabs@.take(m as int) =~= c.equipment_tabs@);
    }

    TemplateNames { build, equipment }
}


// ---------- Title wrapping ----------

/// The index of the first whitespace character at or after `i` (or the
/// string's end).
pub open spec fn word_end(s: Seq<char>, i: int) -> int
    decreases s.len() - i,
{
    if i < 0 {
        0
    } else if i >= s.len() || is_wsc(s[i]) {
        i
    } else {
        let e = word_end(s, i + 1);
        if e >= i + 1 {
            e
        } else {
            i + 1
        }
    }
}

/// The whitespace-separated words of `s`, scanning from position `i`.
pub open spec fn words_from(s: Seq<char>, i: int) -> Seq<Seq<char>>
    decreases s.len() - i,
{
    if i < 0 || i >= s.len() {
        Seq::empty()
    } else if is_wsc(s[i]) {
        words_from(s, i + 1)
    } else {
        let e = word_end(s, i + 1);
        let e2 = if i + 1 <= e <= s.len() {
            e
        } else {
            i + 1
        };
        seq![s.subrange(i, e2)] + words_from(s, e2)
    }
}

/// Greedy line filling: a word opens a new line when appending it (plus one
/// separator) would push the current line past `max`; within a line words
/// are joined by single spaces, lines by newlines.
pub open spec fn wrap_join(words: Seq<Seq<char>>, i: int, out: Seq<char>, cur: int, max: int)
    -> Seq<char>
    decreases words.len() - i,
{
    if 0 <= i < words.len() {
        let w = words[i];
        if cur > 0 && cur + 1 + w.len() > max {
            wrap_join(words, i + 1, out + seq!['\n'] + w, w.len() as int, max)
        } else if cur > 0 {
            wrap_join(words, i + 1, out + seq![' '] + w, cur + 1 + w.len(), max)
        } else {
            wrap_join(words, i + 1, out + w, cur + w.len(), max)
        }
    } else {
        out
    }
}

/// What `wrap_title` produces: the input's words re-joined greedily into
/// lines of at most `max` characters (single over-long words excepted).
pub open spec fn spec_wrap_title(s: Seq<char>, max: int) -> Seq<char> {
    wrap_join(words_from(s, 0), 0, Seq::empty(), 0, max)
}

/// Dropping the first word shifts the scan index.
proof fn lemma_wrap_join_shift(words: Seq<Seq<char>>, i: int, out: Seq<char>, cur: int, max: int)
    requires
        i >= 1,
        words.len() >= 1,
    ensures
        wrap_join(words, i, out, cur, max) == wrap_join(words.drop_first(), i - 1, out, cur, max),
    decreases words.len() - i,
{
    if 0 <= i < words.len() {
        let w = words[i];
        assert(words.drop_first()[i - 1] == w);
        if cur > 0 && cur + 1 + w.len() > max {
            lemma_wrap_join_shift(words, i + 1, out + seq!['\n'] + w, w.len() as int, max);
        } else if cur > 0 {
            lemma_wrap_join_shift(words, i + 1, out + seq![' '] + w, cur + 1 + w.len(), max);
        } else {
            lemma_wrap_join_shift(words, i + 1, out + w, cur + w.len(), max);
        }
    }
}

/// A scan that saw no whitespace in `[i, e)` and stopped at whitespace or
/// the end has found `word_end`.
proof fn lemma_word_end_at(s: Seq<char>, i: int, e: int)
    requires
        0 <= i <= e <= s.len(),
        forall|j: int| i <= j < e ==> !is_wsc(#[trigger] s[j]),
        e == s.len() || is_wsc(s[e]),
    ensures
        word_end(s, i) == e,
    decreases e - i,
{
    if i < e {
        lemma_word_end_at(s, i + 1, e);
    }
}

/// Re-wrap a title into lines of at most `max_len` characters, breaking at
/// whitespace; runs of whitespace collapse to single separators.
pub fn wrap_title(title: &str, max_len: usize) -> (r: String)
    requires
        title@.len() < 100_000_000,
    ensures
        r@ == spec_wrap_title(title@, max_len as int),
{
    let ghost s = title@;
    let n = title.unicode_len();
    let mut out = String::new();
    let mut cur_len: usize = 0;
    let mut i: usize = 0;
    while i < n
        invariant
            s == title@,
            n == s.len() < 100_000_000,
            0 <= i <= n,
            cur_len <= 2 * i,
            spec_wrap_title(s, max_len as int) == wrap_join(
                words_from(s, i as int),
                0,
                out@,
                cur_len as int,
                max_len as int,
            ),
        decreases n - i,
    {
        let c = title.get_char(i);
        if c == ' ' || c == '\t' || c == '\n' || c == '\r' || c == '\u{b}' || c == '\u{c}' {
            i = i + 1;
        } else {
            let mut e: usize = i + 1;
            while e < n && !is_wsc_exec(title.get_char(e))
                invariant
                    s == title@,
                    n == s.len(),
                    i < e <= n,
                    forall|j: int| i + 1 <= j < e ==> !is_wsc(#[trigger] s[j]),
                decreases n - e,
            {
                e = e + 1;
            }
            proof {
                lemma_word_end_at(s, i as int + 1, e as int);
            }
            let w = title.substring_char(i, e);
            let wlen = e - i;
            let ghost rest = words_from(s, i as int);
            proof {
                assert(rest == seq![s.subrange(i as int, e as int)] + words_from(s, e as int));
                assert(rest[0] == w@);
            }
            if cur_len > 0 && cur_len + 1 + wlen > max_len {
                out.append("\n");
                proof {
                    reveal_strlit("\n");
                    assert("\n"@ =~= seq!['\n']);
                }
                out.append(w);
                cur_len = wlen;
            } else if cur_len > 0 {
                out.append(" ");
                proof {
                    reveal_strlit(" ");
                    assert(" "@ =~= seq![' ']);
                }
                out.append(w);
                cur_len = cur_len + 1 + wlen;
            } else {
                out.append(w);
                cur_len = cur_len + wlen;
            }
            proof {
                lemma_wrap_join_shift(
                    rest,
                    1,
                    out@,
                    cur_len as int,
                    max_len as int,
                );
                assert(rest.drop_first() =~= words_from(s, e as int));
            }
            i = e;
        }
    }
    out
}

/// Executable form of the whitespace test.
fn is_wsc_exec(c: char) -> (r: bool)
    ensures
        r == is_wsc(c),
{
    c == ' ' || c == '\t' || c == '\n' || c == '\r' || c == '\u{b}' || c == '\u{c}'
}


// ---------- Deck-key titles ----------

/// The decimal digit character for a slot number 1 through 9.
pub open spec fn digit_char(d: u8) -> char {
    if d == 1 {
        '1'
    } else if d == 2 {
        '2'
    } else if d == 3 {
        '3'
    } else if d == 4 {
        '4'
    } else if d == 5 {
        '5'
    } else if d == 6 {
        '6'
    } else if d == 7 {
        '7'
    } else if d == 8 {
        '8'
    } else {
        '9'
    }
}

/// Append the digit character of a slot number to a string.
fn push_digit(out: &mut String, d: u8)
    requires
        1 <= d <= 9,
    ensures
        final(out)@ == old(out)@ + seq![digit_char(d)],
{
    if d == 1 {
        out.append("1");
        proof {
            reveal_strlit("1");
            assert("1"@ =~= seq!['1']);
        }
    } else if d == 2 {
        out.append("2");
        proof {
            reveal_strlit("2");
            assert("2"@ =~= seq!['2']);
        }
    } else if d == 3 {
        out.append("3");
        proof {
            reveal_strlit("3");
            assert("3"@ =~= seq!['3']);
        }
    } else if d == 4 {
        out.append("4");
        proof {
            reveal_strlit("4");
            assert("4"@ =~= seq!['4']);
        }
    } else if d == 5 {
        out.append("5");
        proof {
            reveal_strlit("5");
            assert("5"@ =~= seq!['5']);
        }
    } else if d == 6 {
        out.append("6");
        proof {
            reveal_strlit("6");
            assert("6"@ =~= seq!['6']);
        }
    } else if d == 7 {
        out.append("7");
        proof {
            reveal_strlit("7");
            assert("7"@ =~= seq!['7']);
        }
    } else if d == 8 {
        out.append("8");
        proof {
            reveal_strlit("8");
            assert("8"@ =~= seq!['8']);
        }
    } else {
        out.append("9");
        proof {
            reveal_strlit("9");
            assert("9"@ =~= seq!['9']);
        }
    }
}

/// Maximum characters per title line on a deck key.
pub const TITLE_WRAP_LEN: usize = 10;

pub open spec fn build_fallback_chars(bi: u8) -> Seq<char> {
    seq!['B', 'u', 'i', 'l', 'd', ' ', 'T', 'e', 'm', 'p', 'l', 'a', 't', 'e', ' '].push(
        digit_char(bi),
    )
}

pub open spec fn equipment_fallback_chars(ei: u8) -> Seq<char> {
    seq!['E', 'q', 'u', 'i', 'p', 'm', 'e', 'n', 't', ' ', 'T', 'e', 'm', 'p', 'l', 'a', 't', 'e', ' '].push(
        digit_char(ei),
    )
}

pub open spec fn unknown_template_chars() -> Seq<char> {
    seq!['U', 'n', 'k', 'n', 'o', 'w', 'n', '\n', 'T', 'e', 'm', 'p', 'l', 'a', 't', 'e']
}

/// The wrapped title contributed by a selected build slot, when the
/// character has such a tab: the tab's name, or a fallback naming the slot.
pub open spec fn spec_build_part(tabs: Seq<BuildTab>, bi: u8) -> Option<Seq<char>> {
    if 1 <= bi && bi - 1 < tabs.len() {
        let raw = match tabs[bi - 1].build.name {
            Some(n) => if n@.len() > 0 {
                n@
            } else {
                build_fallback_chars(bi)
            },
            None => build_fallback_chars(bi),
        };
        Some(spec_wrap_title(raw, TITLE_WRAP_LEN as int))
    } else {
        None
    }
}

pub open spec fn spec_equipment_part(tabs: Seq<EquipmentTab>, ei: u8) -> Option<Seq<char>> {
    if 1 <= ei && ei - 1 < tabs.len() {
        let raw = match tabs[ei - 1].name {
            Some(n) => if n@.len() > 0 {
                n@
            } else {
                equipment_fallback_chars(ei)
            },
            None => equipment_fallback_chars(ei),
        };
        Some(spec_wrap_title(raw, TITLE_WRAP_LEN as int))
    } else {
        None
    }
}

/// What `build_title_for_indices` produces: the wrapped build and equipment
/// parts joined by a newline, or a placeholder when neither applies.
pub open spec fn spec_title_for_indices(
    c: CharacterData,
    build_index: Option<u8>,
    equipment_index: Option<u8>,
) -> Seq<char> {
    let bp = match build_index {
        Some(bi) => spec_build_part(c.build_tabs@, bi),
        None => None,
    };
    let ep = match equipment_index {
        Some(ei) => spec_equipment_part(c.equipment_tabs@, ei),
        None => None,
    };
    match (bp, ep) {
        (Some(b), Some(e)) => b + seq!['\n'] + e,
        (Some(b), None) => b,
        (None, Some(e)) => e,
        (None, None) => unknown_template_chars(),
    }
}

/// Compose a deck-key title from a character's template tabs and the key's
/// selected build/equipment slots.
pub fn build_title_for_indices(
    character: &CharacterData,
    build_index: Option<u8>,
    equipment_index: Option<u8>,
) -> (r: String)
    requires
        build_index matches Some(bi) ==> 1 <= bi <= 9,
        equipment_index matches Some(ei) ==> 1 <= ei <= 9,
        forall|i: int|
            0 <= i < character.build_tabs@.len()
                ==> (#[trigger] character.build_tabs@[i].build.name matches Some(n) ==> n@.len()
                < 100_000_000),
        forall|i: int|
            0 <= i < character.equipment_tabs@.len()
                ==> (#[trigger] character.equipment_tabs@[i].name matches Some(n) ==> n@.len()
                < 100_000_000),
    ensures
        r@ == spec_title_for_indices(*character, build_index, equipment_index),
{
    let mut parts: Vec<String> = Vec::new();

    match build_index {
        Some(bi) => {
            if (bi as usize) <= character.build_tabs.len() {
                let tab = &character.build_tabs[(bi as usize) - 1];
                let mut raw: String = String::new();
                let mut named = false;
                match &tab.build.name {
                    Some(n) => {
                        if n.as_str().unicode_len() > 0 {
                            raw = n.clone();
                            named = true;
                        }
                    },
                    None => {},
                }
                if !named {
                    let mut f = String::new();
                    f.append("Build Template ");
                    proof {
                        reveal_strlit("Build Template ");
                    }
                    push_digit(&mut f, bi);
                    proof {
                        assert(f@ =~= build_fallback_chars(bi));
                    }
                    raw = f;
                }
                let wrapped = wrap_title(raw.as_str(), TITLE_WRAP_LEN);
                parts.push(wrapped);
            }
        },
        None => {},
    }

    match equipment_index {
        Some(ei) => {
            if (ei as usize) <= character.equipment_tabs.len() {
                let tab = &character.equipment_tabs[(ei as usize) - 1];
                let mut raw: String = String::new();
                let mut named = false;
                match &tab.name {
                    Some(n) => {
                        if n.as_str().unicode_len() > 0 {
                            raw = n.clone();
                            named = true;
                        }
                    },
                    None => {},
                }
                if !named {
                    let mut f = String::new();
                    f.append("Equipment Template ");
                    proof {
                        reveal_strlit("Equipment Template ");
                    }
                    push_digit(&mut f, ei);
                    proof {
                        assert(f@ =~= equipment_fallback_chars(ei));
                    }
                    raw = f;
                }
                let wrapped = wrap_title(raw.as_str(), TITLE_WRAP_LEN);
                parts.push(wrapped);
            }
        },
        None => {},
    }

    if parts.len() == 0 {
        let mut u = String::new();
        u.append("Unknown\nTemplate");
        proof {
            reveal_strlit("Unknown\nTemplate");
            assert(u@ =~= unknown_template_chars());
        }
        u
    } else if parts.len() == 1 {
        let mut out = String::new();
        out.append(parts[0].as_str());
        out
    } else {
        let mut out = String::new();
        out.append(parts[0].as_str());
        out.append("\n");
        proof {
            reveal_strlit("\n");
            assert("\n"@ =~= seq!['\n']);
        }
        out.append(parts[1].as_str());
        out
    }
}

// ---------- Deck-key state ----------

/// State of one template deck key: the slots its settings select.
pub struct SetTemplateKey {
    /// Selected build slot, 1 through 9.
    pub selected_build: Option<u8>,
    /// Selected equipment slot, 1 through 9.
    pub selected_equipment: Option<u8>,
}

pub open spec fn spec_fallback_title(
    selected_build: Option<u8>,
    selected_equipment: Option<u8>,
) -> Seq<char> {
    match (selected_build, selected_equipment) {
        (Some(b), Some(e)) => seq!['B', digit_char(b), ' ', '/', ' ', 'E', digit_char(e)],
        (Some(b), None) => seq!['B', digit_char(b)],
        (None, Some(e)) => seq!['E', digit_char(e)],
        (None, None) => seq!['S', 'e', 't', ' ', 'T', 'e', 'm', 'p', 'l', 'a', 't', 'e'],
    }
}

impl SetTemplateKey {
    pub fn new() -> (r: Self)
        ensures
            r.selected_build is None,
            r.selected_equipment is None,
    {
        SetTemplateKey { selected_build: None, selected_equipment: None }
    }

    /// The short placeholder title shown before template names are known.
    pub fn compute_fallback_title(&self) -> (r: String)
        requires
            self.selected_build matches Some(b) ==> 1 <= b <= 9,
            self.selected_equipment matches Some(e) ==> 1 <= e <= 9,
        ensures
            r@ == spec_fallback_title(self.selected_build, self.selected_equipment),
    {
        let mut out = String::new();
        match (self.selected_build, self.selected_equipment) {
            (Some(b), Some(e)) => {
                out.append("B");
                push_digit(&mut out, b);
                out.append(" / E");
                push_digit(&mut out, e);
                proof {
                    reveal_strlit("B");
                    reveal_strlit(" / E");
                    assert(out@ =~= spec_fallback_title(
                        self.selected_build,
                        self.selected_equipment,
                    ));
                }
            },
            (Some(b), None) => {
                out.append("B");
                push_digit(&mut out, b);
                proof {
                    reveal_strlit("B");
                    assert(out@ =~= spec_fallback_title(
                        self.selected_build,
                        self.selected_equipment,
                    ));
                }
            },
            (None, Some(e)) => {
                out.append("E");
                push_digit(&mut out, e);
                proof {
                    reveal_strlit("E");
                    assert(out@ =~= spec_fallback_title(
                        self.selected_build,
                        self.selected_equipment,
                    ));
                }
            },
            (None, None) => {
                out.append("Set Template");
                proof {
                    reveal_strlit("Set Template");
                    assert(out@ =~= spec_fallback_title(
                        self.selected_build,
                        self.selected_equipment,
                    ));
                }
            },
        }
        out
    }
}

/// State of the settings deck key; it carries no data of its own.
pub struct SettingsKey {
    /// Whether a long-press wipe has already fired since the key went down.
    pub hold_fired: bool,
}

impl SettingsKey {
    pub fn new() -> (r: Self)
        ensures
            !r.hold_fired,
    {
        SettingsKey { hold_fired: false }
    }
}


/// The plugin's identifier prefix with the deck controller.
pub const PLUGIN_UUID: &'static str = "icu.veelume.gw2";

/// Factory for the template deck keys.
pub struct SetTemplateFactory;

/// The action kind the template keys register under.
pub open spec fn set_template_kind() -> Seq<char> {
    "icu.veelume.gw2.set-template"@
}

impl SetTemplateFactory {
    pub fn kind(&self) -> (r: &'static str)
        ensures
            r@ == set_template_kind(),
    {
        "icu.veelume.gw2.set-template"
    }

    pub fn create(&self) -> (r: SetTemplateKey)
        ensures
            r.selected_build is None,
            r.selected_equipment is None,
    {
        SetTemplateKey::new()
    }
}

/// Factory for the settings deck key.
pub struct SettingsFactory;

/// The action kind the settings key registers under.
pub open spec fn settings_kind() -> Seq<char> {
    "icu.veelume.gw2.settings"@
}

impl SettingsFactory {
    pub fn kind(&self) -> (r: &'static str)
        ensures
            r@ == settings_kind(),
    {
        "icu.veelume.gw2.settings"
    }

    pub fn create(&self) -> (r: SettingsKey)
        ensures
            !r.hold_fired,
    {
        SettingsKey::new()
    }
}

} // verus!
