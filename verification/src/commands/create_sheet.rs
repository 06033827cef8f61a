use std::collections::HashMap;
use vstd::prelude::*;

use crate::commands::{
    int_value, integer_or_absent, text_or_absent, text_value, CommandInput, InteractionUtil, OptionValue,
};
use crate::embed::{
    cat2, cat3, embed_reply, field, public_embed, Embed, EmbedField, EmbedView, FieldView, Reply,
    ReplyView,
};
use crate::text::{
    decimal, decimal_reads_back, decimal_u64, decimal_u64_is_decimal, i32_to_string, int_text, parse_decimal_u64,
    same_text, tdiv, u64_to_string,
};

use crate::commands::spec::{
    command, option, option_view, CommandSpec, CommandSpecView, OptionKind, OptionSpec, OptionSpecView,
};

verus! {

broadcast use vstd::std_specs::hash::group_hash_axioms;

/// An investigator's character sheet.
pub struct CharacterSheet {
    pub name: String,
    pub str_val: i32,
    pub con_val: i32,
    pub siz_val: i32,
    pub dex_val: i32,
    pub app_val: i32,
    pub int_val: i32,
    pub pow_val: i32,
    pub edu_val: i32,
    pub hp: i32,
    pub hp_max: i32,
    pub mp: i32,
    pub mp_max: i32,
    pub luck: i32,
    pub san: i32,
}

impl Clone for CharacterSheet {
    fn clone(&self) -> (r: Self)
        ensures
            r == *self,
    {
        CharacterSheet {
            name: self.name.clone(),
            str_val: self.str_val,
            con_val: self.con_val,
            siz_val: self.siz_val,
            dex_val: self.dex_val,
            app_val: self.app_val,
            int_val: self.int_val,
            pow_val: self.pow_val,
            edu_val: self.edu_val,
            hp: self.hp,
            hp_max: self.hp_max,
            mp: self.mp,
            mp_max: self.mp_max,
            luck: self.luck,
            san: self.san,
        }
    }
}

/// What a sheet records, as plain values.
pub struct SheetView {
    pub name: Seq<char>,
    pub str_val: i32,
    pub con_val: i32,
    pub siz_val: i32,
    pub dex_val: i32,
    pub app_val: i32,
    pub int_val: i32,
    pub pow_val: i32,
    pub edu_val: i32,
    pub hp: i32,
    pub hp_max: i32,
    pub mp: i32,
    pub mp_max: i32,
    pub luck: i32,
    pub san: i32,
}

impl View for CharacterSheet {
    type V = SheetView;

    open spec fn view(&self) -> SheetView {
        SheetView {
            name: self.name@,
            str_val: self.str_val,
            con_val: self.con_val,
            siz_val: self.siz_val,
            dex_val: self.dex_val,
            app_val: self.app_val,
            int_val: self.int_val,
            pow_val: self.pow_val,
            edu_val: self.edu_val,
            hp: self.hp,
            hp_max: self.hp_max,
            mp: self.mp,
            mp_max: self.mp_max,
            luck: self.luck,
            san: self.san,
        }
    }
}

/// A sheet with no name and every value 0.
pub open spec fn blank_sheet() -> SheetView {
    SheetView {
        name: Seq::empty(),
        str_val: 0,
        con_val: 0,
        siz_val: 0,
        dex_val: 0,
        app_val: 0,
        int_val: 0,
        pow_val: 0,
        edu_val: 0,
        hp: 0,
        hp_max: 0,
        mp: 0,
        mp_max: 0,
        luck: 0,
        san: 0,
    }
}

impl Default for CharacterSheet {
    fn default() -> (r: Self)
        ensures
            r@ == blank_sheet(),
    {
        CharacterSheet {
            name: String::new(),
            str_val: 0,
            con_val: 0,
            siz_val: 0,
            dex_val: 0,
            app_val: 0,
            int_val: 0,
            pow_val: 0,
            edu_val: 0,
            hp: 0,
            hp_max: 0,
            mp: 0,
            mp_max: 0,
            luck: 0,
            san: 0,
        }
    }
}

/// The characteristics a player gives when creating a sheet.
#[derive(Clone, Copy, Debug)]
pub struct Characteristics {
    pub str_val: i32,
    pub con_val: i32,
    pub siz_val: i32,
    pub dex_val: i32,
    pub app_val: i32,
    pub int_val: i32,
    pub pow_val: i32,
    pub edu_val: i32,
    pub luck: i32,
}

/// A new sheet: hit points `(CON + SIZ) / 10`, magic points `POW / 5`, sanity `POW`,
/// current hit and magic points at their maximum.
pub open spec fn new_sheet(name: Seq<char>, c: Characteristics) -> SheetView {
    let hp_max = tdiv(c.con_val + c.siz_val, 10) as i32;
    let mp_max = tdiv(c.pow_val as int, 5) as i32;
    SheetView {
        name,
        str_val: c.str_val,
        con_val: c.con_val,
        siz_val: c.siz_val,
        dex_val: c.dex_val,
        app_val: c.app_val,
        int_val: c.int_val,
        pow_val: c.pow_val,
        edu_val: c.edu_val,
        hp: hp_max,
        hp_max,
        mp: mp_max,
        mp_max,
        luck: c.luck,
        san: c.pow_val,
    }
}

impl CharacterSheet {
    /// Creates a sheet from the characteristics a player gave.
    pub fn create(name: String, c: Characteristics) -> (s: CharacterSheet)
        requires
            i32::MIN <= c.con_val + c.siz_val <= i32::MAX,
        ensures
            s@ == new_sheet(name@, c),
    {
        let hp_max = (c.con_val + c.siz_val) / 10;
        let mp_max = c.pow_val / 5;
        CharacterSheet {
            name,
            str_val: c.str_val,
            con_val: c.con_val,
            siz_val: c.siz_val,
            dex_val: c.dex_val,
            app_val: c.app_val,
            int_val: c.int_val,
            pow_val: c.pow_val,
            edu_val: c.edu_val,
            hp: hp_max,
            hp_max,
            mp: mp_max,
            mp_max,
            luck: c.luck,
            san: c.pow_val,
        }
    }
}

/// The saved character sheets, one per user, with the saved entries whose key is no user id,
/// which are kept only to be saved again.
pub struct SheetStore {
    sheets: HashMap<u64, CharacterSheet>,
    others: Vec<(String, CharacterSheet)>,
}

impl View for SheetStore {
    type V = Map<u64, SheetView>;

    closed spec fn view(&self) -> Map<u64, SheetView> {
        self.sheets@.map_values(|s: CharacterSheet| s@)
    }
}

/// Saved entries as plain values: each key's text with its sheet.
pub open spec fn entry_views(entries: Seq<(String, CharacterSheet)>) -> Seq<(Seq<char>, SheetView)> {
    entries.map_values(|e: (String, CharacterSheet)| (e.0@, e.1@))
}

impl SheetStore {
    #[verifier::type_invariant]
    spec fn keeps_only_other_keys(self) -> bool {
        forall|i: int| 0 <= i < self.others@.len() ==> #[trigger] decimal_u64(self.others@[i].0@) is None
    }

    /// The saved entries whose key is no user id, in the order they were read.
    pub closed spec fn kept(&self) -> Seq<(Seq<char>, SheetView)> {
        entry_views(self.others@)
    }

    /// An empty store.
    pub fn new() -> (s: SheetStore)
        ensures
            s@ == Map::<u64, SheetView>::empty(),
            s.kept() == Seq::<(Seq<char>, SheetView)>::empty(),
    {
        let s = SheetStore { sheets: HashMap::new(), others: Vec::new() };
        assert(s@ =~= Map::<u64, SheetView>::empty());
        assert(s.kept() =~= Seq::<(Seq<char>, SheetView)>::empty());
        s
    }

    /// The sheet of `user`, if they have one.
    pub fn get(&self, user: u64) -> (r: Option<&CharacterSheet>)
        ensures
            match r {
                Some(s) => self@.contains_key(user) && s@ == self@[user],
                None => !self@.contains_key(user),
            },
    {
        self.sheets.get(&user)
    }

    /// Saves `sheet` as the sheet of `user`, replacing any earlier one.
    pub fn insert(&mut self, user: u64, sheet: CharacterSheet)
        ensures
            final(self)@ == old(self)@.insert(user, sheet@),
            final(self).kept() == old(self).kept(),
    {
        proof {
            use_type_invariant(&*self);
        }
        let mut sheets: HashMap<u64, CharacterSheet> = HashMap::new();
        std::mem::swap(&mut sheets, &mut self.sheets);
        sheets.insert(user, sheet);
        self.sheets = sheets;
        assert(self@ =~= old(self)@.insert(user, sheet@));
    }

    /// The number of saved sheets.
    pub fn len(&self) -> (n: usize)
        ensures
            n == self@.len(),
    {
        proof {
            vstd::std_specs::hash::axiom_hashmap_view_finite_dom(self.sheets);
            assert(self@.dom() =~= self.sheets@.dom());
        }
        self.sheets.len()
    }

    /// Every saved sheet with its user, each user once, in no particular order.
    pub fn entries(&self) -> (v: Vec<(u64, CharacterSheet)>)
        ensures
            forall|i: int| 0 <= i < v@.len() ==> #[trigger] self@.contains_key(v@[i].0) && self@[v@[i].0] == v@[i].1@,
            forall|k: u64| #[trigger] self@.contains_key(k) ==> exists|i: int| 0 <= i < v@.len() && #[trigger] v@[i].0 == k,
            forall|i: int, j: int| 0 <= i < j < v@.len() ==> v@[i].0 != v@[j].0,
    {
        let mut out: Vec<(u64, CharacterSheet)> = Vec::new();
        let ghost pairs = vstd::std_specs::iter::IteratorSpec::remaining(&vstd::std_specs::hash::spec_hash_map_iter(&self.sheets));
        for pair in it: self.sheets.iter()
            invariant
                pairs == vstd::std_specs::iter::IteratorSpec::remaining(&vstd::std_specs::hash::spec_hash_map_iter(&self.sheets)),
                it.seq() == pairs,
                out@.len() == it.index(),
                forall|j: int| 0 <= j < out@.len() ==> out@[j].0 == *pairs[j].0 && out@[j].1 == *pairs[j].1,
        {
            let (k, v) = pair;
            out.push((*k, v.clone()));
        }
        proof {
            assert forall|i: int| 0 <= i < out@.len() implies #[trigger] self@.contains_key(out@[i].0) && self@[out@[i].0] == out@[i].1@ by {
                assert(self.sheets@.contains_key(*pairs[i].0));
            }
            assert forall|k: u64| #[trigger] self@.contains_key(k) implies exists|i: int| 0 <= i < out@.len() && #[trigger] out@[i].0 == k by {
                assert(self.sheets@.contains_key(k));
                assert(pairs.contains((&k, &self.sheets@[k])));
                let i = choose|i: int| 0 <= i < pairs.len() && pairs[i] == (&k, &self.sheets@[k]);
                assert(out@[i].0 == k);
            }
            assert forall|i: int, j: int| 0 <= i < j < out@.len() implies out@[i].0 != out@[j].0 by {
                if out@[i].0 == out@[j].0 {
                    assert(self.sheets@.contains_key(*pairs[i].0));
                    assert(self.sheets@.contains_key(*pairs[j].0));
                    assert(pairs[i] == pairs[j]);
                }
            }
        }
        out
    }
}

/// The sheets that a list of saved entries holds. An entry's key is its user's id written in
/// decimal; an entry whose key is no user id is skipped, and a later entry for a user replaces
/// an earlier one.
pub open spec fn sheets_from(entries: Seq<(String, CharacterSheet)>) -> Map<u64, SheetView>
    decreases entries.len(),
{
    if entries.len() == 0 {
        Map::empty()
    } else {
        let rest = sheets_from(entries.drop_last());
        match decimal_u64(entries.last().0@) {
            Some(user) => rest.insert(user, entries.last().1@),
            None => rest,
        }
    }
}

/// The saved entries whose key is no user id, in order, as plain values.
pub open spec fn kept_from(entries: Seq<(String, CharacterSheet)>) -> Seq<(Seq<char>, SheetView)>
    decreases entries.len(),
{
    if entries.len() == 0 {
        Seq::empty()
    } else {
        let rest = kept_from(entries.drop_last());
        if decimal_u64(entries.last().0@) is None {
            rest.push((entries.last().0@, entries.last().1@))
        } else {
            rest
        }
    }
}

/// Builds the store from the saved entries. The store holds a sheet for exactly the users
/// whose id, written in decimal, keys an entry; the entries under any other key (such as
/// `007`, `+7` or a name) are kept as they are, to be saved again.
pub fn load_sheets(entries: Vec<(String, CharacterSheet)>) -> (s: SheetStore)
    ensures
        s@ == sheets_from(entries@),
        forall|user: u64| #[trigger] s@.contains_key(user) <==> exists|i: int|
            0 <= i < entries@.len() && #[trigger] decimal_u64(entries@[i].0@) == Some(user),
        s.kept() == kept_from(entries@),
{
    let mut store = SheetStore::new();
    let mut others: Vec<(String, CharacterSheet)> = Vec::new();
    let n = entries.len();
    let mut i: usize = 0;
    while i < n
        invariant
            n == entries@.len(),
            i <= n,
            store@ == sheets_from(entries@.take(i as int)),
            store.kept() == Seq::<(Seq<char>, SheetView)>::empty(),
            entry_views(others@) == kept_from(entries@.take(i as int)),
            forall|k: int| 0 <= k < others@.len() ==> #[trigger] decimal_u64(others@[k].0@) is None,
        decreases n - i,
    {
        let ghost before = others@;
        match parse_decimal_u64(entries[i].0.as_str()) {
            Some(user) => store.insert(user, entries[i].1.clone()),
            None => {
                others.push((entries[i].0.clone(), entries[i].1.clone()));
                assert(entry_views(others@) =~= entry_views(before).push((entries@[i as int].0@, entries@[i as int].1@)));
            },
        }
        i = i + 1;
        assert(entries@.take(i as int).drop_last() =~= entries@.take((i - 1) as int));
    }
    assert(entries@.take(n as int) =~= entries@);
    proof {
        use_type_invariant(&store);
    }
    store.others = others;
    proof {
        assert forall|user: u64| #[trigger] store@.contains_key(user) <==> exists|i: int|
            0 <= i < entries@.len() && #[trigger] decimal_u64(entries@[i].0@) == Some(user) by {
            sheets_from_keys(entries@, user);
        }
    }
    store
}

proof fn sheets_from_skips_others(a: Seq<(String, CharacterSheet)>, b: Seq<(String, CharacterSheet)>)
    requires
        forall|k: int| 0 <= k < b.len() ==> #[trigger] decimal_u64(b[k].0@) is None,
    ensures
        sheets_from(a + b) == sheets_from(a),
        kept_from(a + b) == kept_from(a) + entry_views(b),
    decreases b.len(),
{
    if b.len() == 0 {
        assert(a + b =~= a);
        assert(kept_from(a) + entry_views(b) =~= kept_from(a));
    } else {
        sheets_from_skips_others(a, b.drop_last());
        assert((a + b).drop_last() =~= a + b.drop_last());
        assert((a + b).last() == b.last());
        assert(decimal_u64(b[b.len() - 1].0@) is None);
        assert(kept_from(a) + entry_views(b) =~= (kept_from(a) + entry_views(b.drop_last())).push(
            (b.last().0@, b.last().1@),
        ));
    }
}

proof fn kept_from_users(v: Seq<(String, CharacterSheet)>)
    requires
        forall|k: int| 0 <= k < v.len() ==> #[trigger] decimal_u64(v[k].0@) is Some,
    ensures
        kept_from(v) == Seq::<(Seq<char>, SheetView)>::empty(),
    decreases v.len(),
{
    if v.len() > 0 {
        kept_from_users(v.drop_last());
        assert(decimal_u64(v[v.len() - 1].0@) is Some);
    }
}

/// The entries to save for a store: every sheet under its user's id written in decimal, each
/// user once, then the kept entries under their own keys.
pub fn save_sheets(sheets: &SheetStore) -> (v: Vec<(String, CharacterSheet)>)
    ensures
        sheets_from(v@) == sheets@,
        kept_from(v@) == sheets.kept(),
        forall|i: int, j: int| 0 <= i < j < v@.len() && decimal_u64(v@[i].0@) is Some ==> v@[i].0@ != v@[j].0@,
{
    proof {
        use_type_invariant(sheets);
    }
    let e = sheets.entries();
    let n = e.len();
    let mut v: Vec<(String, CharacterSheet)> = Vec::new();
    let mut i: usize = 0;
    while i < n
        invariant
            n == e@.len(),
            i <= n,
            v@.len() == i,
            forall|k: int| 0 <= k < i ==> (#[trigger] v@[k]).0@ == decimal(e@[k].0 as nat) && v@[k].1 == e@[k].1,
        decreases n - i,
    {
        v.push((u64_to_string(e[i].0), e[i].1.clone()));
        i = i + 1;
    }
    let ghost users = v@;
    proof {
        assert forall|k: int| 0 <= k < v@.len() implies #[trigger] decimal_u64(v@[k].0@) == Some(e@[k].0) by {
            assert(v@[k].0@ == decimal(e@[k].0 as nat));
            decimal_reads_back(e@[k].0);
        }
        assert forall|a: int, b: int| 0 <= a < b < v@.len() implies v@[a].0@ != v@[b].0@ by {
            assert(decimal_u64(v@[a].0@) == Some(e@[a].0));
            assert(decimal_u64(v@[b].0@) == Some(e@[b].0));
        }
        assert forall|k: int| 0 <= k < v@.len() implies (#[trigger] decimal_u64(v@[k].0@) matches Some(user)
            && sheets@.contains_key(user) && sheets@[user] == v@[k].1@) by {
            assert(decimal_u64(v@[k].0@) == Some(e@[k].0));
            assert(sheets@.contains_key(e@[k].0));
        }
        assert forall|user: u64| #[trigger] sheets@.contains_key(user) implies exists|k: int|
            0 <= k < v@.len() && #[trigger] decimal_u64(v@[k].0@) == Some(user) by {
            let k = choose|k: int| 0 <= k < e@.len() && #[trigger] e@[k].0 == user;
            assert(decimal_u64(v@[k].0@) == Some(e@[k].0));
        }
        saved_sheets_load_back(sheets@, v@);
        kept_from_users(v@);
    }
    let m = sheets.others.len();
    let mut j: usize = 0;
    while j < m
        invariant
            m == sheets.others@.len(),
            j <= m,
            forall|k: int| 0 <= k < m ==> #[trigger] decimal_u64(sheets.others@[k].0@) is None,
            v@ == users + sheets.others@.take(j as int),
        decreases m - j,
    {
        let entry = (sheets.others[j].0.clone(), sheets.others[j].1.clone());
        v.push(entry);
        j = j + 1;
        assert(v@ =~= users + sheets.others@.take(j as int));
    }
    proof {
        assert(sheets.others@.take(m as int) =~= sheets.others@);
        sheets_from_skips_others(users, sheets.others@);
        assert(kept_from(users) + entry_views(sheets.others@) =~= entry_views(sheets.others@));
        assert forall|a: int, b: int| 0 <= a < b < v@.len() && decimal_u64(v@[a].0@) is Some implies v@[a].0@
            != v@[b].0@ by {
            if b >= users.len() {
                assert(v@[b] == sheets.others@[b - users.len()]);
                assert(decimal_u64(v@[b].0@) is None);
            } else {
                assert(v@[a] == users[a] && v@[b] == users[b]);
            }
        }
    }
    v
}

proof fn sheets_from_keys(entries: Seq<(String, CharacterSheet)>, user: u64)
    ensures
        sheets_from(entries).contains_key(user) <==> exists|i: int|
            0 <= i < entries.len() && #[trigger] decimal_u64(entries[i].0@) == Some(user),
    decreases entries.len(),
{
    if entries.len() > 0 {
        let rest = entries.drop_last();
        sheets_from_keys(rest, user);
        if sheets_from(rest).contains_key(user) {
            let i = choose|i: int| 0 <= i < rest.len() && #[trigger] decimal_u64(rest[i].0@) == Some(user);
            assert(decimal_u64(entries[i].0@) == Some(user));
        }
        if exists|i: int| 0 <= i < entries.len() && #[trigger] decimal_u64(entries[i].0@) == Some(user) {
            let i = choose|i: int| 0 <= i < entries.len() && #[trigger] decimal_u64(entries[i].0@) == Some(user);
            if i < entries.len() - 1 {
                assert(decimal_u64(rest[i].0@) == Some(user));
            }
        }
    }
}

proof fn sheets_from_value(entries: Seq<(String, CharacterSheet)>, i: int, user: u64)
    requires
        0 <= i < entries.len(),
        decimal_u64(entries[i].0@) == Some(user),
        forall|a: int, b: int| 0 <= a < b < entries.len() ==> entries[a].0@ != entries[b].0@,
    ensures
        sheets_from(entries).contains_key(user),
        sheets_from(entries)[user] == entries[i].1@,
    decreases entries.len(),
{
    let last = entries.len() - 1;
    if i < last {
        sheets_from_value(entries.drop_last(), i, user);
        decimal_u64_is_decimal(entries[i].0@);
        decimal_u64_is_decimal(entries[last].0@);
        assert(decimal_u64(entries[last].0@) != Some(user));
    }
}

/// Saving the sheets and loading them back gives the same sheets: a list that holds each
/// saved sheet under its user's id, each user once and nothing else, builds exactly the store
/// it was taken from.
pub proof fn saved_sheets_load_back(sheets: Map<u64, SheetView>, entries: Seq<(String, CharacterSheet)>)
    requires
        forall|i: int| 0 <= i < entries.len() ==> (#[trigger] decimal_u64(entries[i].0@) matches Some(user)
            && sheets.contains_key(user) && sheets[user] == entries[i].1@),
        forall|user: u64| #[trigger] sheets.contains_key(user) ==> exists|i: int|
            0 <= i < entries.len() && #[trigger] decimal_u64(entries[i].0@) == Some(user),
        forall|i: int, j: int| 0 <= i < j < entries.len() ==> entries[i].0@ != entries[j].0@,
    ensures
        sheets_from(entries) == sheets,
{
    assert forall|user: u64| #[trigger] sheets_from(entries).dom().contains(user) <==> sheets.dom().contains(user) by {
        sheets_from_keys(entries, user);
        if sheets_from(entries).contains_key(user) {
            let i = choose|i: int| 0 <= i < entries.len() && #[trigger] decimal_u64(entries[i].0@) == Some(user);
            assert(decimal_u64(entries[i].0@) matches Some(u) && sheets.contains_key(u));
        }
    }
    assert forall|user: u64| #[trigger] sheets.contains_key(user) implies sheets_from(entries)[user] == sheets[user] by {
        let i = choose|i: int| 0 <= i < entries.len() && #[trigger] decimal_u64(entries[i].0@) == Some(user);
        sheets_from_value(entries, i, user);
        assert(decimal_u64(entries[i].0@) matches Some(u) && sheets[u] == entries[i].1@);
    }
    assert(sheets_from(entries).dom() =~= sheets.dom());
    assert(sheets_from(entries) =~= sheets);
}


/// The message shown to a user who has no sheet yet.
pub open spec fn no_sheet_text() -> Seq<char> {
    "저장된 캐릭터 시트가 없습니다. `/cs` 명령어로 먼저 시트를 생성해 주세요."@
}

/// `a/b`, written out.
pub open spec fn ratio_text(a: i32, b: i32) -> Seq<char> {
    int_text(a as int) + "/"@ + int_text(b as int)
}

/// The fields of a sheet embed, one per value, all inline.
pub open spec fn sheet_fields(s: SheetView) -> Seq<FieldView> {
    seq![
        (":muscle: 근력"@, int_text(s.str_val as int), true),
        (":shield: 건강"@, int_text(s.con_val as int), true),
        (":straight_ruler: 크기"@, int_text(s.siz_val as int), true),
        (":runner: 민첩"@, int_text(s.dex_val as int), true),
        (":sparkles: 외모"@, int_text(s.app_val as int), true),
        (":bulb: 지능"@, int_text(s.int_val as int), true),
        (":crystal_ball: 정신"@, int_text(s.pow_val as int), true),
        (":mortar_board: 교육"@, int_text(s.edu_val as int), true),
        (":heart: 체력"@, ratio_text(s.hp, s.hp_max), true),
        (":star: 마력"@, ratio_text(s.mp, s.mp_max), true),
        (":four_leaf_clover: 운"@, int_text(s.luck as int), true),
        (":brain: 이성"@, int_text(s.san as int), true),
    ]
}

/// The embed that shows a sheet under the title `"탐사자: {display}"`.
pub open spec fn sheet_embed(display: Seq<char>, s: SheetView) -> EmbedView {
    EmbedView { title: "탐사자: "@ + display, description: None, fields: sheet_fields(s), colour: None }
}

fn value_field(label: &str, v: i32) -> (f: EmbedField)
    ensures
        f@ == (label@, int_text(v as int), true),
{
    field(String::from_str(label), i32_to_string(v), true)
}

fn ratio_field(label: &str, a: i32, b: i32) -> (f: EmbedField)
    ensures
        f@ == (label@, ratio_text(a, b), true),
{
    let x = i32_to_string(a);
    let y = i32_to_string(b);
    field(String::from_str(label), cat3(x.as_str(), "/", y.as_str()), true)
}

/// Builds the embed that shows `s` under the title `"탐사자: {display}"`.
pub fn show_sheet_embed(display: &str, s: &CharacterSheet) -> (e: Embed)
    ensures
        e@ == sheet_embed(display@, s@),
{
    let mut fields: Vec<EmbedField> = Vec::new();
    fields.push(value_field(":muscle: 근력", s.str_val));
    fields.push(value_field(":shield: 건강", s.con_val));
    fields.push(value_field(":straight_ruler: 크기", s.siz_val));
    fields.push(value_field(":runner: 민첩", s.dex_val));
    fields.push(value_field(":sparkles: 외모", s.app_val));
    fields.push(value_field(":bulb: 지능", s.int_val));
    fields.push(value_field(":crystal_ball: 정신", s.pow_val));
    fields.push(value_field(":mortar_board: 교육", s.edu_val));
    fields.push(ratio_field(":heart: 체력", s.hp, s.hp_max));
    fields.push(ratio_field(":star: 마력", s.mp, s.mp_max));
    fields.push(value_field(":four_leaf_clover: 운", s.luck));
    fields.push(value_field(":brain: 이성", s.san));
    let e = Embed { title: cat2("탐사자: ", display), description: None, fields, colour: None };
    assert(e@.fields =~= sheet_fields(s@));
    e
}

/// A command that creates a character sheet.
pub struct CSCommand;

/// A command that shows the saved character sheet.
pub struct ShowSheetCommand;

/// A command that edits the name in the character sheet.
pub struct EditNameCommand;

/// A command that edits a specific status in the character sheet.
pub struct EditStatCommand;

/// The integer option `name` of an invocation (0 when absent).
pub open spec fn int_arg(input: CommandInput, name: Seq<char>) -> i32 {
    match int_value(input.option(name)) {
        Some(v) => v,
        None => 0,
    }
}

/// The text option `name` of an invocation (empty when absent).
pub open spec fn text_arg(input: CommandInput, name: Seq<char>) -> Seq<char> {
    match text_value(input.option(name)) {
        Some(t) => t,
        None => Seq::empty(),
    }
}

/// The characteristics that `/cs` reads.
pub open spec fn characteristics_of(input: CommandInput) -> Characteristics {
    Characteristics {
        str_val: int_arg(input, "근력"@),
        con_val: int_arg(input, "건강"@),
        siz_val: int_arg(input, "크기"@),
        dex_val: int_arg(input, "민첩"@),
        app_val: int_arg(input, "외모"@),
        int_val: int_arg(input, "지능"@),
        pow_val: int_arg(input, "정신"@),
        edu_val: int_arg(input, "교육"@),
        luck: int_arg(input, "운"@),
    }
}

/// Whether an invocation of `/cs` carries its options: the eight integer characteristics, an
/// optional text `이름` and an optional integer `운`, with CON + SIZ within `i32`.
pub open spec fn cs_input_ok(input: CommandInput) -> bool {
    &&& input.option("근력"@) matches Some(OptionValue::Integer(_))
    &&& input.option("건강"@) matches Some(OptionValue::Integer(_))
    &&& input.option("크기"@) matches Some(OptionValue::Integer(_))
    &&& input.option("민첩"@) matches Some(OptionValue::Integer(_))
    &&& input.option("외모"@) matches Some(OptionValue::Integer(_))
    &&& input.option("지능"@) matches Some(OptionValue::Integer(_))
    &&& input.option("정신"@) matches Some(OptionValue::Integer(_))
    &&& input.option("교육"@) matches Some(OptionValue::Integer(_))
    &&& text_or_absent(input.option("이름"@))
    &&& integer_or_absent(input.option("운"@))
    &&& i32::MIN <= int_arg(input, "건강"@) + int_arg(input, "크기"@) <= i32::MAX
}

fn required_int(input: &CommandInput, name: &str) -> (v: i32)
    requires
        input.option(name@) matches Some(OptionValue::Integer(_)),
    ensures
        v == int_arg(*input, name@),
{
    match input.get_int_option(String::from_str(name)) {
        Some(v) => v,
        None => 0,
    }
}

fn required_text(input: &CommandInput, name: &str) -> (t: String)
    requires
        input.option(name@) matches Some(OptionValue::Text(_)),
    ensures
        t@ == text_arg(*input, name@),
{
    match input.get_string_option(String::from_str(name)) {
        Some(t) => String::from_str(t),
        None => String::new(),
    }
}

fn optional_int(input: &CommandInput, name: &str) -> (v: i32)
    requires
        integer_or_absent(input.option(name@)),
    ensures
        v == int_arg(*input, name@),
{
    match input.get_int_option(String::from_str(name)) {
        Some(v) => v,
        None => 0,
    }
}

/// The name a new sheet is shown under: the `이름` option as given (even when empty), or the
/// user's nickname when the option is absent.
pub open spec fn cs_title_name(input: CommandInput) -> Seq<char> {
    match text_value(input.option("이름"@)) {
        Some(t) => t,
        None => input.nickname@,
    }
}

impl CSCommand {
    /// Creates the invoking user's sheet from the options, replacing any earlier sheet, and
    /// shows it under the title `"탐사자: {이름}"`. Without `이름` the sheet has no name and is
    /// shown under the user's nickname; without `운` luck is 0.
    pub fn execute(&self, store: &mut SheetStore, input: &CommandInput) -> (r: Reply)
        requires
            cs_input_ok(*input),
        ensures
            final(store)@ == old(store)@.insert(
                input.user_id,
                new_sheet(text_arg(*input, "이름"@), characteristics_of(*input)),
            ),
            final(store).kept() == old(store).kept(),
            r@ == embed_reply(
                sheet_embed(cs_title_name(*input), new_sheet(text_arg(*input, "이름"@), characteristics_of(*input))),
            ),
    {
        let given = input.get_string_option(String::from_str("이름"));
        let (name, display) = match given {
            Some(t) => (String::from_str(t), String::from_str(t)),
            None => (String::new(), input.get_nickname()),
        };
        let c = Characteristics {
            str_val: required_int(input, "근력"),
            con_val: required_int(input, "건강"),
            siz_val: required_int(input, "크기"),
            dex_val: required_int(input, "민첩"),
            app_val: required_int(input, "외모"),
            int_val: required_int(input, "지능"),
            pow_val: required_int(input, "정신"),
            edu_val: required_int(input, "교육"),
            luck: optional_int(input, "운"),
        };
        let sheet = CharacterSheet::create(name, c);
        let e = show_sheet_embed(display.as_str(), &sheet);
        store.insert(input.user_id, sheet);
        public_embed(e)
    }
}

/// The name a sheet is shown under: its own name, or the user's nickname when it has none.
pub open spec fn display_name(s: SheetView, nickname: Seq<char>) -> Seq<char> {
    if s.name.len() == 0 {
        nickname
    } else {
        s.name
    }
}

/// What `/시트보기` answers, only to the user who asked: their sheet, or a notice that they
/// have none.
pub open spec fn show_reply(sheets: Map<u64, SheetView>, user: u64, nickname: Seq<char>) -> ReplyView {
    if sheets.contains_key(user) {
        ReplyView {
            content: None,
            embed: Some(sheet_embed(display_name(sheets[user], nickname), sheets[user])),
            ephemeral: true,
        }
    } else {
        ReplyView { content: Some(no_sheet_text()), embed: None, ephemeral: true }
    }
}

fn display_of(s: &CharacterSheet, nickname: String) -> (d: String)
    ensures
        d@ == display_name(s@, nickname@),
{
    if s.name.as_str().is_empty() {
        nickname
    } else {
        s.name.clone()
    }
}

impl ShowSheetCommand {
    /// Shows the invoking user's sheet to them alone.
    pub fn execute(&self, store: &SheetStore, input: &CommandInput) -> (r: Reply)
        ensures
            r@ == show_reply(store@, input.user_id, input.nickname@),
    {
        match store.get(input.user_id) {
            Some(s) => {
                let display = display_of(s, input.get_nickname());
                let e = show_sheet_embed(display.as_str(), s);
                Reply { content: None, embed: Some(e), ephemeral: true }
            },
            None => Reply {
                content: Some(
                    String::from_str(
                        "저장된 캐릭터 시트가 없습니다. `/cs` 명령어로 먼저 시트를 생성해 주세요.",
                    ),
                ),
                embed: None,
                ephemeral: true,
            },
        }
    }
}


/// The sheet of `user` after renaming: their sheet (a blank one if they had none) with
/// the new name.
pub open spec fn renamed(sheets: Map<u64, SheetView>, user: u64, name: Seq<char>) -> SheetView {
    let before = if sheets.contains_key(user) { sheets[user] } else { blank_sheet() };
    SheetView { name, ..before }
}

/// How the former name reads in the confirmation: the name, or `"이름 없음"` when there was none.
pub open spec fn former_name(name: Seq<char>) -> Seq<char> {
    if name.len() == 0 {
        "이름 없음"@
    } else {
        name
    }
}

/// The embed that confirms a new character name.
pub open spec fn rename_embed(old_name: Seq<char>, new_name: Seq<char>) -> EmbedView {
    EmbedView {
        title: "캐릭터 이름 설정 완료"@,
        description: Some(
            "캐릭터 이름이 **"@ + former_name(old_name) + "**에서 **"@ + new_name
                + "**(으)로 변경되었습니다.\n이제 일반 채팅을 입력하면 이 캐릭터 이름으로 자동 출력됩니다."@,
        ),
        fields: Seq::empty(),
        colour: None,
    }
}

impl EditNameCommand {
    /// Sets the name on the invoking user's sheet, creating a blank sheet if they have none,
    /// and confirms the change.
    pub fn execute(&self, store: &mut SheetStore, input: &CommandInput) -> (r: Reply)
        requires
            input.option("이름"@) matches Some(OptionValue::Text(_)),
        ensures
            final(store)@ == old(store)@.insert(
                input.user_id,
                renamed(old(store)@, input.user_id, text_arg(*input, "이름"@)),
            ),
            final(store).kept() == old(store).kept(),
            r@ == embed_reply(
                rename_embed(
                    if old(store)@.contains_key(input.user_id) {
                        old(store)@[input.user_id].name
                    } else {
                        Seq::empty()
                    },
                    text_arg(*input, "이름"@),
                ),
            ),
    {
        let new_name = required_text(input, "이름");
        let mut sheet = match store.get(input.user_id) {
            Some(s) => s.clone(),
            None => CharacterSheet::default(),
        };
        let old_name = sheet.name.clone();
        sheet.name = new_name.clone();
        store.insert(input.user_id, sheet);
        let shown_old = if old_name.as_str().is_empty() {
            String::from_str("이름 없음")
        } else {
            old_name
        };
        let a = cat3("캐릭터 이름이 **", shown_old.as_str(), "**에서 **");
        let desc = cat3(
            a.as_str(),
            new_name.as_str(),
            "**(으)로 변경되었습니다.\n이제 일반 채팅을 입력하면 이 캐릭터 이름으로 자동 출력됩니다.",
        );
        let e = Embed {
            title: String::from_str("캐릭터 이름 설정 완료"),
            description: Some(desc),
            fields: Vec::new(),
            colour: None,
        };
        assert(e@.fields =~= Seq::<FieldView>::empty());
        public_embed(e)
    }
}

/// A value on the sheet that `/특성치수정` can change.
#[derive(PartialEq, Eq, Structural, Clone, Copy, Debug)]
pub enum Stat {
    Str,
    Con,
    Siz,
    Dex,
    App,
    Int,
    Pow,
    Edu,
    Hp,
    Mp,
    Luck,
    San,
}

/// The stat that a key names (`"str"`, `"con"`, ..., `"san"`), if any.
pub open spec fn parse_stat(key: Seq<char>) -> Option<Stat> {
    if key == "str"@ {
        Some(Stat::Str)
    } else if key == "con"@ {
        Some(Stat::Con)
    } else if key == "siz"@ {
        Some(Stat::Siz)
    } else if key == "dex"@ {
        Some(Stat::Dex)
    } else if key == "app"@ {
        Some(Stat::App)
    } else if key == "int"@ {
        Some(Stat::Int)
    } else if key == "pow"@ {
        Some(Stat::Pow)
    } else if key == "edu"@ {
        Some(Stat::Edu)
    } else if key == "hp"@ {
        Some(Stat::Hp)
    } else if key == "mp"@ {
        Some(Stat::Mp)
    } else if key == "luck"@ {
        Some(Stat::Luck)
    } else if key == "san"@ {
        Some(Stat::San)
    } else {
        None
    }
}

/// The Korean name the bot uses for a stat.
pub open spec fn stat_label(t: Stat) -> Seq<char> {
    match t {
        Stat::Str => "근력"@,
        Stat::Con => "건강"@,
        Stat::Siz => "크기"@,
        Stat::Dex => "민첩"@,
        Stat::App => "외모"@,
        Stat::Int => "지능"@,
        Stat::Pow => "정신"@,
        Stat::Edu => "교육"@,
        Stat::Hp => "체력"@,
        Stat::Mp => "마력"@,
        Stat::Luck => "운"@,
        Stat::San => "이성"@,
    }
}

/// The value of a stat on a sheet.
pub open spec fn stat_value(s: SheetView, t: Stat) -> i32 {
    match t {
        Stat::Str => s.str_val,
        Stat::Con => s.con_val,
        Stat::Siz => s.siz_val,
        Stat::Dex => s.dex_val,
        Stat::App => s.app_val,
        Stat::Int => s.int_val,
        Stat::Pow => s.pow_val,
        Stat::Edu => s.edu_val,
        Stat::Hp => s.hp,
        Stat::Mp => s.mp,
        Stat::Luck => s.luck,
        Stat::San => s.san,
    }
}

/// The sheet with one stat set to `v` and everything else kept.
pub open spec fn with_stat(s: SheetView, t: Stat, v: i32) -> SheetView {
    match t {
        Stat::Str => SheetView { str_val: v, ..s },
        Stat::Con => SheetView { con_val: v, ..s },
        Stat::Siz => SheetView { siz_val: v, ..s },
        Stat::Dex => SheetView { dex_val: v, ..s },
        Stat::App => SheetView { app_val: v, ..s },
        Stat::Int => SheetView { int_val: v, ..s },
        Stat::Pow => SheetView { pow_val: v, ..s },
        Stat::Edu => SheetView { edu_val: v, ..s },
        Stat::Hp => SheetView { hp: v, ..s },
        Stat::Mp => SheetView { mp: v, ..s },
        Stat::Luck => SheetView { luck: v, ..s },
        Stat::San => SheetView { san: v, ..s },
    }
}

/// Setting sanity to `v` drives the investigator mad when `v` falls below 80% of POW
/// (`POW * 80 / 100`).
pub open spec fn goes_mad(s: SheetView, t: Stat, v: i32) -> bool {
    t == Stat::San && v < tdiv(s.pow_val * 80, 100)
}

/// The text that reports a changed stat, with the madness warning when sanity fell too low.
pub open spec fn stat_change_text(s: SheetView, t: Stat, v: i32) -> Seq<char> {
    "**"@ + stat_label(t) + "** 수치 변경: **"@ + int_text(stat_value(s, t) as int) + "** -> **"@
        + int_text(v as int) + "**"@ + (if goes_mad(s, t, v) {
        "\n\n:warning: **이성이 정신 스탯의 80% 미만으로 떨어져 광기에 걸렸습니다!**"@
    } else {
        Seq::empty()
    })
}

/// The embed that confirms a changed stat.
pub open spec fn stat_embed(s: SheetView, t: Stat, v: i32, nickname: Seq<char>) -> EmbedView {
    EmbedView {
        title: display_name(s, nickname) + "의 특성치 수정 완료"@,
        description: Some(stat_change_text(s, t, v)),
        fields: Seq::empty(),
        colour: None,
    }
}

/// What `/특성치수정` answers: a confirmation when the user has a sheet and the key names a
/// stat, else the notice that there is no sheet.
pub open spec fn edit_stat_result(
    sheets: Map<u64, SheetView>,
    user: u64,
    key: Seq<char>,
    v: i32,
    nickname: Seq<char>,
) -> Result<ReplyView, Seq<char>> {
    if sheets.contains_key(user) && parse_stat(key) is Some {
        Ok(embed_reply(stat_embed(sheets[user], parse_stat(key).unwrap(), v, nickname)))
    } else {
        Err(no_sheet_text())
    }
}

/// The sheets after `/특성치수정`: the stat changed on the user's sheet when both exist.
pub open spec fn edited_sheets(sheets: Map<u64, SheetView>, user: u64, key: Seq<char>, v: i32) -> Map<
    u64,
    SheetView,
> {
    if sheets.contains_key(user) && parse_stat(key) is Some {
        sheets.insert(user, with_stat(sheets[user], parse_stat(key).unwrap(), v))
    } else {
        sheets
    }
}

impl Stat {
    /// The stat that a key names, if any.
    pub fn parse(key: &str) -> (r: Option<Stat>)
        ensures
            r == parse_stat(key@),
    {
        if same_text(key, "str") {
            Some(Stat::Str)
        } else if same_text(key, "con") {
            Some(Stat::Con)
        } else if same_text(key, "siz") {
            Some(Stat::Siz)
        } else if same_text(key, "dex") {
            Some(Stat::Dex)
        } else if same_text(key, "app") {
            Some(Stat::App)
        } else if same_text(key, "int") {
            Some(Stat::Int)
        } else if same_text(key, "pow") {
            Some(Stat::Pow)
        } else if same_text(key, "edu") {
            Some(Stat::Edu)
        } else if same_text(key, "hp") {
            Some(Stat::Hp)
        } else if same_text(key, "mp") {
            Some(Stat::Mp)
        } else if same_text(key, "luck") {
            Some(Stat::Luck)
        } else if same_text(key, "san") {
            Some(Stat::San)
        } else {
            None
        }
    }

    /// The Korean name the bot uses for the stat.
    pub fn label(&self) -> (s: &'static str)
        ensures
            s@ == stat_label(*self),
    {
        match self {
            Stat::Str => "근력",
            Stat::Con => "건강",
            Stat::Siz => "크기",
            Stat::Dex => "민첩",
            Stat::App => "외모",
            Stat::Int => "지능",
            Stat::Pow => "정신",
            Stat::Edu => "교육",
            Stat::Hp => "체력",
            Stat::Mp => "마력",
            Stat::Luck => "운",
            Stat::San => "이성",
        }
    }

    /// Sets the stat on `sheet` to `v` and returns its former value.
    pub fn replace(&self, sheet: &mut CharacterSheet, v: i32) -> (former: i32)
        ensures
            former == stat_value(old(sheet)@, *self),
            final(sheet)@ == with_stat(old(sheet)@, *self, v),
    {
        match self {
            Stat::Str => { let o = sheet.str_val; sheet.str_val = v; o },
            Stat::Con => { let o = sheet.con_val; sheet.con_val = v; o },
            Stat::Siz => { let o = sheet.siz_val; sheet.siz_val = v; o },
            Stat::Dex => { let o = sheet.dex_val; sheet.dex_val = v; o },
            Stat::App => { let o = sheet.app_val; sheet.app_val = v; o },
            Stat::Int => { let o = sheet.int_val; sheet.int_val = v; o },
            Stat::Pow => { let o = sheet.pow_val; sheet.pow_val = v; o },
            Stat::Edu => { let o = sheet.edu_val; sheet.edu_val = v; o },
            Stat::Hp => { let o = sheet.hp; sheet.hp = v; o },
            Stat::Mp => { let o = sheet.mp; sheet.mp = v; o },
            Stat::Luck => { let o = sheet.luck; sheet.luck = v; o },
            Stat::San => { let o = sheet.san; sheet.san = v; o },
        }
    }
}

/// Whether `/특성치수정` can work out the madness check without overflow: when it sets sanity
/// on an existing sheet, `POW * 80` fits in `i32`.
pub open spec fn madness_check_fits(sheets: Map<u64, SheetView>, user: u64, key: Seq<char>) -> bool {
    sheets.contains_key(user) && parse_stat(key) == Some(Stat::San) ==> i32::MIN <= sheets[user].pow_val
        * 80 <= i32::MAX
}

impl EditStatCommand {
    /// Changes one stat on the invoking user's sheet and confirms it; refuses when the user
    /// has no sheet or the key names no stat.
    pub fn execute(&self, store: &mut SheetStore, input: &CommandInput) -> (r: Result<Reply, String>)
        requires
            input.option("특성치"@) matches Some(OptionValue::Text(_)),
            input.option("수치"@) matches Some(OptionValue::Integer(_)),
            madness_check_fits(old(store)@, input.user_id, text_arg(*input, "특성치"@)),
        ensures
            final(store)@ == edited_sheets(
                old(store)@,
                input.user_id,
                text_arg(*input, "특성치"@),
                int_arg(*input, "수치"@),
            ),
            final(store).kept() == old(store).kept(),
            match r {
                Ok(reply) => edit_stat_result(
                    old(store)@,
                    input.user_id,
                    text_arg(*input, "특성치"@),
                    int_arg(*input, "수치"@),
                    input.nickname@,
                ) == Ok::<ReplyView, Seq<char>>(reply@),
                Err(m) => edit_stat_result(
                    old(store)@,
                    input.user_id,
                    text_arg(*input, "특성치"@),
                    int_arg(*input, "수치"@),
                    input.nickname@,
                ) == Err::<ReplyView, Seq<char>>(m@),
            },
    {
        let key = required_text(input, "특성치");
        let value = required_int(input, "수치");
        let stat = Stat::parse(key.as_str());
        let current = match store.get(input.user_id) {
            Some(s) => Some(s.clone()),
            None => None,
        };
        match (current, stat) {
            (Some(mut sheet), Some(t)) => {
                let ghost before = sheet@;
                let former = t.replace(&mut sheet, value);
                let mad = match t {
                    Stat::San => value < sheet.pow_val * 80 / 100,
                    _ => false,
                };
                let display = display_of(&sheet, input.get_nickname());
                store.insert(input.user_id, sheet);
                let a = cat3("**", t.label(), "** 수치 변경: **");
                let f = i32_to_string(former);
                let b = cat3(a.as_str(), f.as_str(), "** -> **");
                let v = i32_to_string(value);
                let mut desc = cat3(b.as_str(), v.as_str(), "**");
                if mad {
                    desc.append("\n\n:warning: **이성이 정신 스탯의 80% 미만으로 떨어져 광기에 걸렸습니다!**");
                }
                assert(desc@ =~= stat_change_text(before, t, value));
                let e = Embed {
                    title: cat2(display.as_str(), "의 특성치 수정 완료"),
                    description: Some(desc),
                    fields: Vec::new(),
                    colour: None,
                };
                assert(e@.fields =~= Seq::<FieldView>::empty());
                Ok(public_embed(e))
            },
            _ => Err(
                String::from_str(
                    "저장된 캐릭터 시트가 없습니다. `/cs` 명령어로 먼저 시트를 생성해 주세요.",
                ),
            ),
        }
    }
}


/// A created sheet keeps each given characteristic under its own name and the given name;
/// its hit points are a tenth of CON + SIZ and its magic points a fifth of POW (rounded toward
/// zero), both full, and its sanity equals POW.
pub proof fn new_sheet_keeps_characteristics(name: Seq<char>, c: Characteristics)
    requires
        i32::MIN <= c.con_val + c.siz_val <= i32::MAX,
    ensures
        new_sheet(name, c).name == name,
        stat_value(new_sheet(name, c), Stat::Str) == c.str_val,
        stat_value(new_sheet(name, c), Stat::Con) == c.con_val,
        stat_value(new_sheet(name, c), Stat::Siz) == c.siz_val,
        stat_value(new_sheet(name, c), Stat::Dex) == c.dex_val,
        stat_value(new_sheet(name, c), Stat::App) == c.app_val,
        stat_value(new_sheet(name, c), Stat::Int) == c.int_val,
        stat_value(new_sheet(name, c), Stat::Pow) == c.pow_val,
        stat_value(new_sheet(name, c), Stat::Edu) == c.edu_val,
        stat_value(new_sheet(name, c), Stat::Luck) == c.luck,
        stat_value(new_sheet(name, c), Stat::San) == c.pow_val,
        new_sheet(name, c).str_val == c.str_val && new_sheet(name, c).con_val == c.con_val
            && new_sheet(name, c).siz_val == c.siz_val && new_sheet(name, c).dex_val == c.dex_val
            && new_sheet(name, c).app_val == c.app_val && new_sheet(name, c).int_val == c.int_val
            && new_sheet(name, c).pow_val == c.pow_val && new_sheet(name, c).edu_val == c.edu_val
            && new_sheet(name, c).luck == c.luck,
        stat_value(new_sheet(name, c), Stat::Hp) == new_sheet(name, c).hp_max,
        stat_value(new_sheet(name, c), Stat::Mp) == new_sheet(name, c).mp_max,
        c.con_val + c.siz_val >= 0 ==> 10 * new_sheet(name, c).hp_max <= c.con_val + c.siz_val < 10
            * new_sheet(name, c).hp_max + 10,
        c.pow_val >= 0 ==> 5 * new_sheet(name, c).mp_max <= c.pow_val < 5 * new_sheet(name, c).mp_max + 5,
{
    let t = c.con_val + c.siz_val;
    if t >= 0 {
        assert(tdiv(t, 10) == t / 10);
    }
    if c.pow_val >= 0 {
        assert(tdiv(c.pow_val as int, 5) == c.pow_val / 5);
    }
}

/// Which stat a sheet field shows: the fields in order, `None` for hit and magic points.
pub open spec fn field_stat(i: int) -> Option<Stat> {
    if i == 0 { Some(Stat::Str) }
    else if i == 1 { Some(Stat::Con) }
    else if i == 2 { Some(Stat::Siz) }
    else if i == 3 { Some(Stat::Dex) }
    else if i == 4 { Some(Stat::App) }
    else if i == 5 { Some(Stat::Int) }
    else if i == 6 { Some(Stat::Pow) }
    else if i == 7 { Some(Stat::Edu) }
    else if i == 10 { Some(Stat::Luck) }
    else if i == 11 { Some(Stat::San) }
    else { None }
}

/// Each field of a shown sheet is labelled with a stat's name and shows that stat's value; the
/// hit and magic point fields show current over maximum.
pub proof fn sheet_fields_show_their_stat(s: SheetView)
    ensures
        sheet_fields(s).len() == 12,
        forall|i: int| 0 <= i < 12 && #[trigger] field_stat(i) is Some ==> {
            let t = field_stat(i).unwrap();
            let label = sheet_fields(s)[i].0;
            &&& label.len() >= stat_label(t).len()
            &&& label.subrange(label.len() - stat_label(t).len(), label.len() as int) == stat_label(t)
            &&& sheet_fields(s)[i].1 == int_text(stat_value(s, t) as int)
        },
        sheet_fields(s)[8].0.subrange(sheet_fields(s)[8].0.len() - 2, sheet_fields(s)[8].0.len() as int)
            == stat_label(Stat::Hp),
        sheet_fields(s)[8].1 == int_text(stat_value(s, Stat::Hp) as int) + "/"@ + int_text(s.hp_max as int),
        sheet_fields(s)[9].0.subrange(sheet_fields(s)[9].0.len() - 2, sheet_fields(s)[9].0.len() as int)
            == stat_label(Stat::Mp),
        sheet_fields(s)[9].1 == int_text(stat_value(s, Stat::Mp) as int) + "/"@ + int_text(s.mp_max as int),
{
    reveal_strlit(":muscle: 근력");
    reveal_strlit(":shield: 건강");
    reveal_strlit(":straight_ruler: 크기");
    reveal_strlit(":runner: 민첩");
    reveal_strlit(":sparkles: 외모");
    reveal_strlit(":bulb: 지능");
    reveal_strlit(":crystal_ball: 정신");
    reveal_strlit(":mortar_board: 교육");
    reveal_strlit(":heart: 체력");
    reveal_strlit(":star: 마력");
    reveal_strlit(":four_leaf_clover: 운");
    reveal_strlit(":brain: 이성");
    reveal_strlit("근력");
    reveal_strlit("건강");
    reveal_strlit("크기");
    reveal_strlit("민첩");
    reveal_strlit("외모");
    reveal_strlit("지능");
    reveal_strlit("정신");
    reveal_strlit("교육");
    reveal_strlit("체력");
    reveal_strlit("마력");
    reveal_strlit("운");
    reveal_strlit("이성");
    let f = sheet_fields(s);
    assert forall|i: int| 0 <= i < 12 && #[trigger] field_stat(i) is Some implies {
        let t = field_stat(i).unwrap();
        let label = f[i].0;
        &&& label.len() >= stat_label(t).len()
        &&& label.subrange(label.len() - stat_label(t).len(), label.len() as int) == stat_label(t)
        &&& f[i].1 == int_text(stat_value(s, t) as int)
    } by {
        let t = field_stat(i).unwrap();
        let label = f[i].0;
        assert(label.subrange(label.len() - stat_label(t).len(), label.len() as int) =~= stat_label(t));
    }
    assert(f[8].0.subrange(f[8].0.len() - 2, f[8].0.len() as int) =~= stat_label(Stat::Hp));
    assert(f[9].0.subrange(f[9].0.len() - 2, f[9].0.len() as int) =~= stat_label(Stat::Mp));
}

/// Each choice offered by `/특성치수정` names its own stat: its key parses to the stat whose name
/// is the choice's shown name, and no two choices name the same stat.
pub proof fn stat_choices_name_their_stat()
    ensures
        stat_choices().len() == 12,
        forall|i: int| 0 <= i < 12 ==> (#[trigger] parse_stat(stat_choices()[i].1) matches Some(t) && stat_label(t)
            == stat_choices()[i].0),
        forall|i: int, j: int| 0 <= i < j < 12 ==> #[trigger] parse_stat(stat_choices()[i].1) != #[trigger] parse_stat(
            stat_choices()[j].1,
        ),
{
    reveal_strlit("str");
    reveal_strlit("con");
    reveal_strlit("siz");
    reveal_strlit("dex");
    reveal_strlit("app");
    reveal_strlit("int");
    reveal_strlit("pow");
    reveal_strlit("edu");
    reveal_strlit("hp");
    reveal_strlit("mp");
    reveal_strlit("luck");
    reveal_strlit("san");
    reveal_strlit("근력");
    reveal_strlit("건강");
    reveal_strlit("크기");
    reveal_strlit("민첩");
    reveal_strlit("외모");
    reveal_strlit("지능");
    reveal_strlit("정신");
    reveal_strlit("교육");
    reveal_strlit("체력");
    reveal_strlit("마력");
    reveal_strlit("운");
    reveal_strlit("이성");
    assert forall|i: int| 0 <= i < 12 implies (#[trigger] parse_stat(stat_choices()[i].1) matches Some(t) && stat_label(t)
        == stat_choices()[i].0) by {
        let k = stat_choices()[i].1;
        if i == 0 {
            assert(k == "str"@);
        } else if i == 1 {
            assert(k == "con"@);
            assert((k[0] != "str"@[0] || k[1] != "str"@[1]));
        } else if i == 2 {
            assert(k == "siz"@);
            assert((k[0] != "str"@[0] || k[1] != "str"@[1]) && (k[0] != "con"@[0] || k[1] != "con"@[1]));
        } else if i == 3 {
            assert(k == "dex"@);
            assert((k[0] != "str"@[0] || k[1] != "str"@[1]) && (k[0] != "con"@[0] || k[1] != "con"@[1]) && (k[0] != "siz"@[0] || k[1] != "siz"@[1]));
        } else if i == 4 {
            assert(k == "app"@);
            assert((k[0] != "str"@[0] || k[1] != "str"@[1]) && (k[0] != "con"@[0] || k[1] != "con"@[1]) && (k[0] != "siz"@[0] || k[1] != "siz"@[1]) && (k[0] != "dex"@[0] || k[1] != "dex"@[1]));
        } else if i == 5 {
            assert(k == "int"@);
            assert((k[0] != "str"@[0] || k[1] != "str"@[1]) && (k[0] != "con"@[0] || k[1] != "con"@[1]) && (k[0] != "siz"@[0] || k[1] != "siz"@[1]) && (k[0] != "dex"@[0] || k[1] != "dex"@[1]) && (k[0] != "app"@[0] || k[1] != "app"@[1]));
        } else if i == 6 {
            assert(k == "pow"@);
            assert((k[0] != "str"@[0] || k[1] != "str"@[1]) && (k[0] != "con"@[0] || k[1] != "con"@[1]) && (k[0] != "siz"@[0] || k[1] != "siz"@[1]) && (k[0] != "dex"@[0] || k[1] != "dex"@[1]) && (k[0] != "app"@[0] || k[1] != "app"@[1]) && (k[0] != "int"@[0] || k[1] != "int"@[1]));
        } else if i == 7 {
            assert(k == "edu"@);
            assert((k[0] != "str"@[0] || k[1] != "str"@[1]) && (k[0] != "con"@[0] || k[1] != "con"@[1]) && (k[0] != "siz"@[0] || k[1] != "siz"@[1]) && (k[0] != "dex"@[0] || k[1] != "dex"@[1]) && (k[0] != "app"@[0] || k[1] != "app"@[1]) && (k[0] != "int"@[0] || k[1] != "int"@[1]) && (k[0] != "pow"@[0] || k[1] != "pow"@[1]));
        } else if i == 8 {
            assert(k == "hp"@);
            assert((k[0] != "str"@[0] || k[1] != "str"@[1]) && (k[0] != "con"@[0] || k[1] != "con"@[1]) && (k[0] != "siz"@[0] || k[1] != "siz"@[1]) && (k[0] != "dex"@[0] || k[1] != "dex"@[1]) && (k[0] != "app"@[0] || k[1] != "app"@[1]) && (k[0] != "int"@[0] || k[1] != "int"@[1]) && (k[0] != "pow"@[0] || k[1] != "pow"@[1]) && (k[0] != "edu"@[0] || k[1] != "edu"@[1]));
        } else if i == 9 {
            assert(k == "mp"@);
            assert((k[0] != "str"@[0] || k[1] != "str"@[1]) && (k[0] != "con"@[0] || k[1] != "con"@[1]) && (k[0] != "siz"@[0] || k[1] != "siz"@[1]) && (k[0] != "dex"@[0] || k[1] != "dex"@[1]) && (k[0] != "app"@[0] || k[1] != "app"@[1]) && (k[0] != "int"@[0] || k[1] != "int"@[1]) && (k[0] != "pow"@[0] || k[1] != "pow"@[1]) && (k[0] != "edu"@[0] || k[1] != "edu"@[1]) && (k[0] != "hp"@[0] || k[1] != "hp"@[1]));
        } else if i == 10 {
            assert(k == "luck"@);
            assert((k[0] != "str"@[0] || k[1] != "str"@[1]) && (k[0] != "con"@[0] || k[1] != "con"@[1]) && (k[0] != "siz"@[0] || k[1] != "siz"@[1]) && (k[0] != "dex"@[0] || k[1] != "dex"@[1]) && (k[0] != "app"@[0] || k[1] != "app"@[1]) && (k[0] != "int"@[0] || k[1] != "int"@[1]) && (k[0] != "pow"@[0] || k[1] != "pow"@[1]) && (k[0] != "edu"@[0] || k[1] != "edu"@[1]) && (k[0] != "hp"@[0] || k[1] != "hp"@[1]) && (k[0] != "mp"@[0] || k[1] != "mp"@[1]));
        } else {
            assert(k == "san"@);
            assert((k[0] != "str"@[0] || k[1] != "str"@[1]) && (k[0] != "con"@[0] || k[1] != "con"@[1]) && (k[0] != "siz"@[0] || k[1] != "siz"@[1]) && (k[0] != "dex"@[0] || k[1] != "dex"@[1]) && (k[0] != "app"@[0] || k[1] != "app"@[1]) && (k[0] != "int"@[0] || k[1] != "int"@[1]) && (k[0] != "pow"@[0] || k[1] != "pow"@[1]) && (k[0] != "edu"@[0] || k[1] != "edu"@[1]) && (k[0] != "hp"@[0] || k[1] != "hp"@[1]) && (k[0] != "mp"@[0] || k[1] != "mp"@[1]) && (k[0] != "luck"@[0] || k[1] != "luck"@[1]));
        }
    }
    assert forall|i: int, j: int| 0 <= i < j < 12 implies #[trigger] parse_stat(stat_choices()[i].1) != #[trigger] parse_stat(
        stat_choices()[j].1,
    ) by {
        assert(parse_stat(stat_choices()[i].1) matches Some(t) && stat_label(t) == stat_choices()[i].0);
        assert(parse_stat(stat_choices()[j].1) matches Some(t) && stat_label(t) == stat_choices()[j].0);
        assert(stat_choices()[i].0[0] != stat_choices()[j].0[0]);
    }
}

/// A sheet just created shows at full health: hit points and magic points at their maximum,
/// sanity equal to POW.
pub proof fn new_sheet_starts_full(name: Seq<char>, c: Characteristics)
    ensures
        new_sheet(name, c).hp == new_sheet(name, c).hp_max,
        new_sheet(name, c).mp == new_sheet(name, c).mp_max,
        new_sheet(name, c).san == c.pow_val,
        new_sheet(name, c).name == name,
{
}

/// After a user creates a sheet, showing their sheet shows that sheet.
pub proof fn created_sheet_is_shown(
    sheets: Map<u64, SheetView>,
    user: u64,
    name: Seq<char>,
    c: Characteristics,
    nickname: Seq<char>,
)
    ensures
        show_reply(sheets.insert(user, new_sheet(name, c)), user, nickname) == (ReplyView {
            content: None,
            embed: Some(sheet_embed(display_name(new_sheet(name, c), nickname), new_sheet(name, c))),
            ephemeral: true,
        }),
{
}

/// Changing a stat sets that stat and keeps the name and every other stat.
pub proof fn with_stat_changes_only_that_stat(s: SheetView, t: Stat, v: i32, other: Stat)
    ensures
        stat_value(with_stat(s, t, v), t) == v,
        with_stat(s, t, v).name == s.name,
        other != t ==> stat_value(with_stat(s, t, v), other) == stat_value(s, other),
{
}

/// Setting a stat back to its former value undoes the change.
pub proof fn with_stat_undone(s: SheetView, t: Stat, v: i32)
    ensures
        with_stat(with_stat(s, t, v), t, stat_value(s, t)) == s,
{
}

/// Editing a stat or a name touches no other user's sheet.
pub proof fn edits_keep_other_users(
    sheets: Map<u64, SheetView>,
    user: u64,
    other: u64,
    key: Seq<char>,
    v: i32,
    name: Seq<char>,
)
    requires
        other != user,
    ensures
        edited_sheets(sheets, user, key, v).contains_key(other) == sheets.contains_key(other),
        sheets.contains_key(other) ==> edited_sheets(sheets, user, key, v)[other] == sheets[other],
        sheets.insert(user, renamed(sheets, user, name)).contains_key(other) == sheets.contains_key(other),
        sheets.contains_key(other) ==> sheets.insert(user, renamed(sheets, user, name))[other]
            == sheets[other],
{
}

/// Renaming keeps every stat of an existing sheet, and gives a user without a sheet a blank
/// one under the new name.
pub proof fn rename_keeps_stats(sheets: Map<u64, SheetView>, user: u64, name: Seq<char>, t: Stat)
    ensures
        renamed(sheets, user, name).name == name,
        sheets.contains_key(user) ==> stat_value(renamed(sheets, user, name), t) == stat_value(
            sheets[user],
            t,
        ),
        !sheets.contains_key(user) ==> renamed(sheets, user, name) == (SheetView {
            name,
            ..blank_sheet()
        }),
{
}

/// Making the same stat edit twice is the same as making it once, and the second edit reports
/// that the stat already held the value.
pub proof fn edit_stat_twice_is_once(sheets: Map<u64, SheetView>, user: u64, key: Seq<char>, v: i32, nickname: Seq<char>)
    requires
        sheets.contains_key(user),
        parse_stat(key) is Some,
    ensures
        edited_sheets(edited_sheets(sheets, user, key, v), user, key, v) == edited_sheets(sheets, user, key, v),
        edited_sheets(sheets, user, key, v).contains_key(user),
        stat_value(edited_sheets(sheets, user, key, v)[user], parse_stat(key).unwrap()) == v,
        edit_stat_result(edited_sheets(sheets, user, key, v), user, key, v, nickname) == Ok::<ReplyView, Seq<char>>(
            embed_reply(stat_embed(edited_sheets(sheets, user, key, v)[user], parse_stat(key).unwrap(), v, nickname)),
        ),
{
    let t = parse_stat(key).unwrap();
    let once = edited_sheets(sheets, user, key, v);
    assert(with_stat(with_stat(sheets[user], t, v), t, v) == with_stat(sheets[user], t, v));
    assert(once.insert(user, with_stat(once[user], t, v)) =~= once);
}

/// A user without a sheet cannot change a stat: nothing changes and the answer is the notice
/// that there is no sheet.
pub proof fn edit_without_sheet_refused(
    sheets: Map<u64, SheetView>,
    user: u64,
    key: Seq<char>,
    v: i32,
    nickname: Seq<char>,
)
    requires
        !sheets.contains_key(user),
    ensures
        edited_sheets(sheets, user, key, v) == sheets,
        edit_stat_result(sheets, user, key, v, nickname) == Err::<ReplyView, Seq<char>>(no_sheet_text()),
{
}

} // verus!

verus! {

/// How `/cs` is declared: the eight characteristics are required, the name and luck are not.
pub open spec fn cs_spec() -> CommandSpecView {
    CommandSpecView {
        name: "cs"@,
        description: "탐사자 시트를 생성합니다."@,
        options: seq![
            option_view(OptionKind::Integer, "근력"@, "근력"@, true),
            option_view(OptionKind::Integer, "건강"@, "건강"@, true),
            option_view(OptionKind::Integer, "크기"@, "크기"@, true),
            option_view(OptionKind::Integer, "민첩"@, "민첩"@, true),
            option_view(OptionKind::Integer, "외모"@, "외모"@, true),
            option_view(OptionKind::Integer, "지능"@, "지능"@, true),
            option_view(OptionKind::Integer, "정신"@, "정신"@, true),
            option_view(OptionKind::Integer, "교육"@, "교육"@, true),
            option_view(OptionKind::Text, "이름"@, "탐사자 이름"@, false),
            option_view(OptionKind::Integer, "운"@, "운"@, false)
        ],
    }
}

impl CSCommand {
    /// Gets a name of the command.
    pub fn name(&self) -> (s: &'static str)
        ensures
            s@ == cs_spec().name,
    {
        "cs"
    }

    /// How the command is declared to Discord.
    pub fn create(&self) -> (c: CommandSpec)
        ensures
            c@ == cs_spec(),
    {
        let mut options: Vec<OptionSpec> = Vec::new();
        options.push(option(OptionKind::Integer, "근력", "근력", true));
        options.push(option(OptionKind::Integer, "건강", "건강", true));
        options.push(option(OptionKind::Integer, "크기", "크기", true));
        options.push(option(OptionKind::Integer, "민첩", "민첩", true));
        options.push(option(OptionKind::Integer, "외모", "외모", true));
        options.push(option(OptionKind::Integer, "지능", "지능", true));
        options.push(option(OptionKind::Integer, "정신", "정신", true));
        options.push(option(OptionKind::Integer, "교육", "교육", true));
        options.push(option(OptionKind::Text, "이름", "탐사자 이름", false));
        options.push(option(OptionKind::Integer, "운", "운", false));
        let c = command(self.name(), "탐사자 시트를 생성합니다.", options);
        assert(c@.options =~= cs_spec().options);
        c
    }
}

/// How `/시트보기` is declared.
pub open spec fn show_sheet_spec() -> CommandSpecView {
    CommandSpecView {
        name: "시트보기"@,
        description: "내 탐사자 시트 현황을 확인합니다."@,
        options: seq![

        ],
    }
}

impl ShowSheetCommand {
    /// Gets a name of the command.
    pub fn name(&self) -> (s: &'static str)
        ensures
            s@ == show_sheet_spec().name,
    {
        "시트보기"
    }

    /// How the command is declared to Discord.
    pub fn create(&self) -> (c: CommandSpec)
        ensures
            c@ == show_sheet_spec(),
    {
        let mut options: Vec<OptionSpec> = Vec::new();
        let c = command(self.name(), "내 탐사자 시트 현황을 확인합니다.", options);
        assert(c@.options =~= show_sheet_spec().options);
        c
    }
}

/// How `/이름설정` is declared.
pub open spec fn edit_name_spec() -> CommandSpecView {
    CommandSpecView {
        name: "이름설정"@,
        description: "채팅에 표시될 내 캐릭터 이름을 설정하거나 변경합니다."@,
        options: seq![
            option_view(OptionKind::Text, "이름"@, "새로운 캐릭터 이름"@, true)
        ],
    }
}

impl EditNameCommand {
    /// Gets a name of the command.
    pub fn name(&self) -> (s: &'static str)
        ensures
            s@ == edit_name_spec().name,
    {
        "이름설정"
    }

    /// How the command is declared to Discord.
    pub fn create(&self) -> (c: CommandSpec)
        ensures
            c@ == edit_name_spec(),
    {
        let mut options: Vec<OptionSpec> = Vec::new();
        options.push(option(OptionKind::Text, "이름", "새로운 캐릭터 이름", true));
        let c = command(self.name(), "채팅에 표시될 내 캐릭터 이름을 설정하거나 변경합니다.", options);
        assert(c@.options =~= edit_name_spec().options);
        c
    }
}

/// The choices that `/특성치수정` offers for its `특성치` option: the Korean name shown and
/// the key sent.
pub open spec fn stat_choices() -> Seq<(Seq<char>, Seq<char>)> {
    seq![
            ("근력"@, "str"@),
            ("건강"@, "con"@),
            ("크기"@, "siz"@),
            ("민첩"@, "dex"@),
            ("외모"@, "app"@),
            ("지능"@, "int"@),
            ("정신"@, "pow"@),
            ("교육"@, "edu"@),
            ("체력"@, "hp"@),
            ("마력"@, "mp"@),
            ("운"@, "luck"@),
            ("이성"@, "san"@)
    ]
}

/// How `/특성치수정` is declared.
pub open spec fn edit_stat_spec() -> CommandSpecView {
    CommandSpecView {
        name: "특성치수정"@,
        description: "내 탐사자 시트의 특정 특성치를 수정합니다."@,
        options: seq![
            OptionSpecView {
                kind: OptionKind::Text,
                name: "특성치"@,
                description: "수정할 특성치"@,
                required: true,
                choices: stat_choices(),
            },
            option_view(OptionKind::Integer, "수치"@, "새로운 수치"@, true)
        ],
    }
}

impl EditStatCommand {
    /// Gets a name of the command.
    pub fn name(&self) -> (s: &'static str)
        ensures
            s@ == edit_stat_spec().name,
    {
        "특성치수정"
    }

    /// How the command is declared to Discord.
    pub fn create(&self) -> (c: CommandSpec)
        ensures
            c@ == edit_stat_spec(),
    {
        let mut choices: Vec<(String, String)> = Vec::new();
        choices.push((String::from_str("근력"), String::from_str("str")));
        choices.push((String::from_str("건강"), String::from_str("con")));
        choices.push((String::from_str("크기"), String::from_str("siz")));
        choices.push((String::from_str("민첩"), String::from_str("dex")));
        choices.push((String::from_str("외모"), String::from_str("app")));
        choices.push((String::from_str("지능"), String::from_str("int")));
        choices.push((String::from_str("정신"), String::from_str("pow")));
        choices.push((String::from_str("교육"), String::from_str("edu")));
        choices.push((String::from_str("체력"), String::from_str("hp")));
        choices.push((String::from_str("마력"), String::from_str("mp")));
        choices.push((String::from_str("운"), String::from_str("luck")));
        choices.push((String::from_str("이성"), String::from_str("san")));
        let stat = OptionSpec {
            kind: OptionKind::Text,
            name: String::from_str("특성치"),
            description: String::from_str("수정할 특성치"),
            required: true,
            choices,
        };
        assert(stat@.choices =~= stat_choices());
        let mut options: Vec<OptionSpec> = Vec::new();
        options.push(stat);
        options.push(option(OptionKind::Integer, "수치", "새로운 수치", true));
        let c = command(self.name(), "내 탐사자 시트의 특정 특성치를 수정합니다.", options);
        assert(c@.options =~= edit_stat_spec().options);
        c
    }
}

} // verus!
