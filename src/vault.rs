use vstd::prelude::*;
use std::cmp::Ordering;
use vstd::math::min;

verus! {

broadcast use vstd::seq_lib::group_to_multiset_ensures;

/// The font styles that the vault's list can be drawn in.
#[derive(Debug, Clone, Copy, PartialEq, Eq, Structural)]
pub enum FontStyle {
    Regular,
    Monospace,
    Cjk,
    Bold,
    Large,
    Small,
}

/// The style used until the user picks one.
pub const DEFAULT_FONT: FontStyle = FontStyle::Regular;

/// The style a stored name stands for, if any.
pub open spec fn style_of_name(name: Seq<char>) -> Option<FontStyle> {
    if name == "regular"@ {
        Some(FontStyle::Regular)
    } else if name == "mono"@ {
        Some(FontStyle::Monospace)
    } else if name == "cjk"@ {
        Some(FontStyle::Cjk)
    } else if name == "bold"@ {
        Some(FontStyle::Bold)
    } else if name == "large"@ {
        Some(FontStyle::Large)
    } else if name == "small"@ {
        Some(FontStyle::Small)
    } else {
        None
    }
}

/// The name under which a style is stored.
pub open spec fn name_of_style(style: FontStyle) -> Seq<char> {
    match style {
        FontStyle::Regular => "regular"@,
        FontStyle::Monospace => "mono"@,
        FontStyle::Cjk => "cjk"@,
        FontStyle::Bold => "bold"@,
        FontStyle::Large => "large"@,
        FontStyle::Small => "small"@,
    }
}

/// The style a stored name stands for; `None` for any other text.
pub fn name_to_style(name: &str) -> (r: Option<FontStyle>)
    ensures
        r == style_of_name(name@),
{
    let n = String::from_str(name);
    if n == String::from_str("regular") {
        Some(FontStyle::Regular)
    } else if n == String::from_str("mono") {
        Some(FontStyle::Monospace)
    } else if n == String::from_str("cjk") {
        Some(FontStyle::Cjk)
    } else if n == String::from_str("bold") {
        Some(FontStyle::Bold)
    } else if n == String::from_str("large") {
        Some(FontStyle::Large)
    } else if n == String::from_str("small") {
        Some(FontStyle::Small)
    } else {
        None
    }
}

/// The name under which `style` is stored.
pub fn style_to_name(style: &FontStyle) -> (r: String)
    ensures
        r@ == name_of_style(*style),
{
    match style {
        FontStyle::Regular => String::from_str("regular"),
        FontStyle::Monospace => String::from_str("mono"),
        FontStyle::Cjk => String::from_str("cjk"),
        FontStyle::Bold => String::from_str("bold"),
        FontStyle::Large => String::from_str("large"),
        FontStyle::Small => String::from_str("small"),
    }
}

/// Storing a style by name and reading the name back gives the same style.
pub proof fn lemma_style_name_round_trip(style: FontStyle)
    ensures
        style_of_name(name_of_style(style)) == Some(style),
{
    reveal_strlit("regular");
    reveal_strlit("mono");
    reveal_strlit("cjk");
    reveal_strlit("bold");
    reveal_strlit("large");
    reveal_strlit("small");
    assert("regular"@[0] != "mono"@[0]);
    assert("regular"@[0] != "cjk"@[0]);
    assert("regular"@[0] != "bold"@[0]);
    assert("regular"@[0] != "large"@[0]);
    assert("regular"@[0] != "small"@[0]);
    assert("mono"@[0] != "cjk"@[0]);
    assert("mono"@[0] != "bold"@[0]);
    assert("mono"@[0] != "large"@[0]);
    assert("mono"@[0] != "small"@[0]);
    assert("cjk"@[0] != "bold"@[0]);
    assert("cjk"@[0] != "large"@[0]);
    assert("cjk"@[0] != "small"@[0]);
    assert("bold"@[0] != "large"@[0]);
    assert("bold"@[0] != "small"@[0]);
    assert("large"@[0] != "small"@[0]);
}

/// Lexicographic order of two texts by code point, as strings are ordered.
pub open spec fn lex_order(a: Seq<char>, b: Seq<char>) -> Ordering
    decreases a.len(),
{
    if a.len() == 0 {
        if b.len() == 0 {
            Ordering::Equal
        } else {
            Ordering::Less
        }
    } else if b.len() == 0 {
        Ordering::Greater
    } else if (a[0] as u32) < (b[0] as u32) {
        Ordering::Less
    } else if (a[0] as u32) > (b[0] as u32) {
        Ordering::Greater
    } else {
        lex_order(a.drop_first(), b.drop_first())
    }
}

/// `a` sorts before `b`, or together with it.
pub open spec fn lex_le(a: Seq<char>, b: Seq<char>) -> bool {
    lex_order(a, b) != Ordering::Greater
}

proof fn lemma_lex_flip(a: Seq<char>, b: Seq<char>)
    ensures
        lex_order(a, b) == Ordering::Greater <==> lex_order(b, a) == Ordering::Less,
    decreases a.len(),
{
    if a.len() > 0 && b.len() > 0 && (a[0] as u32) == (b[0] as u32) {
        lemma_lex_flip(a.drop_first(), b.drop_first());
    }
}

proof fn lemma_lex_le_transitive(a: Seq<char>, b: Seq<char>, c: Seq<char>)
    requires
        lex_le(a, b),
        lex_le(b, c),
    ensures
        lex_le(a, c),
    decreases a.len(),
{
    if a.len() > 0 && b.len() > 0 && c.len() > 0 && (a[0] as u32) == (b[0] as u32) && (b[0] as u32)
        == (c[0] as u32) {
        lemma_lex_le_transitive(a.drop_first(), b.drop_first(), c.drop_first());
    }
}

/// Compares two texts the way strings are ordered.
pub fn compare_names(a: &str, b: &str) -> (r: Ordering)
    ensures
        r == lex_order(a@, b@),
{
    let la = a.unicode_len();
    let lb = b.unicode_len();
    let mut i: usize = 0;
    assert(a@.skip(0) =~= a@);
    assert(b@.skip(0) =~= b@);
    while i < la && i < lb
        invariant
            la == a@.len(),
            lb == b@.len(),
            i <= la,
            i <= lb,
            lex_order(a@, b@) == lex_order(a@.skip(i as int), b@.skip(i as int)),
        decreases la - i,
    {
        let ca = a.get_char(i);
        let cb = b.get_char(i);
        if (ca as u32) < (cb as u32) {
            return Ordering::Less;
        }
        if (ca as u32) > (cb as u32) {
            return Ordering::Greater;
        }
        assert(a@.skip(i as int).drop_first() =~= a@.skip(i + 1));
        assert(b@.skip(i as int).drop_first() =~= b@.skip(i + 1));
        i = i + 1;
    }
    if i < lb {
        Ordering::Less
    } else if i < la {
        Ordering::Greater
    } else {
        Ordering::Equal
    }
}

/// Whether `a` sorts strictly before `b`.
pub fn sorts_before(a: &str, b: &str) -> (r: bool)
    ensures
        r == (lex_order(a@, b@) == Ordering::Less),
{
    match compare_names(a, b) {
        Ordering::Less => true,
        _ => false,
    }
}

/// Whether `text` begins with `prefix`.
pub fn starts_with(text: &str, prefix: &str) -> (r: bool)
    ensures
        r == prefix@.is_prefix_of(text@),
{
    let lt = text.unicode_len();
    let lp = prefix.unicode_len();
    if lp > lt {
        return false;
    }
    let mut i: usize = 0;
    while i < lp
        invariant
            lt == text@.len(),
            lp == prefix@.len(),
            lp <= lt,
            i <= lp,
            forall|j: int| 0 <= j < i ==> prefix@[j] == text@[j],
        decreases lp - i,
    {
        if text.get_char(i) != prefix.get_char(i) {
            return false;
        }
        i = i + 1;
    }
    assert(prefix@ =~= text@.subrange(0, lp as int));
    true
}

/// One entry of the vault's display list. `name` is the key the list is sorted
/// by; `extra` is more information about the item and takes no part in the
/// order or in equality.
#[derive(Debug)]
pub struct ListItem {
    pub name: String,
    pub extra: String,
}

impl ListItem {
    /// A copy of the item.
    pub fn clone(&self) -> (r: ListItem)
        ensures
            r == *self,
    {
        ListItem { name: self.name.clone(), extra: self.extra.clone() }
    }
}

impl PartialEq for ListItem {
    fn eq(&self, other: &ListItem) -> (r: bool) {
        self.name == other.name
    }
}

impl vstd::std_specs::cmp::PartialEqSpecImpl for ListItem {
    open spec fn obeys_eq_spec() -> bool {
        true
    }

    open spec fn eq_spec(&self, other: &ListItem) -> bool {
        self.name@ == other.name@
    }
}

impl Eq for ListItem {

}

impl PartialOrd for ListItem {
    fn partial_cmp(&self, other: &ListItem) -> (r: Option<Ordering>) {
        Some(compare_names(self.name.as_str(), other.name.as_str()))
    }
}

impl vstd::std_specs::cmp::PartialOrdSpecImpl for ListItem {
    open spec fn obeys_partial_cmp_spec() -> bool {
        true
    }

    open spec fn partial_cmp_spec(&self, other: &ListItem) -> Option<Ordering> {
        Some(lex_order(self.name@, other.name@))
    }
}

/// The items are in order of their names.
pub open spec fn sorted_by_name(s: Seq<ListItem>) -> bool {
    forall|i: int, j: int| 0 <= i < j < s.len() ==> lex_le(s[i].name@, s[j].name@)
}

/// The same items, ordered by name.
pub fn sort_by_name(items: Vec<ListItem>) -> (r: Vec<ListItem>)
    ensures
        sorted_by_name(r@),
        r@.to_multiset() == items@.to_multiset(),
{
    let mut r: Vec<ListItem> = Vec::new();
    let mut rest = items;
    let ghost all = rest@;
    let mut i: usize = 0;
    let n = rest.len();
    // take items from the back so that each removal is cheap; insert each
    // one before the first item that sorts after it, counting from the end
    while i < n
        invariant
            n == all.len(),
            i <= n,
            rest@ == all.subrange(0, n - i),
            sorted_by_name(r@),
            r@.to_multiset() == all.subrange(n - i, n as int).to_multiset(),
        decreases n - i,
    {
        let x = rest.pop().unwrap();
        assert(x == all[n - i - 1]);
        let mut j: usize = 0;
        while j < r.len() && sorts_before(r[j].name.as_str(), x.name.as_str())
            invariant
                j <= r@.len(),
                forall|k: int| 0 <= k < j ==> lex_order(#[trigger] r@[k].name@, x.name@) == Ordering::Less,
            decreases r@.len() - j,
        {
            j = j + 1;
        }
        let ghost before = r@;
        proof {
            assert forall|k: int| j <= k < before.len() implies lex_le(x.name@, #[trigger] before[k].name@) by {
                lemma_lex_flip(before[j as int].name@, x.name@);
                lemma_lex_flip(x.name@, before[j as int].name@);
                if k > j {
                    lemma_lex_le_transitive(x.name@, before[j as int].name@, before[k].name@);
                }
            }
        }
        r.insert(j, x);
        proof {
            assert(r@ == before.insert(j as int, x));
            assert forall|a: int, b: int| 0 <= a < b < r@.len() implies lex_le(r@[a].name@, r@[b].name@) by {
                if b == j {
                } else if a == j {
                    assert(r@[b] == before[b - 1]);
                } else if b < j {
                } else if a < j {
                    assert(r@[b] == before[b - 1]);
                    lemma_lex_le_transitive(before[a].name@, x.name@, before[b - 1].name@);
                } else {
                    assert(r@[a] == before[a - 1]);
                    assert(r@[b] == before[b - 1]);
                }
            }
            let lo = n - i - 1;
            assert(all.subrange(lo as int, n as int) =~= all.subrange(lo + 1, n as int).insert(0, x));
        }
        i = i + 1;
    }
    assert(all.subrange(0, n as int) =~= all);
    r
}

/// Which kind of secret the vault is showing.
#[derive(Debug, Clone, Copy, PartialEq, Eq, Structural)]
pub enum VaultMode {
    Fido,
    Totp,
    Password,
}

/// A move of the selection.
#[derive(Debug, Clone, Copy, PartialEq, Eq, Structural)]
pub enum NavDir {
    Up,
    Down,
    PageUp,
    PageDown,
}

/// Height of the title area above the list, in pixels.
pub const TITLE_HEIGHT: i16 = 26;

/// Where the selection goes from `sel` in a list of `len` items, with
/// `per_screen` items to a page. It never leaves the list, and rests at 0 in
/// an empty one.
pub open spec fn nav_target(sel: int, per_screen: int, len: int, dir: NavDir) -> int {
    match dir {
        NavDir::Up => if sel > 0 { sel - 1 } else { sel },
        NavDir::Down => if sel + 1 < len { sel + 1 } else { sel },
        NavDir::PageUp => if sel > per_screen { sel - per_screen } else { 0 },
        NavDir::PageDown => if sel + per_screen + 1 < len {
            sel + per_screen
        } else if len > 0 {
            len - 1
        } else {
            0
        },
    }
}

/// The items whose names begin with `criteria`, in list order.
pub open spec fn matching(items: Seq<ListItem>, criteria: Seq<char>) -> Seq<ListItem> {
    items.filter(has_prefix(criteria))
}

/// The item's name begins with `criteria`.
pub open spec fn has_prefix(criteria: Seq<char>) -> spec_fn(ListItem) -> bool {
    |it: ListItem| criteria.is_prefix_of(it.name@)
}

proof fn lemma_filter_keeps_all(s: Seq<ListItem>, pred: spec_fn(ListItem) -> bool)
    requires
        forall|k: int| 0 <= k < s.len() ==> pred(#[trigger] s[k]),
    ensures
        s.filter(pred) == s,
    decreases s.len(),
{
    reveal(Seq::filter);
    if s.len() > 0 {
        lemma_filter_keeps_all(s.drop_last(), pred);
        assert(s.drop_last().push(s.last()) =~= s);
    }
}

/// The selection kept within a list of `len` items.
pub open spec fn clamp_selection(sel: int, len: int) -> int {
    if sel < len {
        sel
    } else if len > 0 {
        len - 1
    } else {
        0
    }
}

/// Name and extra text of each item, in order.
pub open spec fn entries_of(items: Seq<ListItem>) -> Seq<(Seq<char>, Seq<char>)> {
    items.map_values(|it: ListItem| (it.name@, it.extra@))
}

/// The sample items of set 0 (FIDO and passwords) or of any other set (TOTP).
pub open spec fn sample_entries(set: usize) -> Seq<(Seq<char>, Seq<char>)> {
    if set == 0 {
        seq![
            ("test.com"@, "Used 5 mins ago"@),
            ("google.com"@, "Never used"@),
            ("my app"@, "Used 2 hours ago"@),
            ("💎🙌"@, "Used 2 days ago"@),
            ("百度"@, "Used 1 month ago"@),
            ("duplicate.com"@, "Used 1 week ago"@),
            ("duplicate.com"@, "Used 8 mins ago"@),
            ("amazon.com"@, "Used 3 days ago"@),
            ("ziggyziggyziggylongdomain.com"@, "Never used"@),
            ("another long domain name.com"@, "Used 2 months ago"@),
            ("bunniestudios.com"@, "Used 30 mins ago"@),
            ("github.com"@, "Used 6 hours ago"@),
        ]
    } else {
        seq![
            ("gmail.com"@, "162 321"@),
            ("google.com"@, "445 768"@),
            ("my 图片 app"@, "982 111"@),
            ("🍕🍔🍟🌭"@, "056 182"@),
            ("百度"@, "111 111"@),
            ("duplicate.com"@, "462 124"@),
            ("duplicate.com"@, "462 124"@),
            ("amazon.com"@, "842 012"@),
            ("ziggyziggyziggylongdomain.com"@, "462 212"@),
            ("github.com"@, "Used 6 hours ago"@),
        ]
    }
}

/// The vault's display list: all items, those shown after filtering, and the
/// selection among the shown ones.
pub struct VaultList {
    pub item_list: Vec<ListItem>,
    pub filtered_list: Vec<ListItem>,
    pub selection_index: usize,
    pub items_per_screen: usize,
    pub mode: VaultMode,
}

impl VaultList {
    /// An empty list in FIDO mode showing `items_per_screen` items to a page.
    pub fn new(items_per_screen: usize) -> (r: VaultList)
        ensures
            r.item_list@.len() == 0,
            r.filtered_list@.len() == 0,
            r.selection_index == 0,
            r.items_per_screen == items_per_screen,
            r.mode == VaultMode::Fido,
    {
        VaultList {
            item_list: Vec::new(),
            filtered_list: Vec::new(),
            selection_index: 0,
            items_per_screen,
            mode: VaultMode::Fido,
        }
    }

    /// Moves the selection one item or one page.
    pub fn nav(&mut self, dir: NavDir)
        ensures
            final(self).selection_index == nav_target(
                old(self).selection_index as int,
                old(self).items_per_screen as int,
                old(self).filtered_list@.len() as int,
                dir,
            ),
            final(self).item_list == old(self).item_list,
            final(self).filtered_list == old(self).filtered_list,
            final(self).items_per_screen == old(self).items_per_screen,
            final(self).mode == old(self).mode,
    {
        let len = self.filtered_list.len();
        let sel = self.selection_index;
        let per = self.items_per_screen;
        match dir {
            NavDir::Up => {
                if sel > 0 {
                    self.selection_index = sel - 1;
                }
            },
            NavDir::Down => {
                if sel < len && sel + 1 < len {
                    self.selection_index = sel + 1;
                }
            },
            NavDir::PageUp => {
                if sel > per {
                    self.selection_index = sel - per;
                } else {
                    self.selection_index = 0;
                }
            },
            NavDir::PageDown => {
                if len > 0 && per < len - 1 && sel < len - 1 - per {
                    self.selection_index = sel + per;
                } else if len > 0 {
                    self.selection_index = len - 1;
                } else {
                    self.selection_index = 0;
                }
            },
        }
    }

    /// Shows only the items whose names begin with `criteria`, keeping the
    /// selection within what is shown.
    pub fn filter(&mut self, criteria: &str)
        ensures
            final(self).filtered_list@ == matching(old(self).item_list@, criteria@),
            final(self).selection_index == clamp_selection(
                old(self).selection_index as int,
                final(self).filtered_list@.len() as int,
            ),
            final(self).item_list == old(self).item_list,
            final(self).items_per_screen == old(self).items_per_screen,
            final(self).mode == old(self).mode,
    {
        self.filtered_list.clear();
        let mut i: usize = 0;
        let ghost pred = has_prefix(criteria@);
        while i < self.item_list.len()
            invariant
                i <= self.item_list@.len(),
                self.item_list == old(self).item_list,
                self.items_per_screen == old(self).items_per_screen,
                self.mode == old(self).mode,
                self.selection_index == old(self).selection_index,
                pred == has_prefix(criteria@),
                self.filtered_list@ == self.item_list@.subrange(0, i as int).filter(pred),
            decreases self.item_list@.len() - i,
        {
            let ghost before = self.item_list@.subrange(0, i as int);
            assert(self.item_list@.subrange(0, i + 1).drop_last() =~= before);
            let ghost next = self.item_list@.subrange(0, i + 1);
            assert(next.last() == self.item_list@[i as int]);
            proof {
                reveal(Seq::filter);
                assert(next.drop_last() == before);
                assert(next.filter(pred) == (if pred(next.last()) {
                    before.filter(pred).push(next.last())
                } else {
                    before.filter(pred)
                }));
            }
            if starts_with(self.item_list[i].name.as_str(), criteria) {
                let it = self.item_list[i].clone();
                self.filtered_list.push(it);
            }
            assert(self.filtered_list@ == next.filter(pred));
            i = i + 1;
        }
        assert(self.item_list@.subrange(0, i as int) =~= self.item_list@);
        let len = self.filtered_list.len();
        if self.selection_index >= len {
            if len > 0 {
                self.selection_index = len - 1;
            } else {
                self.selection_index = 0;
            }
        }
    }

    /// Appends the sample items of `set` (0, or any other number for the
    /// second set).
    pub fn gen_fake_data(&mut self, set: usize)
        ensures
            entries_of(final(self).item_list@) == entries_of(old(self).item_list@) + sample_entries(set),
            final(self).filtered_list == old(self).filtered_list,
            final(self).selection_index == old(self).selection_index,
            final(self).items_per_screen == old(self).items_per_screen,
            final(self).mode == old(self).mode,
    {
        let ghost e0 = entries_of(self.item_list@);
        if set == 0 {
            self.push_item("test.com", "Used 5 mins ago");
            self.push_item("google.com", "Never used");
            self.push_item("my app", "Used 2 hours ago");
            self.push_item("💎🙌", "Used 2 days ago");
            self.push_item("百度", "Used 1 month ago");
            self.push_item("duplicate.com", "Used 1 week ago");
            self.push_item("duplicate.com", "Used 8 mins ago");
            self.push_item("amazon.com", "Used 3 days ago");
            self.push_item("ziggyziggyziggylongdomain.com", "Never used");
            self.push_item("another long domain name.com", "Used 2 months ago");
            self.push_item("bunniestudios.com", "Used 30 mins ago");
            self.push_item("github.com", "Used 6 hours ago");
        } else {
            self.push_item("gmail.com", "162 321");
            self.push_item("google.com", "445 768");
            self.push_item("my 图片 app", "982 111");
            self.push_item("🍕🍔🍟🌭", "056 182");
            self.push_item("百度", "111 111");
            self.push_item("duplicate.com", "462 124");
            self.push_item("duplicate.com", "462 124");
            self.push_item("amazon.com", "842 012");
            self.push_item("ziggyziggyziggylongdomain.com", "462 212");
            self.push_item("github.com", "Used 6 hours ago");
        }
        assert(entries_of(self.item_list@) =~= e0 + sample_entries(set));
    }

    fn push_item(&mut self, name: &str, extra: &str)
        ensures
            entries_of(final(self).item_list@) == entries_of(old(self).item_list@).push((name@, extra@)),
            final(self).filtered_list == old(self).filtered_list,
            final(self).selection_index == old(self).selection_index,
            final(self).items_per_screen == old(self).items_per_screen,
            final(self).mode == old(self).mode,
    {
        self.item_list.push(ListItem { name: String::from_str(name), extra: String::from_str(extra) });
        assert(entries_of(self.item_list@) =~= entries_of(old(self).item_list@).push((name@, extra@)));
    }

    /// Switches to `mode`: loads that mode's items sorted by name, selects the
    /// first one and shows them all.
    pub fn set_mode(&mut self, mode: VaultMode)
        ensures
            sorted_by_name(final(self).item_list@),
            exists|loaded: Seq<ListItem>|
                #![trigger entries_of(loaded)]
                entries_of(loaded) == sample_entries(if mode == VaultMode::Totp { 1 } else { 0 })
                    && final(self).item_list@.to_multiset() == loaded.to_multiset(),
            final(self).filtered_list@ == final(self).item_list@,
            final(self).selection_index == 0,
            final(self).items_per_screen == old(self).items_per_screen,
            final(self).mode == mode,
    {
        self.item_list.clear();
        match mode {
            VaultMode::Fido | VaultMode::Password => self.gen_fake_data(0),
            VaultMode::Totp => self.gen_fake_data(1),
        }
        let mut items: Vec<ListItem> = Vec::new();
        items.append(&mut self.item_list);
        let ghost loaded = items@;
        assert(entries_of(Seq::<ListItem>::empty()) =~= Seq::<(Seq<char>, Seq<char>)>::empty());
        assert(entries_of(loaded) =~= sample_entries(if mode == VaultMode::Totp { 1 } else { 0 }));
        let sorted = sort_by_name(items);
        proof {
            sorted@.to_multiset_ensures();
            items@.to_multiset_ensures();
        }
        self.item_list = sorted;
        self.selection_index = 0;
        proof {
            reveal_strlit("");
        }
        self.filter("");
        assert forall|k: int| 0 <= k < self.item_list@.len() implies #[trigger] has_prefix(""@)(
            self.item_list@[k],
        ) by {}
        proof {
            lemma_filter_keeps_all(self.item_list@, has_prefix(""@));
        }
        self.mode = mode;
    }
}

/// Height of one list item and how many items fit on a screen, for a content
/// area `screen_height` pixels high, a font `glyph_height` pixels high and a
/// margin of `margin` pixels. Each item holds two lines of text, the margin
/// above and below them, and two pixels of border.
pub fn list_geometry(screen_height: i16, glyph_height: i16, margin: i16) -> (r: (i16, i16))
    requires
        0 <= glyph_height <= 4096,
        0 <= margin <= 4096,
        TITLE_HEIGHT <= screen_height,
    ensures
        r.0 == glyph_height * 2 + margin * 2 + 2,
        r.1 == (screen_height - TITLE_HEIGHT) / (r.0 as int),
{
    let item_height = glyph_height * 2 + margin * 2 + 2;
    let available = screen_height - TITLE_HEIGHT;
    (item_height, available / item_height)
}

/// The page of a list of `len` items that holds the selection `sel`, with
/// `per_screen` items to a page: the first index on the page, one past the
/// last, and the selection's place on the page.
pub fn page_window(sel: usize, per_screen: usize, len: usize) -> (r: (usize, usize, usize))
    requires
        per_screen > 0,
        sel + per_screen <= usize::MAX,
    ensures
        r.0 == min((sel / per_screen) * per_screen, len as int),
        r.1 == min((sel / per_screen + 1) * per_screen, len as int),
        r.2 == sel % per_screen,
        r.0 <= r.1 <= len,
{
    let page = sel / per_screen;
    proof {
        vstd::arithmetic::div_mod::lemma_fundamental_div_mod(sel as int, per_screen as int);
        vstd::arithmetic::div_mod::lemma_mod_bound(sel as int, per_screen as int);
    }
    let first = page * per_screen;
    let last = first + per_screen;
    let start = if first < len { first } else { len };
    let end = if last < len { last } else { len };
    assert(last == (sel / per_screen + 1) * per_screen) by (nonlinear_arith)
        requires last == first + per_screen, first == page * per_screen, page == sel / per_screen;
    (start, end, sel % per_screen)
}

} // verus!
