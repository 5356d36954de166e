//! Value model of a tray menu: an ordered tree of entries, one level of
//! submenus deep, each activatable entry carrying a stable identifier
//! and a display label. A menu is never mutated in place; a new value is
//! built from a language tag and swapped onto the tray resource whole.

use vstd::prelude::*;

verus! {

/// An activatable entry: stable identifier, display label, and an
/// optional keyboard accelerator.
#[derive(Clone, Debug)]
pub struct MenuItem {
    pub id: String,
    pub label: String,
    pub accelerator: Option<String>,
}

#[verifier::ext_equal]
pub ghost struct MenuItemView {
    pub id: Seq<char>,
    pub label: Seq<char>,
    pub accelerator: Option<Seq<char>>,
}

impl View for MenuItem {
    type V = MenuItemView;

    open spec fn view(&self) -> MenuItemView {
        MenuItemView {
            id: self.id@,
            label: self.label@,
            accelerator: match self.accelerator {
                Some(a) => Some(a@),
                None => None,
            },
        }
    }
}

impl MenuItem {
    /// An entry without an accelerator.
    pub fn new(id: &str, label: &str) -> (r: MenuItem)
        ensures
            r@ == (MenuItemView { id: id@, label: label@, accelerator: None }),
    {
        MenuItem { id: id.to_owned(), label: label.to_owned(), accelerator: None }
    }

    /// An entry with a keyboard accelerator.
    pub fn with_accelerator(id: &str, label: &str, accelerator: &str) -> (r: MenuItem)
        ensures
            r@ == (MenuItemView { id: id@, label: label@, accelerator: Some(accelerator@) }),
    {
        MenuItem {
            id: id.to_owned(),
            label: label.to_owned(),
            accelerator: Some(accelerator.to_owned()),
        }
    }
}

/// An entry inside a submenu: an item or a visual separator.
#[derive(Clone, Debug)]
pub enum SubEntry {
    Item(MenuItem),
    Separator,
}

#[verifier::ext_equal]
pub ghost enum SubEntryView {
    Item(MenuItemView),
    Separator,
}

impl View for SubEntry {
    type V = SubEntryView;

    open spec fn view(&self) -> SubEntryView {
        match self {
            SubEntry::Item(item) => SubEntryView::Item(item@),
            SubEntry::Separator => SubEntryView::Separator,
        }
    }
}

/// A labelled submenu holding a flat run of entries.
#[derive(Clone, Debug)]
pub struct Submenu {
    pub label: String,
    pub entries: Vec<SubEntry>,
}

#[verifier::ext_equal]
pub ghost struct SubmenuView {
    pub label: Seq<char>,
    pub entries: Seq<SubEntryView>,
}

impl View for Submenu {
    type V = SubmenuView;

    open spec fn view(&self) -> SubmenuView {
        SubmenuView { label: self.label@, entries: self.entries@.map_values(|e: SubEntry| e@) }
    }
}

/// A top-level entry of the menu.
#[derive(Clone, Debug)]
pub enum MenuEntry {
    Item(MenuItem),
    Submenu(Submenu),
}

#[verifier::ext_equal]
pub ghost enum MenuEntryView {
    Item(MenuItemView),
    Submenu(SubmenuView),
}

impl View for MenuEntry {
    type V = MenuEntryView;

    open spec fn view(&self) -> MenuEntryView {
        match self {
            MenuEntry::Item(item) => MenuEntryView::Item(item@),
            MenuEntry::Submenu(sub) => MenuEntryView::Submenu(sub@),
        }
    }
}

/// A whole tray menu.
#[derive(Clone, Debug)]
pub struct Menu {
    pub entries: Vec<MenuEntry>,
}

#[verifier::ext_equal]
pub ghost struct MenuView {
    pub entries: Seq<MenuEntryView>,
}

impl View for Menu {
    type V = MenuView;

    open spec fn view(&self) -> MenuView {
        MenuView { entries: self.entries@.map_values(|e: MenuEntry| e@) }
    }
}

/// Identifiers carried by one submenu entry: a separator has none.
pub open spec fn sub_entry_ids(e: SubEntryView) -> Seq<Seq<char>> {
    match e {
        SubEntryView::Item(item) => seq![item.id],
        SubEntryView::Separator => seq![],
    }
}

/// Identifiers carried by a run of submenu entries, in order.
pub open spec fn sub_entries_ids(es: Seq<SubEntryView>) -> Seq<Seq<char>>
    decreases es.len(),
{
    if es.len() == 0 {
        seq![]
    } else {
        sub_entries_ids(es.drop_last()) + sub_entry_ids(es.last())
    }
}

/// Identifiers carried by one top-level entry, submenu items included.
pub open spec fn entry_ids(e: MenuEntryView) -> Seq<Seq<char>> {
    match e {
        MenuEntryView::Item(item) => seq![item.id],
        MenuEntryView::Submenu(sub) => sub_entries_ids(sub.entries),
    }
}

/// All identifiers of a menu, in display order, submenu items included.
pub open spec fn menu_ids(m: MenuView) -> Seq<Seq<char>>
    decreases m.entries.len(),
{
    if m.entries.len() == 0 {
        seq![]
    } else {
        menu_ids(MenuView { entries: m.entries.drop_last() }) + entry_ids(m.entries.last())
    }
}

/// Flat list of the menu's identifiers, for callers that want to inspect
/// or display them.
pub fn menu_id_list(m: &Menu) -> (r: Vec<String>)
    ensures
        r@.map_values(|s: String| s@) == menu_ids(m@),
{
    let mut out: Vec<String> = Vec::new();
    let mut i: usize = 0;
    while i < m.entries.len()
        invariant
            i <= m.entries.len(),
            out@.map_values(|s: String| s@) == menu_ids(
                MenuView { entries: m.entries@.map_values(|e: MenuEntry| e@).take(i as int) },
            ),
        decreases m.entries.len() - i,
    {
        let ghost prefix = m.entries@.map_values(|e: MenuEntry| e@).take(i as int);
        match &m.entries[i] {
            MenuEntry::Item(item) => {
                out.push(item.id.clone());
            },
            MenuEntry::Submenu(sub) => {
                let mut j: usize = 0;
                while j < sub.entries.len()
                    invariant
                        j <= sub.entries.len(),
                        out@.map_values(|s: String| s@) == menu_ids(MenuView { entries: prefix })
                            + sub_entries_ids(
                            sub.entries@.map_values(|e: SubEntry| e@).take(j as int),
                        ),
                    decreases sub.entries.len() - j,
                {
                    let ghost out_pre = out@;
                    match &sub.entries[j] {
                        SubEntry::Item(item) => {
                            out.push(item.id.clone());
                            proof {
                                assert(out@ =~= out_pre.push(item.id));
                            }
                        },
                        SubEntry::Separator => {},
                    }
                    proof {
                        let svs = sub.entries@.map_values(|e: SubEntry| e@);
                        assert(svs[j as int] == sub.entries[j as int]@);
                        assert(sub_entries_ids(svs.take(j + 1)) == sub_entries_ids(
                            svs.take(j as int),
                        ) + sub_entry_ids(svs[j as int])) by {
                            assert(svs.take(j + 1).drop_last() =~= svs.take(j as int));
                            assert(svs.take(j + 1).last() == svs[j as int]);
                        }
                        assert(out@.map_values(|s: String| s@) =~= out_pre.map_values(
                            |s: String| s@,
                        ) + sub_entry_ids(svs[j as int]));
                        assert(out@.map_values(|s: String| s@) =~= menu_ids(
                            MenuView { entries: prefix },
                        ) + sub_entries_ids(svs.take(j + 1)));
                    }
                    j = j + 1;
                }
                proof {
                    let svs = sub.entries@.map_values(|e: SubEntry| e@);
                    assert(svs.take(sub.entries@.len() as int) =~= svs);
                }
            },
        }
        proof {
            let evs = m.entries@.map_values(|e: MenuEntry| e@);
            assert(menu_ids(MenuView { entries: evs.take(i + 1) }) == menu_ids(
                MenuView { entries: evs.take(i as int) },
            ) + entry_ids(evs[i as int])) by {
                assert(evs.take(i + 1).drop_last() =~= evs.take(i as int));
                assert(evs.take(i + 1).last() == evs[i as int]);
            }
            assert(out@.map_values(|s: String| s@) =~= menu_ids(
                MenuView { entries: evs.take(i + 1) },
            ));
        }
        i = i + 1;
    }
    proof {
        let evs = m.entries@.map_values(|e: MenuEntry| e@);
        assert(evs.take(m.entries@.len() as int) =~= evs);
    }
    out
}

} // verus!
