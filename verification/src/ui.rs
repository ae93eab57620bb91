//! The grid-side application state: which catalog entries are displayed under
//! the current filters, the edit/filter-lock toggles, and how key presses
//! change them.
//!
//! Rendering itself (textures, colors, layout) lives with the caller; this
//! module owns every decision: the visibility filter, the key dispatch state
//! machine, the window title text, and the per-tile highlight kind.

use vstd::prelude::*;

use crate::catalog::Game;
use crate::coordinator::{activate, in_flight, plan_for, ActivateDecision};
use crate::numfmt::{dec_rep, usize_to_string};
use crate::status::{LaunchError, LaunchStatus, StatusStore};

verus! {

/// Which slice of the catalog the grid shows.
#[derive(Clone, Copy, PartialEq, Eq, Structural, Debug)]
pub enum DisplayFilter {
    All,
    /// Only entries marked suitable for the kids.
    Kids,
    /// Only entries marked not for the kids.
    Dad,
    /// Only entries nobody has classified yet.
    NotInterested,
}

/// The keys the grid reacts to; anything else is passed back to the caller
/// with its raw key code.
#[derive(Clone, Copy, PartialEq, Eq, Structural, Debug)]
pub enum Key {
    K,
    D,
    U,
    A,
    I,
    O,
    E,
    F,
    Other(u32),
}

/// The modifier keys held during a key press.
#[derive(Clone, Copy, PartialEq, Eq, Structural, Debug)]
pub struct Modifiers {
    pub ctrl: bool,
    pub shift: bool,
}

/// The color class of a tile's classification dot.
#[derive(Clone, Copy, PartialEq, Eq, Structural, Debug)]
pub enum HighlightKind {
    Kids,
    NotKids,
    Unknown,
}

/// The mathematical model of the grid state.
pub struct DoorwaysModel {
    pub games: Seq<Game>,
    pub display_filter: DisplayFilter,
    pub display_installed: Option<bool>,
    pub displayed_games: Seq<usize>,
    pub edit_mode: bool,
    pub allow_filter: bool,
    pub show_overlay: bool,
}

/// The grid state: the catalog, the current filters, and the indices of the
/// entries they leave visible.
pub struct Doorways {
    pub games: Vec<Game>,
    pub display_filter: DisplayFilter,
    /// `Some(v)` shows only entries with `installed == v`; `None` shows both.
    pub display_installed: Option<bool>,
    /// The catalog indices currently displayed, in catalog order.
    pub displayed_games: Vec<usize>,
    /// While set, the classification keys edit the selected entry instead of
    /// switching filters.
    pub edit_mode: bool,
    /// While unset, the filter keys are passed back to the caller untouched.
    pub allow_filter: bool,
    pub show_overlay: bool,
}

impl View for Doorways {
    type V = DoorwaysModel;

    open spec fn view(&self) -> DoorwaysModel {
        DoorwaysModel {
            games: self.games@,
            display_filter: self.display_filter,
            display_installed: self.display_installed,
            displayed_games: self.displayed_games@,
            edit_mode: self.edit_mode,
            allow_filter: self.allow_filter,
            show_overlay: self.show_overlay,
        }
    }
}

/// The boolean in `o`, or `d` if unset.
pub open spec fn opt_or(o: Option<bool>, d: bool) -> bool {
    match o {
        Some(v) => v,
        None => d,
    }
}

/// Whether entry `g` is visible under the given filters: never when hidden;
/// the installed filter must match when set; and the display filter reads the
/// `kids` tri-state, counting an unclassified entry as kids-suitable for the
/// `Dad` view and not for the `Kids` view.
pub open spec fn visible(g: Game, df: DisplayFilter, di: Option<bool>) -> bool {
    &&& !opt_or(g.hidden, false)
    &&& match di {
        Some(v) => g.installed == v,
        None => true,
    }
    &&& match df {
        DisplayFilter::All => true,
        DisplayFilter::Dad => !opt_or(g.kids, true),
        DisplayFilter::Kids => opt_or(g.kids, false),
        DisplayFilter::NotInterested => g.kids is None,
    }
}

/// The indices of the visible entries, in catalog order.
pub open spec fn visible_indices(games: Seq<Game>, df: DisplayFilter, di: Option<bool>) -> Seq<
    usize,
>
    decreases games.len(),
{
    if games.len() == 0 {
        Seq::empty()
    } else {
        let pre = visible_indices(games.drop_last(), df, di);
        if visible(games.last(), df, di) {
            pre.push((games.len() - 1) as usize)
        } else {
            pre
        }
    }
}

/// Every visible index is in bounds of the catalog it was computed from.
pub proof fn lemma_visible_indices_bounds(games: Seq<Game>, df: DisplayFilter, di: Option<bool>)
    ensures
        forall|k: int|
            0 <= k < visible_indices(games, df, di).len() ==> (#[trigger] visible_indices(
                games,
                df,
                di,
            )[k]) < games.len(),
    decreases games.len(),
{
    if games.len() > 0 {
        lemma_visible_indices_bounds(games.drop_last(), df, di);
        let pre = visible_indices(games.drop_last(), df, di);
        let cur = visible_indices(games, df, di);
        assert forall|k: int| 0 <= k < cur.len() implies cur[k] < games.len() by {
            if k < pre.len() {
                assert(cur[k] == pre[k]);
                assert(pre[k] < games.drop_last().len());
            }
        }
    }
}

/// The model invariant: every displayed index points into the catalog.
pub open spec fn wf(m: DoorwaysModel) -> bool {
    forall|k: int|
        0 <= k < m.displayed_games.len() ==> (#[trigger] m.displayed_games[k]) < m.games.len()
}

/// `m` after switching the display filter to `df`: the visible indices are
/// recomputed, nothing else moves.
pub open spec fn update_filter_model(m: DoorwaysModel, df: DisplayFilter) -> DoorwaysModel {
    DoorwaysModel {
        display_filter: df,
        displayed_games: visible_indices(m.games, df, m.display_installed),
        ..m
    }
}

/// `g` with its kids classification replaced.
pub open spec fn with_kids(g: Game, k: Option<bool>) -> Game {
    Game { kids: k, ..g }
}

/// The full key dispatch state machine: what one key press turns the state
/// into, and which presses are handed back to the caller. `gi` is the catalog
/// index of the selected tile.
///
/// In edit mode the bare classification keys re-label the selected entry.
/// Otherwise Ctrl-O toggles the overlay (and still falls through to the
/// filter dispatch), Ctrl-E toggles edit mode, Ctrl-F toggles the filter
/// lock; while the lock is closed every remaining press is handed back, and
/// while open the filter keys switch views, `I` cycles the installed filter
/// (Shift-I clears it), and anything else is handed back.
pub open spec fn key_down_model(m: DoorwaysModel, gi: int, key: Key, mods: Modifiers) -> (
    DoorwaysModel,
    Option<(Key, Modifiers)>,
) {
    if m.edit_mode && (key == Key::K || key == Key::D || key == Key::U) {
        let k = if key == Key::K {
            Some(true)
        } else if key == Key::D {
            Some(false)
        } else {
            None
        };
        (DoorwaysModel { games: m.games.update(gi, with_kids(m.games[gi], k)), ..m }, None)
    } else {
        let m1 = if mods.ctrl && key == Key::O {
            DoorwaysModel { show_overlay: !m.show_overlay, ..m }
        } else {
            m
        };
        if mods.ctrl && key == Key::E {
            (DoorwaysModel { edit_mode: !m1.edit_mode, ..m1 }, None)
        } else if mods.ctrl && key == Key::F {
            (DoorwaysModel { allow_filter: !m1.allow_filter, ..m1 }, None)
        } else if !m1.allow_filter {
            (m1, Some((key, mods)))
        } else {
            match key {
                Key::K => (update_filter_model(m1, DisplayFilter::Kids), None),
                Key::D => (update_filter_model(m1, DisplayFilter::Dad), None),
                Key::U => (update_filter_model(m1, DisplayFilter::NotInterested), None),
                Key::A => (update_filter_model(m1, DisplayFilter::All), None),
                Key::I => {
                    let di = if mods.shift {
                        None
                    } else {
                        match m1.display_installed {
                            None => Some(true),
                            Some(v) => Some(!v),
                        }
                    };
                    let m2 = DoorwaysModel { display_installed: di, ..m1 };
                    (update_filter_model(m2, m2.display_filter), None)
                },
                _ => (m1, Some((key, mods))),
            }
        }
    }
}

/// The window title: the visible-entry count and the current filter state,
/// with a key or lock mark for the filter lock.
pub open spec fn window_title_chars(m: DoorwaysModel) -> Seq<char> {
    "Doorways "@ + dec_rep(m.displayed_games.len()) + " (Filter: "@ + (match m.display_filter {
        DisplayFilter::All => "All"@,
        DisplayFilter::Dad => "Dad"@,
        DisplayFilter::Kids => "Kids"@,
        DisplayFilter::NotInterested => "Unknown"@,
    }) + (match m.display_installed {
        None => ""@,
        Some(true) => "[Installed]"@,
        Some(false) => "[Not Installed]"@,
    }) + (if m.allow_filter {
        "\u{1F511}"@
    } else {
        "\u{1F512}"@
    }) + ")"@
}

impl Doorways {
    /// An empty grid: no games, showing everything installed, filters locked.
    pub fn new() -> (d: Doorways)
        ensures
            d@.games == Seq::<Game>::empty(),
            d@.display_filter == DisplayFilter::All,
            d@.display_installed == Some(true),
            d@.displayed_games == Seq::<usize>::empty(),
            !d@.edit_mode,
            !d@.allow_filter,
            d@.show_overlay,
            wf(d@),
    {
        Doorways {
            games: Vec::new(),
            display_filter: DisplayFilter::All,
            display_installed: Some(true),
            displayed_games: Vec::new(),
            edit_mode: false,
            allow_filter: false,
            show_overlay: true,
        }
    }

    /// Switches the display filter to `df` and recomputes which entries are
    /// visible under it and the current installed filter.
    pub fn update_filter(&mut self, df: DisplayFilter)
        ensures
            final(self)@ == update_filter_model(old(self)@, df),
            wf(final(self)@),
    {
        self.display_filter = df;
        let ghost gs = self.games@;
        let ghost di = self.display_installed;
        let mut displayed: Vec<usize> = Vec::new();
        let mut i: usize = 0;
        while i < self.games.len()
            invariant
                0 <= i <= gs.len(),
                self.games@ == gs,
                self.display_filter == df,
                self.display_installed == di,
                displayed@ == visible_indices(gs.take(i as int), df, di),
            decreases gs.len() - i,
        {
            proof {
                assert(gs.take(i + 1).drop_last() =~= gs.take(i as int));
                assert(gs.take(i + 1).last() == gs[i as int]);
            }
            let g = &self.games[i];
            let not_hidden = !g.hidden.unwrap_or(false);
            let installed_ok = match self.display_installed {
                Some(v) => g.installed == v,
                None => true,
            };
            let filter_ok = match self.display_filter {
                DisplayFilter::All => true,
                DisplayFilter::Dad => !g.kids.unwrap_or(true),
                DisplayFilter::Kids => g.kids.unwrap_or(false),
                DisplayFilter::NotInterested => g.kids.is_none(),
            };
            if not_hidden && installed_ok && filter_ok {
                displayed.push(i);
            }
            i += 1;
        }
        proof {
            assert(gs.take(gs.len() as int) =~= gs);
            lemma_visible_indices_bounds(gs, df, di);
        }
        self.displayed_games = displayed;
    }

    /// The catalog indices of the currently displayed tiles.
    pub fn tiles(&self) -> (t: &Vec<usize>)
        ensures
            t@ == self@.displayed_games,
    {
        &self.displayed_games
    }

    /// Replaces the kids classification of catalog entry `gi`.
    fn set_kids(&mut self, gi: usize, k: Option<bool>)
        requires
            gi < old(self).games@.len(),
        ensures
            final(self)@ == (DoorwaysModel {
                games: old(self)@.games.update(gi as int, with_kids(old(self)@.games[gi as int], k)),
                ..old(self)@
            }),
    {
        let e = self.games.remove(gi);
        let e2 = Game { kids: k, ..e };
        self.games.insert(gi, e2);
        proof {
            assert(self.games@ =~= old(self).games@.update(
                gi as int,
                with_kids(old(self).games@[gi as int], k),
            ));
        }
    }

    /// Handles one key press on the tile at display position `i`, per
    /// `key_down_model`; returns the presses this grid does not consume.
    pub fn key_down(&mut self, i: usize, keycode: Key, keymod: Modifiers) -> (r: Option<
        (Key, Modifiers),
    >)
        requires
            wf(old(self)@),
            i < old(self).displayed_games@.len(),
        ensures
            final(self)@ == key_down_model(
                old(self)@,
                old(self).displayed_games@[i as int] as int,
                keycode,
                keymod,
            ).0,
            r == key_down_model(
                old(self)@,
                old(self).displayed_games@[i as int] as int,
                keycode,
                keymod,
            ).1,
            wf(final(self)@),
    {
        let game_index = self.displayed_games[i];
        if self.edit_mode {
            match keycode {
                Key::K => {
                    self.set_kids(game_index, Some(true));
                    return None;
                },
                Key::D => {
                    self.set_kids(game_index, Some(false));
                    return None;
                },
                Key::U => {
                    self.set_kids(game_index, None);
                    return None;
                },
                _ => {},
            }
        }
        if keymod.ctrl && keycode == Key::O {
            self.show_overlay = !self.show_overlay;
        }
        if keymod.ctrl {
            if keycode == Key::E {
                self.edit_mode = !self.edit_mode;
                return None;
            }
            if keycode == Key::F {
                self.allow_filter = !self.allow_filter;
                return None;
            }
        }
        if !self.allow_filter {
            return Some((keycode, keymod));
        }
        match keycode {
            Key::K => {
                self.update_filter(DisplayFilter::Kids);
            },
            Key::D => {
                self.update_filter(DisplayFilter::Dad);
            },
            Key::U => {
                self.update_filter(DisplayFilter::NotInterested);
            },
            Key::A => {
                self.update_filter(DisplayFilter::All);
            },
            Key::I => {
                self.display_installed = if keymod.shift {
                    None
                } else {
                    match self.display_installed {
                        None => Some(true),
                        Some(v) => Some(!v),
                    }
                };
                let df = self.display_filter;
                self.update_filter(df);
            },
            _ => {
                return Some((keycode, keymod));
            },
        }
        None
    }

    /// The color class of catalog entry `i`'s classification dot.
    pub fn highlight_kind(&self, i: usize) -> (h: HighlightKind)
        requires
            i < self@.games.len(),
        ensures
            h == match self@.games[i as int].kids {
                Some(true) => HighlightKind::Kids,
                Some(false) => HighlightKind::NotKids,
                None => HighlightKind::Unknown,
            },
    {
        match self.games[i].kids {
            Some(true) => HighlightKind::Kids,
            Some(false) => HighlightKind::NotKids,
            None => HighlightKind::Unknown,
        }
    }

    /// The window title for the current state.
    pub fn window_title(&self) -> (t: String)
        ensures
            t@ == window_title_chars(self@),
    {
        proof {
            reveal_strlit("Doorways ");
            reveal_strlit(" (Filter: ");
            reveal_strlit("All");
            reveal_strlit("Dad");
            reveal_strlit("Kids");
            reveal_strlit("Unknown");
            reveal_strlit("");
            reveal_strlit("[Installed]");
            reveal_strlit("[Not Installed]");
            reveal_strlit("\u{1F511}");
            reveal_strlit("\u{1F512}");
            reveal_strlit(")");
        }
        let mut t = String::from_str("Doorways ");
        let count = usize_to_string(self.displayed_games.len());
        t.append(count.as_str());
        t.append(" (Filter: ");
        t.append(
            match self.display_filter {
                DisplayFilter::All => "All",
                DisplayFilter::Dad => "Dad",
                DisplayFilter::Kids => "Kids",
                DisplayFilter::NotInterested => "Unknown",
            },
        );
        t.append(
            match self.display_installed {
                None => "",
                Some(true) => "[Installed]",
                Some(false) => "[Not Installed]",
            },
        );
        t.append(
            if self.allow_filter {
                "\u{1F511}"
            } else {
                "\u{1F512}"
            },
        );
        t.append(")");
        t
    }

    /// Activates the tile for catalog entry `i`: gates on the current status,
    /// records the new one, and returns what the caller must spawn, as
    /// `crate::coordinator::activate` does for this entry.
    pub fn act(&self, i: usize, store: &mut StatusStore, sep: &str) -> (d: ActivateDecision)
        requires
            i < self@.games.len(),
        ensures
            in_flight(old(store)@, i) ==> d is InFlight && final(store)@ == old(store)@,
            !in_flight(old(store)@, i) && crate::catalog::has_launch_target(
                self@.games[i as int],
            ) ==> {
                &&& d matches ActivateDecision::Launch(plan)
                &&& plan_for(self@.games[i as int], sep@, plan)
                &&& final(store)@ == old(store)@.insert(i, LaunchStatus::Starting)
            },
            !in_flight(old(store)@, i) && !crate::catalog::has_launch_target(
                self@.games[i as int],
            ) ==> {
                &&& d is NoTarget
                &&& final(store)@ == old(store)@.insert(
                    i,
                    LaunchStatus::FailedToLaunch(LaunchError::MissingLaunchTarget),
                )
            },
    {
        activate(store, &self.games[i], i, sep)
    }
}

} // verus!
