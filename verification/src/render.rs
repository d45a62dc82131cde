use vstd::prelude::*;
use crate::constants::{StyleTag, UiStyle};
use crate::screen::{CreationState, NewTeamScreen, UiCallbackPreset};
use crate::world::{PlanetSnapshot, PlayerSnapshot, WorldSnapshot};

verus! {

/// One line of a selection list: its text, an optional price shown beside
/// it, and its style tag.
pub struct ListItem {
    pub label: String,
    pub amount: Option<u32>,
    pub style: StyleTag,
}

/// What one selection panel shows: its border style, and either the label
/// of the already-confirmed choice, or the full list with the cursor, or
/// nothing while the stage is still locked.
pub struct SelectionPanel {
    pub border_style: StyleTag,
    pub chosen_label: Option<String>,
    pub items: Vec<ListItem>,
    pub selected: Option<usize>,
}

/// The roster panel: its border style, how many more candidates are to be
/// chosen, and the bucket's lines.
pub struct PlayerListPanel {
    pub border_style: StyleTag,
    pub remaining_to_select: usize,
    pub items: Vec<ListItem>,
    pub selected: Option<usize>,
}

/// A reference into the snapshot that could not be resolved: the pool keeps
/// identifiers, and a stale snapshot may no longer list one of them.
#[derive(Clone, Copy, Debug, PartialEq, Eq, Structural)]
pub enum SnapshotError {
    MissingPlanet(u64),
    MissingPlayer(u64),
}

/// Whether the snapshot still lists a planet with this identifier.
pub open spec fn has_planet(planets: Seq<PlanetSnapshot>, id: u64) -> bool
    decreases planets.len(),
{
    if planets.len() == 0 {
        false
    } else {
        planets[0].id == id || has_planet(planets.drop_first(), id)
    }
}

/// The display name of the first planet carrying this identifier; empty
/// when the snapshot lists none.
pub open spec fn planet_name_in(planets: Seq<PlanetSnapshot>, id: u64) -> Seq<char>
    decreases planets.len(),
{
    if planets.len() == 0 {
        Seq::empty()
    } else if planets[0].id == id {
        planets[0].name@
    } else {
        planet_name_in(planets.drop_first(), id)
    }
}

/// Whether the snapshot still lists a player with this identifier.
pub open spec fn has_player(players: Seq<PlayerSnapshot>, id: u64) -> bool
    decreases players.len(),
{
    if players.len() == 0 {
        false
    } else {
        players[0].id == id || has_player(players.drop_first(), id)
    }
}

/// The full display name of the first player carrying this identifier;
/// empty when the snapshot lists none.
pub open spec fn player_name_in(players: Seq<PlayerSnapshot>, id: u64) -> Seq<char>
    decreases players.len(),
{
    if players.len() == 0 {
        Seq::empty()
    } else if players[0].id == id {
        players[0].first_name@ + " "@ + players[0].last_name@
    } else {
        player_name_in(players.drop_first(), id)
    }
}

/// The introduction shown while a name is being typed.
pub fn intro_text() -> (r: &'static str)
    ensures
        r@ == "It's the year 2101. Corporations have taken over the world.\n\
        The only way to be free is to join a pirate crew and start plundering the galaxy.\n\
        The only mean of survival is to play basketball.\n\
        \n\
        Now it's your turn to go out there and make a name for yourself.\n\
        Create your crew and start wondering the galaxy in search of worthy basketball opponents.\n\
        \n\
        Choose your team name, customize your ship, and select a worthy crew.\n\
        \n\
        [Press enter to confirm selections.]"@,
        r@.len() > 0,
{
    let r = "It's the year 2101. Corporations have taken over the world.\n\
        The only way to be free is to join a pirate crew and start plundering the galaxy.\n\
        The only mean of survival is to play basketball.\n\
        \n\
        Now it's your turn to go out there and make a name for yourself.\n\
        Create your crew and start wondering the galaxy in search of worthy basketball opponents.\n\
        \n\
        Choose your team name, customize your ship, and select a worthy crew.\n\
        \n\
        [Press enter to confirm selections.]";
    proof {
        reveal_strlit(
            "It's the year 2101. Corporations have taken over the world.\n\
        The only way to be free is to join a pirate crew and start plundering the galaxy.\n\
        The only mean of survival is to play basketball.\n\
        \n\
        Now it's your turn to go out there and make a name for yourself.\n\
        Create your crew and start wondering the galaxy in search of worthy basketball opponents.\n\
        \n\
        Choose your team name, customize your ship, and select a worthy crew.\n\
        \n\
        [Press enter to confirm selections.]",
        );
    }
    r
}


/// The planet a pool identifier refers to, if the snapshot still lists it.
fn find_planet<'a>(w: &'a WorldSnapshot, id: u64) -> (r: Option<&'a PlanetSnapshot>)
    ensures
        match r {
            Some(p) => has_planet(w.planets@, id) && p.id == id && p.name@ == planet_name_in(
                w.planets@,
                id,
            ),
            None => !has_planet(w.planets@, id),
        },
{
    let ghost s = w.planets@;
    proof {
        assert(s.subrange(0, s.len() as int) =~= s);
    }
    let mut k: usize = 0;
    while k < w.planets.len()
        invariant
            k <= s.len(),
            w.planets@ == s,
            has_planet(s, id) == has_planet(s.subrange(k as int, s.len() as int), id),
            planet_name_in(s, id) == planet_name_in(s.subrange(k as int, s.len() as int), id),
        decreases s.len() - k,
    {
        proof {
            let t = s.subrange(k as int, s.len() as int);
            assert(t[0] == s[k as int]);
            assert(t.drop_first() =~= s.subrange(k as int + 1, s.len() as int));
        }
        if w.planets[k].id == id {
            return Some(&w.planets[k]);
        }
        k = k + 1;
    }
    proof {
        assert(s.subrange(s.len() as int, s.len() as int) =~= Seq::<PlanetSnapshot>::empty());
    }
    None
}

/// The player a pool identifier refers to, if the snapshot still lists it.
fn find_player<'a>(w: &'a WorldSnapshot, id: u64) -> (r: Option<&'a PlayerSnapshot>)
    ensures
        match r {
            Some(p) => has_player(w.players@, id) && p.id == id && p.first_name@ + " "@
                + p.last_name@ == player_name_in(w.players@, id),
            None => !has_player(w.players@, id),
        },
{
    let ghost s = w.players@;
    proof {
        assert(s.subrange(0, s.len() as int) =~= s);
    }
    let mut k: usize = 0;
    while k < w.players.len()
        invariant
            k <= s.len(),
            w.players@ == s,
            has_player(s, id) == has_player(s.subrange(k as int, s.len() as int), id),
            player_name_in(s, id) == player_name_in(s.subrange(k as int, s.len() as int), id),
        decreases s.len() - k,
    {
        proof {
            let t = s.subrange(k as int, s.len() as int);
            assert(t[0] == s[k as int]);
            assert(t.drop_first() =~= s.subrange(k as int + 1, s.len() as int));
        }
        if w.players[k].id == id {
            return Some(&w.players[k]);
        }
        k = k + 1;
    }
    proof {
        assert(s.subrange(s.len() as int, s.len() as int) =~= Seq::<PlayerSnapshot>::empty());
    }
    None
}

impl NewTeamScreen {
    /// The ship-class panel: the confirmed choice once the stage is passed,
    /// the full class list while it is active, a locked border before that.
    pub fn spaceship_selection_panel(&self) -> (r: SelectionPanel)
        requires
            self.wf(),
        ensures
            self.state.rank_spec() > 4 ==> {
                &&& r.border_style == UiStyle::OK
                &&& (r.chosen_label matches Some(l) && l@
                    == self.spaceship_models@[self.spaceship_model_index as int].label_spec())
                &&& r.items@.len() == 0
                &&& r.selected is None
            },
            self.state == CreationState::ShipModel ==> {
                &&& r.border_style == UiStyle::DEFAULT
                &&& r.chosen_label is None
                &&& r.items@.len() == self.spaceship_models@.len()
                &&& forall|i: int|
                    0 <= i < r.items@.len() ==> (#[trigger] r.items@[i]).label@
                        == self.spaceship_models@[i].label_spec() && r.items@[i].amount == Some(
                        self.spaceship_models@[i].cost_spec(),
                    ) && r.items@[i].style == UiStyle::DEFAULT
                &&& r.selected == Some(self.spaceship_model_index)
            },
            self.state.rank_spec() < 4 ==> r.border_style == UiStyle::UNSELECTABLE
                && r.chosen_label is None && r.items@.len() == 0 && r.selected is None,
    {
        let rank = self.state.rank();
        if rank > 4 {
            let chosen = self.spaceship_models[self.spaceship_model_index].label();
            SelectionPanel {
                border_style: UiStyle::OK,
                chosen_label: Some(chosen),
                items: Vec::new(),
                selected: None,
            }
        } else if rank == 4 {
            let mut items: Vec<ListItem> = Vec::new();
            let mut i: usize = 0;
            while i < self.spaceship_models.len()
                invariant
                    i <= self.spaceship_models@.len(),
                    items@.len() == i,
                    forall|m: int|
                        0 <= m < i ==> (#[trigger] items@[m]).label@
                            == self.spaceship_models@[m].label_spec() && items@[m].amount == Some(
                            self.spaceship_models@[m].cost_spec(),
                        ) && items@[m].style == UiStyle::DEFAULT,
                decreases self.spaceship_models@.len() - i,
            {
                let model = self.spaceship_models[i];
                items.push(
                    ListItem {
                        label: model.label(),
                        amount: Some(model.cost()),
                        style: UiStyle::DEFAULT,
                    },
                );
                i = i + 1;
            }
            SelectionPanel {
                border_style: UiStyle::DEFAULT,
                chosen_label: None,
                items,
                selected: Some(self.spaceship_model_index),
            }
        } else {
            SelectionPanel {
                border_style: UiStyle::UNSELECTABLE,
                chosen_label: None,
                items: Vec::new(),
                selected: None,
            }
        }
    }

    /// The jersey panel, shaped like the ship-class panel one stage earlier.
    pub fn jersey_selection_panel(&self) -> (r: SelectionPanel)
        requires
            self.wf(),
        ensures
            self.state.rank_spec() > 3 ==> {
                &&& r.border_style == UiStyle::OK
                &&& (r.chosen_label matches Some(l) && l@
                    == self.jersey_styles@[self.jersey_style_index as int].label_spec())
                &&& r.items@.len() == 0
                &&& r.selected is None
            },
            self.state == CreationState::Jersey ==> {
                &&& r.border_style == UiStyle::DEFAULT
                &&& r.chosen_label is None
                &&& r.items@.len() == self.jersey_styles@.len()
                &&& forall|i: int|
                    0 <= i < r.items@.len() ==> (#[trigger] r.items@[i]).label@
                        == self.jersey_styles@[i].label_spec() && r.items@[i].amount is None
                        && r.items@[i].style == UiStyle::DEFAULT
                &&& r.selected == Some(self.jersey_style_index)
            },
            self.state.rank_spec() < 3 ==> r.border_style == UiStyle::UNSELECTABLE
                && r.chosen_label is None && r.items@.len() == 0 && r.selected is None,
    {
        let rank = self.state.rank();
        if rank > 3 {
            let chosen = self.jersey_styles[self.jersey_style_index].label();
            SelectionPanel {
                border_style: UiStyle::OK,
                chosen_label: Some(chosen),
                items: Vec::new(),
                selected: None,
            }
        } else if rank == 3 {
            let mut items: Vec<ListItem> = Vec::new();
            let mut i: usize = 0;
            while i < self.jersey_styles.len()
                invariant
                    i <= self.jersey_styles@.len(),
                    items@.len() == i,
                    forall|m: int|
                        0 <= m < i ==> (#[trigger] items@[m]).label@
                            == self.jersey_styles@[m].label_spec() && items@[m].amount is None
                            && items@[m].style == UiStyle::DEFAULT,
                decreases self.jersey_styles@.len() - i,
            {
                let style = self.jersey_styles[i];
                items.push(ListItem { label: style.label(), amount: None, style: UiStyle::DEFAULT });
                i = i + 1;
            }
            SelectionPanel {
                border_style: UiStyle::DEFAULT,
                chosen_label: None,
                items,
                selected: Some(self.jersey_style_index),
            }
        } else {
            SelectionPanel {
                border_style: UiStyle::UNSELECTABLE,
                chosen_label: None,
                items: Vec::new(),
                selected: None,
            }
        }
    }

    /// The location panel; its labels come from the snapshot, and a listed
    /// identifier the snapshot no longer knows is reported, not followed.
    pub fn planet_selection_panel(&self, w: &WorldSnapshot) -> (r: Result<
        SelectionPanel,
        SnapshotError,
    >)
        requires
            self.wf(),
        ensures
            self.state.rank_spec() < 2 ==> (r matches Ok(p) && p.border_style
                == UiStyle::UNSELECTABLE && p.chosen_label is None && p.items@.len() == 0
                && p.selected is None),
            self.state.rank_spec() > 2 && self.planet_index < self.planet_ids@.len() ==> match r {
                Ok(p) => {
                    &&& p.border_style == UiStyle::OK
                    &&& has_planet(w.planets@, self.planet_ids@[self.planet_index as int])
                    &&& (p.chosen_label matches Some(l) && l@ == planet_name_in(
                        w.planets@,
                        self.planet_ids@[self.planet_index as int],
                    ))
                    &&& p.items@.len() == 0
                    &&& p.selected is None
                },
                Err(e) => e == SnapshotError::MissingPlanet(
                    self.planet_ids@[self.planet_index as int],
                ) && !has_planet(w.planets@, self.planet_ids@[self.planet_index as int]),
            },
            self.state == CreationState::Planet ==> match r {
                Ok(p) => {
                    &&& p.border_style == UiStyle::DEFAULT
                    &&& p.chosen_label is None
                    &&& p.items@.len() == self.planet_ids@.len()
                    &&& forall|i: int|
                        0 <= i < p.items@.len() ==> (#[trigger] p.items@[i]).label@
                            == planet_name_in(w.planets@, self.planet_ids@[i])
                            && p.items@[i].style == UiStyle::DEFAULT
                    &&& p.selected == Some(self.planet_index)
                },
                Err(e) => exists|i: int|
                    0 <= i < self.planet_ids@.len() && e == SnapshotError::MissingPlanet(
                        #[trigger] self.planet_ids@[i],
                    ) && !has_planet(w.planets@, self.planet_ids@[i]),
            },
    {
        let rank = self.state.rank();
        if rank > 2 {
            if self.planet_index < self.planet_ids.len() {
                let id = self.planet_ids[self.planet_index];
                match find_planet(w, id) {
                    Some(p) => Ok(
                        SelectionPanel {
                            border_style: UiStyle::OK,
                            chosen_label: Some(p.name.clone()),
                            items: Vec::new(),
                            selected: None,
                        },
                    ),
                    None => Err(SnapshotError::MissingPlanet(id)),
                }
            } else {
                Ok(
                    SelectionPanel {
                        border_style: UiStyle::OK,
                        chosen_label: None,
                        items: Vec::new(),
                        selected: None,
                    },
                )
            }
        } else if rank == 2 {
            let mut items: Vec<ListItem> = Vec::new();
            let mut i: usize = 0;
            while i < self.planet_ids.len()
                invariant
                    self.state == CreationState::Planet,
                    self.wf(),
                    i <= self.planet_ids@.len(),
                    items@.len() == i,
                    forall|m: int|
                        0 <= m < i ==> (#[trigger] items@[m]).label@ == planet_name_in(
                            w.planets@,
                            self.planet_ids@[m],
                        ) && items@[m].style == UiStyle::DEFAULT,
                decreases self.planet_ids@.len() - i,
            {
                let id = self.planet_ids[i];
                match find_planet(w, id) {
                    Some(p) => {
                        let label = p.name.clone();
                        items.push(ListItem { label, amount: None, style: UiStyle::DEFAULT });
                    },
                    None => {
                        proof {
                            assert(self.planet_ids@[i as int] == id);
                        }
                        return Err(SnapshotError::MissingPlanet(id));
                    },
                }
                i = i + 1;
            }
            Ok(
                SelectionPanel {
                    border_style: UiStyle::DEFAULT,
                    chosen_label: None,
                    items,
                    selected: Some(self.planet_index),
                },
            )
        } else {
            Ok(
                SelectionPanel {
                    border_style: UiStyle::UNSELECTABLE,
                    chosen_label: None,
                    items: Vec::new(),
                    selected: None,
                },
            )
        }
    }

    /// Border of the theme panel: confirmed once the ship class is chosen,
    /// active from the theme stage on, locked before it.
    pub fn colors_panel_border(&self) -> (r: StyleTag)
        ensures
            self.state.rank_spec() > 4 ==> r == UiStyle::OK,
            3 <= self.state.rank_spec() <= 4 ==> r == UiStyle::DEFAULT,
            self.state.rank_spec() < 3 ==> r == UiStyle::UNSELECTABLE,
    {
        let rank = self.state.rank();
        if rank > 4 {
            UiStyle::OK
        } else if rank >= 3 {
            UiStyle::DEFAULT
        } else {
            UiStyle::UNSELECTABLE
        }
    }

    /// The three theme buttons' intents: each cycles its channel one step
    /// along the palette.
    pub fn color_cycle_buttons(&self) -> (r: (
        UiCallbackPreset,
        UiCallbackPreset,
        UiCallbackPreset,
    ))
        ensures
            r.0 == Self::cycle_intent(*self, 0),
            r.1 == Self::cycle_intent(*self, 1),
            r.2 == Self::cycle_intent(*self, 2),
    {
        (
            UiCallbackPreset::SetTeamColors { color: self.red_color_preset.next(), channel: 0 },
            UiCallbackPreset::SetTeamColors { color: self.green_color_preset.next(), channel: 1 },
            UiCallbackPreset::SetTeamColors { color: self.blue_color_preset.next(), channel: 2 },
        )
    }

    /// The balance line: the remaining balance, styled green while it is
    /// not negative and red once it is.
    pub fn balance_panel(&self) -> (r: (i64, StyleTag))
        requires
            self.wf(),
        ensures
            r.0 as int == self.remaining_balance_spec(),
            r.1 == (if self.remaining_balance_spec() >= 0 {
                UiStyle::OK
            } else {
                UiStyle::ERROR
            }),
    {
        let balance = self.get_remaining_balance();
        let style = if balance >= 0 {
            UiStyle::OK
        } else {
            UiStyle::ERROR
        };
        (balance, style)
    }

    /// The roster panel: before the roster stage only the locked border and
    /// the count of candidates still to choose; at and after it, one line
    /// per bucket entry, chosen candidates highlighted, and after the stage
    /// the unchosen ones blanked out.
    pub fn player_list_panel(&self, w: &WorldSnapshot) -> (r: Result<
        PlayerListPanel,
        SnapshotError,
    >)
        requires
            self.wf(),
        ensures
            self.state.rank_spec() < 5 ==> (r matches Ok(p) && p.border_style
                == UiStyle::UNSELECTABLE && p.items@.len() == 0 && p.selected is None
                && p.remaining_to_select as int == (if self.max_players_spec()
                >= self.selected_players@.len() {
                self.max_players_spec() - self.selected_players@.len()
            } else {
                0
            })),
            self.state.rank_spec() >= 5 ==> match r {
                Ok(p) => {
                    &&& p.border_style == (if self.state.rank_spec() > 5 {
                        UiStyle::OK
                    } else {
                        UiStyle::DEFAULT
                    })
                    &&& p.remaining_to_select as int == (if self.max_players_spec()
                        >= self.selected_players@.len() {
                        self.max_players_spec() - self.selected_players@.len()
                    } else {
                        0
                    })
                    &&& p.items@.len() == self.cur_bucket().len()
                    &&& forall|i: int|
                        0 <= i < p.items@.len() ==> (#[trigger] p.items@[i]).style == (
                        if self.selected_players@.contains(self.cur_bucket()[i].player_id)
                            && self.state.rank_spec() <= 5 {
                            UiStyle::OK
                        } else {
                            UiStyle::DEFAULT
                        })
                    &&& forall|i: int|
                        0 <= i < p.items@.len() ==> (#[trigger] p.items@[i]).amount == (
                        if self.state.rank_spec() > 5 && !self.selected_players@.contains(
                            self.cur_bucket()[i].player_id,
                        ) {
                            None
                        } else {
                            Some(self.cur_bucket()[i].cost)
                        })
                    &&& forall|i: int|
                        0 <= i < p.items@.len() ==> (#[trigger] p.items@[i]).label@ == (
                        if self.state.rank_spec() > 5 && !self.selected_players@.contains(
                            self.cur_bucket()[i].player_id,
                        ) {
                            Seq::<char>::empty()
                        } else {
                            player_name_in(w.players@, self.cur_bucket()[i].player_id)
                        })
                    &&& p.selected == (if self.state.rank_spec() > 5 {
                        None
                    } else {
                        Some(self.player_index)
                    })
                },
                Err(e) => exists|i: int|
                    0 <= i < self.cur_bucket().len() && e == SnapshotError::MissingPlayer(
                        (#[trigger] self.cur_bucket()[i]).player_id,
                    ) && !has_player(w.players@, self.cur_bucket()[i].player_id),
            },
    {
        let max = self.max_players_selected();
        let chosen = self.selected_players.len();
        let remaining: usize = if max >= chosen {
            max - chosen
        } else {
            0
        };
        let rank = self.state.rank();
        if rank < 5 {
            return Ok(
                PlayerListPanel {
                    border_style: UiStyle::UNSELECTABLE,
                    remaining_to_select: remaining,
                    items: Vec::new(),
                    selected: None,
                },
            );
        }
        let mut items: Vec<ListItem> = Vec::new();
        if self.planet_index < self.planet_ids.len() {
            let bucket = &self.planet_players[self.planet_index];
            let mut i: usize = 0;
            while i < bucket.len()
                invariant
                    i <= bucket@.len(),
                    bucket@ == self.cur_bucket(),
                    self.wf(),
                    rank as int == self.state.rank_spec(),
                    rank >= 5,
                    items@.len() == i,
                    forall|m: int|
                        0 <= m < i ==> (#[trigger] items@[m]).style == (
                        if self.selected_players@.contains(bucket@[m].player_id) && rank <= 5 {
                            UiStyle::OK
                        } else {
                            UiStyle::DEFAULT
                        }),
                    forall|m: int|
                        0 <= m < i ==> (#[trigger] items@[m]).amount == (
                        if rank > 5 && !self.selected_players@.contains(bucket@[m].player_id) {
                            None
                        } else {
                            Some(bucket@[m].cost)
                        }),
                    forall|m: int|
                        0 <= m < i ==> (#[trigger] items@[m]).label@ == (
                        if rank > 5 && !self.selected_players@.contains(bucket@[m].player_id) {
                            Seq::<char>::empty()
                        } else {
                            player_name_in(w.players@, bucket@[m].player_id)
                        }),
                decreases bucket@.len() - i,
            {
                let entry = bucket[i];
                let is_chosen = self.roster_contains(entry.player_id);
                let style = if is_chosen && rank <= 5 {
                    UiStyle::OK
                } else {
                    UiStyle::DEFAULT
                };
                if rank > 5 && !is_chosen {
                    items.push(ListItem { label: String::new(), amount: None, style });
                } else {
                    match find_player(w, entry.player_id) {
                        Some(p) => {
                            let label = p.first_name.clone().concat(" ").concat(
                                p.last_name.as_str(),
                            );
                            items.push(ListItem { label, amount: Some(entry.cost), style });
                        },
                        None => {
                            proof {
                                assert(self.cur_bucket()[i as int] == entry);
                            }
                            return Err(SnapshotError::MissingPlayer(entry.player_id));
                        },
                    }
                }
                i = i + 1;
            }
        }
        Ok(
            PlayerListPanel {
                border_style: if rank > 5 {
                    UiStyle::OK
                } else {
                    UiStyle::DEFAULT
                },
                remaining_to_select: remaining,
                items,
                selected: if rank > 5 {
                    None
                } else {
                    Some(self.player_index)
                },
            },
        )
    }

    /// Whether a candidate is in the chosen roster.
    pub fn roster_contains(&self, id: u64) -> (r: bool)
        ensures
            r == self.selected_players@.contains(id),
    {
        let mut i: usize = 0;
        while i < self.selected_players.len()
            invariant
                i <= self.selected_players@.len(),
                forall|m: int| 0 <= m < i ==> self.selected_players@[m] != id,
            decreases self.selected_players@.len() - i,
        {
            if self.selected_players[i] == id {
                return true;
            }
            i = i + 1;
        }
        proof {
            if self.selected_players@.contains(id) {
                let k = choose|k: int|
                    0 <= k < self.selected_players@.len() && self.selected_players@[k] == id;
            }
        }
        false
    }

    /// The confirmation box's headline: the team's name and its home
    /// planet's, or the unresolved identifier.
    pub fn confirm_headline(&self, w: &WorldSnapshot) -> (r: Result<String, SnapshotError>)
        requires
            self.wf(),
            self.planet_index < self.planet_ids@.len(),
        ensures
            match r {
                Ok(line) => has_planet(w.planets@, self.planet_ids@[self.planet_index as int])
                    && line@ == self.team_name@ + " from "@ + planet_name_in(
                    w.planets@,
                    self.planet_ids@[self.planet_index as int],
                ),
                Err(e) => e == SnapshotError::MissingPlanet(
                    self.planet_ids@[self.planet_index as int],
                ) && !has_planet(w.planets@, self.planet_ids@[self.planet_index as int]),
            },
    {
        let id = self.planet_ids[self.planet_index];
        match find_planet(w, id) {
            Some(p) => {
                let name = crate::text::chars_to_string(&self.team_name);
                let line = name.concat(" from ").concat(p.name.as_str());
                Ok(line)
            },
            None => Err(SnapshotError::MissingPlanet(id)),
        }
    }
}

} // verus!
