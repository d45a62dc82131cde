use vstd::prelude::*;

verus! {

/// One discrete step of the team-creation wizard, in declaration order.
/// `next` and `previous` walk the order and saturate at both ends.
#[derive(Clone, Copy, Debug, PartialEq, Eq, Structural)]
pub enum CreationState {
    TeamName,
    ShipName,
    Planet,
    Jersey,
    ShipModel,
    Players,
    Done,
}

impl CreationState {
    /// Position of the stage in the wizard's order.
    pub open spec fn rank_spec(self) -> int {
        match self {
            CreationState::TeamName => 0,
            CreationState::ShipName => 1,
            CreationState::Planet => 2,
            CreationState::Jersey => 3,
            CreationState::ShipModel => 4,
            CreationState::Players => 5,
            CreationState::Done => 6,
        }
    }

    /// The stage after this one; the terminal stage is its own successor.
    pub open spec fn next_spec(self) -> CreationState {
        match self {
            CreationState::TeamName => CreationState::ShipName,
            CreationState::ShipName => CreationState::Planet,
            CreationState::Planet => CreationState::Jersey,
            CreationState::Jersey => CreationState::ShipModel,
            CreationState::ShipModel => CreationState::Players,
            CreationState::Players => CreationState::Done,
            CreationState::Done => CreationState::Done,
        }
    }

    /// The stage before this one; the first stage is its own predecessor.
    pub open spec fn previous_spec(self) -> CreationState {
        match self {
            CreationState::TeamName => CreationState::TeamName,
            CreationState::ShipName => CreationState::TeamName,
            CreationState::Planet => CreationState::ShipName,
            CreationState::Jersey => CreationState::Planet,
            CreationState::ShipModel => CreationState::Jersey,
            CreationState::Players => CreationState::ShipModel,
            CreationState::Done => CreationState::Players,
        }
    }

    pub fn rank(&self) -> (r: u8)
        ensures
            r as int == self.rank_spec(),
    {
        match self {
            CreationState::TeamName => 0,
            CreationState::ShipName => 1,
            CreationState::Planet => 2,
            CreationState::Jersey => 3,
            CreationState::ShipModel => 4,
            CreationState::Players => 5,
            CreationState::Done => 6,
        }
    }

    pub fn next(&self) -> (r: Self)
        ensures
            r == self.next_spec(),
    {
        match self {
            CreationState::TeamName => CreationState::ShipName,
            CreationState::ShipName => CreationState::Planet,
            CreationState::Planet => CreationState::Jersey,
            CreationState::Jersey => CreationState::ShipModel,
            CreationState::ShipModel => CreationState::Players,
            CreationState::Players => CreationState::Done,
            CreationState::Done => CreationState::Done,
        }
    }

    pub fn previous(&self) -> (r: Self)
        ensures
            r == self.previous_spec(),
    {
        match self {
            CreationState::TeamName => CreationState::TeamName,
            CreationState::ShipName => CreationState::TeamName,
            CreationState::Planet => CreationState::ShipName,
            CreationState::Jersey => CreationState::Planet,
            CreationState::ShipModel => CreationState::Jersey,
            CreationState::Players => CreationState::ShipModel,
            CreationState::Done => CreationState::Players,
        }
    }
}

/// The wizard's order saturates at both ends: stepping back from the first
/// stage or forward from the last stays put, so `next` then `previous` is
/// the identity only on the interior stages.
pub proof fn lemma_stage_saturation()
    ensures
        CreationState::TeamName.previous_spec() == CreationState::TeamName,
        CreationState::Done.next_spec() == CreationState::Done,
        CreationState::Done.next_spec().previous_spec() != CreationState::Done,
        forall|s: CreationState|
            s.rank_spec() < 5 ==> #[trigger] s.next_spec().previous_spec() == s,
{
}

} // verus!

use crate::color_map::{ColorMap, ColorPreset};
use crate::constants::{INITIAL_TEAM_BALANCE, INITIAL_TEAM_SIZE};
use crate::pool::{
    bucket_ids_nodup, build_buckets, build_ids, buckets_view, build_pool, sorted_asc,
    sorted_desc_rating, HireEntry,
};
use crate::world::{JerseyStyle, Spaceship, SpaceshipPrefab, WorldSnapshot};

verus! {

/// Which of the two confirmation buttons carries the highlight; cosmetic
/// only, the confirm and cancel keys act regardless of it.
#[derive(Clone, Copy, Debug, PartialEq, Eq, Structural)]
pub enum ConfirmChoice {
    Yes,
    No,
}

/// The intents the wizard hands to its shell: commit the finished team,
/// abandon the wizard, or recolor one theme channel.
#[derive(Clone, Debug)]
pub enum UiCallbackPreset {
    GeneratePlayerTeam {
        name: String,
        home_planet: u64,
        jersey_style: JerseyStyle,
        jersey_colors: ColorMap,
        players: Vec<u64>,
        balance: i64,
        spaceship: Spaceship,
    },
    CancelGeneratePlayerTeam,
    SetTeamColors { color: ColorPreset, channel: usize },
}

/// The team-creation wizard: one stage pointer, the free-text buffers, the
/// per-stage selection indices, the lazily built candidate pool, and the
/// chosen roster. Stepping back to the location stage keeps earlier
/// selections; candidates absent from the newly chosen location's bucket
/// stay in the roster but cost nothing there.
pub struct NewTeamScreen {
    pub state: CreationState,
    pub tick: usize,
    pub team_name: Vec<char>,
    pub team_name_valid: bool,
    pub ship_name: Vec<char>,
    pub ship_name_valid: bool,
    pub spaceship_models: Vec<SpaceshipPrefab>,
    pub spaceship_model_index: usize,
    pub planet_index: usize,
    pub planet_ids: Vec<u64>,
    pub jersey_styles: Vec<JerseyStyle>,
    pub jersey_style_index: usize,
    pub red_color_preset: ColorPreset,
    pub green_color_preset: ColorPreset,
    pub blue_color_preset: ColorPreset,
    pub player_index: usize,
    pub planet_players: Vec<Vec<HireEntry>>,
    pub selected_players: Vec<u64>,
    pub confirm: ConfirmChoice,
}

/// Hiring cost of one candidate at the current location: the cost recorded
/// for the first bucket entry carrying the identifier, or nothing when the
/// candidate is not listed there.
pub open spec fn cost_of(bucket: Seq<HireEntry>, id: u64) -> int
    decreases bucket.len(),
{
    if bucket.len() == 0 {
        0
    } else if bucket[0].player_id == id {
        bucket[0].cost as int
    } else {
        cost_of(bucket.drop_first(), id)
    }
}

/// Total hiring cost of the chosen candidates at the current location.
pub open spec fn hiring_costs(bucket: Seq<HireEntry>, selected: Seq<u64>) -> int
    decreases selected.len(),
{
    if selected.len() == 0 {
        0
    } else {
        hiring_costs(bucket, selected.drop_last()) + cost_of(bucket, selected.last())
    }
}

/// What is left of the starting funds after the chosen candidates and the
/// ship are paid: a pure function of the current bucket, the selection, and
/// the ship's price. It may be negative.
pub open spec fn balance_of(bucket: Seq<HireEntry>, selected: Seq<u64>, ship_cost: int) -> int {
    INITIAL_TEAM_BALANCE - hiring_costs(bucket, selected) - ship_cost
}

impl NewTeamScreen {
    /// The bucket of the currently chosen location; empty while no location
    /// list exists.
    pub open spec fn cur_bucket(self) -> Seq<HireEntry> {
        if self.planet_index < self.planet_ids@.len() {
            self.planet_players@[self.planet_index as int]@
        } else {
            Seq::empty()
        }
    }

    /// Price of the currently chosen ship class.
    pub open spec fn ship_cost_spec(self) -> int {
        if self.spaceship_model_index < self.spaceship_models@.len() {
            self.spaceship_models@[self.spaceship_model_index as int].cost_spec() as int
        } else {
            0
        }
    }

    /// The wizard's well-formedness: the pool lists one bucket per location,
    /// every selection index stays inside its list, the roster has no repeats
    /// and respects the team-size cap, and the pool keeps its build order.
    pub open spec fn wf(self) -> bool {
        &&& self.planet_players@.len() == self.planet_ids@.len()
        &&& (self.planet_index < self.planet_ids@.len() || self.planet_index == 0)
        &&& self.jersey_styles@.len() > 0
        &&& self.jersey_style_index < self.jersey_styles@.len()
        &&& self.spaceship_models@.len() > 0
        &&& self.spaceship_model_index < self.spaceship_models@.len()
        &&& (self.state == CreationState::Players ==> (self.player_index < self.cur_bucket().len()
            || self.player_index == 0))
        &&& self.selected_players@.no_duplicates()
        &&& self.selected_players@.len() <= INITIAL_TEAM_SIZE
        &&& sorted_asc(self.planet_ids@)
        &&& self.planet_ids@.no_duplicates()
        &&& forall|j: int|
            0 <= j < self.planet_players@.len() ==> sorted_desc_rating(
                #[trigger] self.planet_players@[j]@,
            )
        &&& forall|j: int|
            0 <= j < self.planet_players@.len() ==> bucket_ids_nodup(
                #[trigger] self.planet_players@[j]@,
            )
    }

    /// The remaining balance of this state.
    pub open spec fn remaining_balance_spec(self) -> int {
        balance_of(self.cur_bucket(), self.selected_players@, self.ship_cost_spec())
    }

    /// How many candidates may be chosen here: the team-size cap, or the
    /// whole bucket when it is smaller.
    pub open spec fn max_players_spec(self) -> int {
        if self.cur_bucket().len() < INITIAL_TEAM_SIZE {
            self.cur_bucket().len() as int
        } else {
            INITIAL_TEAM_SIZE as int
        }
    }

    /// The three theme channels resolved to colors.
    pub open spec fn theme_spec(self) -> ColorMap {
        ColorMap {
            red: self.red_color_preset.rgb_spec(),
            green: self.green_color_preset.rgb_spec(),
            blue: self.blue_color_preset.rgb_spec(),
        }
    }

    pub fn get_team_colors(&self) -> (r: ColorMap)
        ensures
            r == self.theme_spec(),
    {
        ColorMap {
            red: self.red_color_preset.to_rgb(),
            green: self.green_color_preset.to_rgb(),
            blue: self.blue_color_preset.to_rgb(),
        }
    }

    /// The ship as currently configured: chosen class, the ship-name buffer,
    /// and the theme colors.
    pub fn selected_ship(&self) -> (r: Spaceship)
        requires
            self.wf(),
        ensures
            r.prefab == self.spaceship_models@[self.spaceship_model_index as int],
            r.name@ == self.ship_name@,
            r.color_map == self.theme_spec(),
            r.cost_spec() as int == self.ship_cost_spec(),
    {
        let prefab = self.spaceship_models[self.spaceship_model_index];
        let name = crate::text::chars_to_string(&self.ship_name);
        let color_map = self.get_team_colors();
        prefab.specs(name, color_map)
    }

    /// Recolors one theme channel.
    pub fn set_team_colors(&mut self, color: ColorPreset, channel: usize)
        requires
            channel < 3,
        ensures
            channel == 0 ==> *final(self) == (NewTeamScreen {
                red_color_preset: color,
                ..*old(self)
            }),
            channel == 1 ==> *final(self) == (NewTeamScreen {
                green_color_preset: color,
                ..*old(self)
            }),
            channel == 2 ==> *final(self) == (NewTeamScreen {
                blue_color_preset: color,
                ..*old(self)
            }),
            final(self).wf() == old(self).wf(),
    {
        if channel == 0 {
            self.red_color_preset = color;
        } else if channel == 1 {
            self.green_color_preset = color;
        } else {
            self.blue_color_preset = color;
        }
    }

    /// Empties the chosen roster.
    pub fn clear_selected_players(&mut self)
        ensures
            *final(self) == (NewTeamScreen {
                selected_players: final(self).selected_players,
                ..*old(self)
            }),
            final(self).selected_players@ == Seq::<u64>::empty(),
            old(self).wf() ==> final(self).wf(),
    {
        self.selected_players = Vec::new();
    }

    /// The cursor of the active stage; stages without a list sit at zero.
    pub open spec fn index_spec(self) -> int {
        match self.state {
            CreationState::Planet => self.planet_index as int,
            CreationState::Jersey => self.jersey_style_index as int,
            CreationState::ShipModel => self.spaceship_model_index as int,
            CreationState::Players => self.player_index as int,
            _ => 0,
        }
    }

    /// Length of the list the active stage navigates; zero for stages
    /// without one.
    pub open spec fn max_index_spec(self) -> int {
        match self.state {
            CreationState::Planet => self.planet_ids@.len() as int,
            CreationState::Jersey => self.jersey_styles@.len() as int,
            CreationState::ShipModel => self.spaceship_models@.len() as int,
            CreationState::Players => self.cur_bucket().len() as int,
            _ => 0,
        }
    }

    pub fn index(&self) -> (r: usize)
        ensures
            r as int == self.index_spec(),
    {
        match self.state {
            CreationState::Planet => self.planet_index,
            CreationState::Jersey => self.jersey_style_index,
            CreationState::ShipModel => self.spaceship_model_index,
            CreationState::Players => self.player_index,
            _ => 0,
        }
    }

    pub fn max_index(&self) -> (r: usize)
        requires
            self.wf(),
        ensures
            r as int == self.max_index_spec(),
    {
        match self.state {
            CreationState::Planet => self.planet_ids.len(),
            CreationState::Jersey => self.jersey_styles.len(),
            CreationState::ShipModel => self.spaceship_models.len(),
            CreationState::Players => {
                if self.planet_index < self.planet_ids.len() {
                    self.planet_players[self.planet_index].len()
                } else {
                    0
                }
            },
            _ => 0,
        }
    }

    /// How the cursor assignment lands: the active stage's own index field
    /// takes the value, everything else stays.
    pub open spec fn set_index_rel(pre: Self, post: Self, index: usize) -> bool {
        match pre.state {
            CreationState::Planet => post == NewTeamScreen { planet_index: index, ..pre },
            CreationState::Jersey => post == NewTeamScreen { jersey_style_index: index, ..pre },
            CreationState::ShipModel => post == NewTeamScreen {
                spaceship_model_index: index,
                ..pre
            },
            CreationState::Players => post == NewTeamScreen { player_index: index, ..pre },
            _ => post == pre,
        }
    }

    /// Points the active stage's cursor at `index`; the bound is the
    /// caller's to respect.
    pub fn set_index(&mut self, index: usize)
        requires
            old(self).wf(),
            index == 0 || (index as int) < old(self).max_index_spec(),
        ensures
            Self::set_index_rel(*old(self), *final(self), index),
            final(self).wf(),
    {
        match self.state {
            CreationState::Planet => {
                self.planet_index = index;
            },
            CreationState::Jersey => {
                self.jersey_style_index = index;
            },
            CreationState::ShipModel => {
                self.spaceship_model_index = index;
            },
            CreationState::Players => {
                self.player_index = index;
            },
            _ => {},
        }
    }

    /// How a stage change lands: the new stage is assigned, then its own
    /// cursor is reset to the top.
    pub open spec fn set_state_rel(pre: Self, post: Self, state: CreationState) -> bool {
        Self::set_index_rel(NewTeamScreen { state, ..pre }, post, 0)
    }

    /// Moves the wizard to `state` and resets that stage's cursor.
    pub fn set_state(&mut self, state: CreationState)
        requires
            old(self).wf(),
        ensures
            Self::set_state_rel(*old(self), *final(self), state),
            final(self).wf(),
    {
        self.state = state;
        match self.state {
            CreationState::Planet => {
                self.planet_index = 0;
            },
            CreationState::Jersey => {
                self.jersey_style_index = 0;
            },
            CreationState::ShipModel => {
                self.spaceship_model_index = 0;
            },
            CreationState::Players => {
                self.player_index = 0;
            },
            _ => {},
        }
    }

    /// The cursor moved one step down the list, wrapping at the end; it
    /// stays at the top of an empty list.
    pub open spec fn advanced_index(pre: Self) -> int {
        if pre.max_index_spec() > 0 {
            (pre.index_spec() + 1) % pre.max_index_spec()
        } else {
            0
        }
    }

    /// The cursor moved one step up the list, wrapping at the top.
    pub open spec fn retreated_index(pre: Self) -> int {
        if pre.max_index_spec() > 0 {
            (pre.index_spec() + pre.max_index_spec() - 1) % pre.max_index_spec()
        } else {
            0
        }
    }

    pub fn next_index(&mut self)
        requires
            old(self).wf(),
        ensures
            Self::set_index_rel(*old(self), *final(self), Self::advanced_index(*old(self)) as usize),
            final(self).wf(),
    {
        let m = self.max_index();
        let i = self.index();
        let ni: usize = if m > 0 { (i + 1) % m } else { 0 };
        self.set_index(ni);
    }

    pub fn previous_index(&mut self)
        requires
            old(self).wf(),
        ensures
            Self::set_index_rel(
                *old(self),
                *final(self),
                Self::retreated_index(*old(self)) as usize,
            ),
            final(self).wf(),
    {
        let m = self.max_index();
        let i = self.index();
        let ni: usize = if m > 0 {
            if i == 0 {
                m - 1
            } else {
                i - 1
            }
        } else {
            0
        };
        proof {
            if m > 0 {
                if i > 0 {
                    vstd::arithmetic::div_mod::lemma_mod_multiples_vanish(
                        1,
                        i as int - 1,
                        m as int,
                    );
                    vstd::arithmetic::div_mod::lemma_small_mod((i - 1) as nat, m as nat);
                } else {
                    vstd::arithmetic::div_mod::lemma_small_mod((m - 1) as nat, m as nat);
                }
            }
        }
        self.set_index(ni);
    }
}

} // verus!

verus! {

/// The wizard's tick counter after one render step; it wraps rather than
/// overflow, having no effect on the logic.
pub open spec fn tick_succ(t: usize) -> int {
    if t < usize::MAX {
        t + 1
    } else {
        0
    }
}

/// With no bucket, nothing costs anything.
pub proof fn lemma_hiring_costs_empty(selected: Seq<u64>)
    ensures
        hiring_costs(Seq::<HireEntry>::empty(), selected) == 0,
    decreases selected.len(),
{
    if selected.len() > 0 {
        lemma_hiring_costs_empty(selected.drop_last());
    }
}

/// Looks a candidate's hiring cost up in a bucket; a candidate not listed
/// costs nothing.
fn bucket_cost(bucket: &Vec<HireEntry>, id: u64) -> (r: u32)
    ensures
        r as int == cost_of(bucket@, id),
{
    let ghost s = bucket@;
    proof {
        assert(s.subrange(0, s.len() as int) =~= s);
    }
    let mut j: usize = 0;
    while j < bucket.len()
        invariant
            j <= s.len(),
            bucket@ == s,
            cost_of(s, id) == cost_of(s.subrange(j as int, s.len() as int), id),
        decreases s.len() - j,
    {
        proof {
            let t = s.subrange(j as int, s.len() as int);
            assert(t[0] == s[j as int]);
            assert(t.drop_first() =~= s.subrange(j as int + 1, s.len() as int));
        }
        if bucket[j].player_id == id {
            return bucket[j].cost;
        }
        j = j + 1;
    }
    proof {
        assert(s.subrange(s.len() as int, s.len() as int) =~= Seq::<HireEntry>::empty());
    }
    0
}

impl NewTeamScreen {
    /// The remaining balance: starting funds, less the chosen candidates'
    /// hiring costs at the current location, less the chosen ship's price.
    /// Recomputed from the live fields on every call, never cached.
    pub fn get_remaining_balance(&self) -> (r: i64)
        requires
            self.wf(),
        ensures
            r as int == self.remaining_balance_spec(),
    {
        let ghost bucket = self.cur_bucket();
        let mut hiring: i64 = 0;
        if self.planet_index < self.planet_ids.len() {
            let b = &self.planet_players[self.planet_index];
            let mut i: usize = 0;
            proof {
                assert(self.selected_players@.subrange(0, 0) =~= Seq::<u64>::empty());
            }
            while i < self.selected_players.len()
                invariant
                    i <= self.selected_players@.len(),
                    self.selected_players@.len() <= INITIAL_TEAM_SIZE,
                    b@ == bucket,
                    hiring == hiring_costs(bucket, self.selected_players@.subrange(0, i as int)),
                    0 <= hiring <= i * (u32::MAX as int),
                decreases self.selected_players@.len() - i,
            {
                let id = self.selected_players[i];
                let c = bucket_cost(b, id);
                proof {
                    let pre = self.selected_players@.subrange(0, i as int);
                    let cur = self.selected_players@.subrange(0, i as int + 1);
                    assert(cur.drop_last() =~= pre);
                    assert(cur.last() == self.selected_players@[i as int]);
                }
                hiring = hiring + c as i64;
                i = i + 1;
            }
            proof {
                assert(self.selected_players@.subrange(
                    0,
                    self.selected_players@.len() as int,
                ) =~= self.selected_players@);
            }
        } else {
            proof {
                lemma_hiring_costs_empty(self.selected_players@);
            }
        }
        let ship = self.spaceship_models[self.spaceship_model_index].cost();
        crate::constants::INITIAL_TEAM_BALANCE as i64 - hiring - ship as i64
    }

    /// How many candidates may be chosen at the current location.
    pub fn max_players_selected(&self) -> (r: usize)
        requires
            self.wf(),
        ensures
            r as int == self.max_players_spec(),
    {
        let blen: usize = if self.planet_index < self.planet_ids.len() {
            self.planet_players[self.planet_index].len()
        } else {
            0
        };
        if blen < INITIAL_TEAM_SIZE {
            blen
        } else {
            INITIAL_TEAM_SIZE
        }
    }

    /// Whether the roster already holds as many candidates as may be chosen.
    pub fn enough_players_selected(&self) -> (r: bool)
        requires
            self.wf(),
        ensures
            r == (self.selected_players@.len() >= self.max_players_spec()),
    {
        self.selected_players.len() >= self.max_players_selected()
    }

    /// How one render step lands: the tick advances; the first step that
    /// finds the location list empty builds the pool from the snapshot and
    /// resets the active stage's cursor; every later step leaves the wizard
    /// alone.
    pub open spec fn update_rel(pre: Self, post: Self, w: WorldSnapshot) -> bool {
        &&& post.tick as int == tick_succ(pre.tick)
        &&& if pre.planet_ids@.len() == 0 {
            &&& post.planet_ids@ == build_ids(w.planets@)
            &&& buckets_view(post.planet_players@) == build_buckets(
                build_ids(w.planets@),
                w.players@,
            )
            &&& Self::set_index_rel(
                NewTeamScreen {
                    tick: post.tick,
                    planet_ids: post.planet_ids,
                    planet_players: post.planet_players,
                    ..pre
                },
                post,
                0,
            )
        } else {
            post == (NewTeamScreen { tick: post.tick, ..pre })
        }
    }

    /// One render step: counts the tick and, the first time the location
    /// list is observed empty, builds the candidate pool from the snapshot.
    /// The pool is a snapshot itself: it is never rebuilt afterwards.
    pub fn update(&mut self, w: &WorldSnapshot)
        requires
            old(self).wf(),
            w.wf(),
        ensures
            final(self).wf(),
            Self::update_rel(*old(self), *final(self), *w),
    {
        self.tick = if self.tick < usize::MAX {
            self.tick + 1
        } else {
            0
        };
        if self.planet_ids.len() == 0 {
            let (ids, buckets) = build_pool(w);
            proof {
                crate::pool::lemma_build_ids_props(w.planets@);
                crate::pool::lemma_build_buckets_props(build_ids(w.planets@), w.players@);
                assert(forall|j: int|
                    0 <= j < buckets@.len() ==> buckets@[j]@ == buckets_view(buckets@)[j]);
            }
            self.planet_ids = ids;
            self.planet_players = buckets;
            proof {
                assert forall|j: int| 0 <= j < self.planet_players@.len() implies sorted_desc_rating(
                    #[trigger] self.planet_players@[j]@,
                ) && bucket_ids_nodup(self.planet_players@[j]@) by {
                    assert(self.planet_players@[j]@ == buckets_view(self.planet_players@)[j]);
                    assert(buckets_view(self.planet_players@)[j] == build_buckets(
                        build_ids(w.planets@),
                        w.players@,
                    )[j]);
                }
                assert(self.wf());
            }
            self.set_index(0);
        }
    }

    /// A fresh wizard: first stage, empty buffers, empty pool, the fixed
    /// jersey and ship-class lists, and the three theme channels set to
    /// three distinct palette colors drawn at random.
    pub fn new() -> (r: NewTeamScreen)
        ensures
            r.wf(),
            r.state == CreationState::TeamName,
            r.tick == 0,
            r.team_name@ == Seq::<char>::empty(),
            r.team_name_valid == false,
            r.ship_name@ == Seq::<char>::empty(),
            r.ship_name_valid == false,
            r.spaceship_models@ == SpaceshipPrefab::all_spec(),
            r.spaceship_model_index == 0,
            r.planet_index == 0,
            r.planet_ids@ == Seq::<u64>::empty(),
            r.planet_players@.len() == 0,
            r.jersey_styles@ == JerseyStyle::creation_styles_spec(),
            r.jersey_style_index == 0,
            r.player_index == 0,
            r.selected_players@ == Seq::<u64>::empty(),
            r.confirm == ConfirmChoice::Yes,
            ColorPreset::palette_spec().contains(r.red_color_preset),
            ColorPreset::palette_spec().contains(r.green_color_preset),
            ColorPreset::palette_spec().contains(r.blue_color_preset),
            r.red_color_preset != r.green_color_preset,
            r.red_color_preset != r.blue_color_preset,
            r.green_color_preset != r.blue_color_preset,
    {
        let mut presets = ColorPreset::palette();
        let mut rng = crate::rng::new_entropy_rng();
        crate::rng::shuffle_presets(&mut presets, &mut rng);
        proof {
            let pal = ColorPreset::palette_spec();
            assert(pal.no_duplicates());
            pal.to_multiset_ensures();
            presets@.to_multiset_ensures();
            pal.lemma_multiset_has_no_duplicates();
            assert(presets@.to_multiset() == pal.to_multiset());
            presets@.lemma_multiset_has_no_duplicates_conv();
            assert(presets@.len() == 9);
            assert(presets@.contains(presets@[0]));
            assert(presets@.contains(presets@[1]));
            assert(presets@.contains(presets@[2]));
            assert(pal.contains(presets@[0]));
            assert(pal.contains(presets@[1]));
            assert(pal.contains(presets@[2]));
        }
        let red_color_preset = presets[0];
        let green_color_preset = presets[1];
        let blue_color_preset = presets[2];
        NewTeamScreen {
            state: CreationState::TeamName,
            tick: 0,
            team_name: Vec::new(),
            team_name_valid: false,
            ship_name: Vec::new(),
            ship_name_valid: false,
            spaceship_models: SpaceshipPrefab::all(),
            spaceship_model_index: 0,
            planet_index: 0,
            planet_ids: Vec::new(),
            jersey_styles: JerseyStyle::creation_styles(),
            jersey_style_index: 0,
            red_color_preset,
            green_color_preset,
            blue_color_preset,
            player_index: 0,
            planet_players: Vec::new(),
            selected_players: Vec::new(),
            confirm: ConfirmChoice::Yes,
        }
    }
}

} // verus!

use crate::constants::KeyCode;
use crate::text::{accepted_name, validation_spec, NameValidation};

verus! {

broadcast use vstd::seq_lib::group_seq_properties;

/// A filtered roster keeps only matching candidates, all of them, without
/// introducing repeats.
pub proof fn lemma_filter_props(s: Seq<u64>, pred: spec_fn(u64) -> bool)
    ensures
        s.filter(pred).len() <= s.len(),
        forall|y: u64| #[trigger] s.filter(pred).contains(y) ==> s.contains(y) && pred(y),
        forall|y: u64| s.contains(y) && pred(y) ==> s.filter(pred).contains(y),
        s.no_duplicates() ==> s.filter(pred).no_duplicates(),
    decreases s.len(),
{
    reveal(Seq::filter);
    if s.len() == 0 {
    } else {
        let front = s.drop_last();
        let last = s.last();
        lemma_filter_props(front, pred);
        let ff = front.filter(pred);
        assert forall|y: u64| #[trigger] s.filter(pred).contains(y) implies s.contains(y) && pred(
            y,
        ) by {
            if pred(last) {
                assert(s.filter(pred) == ff.push(last));
                if y == last {
                    assert(s[s.len() - 1] == y);
                } else {
                    let k = choose|k: int| 0 <= k < ff.push(last).len() && ff.push(last)[k] == y;
                    assert(ff[k] == y);
                    assert(ff.contains(y));
                    assert(front.contains(y));
                }
            } else {
                assert(s.filter(pred) == ff);
                assert(front.contains(y));
            }
        }
        assert forall|y: u64| s.contains(y) && pred(y) implies s.filter(pred).contains(y) by {
            let k = choose|k: int| 0 <= k < s.len() && s[k] == y;
            if pred(last) {
                assert(s.filter(pred) == ff.push(last));
                if k == s.len() - 1 {
                    assert(s.filter(pred)[s.filter(pred).len() - 1] == y);
                } else {
                    assert(front[k] == y);
                    assert(ff.contains(y));
                    let m = choose|m: int| 0 <= m < ff.len() && ff[m] == y;
                    assert(ff.push(last)[m] == y);
                }
            } else {
                if k == s.len() - 1 {
                    assert(!pred(y));
                } else {
                    assert(front[k] == y);
                    assert(ff.contains(y));
                }
            }
        }
        if s.no_duplicates() {
            assert(front.no_duplicates()) by {
                assert(forall|i: int| 0 <= i < front.len() ==> front[i] == s[i]);
            }
            if pred(last) {
                assert(!ff.contains(last)) by {
                    if ff.contains(last) {
                        assert(front.contains(last));
                        let m = choose|m: int| 0 <= m < front.len() && front[m] == last;
                        assert(s[m] == s[s.len() - 1]);
                    }
                }
                assert(s.filter(pred) == ff.push(last));
                assert forall|i: int, j: int|
                    0 <= i < j < s.filter(pred).len() implies s.filter(pred)[i] != s.filter(
                    pred,
                )[j] by {
                    if j < ff.len() {
                        assert(ff[i] != ff[j]);
                    } else {
                        assert(s.filter(pred)[j] == last);
                        assert(ff.contains(ff[i]));
                    }
                }
            }
        }
    }
}

/// Keeps everything but one identifier.
pub open spec fn ne_pred(id: u64) -> spec_fn(u64) -> bool {
    |x: u64| x != id
}

/// Removing a listed candidate makes the roster strictly shorter.
pub proof fn lemma_filter_removes(s: Seq<u64>, id: u64)
    requires
        s.contains(id),
    ensures
        s.filter(ne_pred(id)).len() < s.len(),
    decreases s.len(),
{
    reveal(Seq::filter);
    let pred = ne_pred(id);
    let front = s.drop_last();
    let last = s.last();
    if last == id {
        lemma_filter_props(front, pred);
    } else {
        assert(front.contains(id)) by {
            let k = choose|k: int| 0 <= k < s.len() && s[k] == id;
            assert(front[k] == id);
        }
        lemma_filter_removes(front, id);
    }
}

/// Filtering out an identifier that never occurs changes nothing.
pub proof fn lemma_filter_keeps_all(s: Seq<u64>, id: u64)
    requires
        !s.contains(id),
    ensures
        s.filter(ne_pred(id)) == s,
    decreases s.len(),
{
    reveal(Seq::filter);
    if s.len() > 0 {
        let front = s.drop_last();
        assert(!front.contains(id)) by {
            if front.contains(id) {
                let k = choose|k: int| 0 <= k < front.len() && front[k] == id;
                assert(s[k] == id);
            }
        }
        lemma_filter_keeps_all(front, id);
        assert(s[s.len() - 1] != id);
        assert(s.filter(ne_pred(id)) =~= s);
    }
}

/// What one roster toggle does to the chosen list: a listed candidate is
/// dropped; an unlisted one is appended, but only while the cap leaves room.
pub open spec fn spec_toggled(s: Seq<u64>, id: u64, max: int) -> Seq<u64> {
    if s.contains(id) {
        s.filter(ne_pred(id))
    } else if s.len() < max {
        s.push(id)
    } else {
        s
    }
}

impl NewTeamScreen {
    /// Toggles one candidate's membership in the chosen roster, respecting
    /// the cap.
    pub fn toggle_player(&mut self, id: u64)
        requires
            old(self).wf(),
        ensures
            final(self).wf(),
            *final(self) == (NewTeamScreen {
                selected_players: final(self).selected_players,
                ..*old(self)
            }),
            final(self).selected_players@ == spec_toggled(
                old(self).selected_players@,
                id,
                old(self).max_players_spec(),
            ),
    {
        let ghost sel = self.selected_players@;
        let mut found: bool = false;
        let mut i: usize = 0;
        while i < self.selected_players.len() && !found
            invariant
                i <= sel.len(),
                self.selected_players@ == sel,
                found ==> i < sel.len() && sel[i as int] == id,
                !found ==> forall|m: int| 0 <= m < i ==> sel[m] != id,
            decreases sel.len() - i + (if found { 0int } else { 1int }),
        {
            if self.selected_players[i] == id {
                found = true;
            } else {
                i = i + 1;
            }
        }
        proof {
            if !found {
                assert(!sel.contains(id)) by {
                    if sel.contains(id) {
                        let k = choose|k: int| 0 <= k < sel.len() && sel[k] == id;
                    }
                }
            }
        }
        if found {
            let mut out: Vec<u64> = Vec::new();
            let mut j: usize = 0;
            proof {
                reveal(Seq::filter);
                assert(sel.subrange(0, 0) =~= Seq::<u64>::empty());
                assert(out@ == sel.subrange(0, 0).filter(ne_pred(id)));
            }
            while j < self.selected_players.len()
                invariant
                    j <= sel.len(),
                    self.selected_players@ == sel,
                    out@ == sel.subrange(0, j as int).filter(ne_pred(id)),
                decreases sel.len() - j,
            {
                proof {
                    reveal(Seq::filter);
                    let pre = sel.subrange(0, j as int);
                    let cur = sel.subrange(0, j as int + 1);
                    assert(cur.drop_last() =~= pre);
                    assert(cur.last() == sel[j as int]);
                }
                if self.selected_players[j] != id {
                    out.push(self.selected_players[j]);
                }
                j = j + 1;
            }
            proof {
                assert(sel.subrange(0, sel.len() as int) =~= sel);
                lemma_filter_props(sel, ne_pred(id));
            }
            self.selected_players = out;
        } else {
            let max = self.max_players_selected();
            if self.selected_players.len() < max {
                self.selected_players.push(id);
            }
        }
    }
}

} // verus!

verus! {

/// What one key does to a name buffer while it is being edited: characters
/// append, backspace deletes the last character, every other key leaves the
/// text alone.
pub open spec fn name_buffer_edit(buf: Seq<char>, key: KeyCode) -> Seq<char> {
    match key {
        KeyCode::Char(c) => buf.push(c),
        KeyCode::Backspace => if buf.len() > 0 {
            buf.drop_last()
        } else {
            buf
        },
        _ => buf,
    }
}

impl NewTeamScreen {
    /// The naming stages' behavior on a key: on confirm, a valid buffer is
    /// normalized and the wizard advances, an invalid one only marks the
    /// field; any other key edits the buffer and revalidates it. This is the
    /// team-name stage.
    pub open spec fn team_name_step(
        pre: Self,
        post: Self,
        key: KeyCode,
        r: Option<UiCallbackPreset>,
    ) -> bool {
        &&& r is None
        &&& if key == KeyCode::Enter {
            if validation_spec(pre.team_name@) == NameValidation::Valid {
                &&& post.team_name@ == accepted_name(pre.team_name@)
                &&& post.team_name_valid == true
                &&& Self::set_state_rel(
                    NewTeamScreen {
                        team_name: post.team_name,
                        team_name_valid: true,
                        ..pre
                    },
                    post,
                    CreationState::ShipName,
                )
            } else {
                post == (NewTeamScreen { team_name_valid: false, ..pre })
            }
        } else {
            &&& post.team_name@ == name_buffer_edit(pre.team_name@, key)
            &&& post.team_name_valid == (validation_spec(post.team_name@)
                == NameValidation::Valid)
            &&& post == (NewTeamScreen {
                team_name: post.team_name,
                team_name_valid: post.team_name_valid,
                ..pre
            })
        }
    }

    /// The ship-name stage: as the team-name stage, except that backspace on
    /// an empty buffer steps back to the team-name stage.
    pub open spec fn ship_name_step(
        pre: Self,
        post: Self,
        key: KeyCode,
        r: Option<UiCallbackPreset>,
    ) -> bool {
        &&& r is None
        &&& if key == KeyCode::Enter {
            if validation_spec(pre.ship_name@) == NameValidation::Valid {
                &&& post.ship_name@ == accepted_name(pre.ship_name@)
                &&& post.ship_name_valid == true
                &&& Self::set_state_rel(
                    NewTeamScreen {
                        ship_name: post.ship_name,
                        ship_name_valid: true,
                        ..pre
                    },
                    post,
                    CreationState::Planet,
                )
            } else {
                post == (NewTeamScreen { ship_name_valid: false, ..pre })
            }
        } else if key == KeyCode::Backspace && pre.ship_name@.len() == 0 {
            Self::set_state_rel(pre, post, CreationState::TeamName)
        } else {
            &&& post.ship_name@ == name_buffer_edit(pre.ship_name@, key)
            &&& post.ship_name_valid == (validation_spec(post.ship_name@)
                == NameValidation::Valid)
            &&& post == (NewTeamScreen {
                ship_name: post.ship_name,
                ship_name_valid: post.ship_name_valid,
                ..pre
            })
        }
    }

    /// The location stage: confirm advances unconditionally, backspace steps
    /// back to the ship name.
    pub open spec fn planet_step(
        pre: Self,
        post: Self,
        key: KeyCode,
        r: Option<UiCallbackPreset>,
    ) -> bool {
        &&& r is None
        &&& if key == KeyCode::Enter {
            Self::set_state_rel(pre, post, CreationState::Jersey)
        } else if key == KeyCode::Backspace {
            Self::set_state_rel(pre, post, CreationState::ShipName)
        } else {
            post == pre
        }
    }

    /// The intent that cycles one theme channel to its next palette color.
    pub open spec fn cycle_intent(pre: Self, channel: usize) -> UiCallbackPreset {
        UiCallbackPreset::SetTeamColors {
            color: if channel == 0 {
                pre.red_color_preset.next_spec()
            } else if channel == 1 {
                pre.green_color_preset.next_spec()
            } else {
                pre.blue_color_preset.next_spec()
            },
            channel,
        }
    }

    /// The theme stage: confirm advances, backspace steps back to the
    /// location, and the three channel keys emit recoloring intents without
    /// touching the wizard.
    pub open spec fn jersey_step(
        pre: Self,
        post: Self,
        key: KeyCode,
        r: Option<UiCallbackPreset>,
    ) -> bool {
        if key == KeyCode::Enter {
            &&& Self::set_state_rel(pre, post, CreationState::ShipModel)
            &&& r is None
        } else if key == KeyCode::Backspace {
            &&& Self::set_state_rel(pre, post, CreationState::Planet)
            &&& r is None
        } else if key == KeyCode::Char('r') {
            post == pre && r == Some(Self::cycle_intent(pre, 0))
        } else if key == KeyCode::Char('g') {
            post == pre && r == Some(Self::cycle_intent(pre, 1))
        } else if key == KeyCode::Char('b') {
            post == pre && r == Some(Self::cycle_intent(pre, 2))
        } else {
            post == pre && r is None
        }
    }

    /// The ship-class stage: as the theme stage, one step further along.
    pub open spec fn ship_model_step(
        pre: Self,
        post: Self,
        key: KeyCode,
        r: Option<UiCallbackPreset>,
    ) -> bool {
        if key == KeyCode::Enter {
            &&& Self::set_state_rel(pre, post, CreationState::Players)
            &&& r is None
        } else if key == KeyCode::Backspace {
            &&& Self::set_state_rel(pre, post, CreationState::Jersey)
            &&& r is None
        } else if key == KeyCode::Char('r') {
            post == pre && r == Some(Self::cycle_intent(pre, 0))
        } else if key == KeyCode::Char('g') {
            post == pre && r == Some(Self::cycle_intent(pre, 1))
        } else if key == KeyCode::Char('b') {
            post == pre && r == Some(Self::cycle_intent(pre, 2))
        } else {
            post == pre && r is None
        }
    }

    /// The roster chosen after one confirm at the roster stage: the
    /// candidate under the cursor is toggled; an empty bucket leaves the
    /// roster alone.
    pub open spec fn roster_after_toggle(pre: Self) -> Seq<u64> {
        if pre.player_index < pre.cur_bucket().len() {
            spec_toggled(
                pre.selected_players@,
                pre.cur_bucket()[pre.player_index as int].player_id,
                pre.max_players_spec(),
            )
        } else {
            pre.selected_players@
        }
    }

    /// Whether the wizard moves itself on to the confirmation stage after a
    /// toggle: exactly when the balance is not negative and the roster has
    /// reached the cap.
    pub open spec fn auto_advance_after(pre: Self) -> bool {
        &&& balance_of(pre.cur_bucket(), Self::roster_after_toggle(pre), pre.ship_cost_spec())
            >= 0
        &&& Self::roster_after_toggle(pre).len() >= pre.max_players_spec()
    }

    /// The roster stage: confirm toggles the candidate under the cursor and
    /// advances exactly when the balance allows it and the cap is reached;
    /// backspace clears the roster and steps back to the ship class.
    pub open spec fn players_step(
        pre: Self,
        post: Self,
        key: KeyCode,
        r: Option<UiCallbackPreset>,
    ) -> bool {
        &&& r is None
        &&& if key == KeyCode::Enter {
            &&& post.selected_players@ == Self::roster_after_toggle(pre)
            &&& if Self::auto_advance_after(pre) {
                Self::set_state_rel(
                    NewTeamScreen { selected_players: post.selected_players, ..pre },
                    post,
                    CreationState::Done,
                )
            } else {
                post == (NewTeamScreen { selected_players: post.selected_players, ..pre })
            }
        } else if key == KeyCode::Backspace {
            &&& post.selected_players@ == Seq::<u64>::empty()
            &&& Self::set_state_rel(
                NewTeamScreen { selected_players: post.selected_players, ..pre },
                post,
                CreationState::ShipModel,
            )
        } else {
            post == pre
        }
    }

    /// The confirmation stage: confirm emits the commit intent carrying the
    /// whole configuration, backspace emits the cancellation intent, and the
    /// arrow keys only move the cosmetic highlight.
    pub open spec fn done_step(
        pre: Self,
        post: Self,
        key: KeyCode,
        r: Option<UiCallbackPreset>,
    ) -> bool {
        if key == KeyCode::Enter {
            if pre.planet_index < pre.planet_ids@.len() {
                &&& post == pre
                &&& (r matches Some(UiCallbackPreset::GeneratePlayerTeam {
                    name,
                    home_planet,
                    jersey_style,
                    jersey_colors,
                    players,
                    balance,
                    spaceship,
                }) && name@ == pre.team_name@ && home_planet == pre.planet_ids@[pre.planet_index as int]
                    && jersey_style == pre.jersey_styles@[pre.jersey_style_index as int]
                    && jersey_colors == pre.theme_spec() && players@ == pre.selected_players@
                    && balance as int == pre.remaining_balance_spec() && spaceship.prefab
                    == pre.spaceship_models@[pre.spaceship_model_index as int] && spaceship.name@
                    == pre.ship_name@ && spaceship.color_map == pre.theme_spec())
            } else {
                post == pre && r is None
            }
        } else if key == KeyCode::Backspace {
            post == pre && r == Some(UiCallbackPreset::CancelGeneratePlayerTeam)
        } else if key == KeyCode::Left {
            post == (NewTeamScreen { confirm: ConfirmChoice::Yes, ..pre }) && r is None
        } else if key == KeyCode::Right {
            post == (NewTeamScreen { confirm: ConfirmChoice::No, ..pre }) && r is None
        } else {
            post == pre && r is None
        }
    }

    /// One whole key event: the cursor keys are intercepted before any stage
    /// sees them; every other key goes to the active stage.
    pub open spec fn step_rel(
        pre: Self,
        post: Self,
        key: KeyCode,
        r: Option<UiCallbackPreset>,
    ) -> bool {
        if key == KeyCode::Up {
            Self::set_index_rel(pre, post, Self::advanced_index(pre) as usize) && r is None
        } else if key == KeyCode::Down {
            Self::set_index_rel(pre, post, Self::retreated_index(pre) as usize) && r is None
        } else {
            match pre.state {
                CreationState::TeamName => Self::team_name_step(pre, post, key, r),
                CreationState::ShipName => Self::ship_name_step(pre, post, key, r),
                CreationState::Planet => Self::planet_step(pre, post, key, r),
                CreationState::Jersey => Self::jersey_step(pre, post, key, r),
                CreationState::ShipModel => Self::ship_model_step(pre, post, key, r),
                CreationState::Players => Self::players_step(pre, post, key, r),
                CreationState::Done => Self::done_step(pre, post, key, r),
            }
        }
    }
}

} // verus!

verus! {

/// A plain copy of an identifier list.
fn clone_ids(v: &Vec<u64>) -> (r: Vec<u64>)
    ensures
        r@ == v@,
{
    let mut r: Vec<u64> = Vec::new();
    let mut i: usize = 0;
    while i < v.len()
        invariant
            i <= v@.len(),
            r@ == v@.subrange(0, i as int),
        decreases v@.len() - i,
    {
        r.push(v[i]);
        proof {
            assert(r@ =~= v@.subrange(0, i as int + 1));
        }
        i = i + 1;
    }
    proof {
        assert(v@.subrange(0, v@.len() as int) =~= v@);
    }
    r
}

impl NewTeamScreen {
    /// Applies one editing key to the team-name buffer and revalidates it.
    fn edit_team_name(&mut self, key: KeyCode)
        ensures
            final(self).team_name@ == name_buffer_edit(old(self).team_name@, key),
            final(self).team_name_valid == (validation_spec(final(self).team_name@)
                == NameValidation::Valid),
            *final(self) == (NewTeamScreen {
                team_name: final(self).team_name,
                team_name_valid: final(self).team_name_valid,
                ..*old(self)
            }),
    {
        match key {
            KeyCode::Char(c) => {
                self.team_name.push(c);
            },
            KeyCode::Backspace => {
                if self.team_name.len() > 0 {
                    self.team_name.pop();
                    proof {
                        assert(self.team_name@ =~= old(self).team_name@.drop_last());
                    }
                }
            },
            _ => {},
        }
        let v = crate::text::validate_name(&self.team_name);
        self.team_name_valid = match v {
            NameValidation::Valid => true,
            _ => false,
        };
    }

    /// Applies one editing key to the ship-name buffer and revalidates it.
    fn edit_ship_name(&mut self, key: KeyCode)
        ensures
            final(self).ship_name@ == name_buffer_edit(old(self).ship_name@, key),
            final(self).ship_name_valid == (validation_spec(final(self).ship_name@)
                == NameValidation::Valid),
            *final(self) == (NewTeamScreen {
                ship_name: final(self).ship_name,
                ship_name_valid: final(self).ship_name_valid,
                ..*old(self)
            }),
    {
        match key {
            KeyCode::Char(c) => {
                self.ship_name.push(c);
            },
            KeyCode::Backspace => {
                if self.ship_name.len() > 0 {
                    self.ship_name.pop();
                    proof {
                        assert(self.ship_name@ =~= old(self).ship_name@.drop_last());
                    }
                }
            },
            _ => {},
        }
        let v = crate::text::validate_name(&self.ship_name);
        self.ship_name_valid = match v {
            NameValidation::Valid => true,
            _ => false,
        };
    }

    fn handle_team_name_key(&mut self, key: KeyCode) -> (r: Option<UiCallbackPreset>)
        requires
            old(self).wf(),
            old(self).state == CreationState::TeamName,
        ensures
            final(self).wf(),
            Self::team_name_step(*old(self), *final(self), key, r),
    {
        match key {
            KeyCode::Enter => {
                let v = crate::text::validate_name(&self.team_name);
                let ok = match v {
                    NameValidation::Valid => true,
                    _ => false,
                };
                if !ok {
                    self.team_name_valid = false;
                    return None;
                }
                let name = crate::text::normalize_name(&self.team_name);
                self.team_name = name;
                self.team_name_valid = true;
                let next = self.state.next();
                self.set_state(next);
                None
            },
            _ => {
                self.edit_team_name(key);
                None
            },
        }
    }

    fn handle_ship_name_key(&mut self, key: KeyCode) -> (r: Option<UiCallbackPreset>)
        requires
            old(self).wf(),
            old(self).state == CreationState::ShipName,
        ensures
            final(self).wf(),
            Self::ship_name_step(*old(self), *final(self), key, r),
    {
        match key {
            KeyCode::Enter => {
                let v = crate::text::validate_name(&self.ship_name);
                let ok = match v {
                    NameValidation::Valid => true,
                    _ => false,
                };
                if !ok {
                    self.ship_name_valid = false;
                    return None;
                }
                let name = crate::text::normalize_name(&self.ship_name);
                self.ship_name = name;
                self.ship_name_valid = true;
                let next = self.state.next();
                self.set_state(next);
                None
            },
            KeyCode::Backspace => {
                if self.ship_name.len() == 0 {
                    let prev = self.state.previous();
                    self.set_state(prev);
                } else {
                    self.edit_ship_name(key);
                }
                None
            },
            _ => {
                self.edit_ship_name(key);
                None
            },
        }
    }

    fn handle_planet_key(&mut self, key: KeyCode) -> (r: Option<UiCallbackPreset>)
        requires
            old(self).wf(),
            old(self).state == CreationState::Planet,
        ensures
            final(self).wf(),
            Self::planet_step(*old(self), *final(self), key, r),
    {
        match key {
            KeyCode::Enter => {
                let next = self.state.next();
                self.set_state(next);
                None
            },
            KeyCode::Backspace => {
                let prev = self.state.previous();
                self.set_state(prev);
                None
            },
            _ => None,
        }
    }

    fn handle_jersey_key(&mut self, key: KeyCode) -> (r: Option<UiCallbackPreset>)
        requires
            old(self).wf(),
            old(self).state == CreationState::Jersey,
        ensures
            final(self).wf(),
            Self::jersey_step(*old(self), *final(self), key, r),
    {
        match key {
            KeyCode::Enter => {
                let next = self.state.next();
                self.set_state(next);
                None
            },
            KeyCode::Backspace => {
                let prev = self.state.previous();
                self.set_state(prev);
                None
            },
            KeyCode::Char(c) => {
                if c == 'r' {
                    Some(
                        UiCallbackPreset::SetTeamColors {
                            color: self.red_color_preset.next(),
                            channel: 0,
                        },
                    )
                } else if c == 'g' {
                    Some(
                        UiCallbackPreset::SetTeamColors {
                            color: self.green_color_preset.next(),
                            channel: 1,
                        },
                    )
                } else if c == 'b' {
                    Some(
                        UiCallbackPreset::SetTeamColors {
                            color: self.blue_color_preset.next(),
                            channel: 2,
                        },
                    )
                } else {
                    None
                }
            },
            _ => None,
        }
    }

    fn handle_ship_model_key(&mut self, key: KeyCode) -> (r: Option<UiCallbackPreset>)
        requires
            old(self).wf(),
            old(self).state == CreationState::ShipModel,
        ensures
            final(self).wf(),
            Self::ship_model_step(*old(self), *final(self), key, r),
    {
        match key {
            KeyCode::Enter => {
                let next = self.state.next();
                self.set_state(next);
                None
            },
            KeyCode::Backspace => {
                let prev = self.state.previous();
                self.set_state(prev);
                None
            },
            KeyCode::Char(c) => {
                if c == 'r' {
                    Some(
                        UiCallbackPreset::SetTeamColors {
                            color: self.red_color_preset.next(),
                            channel: 0,
                        },
                    )
                } else if c == 'g' {
                    Some(
                        UiCallbackPreset::SetTeamColors {
                            color: self.green_color_preset.next(),
                            channel: 1,
                        },
                    )
                } else if c == 'b' {
                    Some(
                        UiCallbackPreset::SetTeamColors {
                            color: self.blue_color_preset.next(),
                            channel: 2,
                        },
                    )
                } else {
                    None
                }
            },
            _ => None,
        }
    }

    fn handle_players_key(&mut self, key: KeyCode) -> (r: Option<UiCallbackPreset>)
        requires
            old(self).wf(),
            old(self).state == CreationState::Players,
        ensures
            final(self).wf(),
            Self::players_step(*old(self), *final(self), key, r),
    {
        match key {
            KeyCode::Enter => {
                if self.planet_index < self.planet_ids.len() {
                    if self.player_index < self.planet_players[self.planet_index].len() {
                        let id =
                            self.planet_players[self.planet_index][self.player_index].player_id;
                        self.toggle_player(id);
                    }
                }
                if self.get_remaining_balance() >= 0 && self.enough_players_selected() {
                    let next = self.state.next();
                    self.set_state(next);
                }
                None
            },
            KeyCode::Backspace => {
                self.clear_selected_players();
                let prev = self.state.previous();
                self.set_state(prev);
                None
            },
            _ => None,
        }
    }

    fn handle_done_key(&mut self, key: KeyCode) -> (r: Option<UiCallbackPreset>)
        requires
            old(self).wf(),
            old(self).state == CreationState::Done,
        ensures
            final(self).wf(),
            Self::done_step(*old(self), *final(self), key, r),
    {
        match key {
            KeyCode::Enter => {
                if self.planet_index < self.planet_ids.len() {
                    let name = crate::text::chars_to_string(&self.team_name);
                    let home_planet = self.planet_ids[self.planet_index];
                    let jersey_style = self.jersey_styles[self.jersey_style_index];
                    let jersey_colors = self.get_team_colors();
                    let players = clone_ids(&self.selected_players);
                    let balance = self.get_remaining_balance();
                    let spaceship = self.selected_ship();
                    Some(
                        UiCallbackPreset::GeneratePlayerTeam {
                            name,
                            home_planet,
                            jersey_style,
                            jersey_colors,
                            players,
                            balance,
                            spaceship,
                        },
                    )
                } else {
                    None
                }
            },
            KeyCode::Backspace => {
                self.set_index(0);
                Some(UiCallbackPreset::CancelGeneratePlayerTeam)
            },
            KeyCode::Left => {
                self.confirm = ConfirmChoice::Yes;
                None
            },
            KeyCode::Right => {
                self.confirm = ConfirmChoice::No;
                None
            },
            _ => None,
        }
    }

    /// The screen's name, as the shell lists it.
    pub fn name(&self) -> (r: &'static str)
        ensures
            r@ == "NewTeam"@,
    {
        "NewTeam"
    }

    /// Handles one key event: the cursor keys move the active stage's
    /// cursor; every other key goes to the active stage's own handler. The
    /// returned intent, if any, is the wizard's only outward effect.
    pub fn handle_key_events(&mut self, key_event: KeyCode) -> (r: Option<UiCallbackPreset>)
        requires
            old(self).wf(),
        ensures
            final(self).wf(),
            Self::step_rel(*old(self), *final(self), key_event, r),
    {
        match key_event {
            KeyCode::Up => {
                self.next_index();
                None
            },
            KeyCode::Down => {
                self.previous_index();
                None
            },
            _ => match self.state {
                CreationState::TeamName => self.handle_team_name_key(key_event),
                CreationState::ShipName => self.handle_ship_name_key(key_event),
                CreationState::Planet => self.handle_planet_key(key_event),
                CreationState::Jersey => self.handle_jersey_key(key_event),
                CreationState::ShipModel => self.handle_ship_model_key(key_event),
                CreationState::Players => self.handle_players_key(key_event),
                CreationState::Done => self.handle_done_key(key_event),
            },
        }
    }
}

} // verus!

verus! {

/// The remaining balance is a function of the current bucket, the chosen
/// roster, and the ship's price alone: two wizards agreeing on those three
/// agree on the balance, whatever their names, theme, tick or stage.
pub proof fn lemma_balance_depends_only_on(a: NewTeamScreen, b: NewTeamScreen)
    requires
        a.cur_bucket() == b.cur_bucket(),
        a.selected_players@ == b.selected_players@,
        a.ship_cost_spec() == b.ship_cost_spec(),
    ensures
        a.remaining_balance_spec() == b.remaining_balance_spec(),
{
}

/// Toggling the same candidate twice restores the roster as a set; when the
/// candidate was not chosen before, it restores the roster exactly. The cap
/// premise holds of every roster the wizard itself builds: one over the cap
/// could drop a candidate and then refuse to take it back.
pub proof fn lemma_roster_toggle_twice(s: Seq<u64>, id: u64, max: int)
    requires
        s.no_duplicates(),
        s.contains(id) ==> s.len() <= max,
    ensures
        spec_toggled(spec_toggled(s, id, max), id, max).to_set() == s.to_set(),
        !s.contains(id) ==> spec_toggled(spec_toggled(s, id, max), id, max) == s,
{
    broadcast use vstd::seq_lib::group_seq_properties;

    if s.contains(id) {
        let t1 = spec_toggled(s, id, max);
        assert(t1 == s.filter(ne_pred(id)));
        lemma_filter_props(s, ne_pred(id));
        lemma_filter_removes(s, id);
        assert(!t1.contains(id));
        assert(t1.len() < s.len());
        let t2 = spec_toggled(t1, id, max);
        assert(t2 == t1.push(id));
        assert forall|y: u64| #[trigger] t2.to_set().contains(y) implies s.to_set().contains(
            y,
        ) by {
            assert(t2.contains(y));
            if y == id {
                assert(s.contains(y));
            } else {
                let k = choose|k: int| 0 <= k < t2.len() && t2[k] == y;
                assert(t1[k] == y);
                assert(t1.contains(y));
            }
        }
        assert forall|y: u64| #[trigger] s.to_set().contains(y) implies t2.to_set().contains(
            y,
        ) by {
            assert(s.contains(y));
            if y == id {
                assert(t2[t2.len() - 1] == y);
            } else {
                assert(t1.contains(y));
                let k = choose|k: int| 0 <= k < t1.len() && t1[k] == y;
                assert(t2[k] == y);
            }
        }
        assert(t2.to_set() =~= s.to_set());
    } else {
        if s.len() < max {
            let t1 = s.push(id);
            assert(spec_toggled(s, id, max) == t1);
            assert(t1.contains(id)) by {
                assert(t1[t1.len() - 1] == id);
            }
            let t2 = spec_toggled(t1, id, max);
            assert(t2 == t1.filter(ne_pred(id)));
            proof_filter_of_push(s, id);
            assert(t2 == s);
        } else {
            assert(spec_toggled(s, id, max) == s);
        }
    }
}

/// Appending an identifier and then filtering it out gives back the original
/// list, provided it never held that identifier.
proof fn proof_filter_of_push(s: Seq<u64>, id: u64)
    requires
        !s.contains(id),
    ensures
        s.push(id).filter(ne_pred(id)) == s,
{
    reveal(Seq::filter);
    let t = s.push(id);
    assert(t.drop_last() =~= s);
    assert(t.last() == id);
    lemma_filter_keeps_all(s, id);
}

/// Auto-advance out of the roster stage fires exactly when, after the
/// toggle, the balance is not negative and the roster holds as many
/// candidates as may be chosen; it is the only way a confirm at the roster
/// stage changes the stage.
pub proof fn lemma_auto_advance_iff(
    pre: NewTeamScreen,
    post: NewTeamScreen,
    r: Option<UiCallbackPreset>,
)
    requires
        pre.state == CreationState::Players,
        NewTeamScreen::step_rel(pre, post, KeyCode::Enter, r),
    ensures
        (post.state == CreationState::Done) <==> (balance_of(
            pre.cur_bucket(),
            NewTeamScreen::roster_after_toggle(pre),
            pre.ship_cost_spec(),
        ) >= 0 && NewTeamScreen::roster_after_toggle(pre).len() >= pre.max_players_spec()),
{
}

/// Building the pool is idempotent: a second render step on the same
/// snapshot leaves the location list and every bucket exactly as the first
/// step made them.
pub proof fn lemma_pool_build_idempotent(
    s0: NewTeamScreen,
    s1: NewTeamScreen,
    s2: NewTeamScreen,
    w: WorldSnapshot,
)
    requires
        NewTeamScreen::update_rel(s0, s1, w),
        NewTeamScreen::update_rel(s1, s2, w),
    ensures
        s2.planet_ids@ == s1.planet_ids@,
        buckets_view(s2.planet_players@) == buckets_view(s1.planet_players@),
{
}

} // verus!


verus! {

/// The active stage's cursor always sits inside its list, or at the top of
/// an empty one: a well-formed wizard never indexes out of bounds.
pub proof fn lemma_cursor_in_bounds(s: NewTeamScreen)
    requires
        s.wf(),
    ensures
        s.index_spec() < s.max_index_spec() || s.index_spec() == 0,
{
}

} // verus!

verus! {

/// Two confirms at the roster stage with the cursor on the same candidate
/// undo each other: nothing is emitted, the chosen set is restored — the
/// whole list, when the candidate was not chosen before — and the wizard
/// leaves the roster stage only if the second toggle itself satisfies the
/// auto-advance condition. The cap premise holds of every roster the wizard
/// itself builds.
pub proof fn lemma_double_enter_restores_roster(
    pre: NewTeamScreen,
    mid: NewTeamScreen,
    post: NewTeamScreen,
    r1: Option<UiCallbackPreset>,
    r2: Option<UiCallbackPreset>,
)
    requires
        pre.wf(),
        pre.state == CreationState::Players,
        pre.player_index < pre.cur_bucket().len(),
        pre.selected_players@.contains(pre.cur_bucket()[pre.player_index as int].player_id)
            ==> pre.selected_players@.len() <= pre.max_players_spec(),
        !NewTeamScreen::auto_advance_after(pre),
        NewTeamScreen::step_rel(pre, mid, KeyCode::Enter, r1),
        NewTeamScreen::step_rel(mid, post, KeyCode::Enter, r2),
    ensures
        post.selected_players@.to_set() == pre.selected_players@.to_set(),
        !pre.selected_players@.contains(pre.cur_bucket()[pre.player_index as int].player_id)
            ==> post.selected_players@ == pre.selected_players@,
        mid.state == CreationState::Players,
        r1 is None,
        r2 is None,
        !NewTeamScreen::auto_advance_after(mid) ==> post.state == CreationState::Players,
{
    let id = pre.cur_bucket()[pre.player_index as int].player_id;
    let max = pre.max_players_spec();
    assert(mid == (NewTeamScreen { selected_players: mid.selected_players, ..pre }));
    assert(mid.cur_bucket() == pre.cur_bucket());
    assert(mid.max_players_spec() == max);
    assert(mid.selected_players@ == spec_toggled(pre.selected_players@, id, max));
    assert(post.selected_players@ == spec_toggled(
        spec_toggled(pre.selected_players@, id, max),
        id,
        max,
    ));
    lemma_roster_toggle_twice(pre.selected_players@, id, max);
}

/// At the roster stage, a confirm moves the wizard to the confirmation
/// stage exactly when, after the toggle, the balance is not negative and
/// the roster holds exactly as many candidates as may be chosen; otherwise
/// the wizard stays at the roster stage, and nothing is emitted either way.
/// The cap premise holds of every roster the wizard itself builds.
pub proof fn lemma_auto_advance_exact_count(
    pre: NewTeamScreen,
    post: NewTeamScreen,
    r: Option<UiCallbackPreset>,
)
    requires
        pre.state == CreationState::Players,
        pre.selected_players@.len() <= pre.max_players_spec(),
        NewTeamScreen::step_rel(pre, post, KeyCode::Enter, r),
    ensures
        post.selected_players@ == NewTeamScreen::roster_after_toggle(pre),
        (post.state == CreationState::Done) <==> (balance_of(
            pre.cur_bucket(),
            NewTeamScreen::roster_after_toggle(pre),
            pre.ship_cost_spec(),
        ) >= 0 && NewTeamScreen::roster_after_toggle(pre).len() == pre.max_players_spec()),
        post.state != CreationState::Done ==> post.state == CreationState::Players,
        r is None,
{
    let toggled = NewTeamScreen::roster_after_toggle(pre);
    let max = pre.max_players_spec();
    assert(toggled.len() <= max) by {
        if pre.player_index < pre.cur_bucket().len() {
            let id = pre.cur_bucket()[pre.player_index as int].player_id;
            if pre.selected_players@.contains(id) {
                lemma_filter_props(pre.selected_players@, ne_pred(id));
            }
        }
    }
}

} // verus!
