use vstd::prelude::*;
use crate::color_map::ColorMap;

verus! {

/// What the wizard reads of one planet: its identifier, display name, and
/// how many people live there.
#[derive(Clone, Debug)]
pub struct PlanetSnapshot {
    pub id: u64,
    pub name: String,
    pub population: u64,
}

/// What the wizard reads of one player: identity, affiliation, home planet,
/// the one-time hiring cost evaluated at snapshot time, and the quality
/// rating the roster is ordered by.
#[derive(Clone, Debug)]
pub struct PlayerSnapshot {
    pub id: u64,
    pub team: Option<u64>,
    pub home_planet_id: u64,
    pub hire_cost: u32,
    pub rating: u8,
    pub first_name: String,
    pub last_name: String,
}

/// A read-only snapshot of the world, taken once when the wizard screen is
/// entered; the wizard never mutates it.
#[derive(Clone, Debug)]
pub struct WorldSnapshot {
    pub planets: Vec<PlanetSnapshot>,
    pub players: Vec<PlayerSnapshot>,
}

impl WorldSnapshot {
    /// Identifiers are unique within a snapshot.
    pub open spec fn wf(self) -> bool {
        &&& forall|i: int, j: int|
            0 <= i < j < self.planets@.len() ==> self.planets@[i].id != self.planets@[j].id
        &&& forall|i: int, j: int|
            0 <= i < j < self.players@.len() ==> self.players@[i].id != self.players@[j].id
    }
}

/// One jersey style a new team may pick.
#[derive(Clone, Copy, Debug, PartialEq, Eq, Structural)]
pub enum JerseyStyle {
    Classic,
    Stripe,
    Fancy,
    Gilet,
    Pirate,
}

impl JerseyStyle {
    /// Whether the style may be picked when a team is created; the pirate
    /// style is earned later.
    pub open spec fn available_at_creation_spec(self) -> bool {
        self != JerseyStyle::Pirate
    }

    pub fn is_available_at_creation(&self) -> (r: bool)
        ensures
            r == self.available_at_creation_spec(),
    {
        match self {
            JerseyStyle::Pirate => false,
            _ => true,
        }
    }

    /// The style's display name.
    pub open spec fn label_spec(self) -> Seq<char> {
        match self {
            JerseyStyle::Classic => "Classic"@,
            JerseyStyle::Stripe => "Stripe"@,
            JerseyStyle::Fancy => "Fancy"@,
            JerseyStyle::Gilet => "Gilet"@,
            JerseyStyle::Pirate => "Pirate"@,
        }
    }

    pub fn label(&self) -> (r: String)
        ensures
            r@ == self.label_spec(),
    {
        match self {
            JerseyStyle::Classic => String::from_str("Classic"),
            JerseyStyle::Stripe => String::from_str("Stripe"),
            JerseyStyle::Fancy => String::from_str("Fancy"),
            JerseyStyle::Gilet => String::from_str("Gilet"),
            JerseyStyle::Pirate => String::from_str("Pirate"),
        }
    }

    /// The styles offered at creation, in declaration order.
    pub open spec fn creation_styles_spec() -> Seq<JerseyStyle> {
        seq![JerseyStyle::Classic, JerseyStyle::Stripe, JerseyStyle::Fancy, JerseyStyle::Gilet]
    }

    pub fn creation_styles() -> (r: Vec<JerseyStyle>)
        ensures
            r@ == JerseyStyle::creation_styles_spec(),
            r@.len() > 0,
    {
        let r: Vec<JerseyStyle> = vec![
            JerseyStyle::Classic,
            JerseyStyle::Stripe,
            JerseyStyle::Fancy,
            JerseyStyle::Gilet,
        ];
        proof {
            assert(r@ =~= JerseyStyle::creation_styles_spec());
        }
        r
    }
}

/// A jersey: a style together with the team's three theme colors.
#[derive(Clone, Copy, Debug, PartialEq, Eq, Structural)]
pub struct Jersey {
    pub style: JerseyStyle,
    pub color: ColorMap,
}

/// One ship class a new team may buy; the price is determined by the class
/// alone.
#[derive(Clone, Copy, Debug, PartialEq, Eq, Structural)]
pub enum SpaceshipPrefab {
    Shuttle,
    Corvette,
    Frigate,
    Galleon,
}

impl SpaceshipPrefab {
    /// The class's price.
    pub open spec fn cost_spec(self) -> u32 {
        match self {
            SpaceshipPrefab::Shuttle => 15000,
            SpaceshipPrefab::Corvette => 22000,
            SpaceshipPrefab::Frigate => 30000,
            SpaceshipPrefab::Galleon => 45000,
        }
    }

    pub fn cost(&self) -> (r: u32)
        ensures
            r == self.cost_spec(),
    {
        match self {
            SpaceshipPrefab::Shuttle => 15000,
            SpaceshipPrefab::Corvette => 22000,
            SpaceshipPrefab::Frigate => 30000,
            SpaceshipPrefab::Galleon => 45000,
        }
    }

    /// The class's display name.
    pub open spec fn label_spec(self) -> Seq<char> {
        match self {
            SpaceshipPrefab::Shuttle => "Shuttle"@,
            SpaceshipPrefab::Corvette => "Corvette"@,
            SpaceshipPrefab::Frigate => "Frigate"@,
            SpaceshipPrefab::Galleon => "Galleon"@,
        }
    }

    pub fn label(&self) -> (r: String)
        ensures
            r@ == self.label_spec(),
    {
        match self {
            SpaceshipPrefab::Shuttle => String::from_str("Shuttle"),
            SpaceshipPrefab::Corvette => String::from_str("Corvette"),
            SpaceshipPrefab::Frigate => String::from_str("Frigate"),
            SpaceshipPrefab::Galleon => String::from_str("Galleon"),
        }
    }

    /// Every class on offer, in declaration order.
    pub open spec fn all_spec() -> Seq<SpaceshipPrefab> {
        seq![
            SpaceshipPrefab::Shuttle,
            SpaceshipPrefab::Corvette,
            SpaceshipPrefab::Frigate,
            SpaceshipPrefab::Galleon,
        ]
    }

    pub fn all() -> (r: Vec<SpaceshipPrefab>)
        ensures
            r@ == SpaceshipPrefab::all_spec(),
            r@.len() > 0,
    {
        let r: Vec<SpaceshipPrefab> = vec![
            SpaceshipPrefab::Shuttle,
            SpaceshipPrefab::Corvette,
            SpaceshipPrefab::Frigate,
            SpaceshipPrefab::Galleon,
        ];
        proof {
            assert(r@ =~= SpaceshipPrefab::all_spec());
        }
        r
    }

    /// The concrete ship this class yields, named and painted by the wizard.
    pub fn specs(&self, name: String, color_map: ColorMap) -> (r: Spaceship)
        ensures
            r.prefab == *self,
            r.name == name,
            r.color_map == color_map,
    {
        Spaceship { prefab: *self, name, color_map }
    }
}

/// The ship a new team sails away with.
#[derive(Clone, Debug)]
pub struct Spaceship {
    pub prefab: SpaceshipPrefab,
    pub name: String,
    pub color_map: ColorMap,
}

impl Spaceship {
    /// The ship's price: that of its class.
    pub open spec fn cost_spec(self) -> u32 {
        self.prefab.cost_spec()
    }

    pub fn cost(&self) -> (r: u32)
        ensures
            r == self.cost_spec(),
    {
        self.prefab.cost()
    }
}

} // verus!
