use team_wizard::color_map::ColorPreset;
use team_wizard::constants::{KeyCode, StyleTag, UiStyle, INITIAL_TEAM_BALANCE};
use team_wizard::render::SnapshotError;
use team_wizard::screen::{CreationState, NewTeamScreen, UiCallbackPreset};
use team_wizard::world::{PlanetSnapshot, PlayerSnapshot, WorldSnapshot};

fn planet(id: u64, name: &str, population: u64) -> PlanetSnapshot {
    PlanetSnapshot { id, name: name.to_string(), population }
}

fn player(id: u64, home: u64, cost: u32, rating: u8) -> PlayerSnapshot {
    PlayerSnapshot {
        id,
        team: None,
        home_planet_id: home,
        hire_cost: cost,
        rating,
        first_name: format!("First{}", id),
        last_name: format!("Last{}", id),
    }
}

fn one_planet_world(players: Vec<PlayerSnapshot>) -> WorldSnapshot {
    WorldSnapshot { planets: vec![planet(1, "Earth", 100)], players }
}

/// A wizard with a built pool, sitting at the roster stage of planet 1.
fn wizard_at_roster(w: &WorldSnapshot) -> NewTeamScreen {
    let mut s = NewTeamScreen::new();
    s.update(w);
    s.set_state(CreationState::Players);
    s
}

#[test]
fn pool_lists_populated_planets_sorted() {
    let w = WorldSnapshot {
        planets: vec![
            planet(30, "Ceti", 10),
            planet(10, "Alpha", 20),
            planet(40, "Ghost", 0),
            planet(20, "Beta", 5),
        ],
        players: vec![],
    };
    let mut s = NewTeamScreen::new();
    s.update(&w);
    assert_eq!(s.planet_ids, vec![10, 20, 30]);
    assert_eq!(s.planet_players.len(), 3);
    assert!(s.planet_players.iter().all(|b| b.is_empty()));
}

#[test]
fn pool_buckets_sort_by_rating_descending_with_stable_ties() {
    let w = one_planet_world(vec![
        player(101, 1, 100, 50),
        player(102, 1, 200, 80),
        player(103, 1, 300, 50),
        player(104, 1, 400, 90),
    ]);
    let mut s = NewTeamScreen::new();
    s.update(&w);
    let ids: Vec<u64> = s.planet_players[0].iter().map(|e| e.player_id).collect();
    // 104 (90), 102 (80), then the two rated 50 in snapshot order: 101 before 103
    assert_eq!(ids, vec![104, 102, 101, 103]);
}

#[test]
fn pool_skips_affiliated_players() {
    let mut taken = player(105, 1, 100, 70);
    taken.team = Some(7);
    let w = one_planet_world(vec![taken, player(106, 1, 100, 60)]);
    let mut s = NewTeamScreen::new();
    s.update(&w);
    let ids: Vec<u64> = s.planet_players[0].iter().map(|e| e.player_id).collect();
    assert_eq!(ids, vec![106]);
}

#[test]
fn pool_build_is_idempotent() {
    let w = one_planet_world(vec![
        player(101, 1, 100, 50),
        player(102, 1, 200, 80),
        player(103, 1, 300, 50),
    ]);
    let mut s = NewTeamScreen::new();
    s.update(&w);
    let ids_once = s.planet_ids.clone();
    let buckets_once = s.planet_players.clone();
    s.update(&w);
    assert_eq!(s.planet_ids, ids_once);
    assert_eq!(s.planet_players, buckets_once);
}

#[test]
fn balance_counts_selected_costs_and_ship_cost() {
    let w = one_planet_world(vec![player(101, 1, 40000, 90), player(102, 1, 30000, 80)]);
    let mut s = wizard_at_roster(&w);
    let ship_cost = s.spaceship_models[s.spaceship_model_index].cost();
    assert_eq!(s.get_remaining_balance(), INITIAL_TEAM_BALANCE as i64 - ship_cost as i64);
    s.toggle_player(101);
    assert_eq!(
        s.get_remaining_balance(),
        INITIAL_TEAM_BALANCE as i64 - 40000 - ship_cost as i64
    );
    s.toggle_player(102);
    assert_eq!(
        s.get_remaining_balance(),
        INITIAL_TEAM_BALANCE as i64 - 70000 - ship_cost as i64
    );
}

#[test]
fn balance_ignores_theme_and_names() {
    let w = one_planet_world(vec![player(101, 1, 40000, 90)]);
    let mut s = wizard_at_roster(&w);
    s.toggle_player(101);
    let before = s.get_remaining_balance();
    s.set_team_colors(ColorPreset::Violet, 0);
    s.set_team_colors(ColorPreset::Teal, 1);
    s.set_team_colors(ColorPreset::Gold, 2);
    s.team_name = "Pirates".chars().collect();
    s.ship_name = "Siren".chars().collect();
    assert_eq!(s.get_remaining_balance(), before);
}

#[test]
fn roster_toggle_twice_restores_the_selection() {
    let w = one_planet_world(vec![
        player(101, 1, 100, 90),
        player(102, 1, 200, 80),
        player(103, 1, 300, 70),
    ]);
    let mut s = wizard_at_roster(&w);
    s.toggle_player(101);
    s.toggle_player(102);
    let before = s.selected_players.clone();
    s.toggle_player(103);
    s.toggle_player(103);
    let mut after = s.selected_players.clone();
    let mut expected = before.clone();
    after.sort();
    expected.sort();
    assert_eq!(after, expected);
}

#[test]
fn roster_toggle_at_the_cap_is_a_no_op() {
    // seven candidates, cap is the team size of six
    let players: Vec<PlayerSnapshot> =
        (0..7).map(|i| player(101 + i, 1, 100, 90 - i as u8)).collect();
    let w = one_planet_world(players);
    let mut s = wizard_at_roster(&w);
    for i in 0..6 {
        s.toggle_player(101 + i);
    }
    assert_eq!(s.selected_players.len(), 6);
    s.toggle_player(107);
    assert_eq!(s.selected_players.len(), 6);
    assert!(!s.selected_players.contains(&107));
}

#[test]
fn auto_advance_needs_both_budget_and_cap() {
    // five cheap candidates, one expensive, one medium; cap is six
    let mut players: Vec<PlayerSnapshot> =
        (0..5).map(|i| player(101 + i, 1, 1000, 96 - i as u8)).collect();
    players.push(player(120, 1, 90000, 91)); // expensive, bucket index 5
    players.push(player(121, 1, 10000, 90)); // affordable, bucket index 6
    let w = one_planet_world(players);
    let mut s = wizard_at_roster(&w);
    for i in 0..5 {
        s.toggle_player(101 + i);
    }
    assert_eq!(s.selected_players.len(), 5);
    assert!(s.get_remaining_balance() >= 0);
    // cursor on the expensive candidate: reaching the cap with a negative
    // balance must not advance
    s.set_index(5);
    assert!(s.handle_key_events(KeyCode::Enter).is_none());
    assert_eq!(s.selected_players.len(), 6);
    assert!(s.get_remaining_balance() < 0);
    assert_eq!(s.state, CreationState::Players);
    // deselect the expensive one again
    assert!(s.handle_key_events(KeyCode::Enter).is_none());
    assert_eq!(s.selected_players.len(), 5);
    // the toggle that restores the cap within budget advances
    s.set_index(6);
    assert!(s.handle_key_events(KeyCode::Enter).is_none());
    assert_eq!(s.selected_players.len(), 6);
    assert!(s.get_remaining_balance() >= 0);
    assert_eq!(s.state, CreationState::Done);
}

#[test]
fn single_candidate_over_budget_does_not_advance() {
    // one candidate costing more than the starting balance: selecting it
    // reaches the cap of one, but the negative balance blocks the advance
    let w = one_planet_world(vec![player(101, 1, INITIAL_TEAM_BALANCE + 50000, 90)]);
    let mut s = wizard_at_roster(&w);
    assert!(s.handle_key_events(KeyCode::Enter).is_none());
    assert_eq!(s.selected_players, vec![101]);
    assert!(s.get_remaining_balance() < 0);
    assert_eq!(s.state, CreationState::Players);
}

#[test]
fn empty_bucket_advances_without_any_selection() {
    let w = one_planet_world(vec![]);
    let mut s = wizard_at_roster(&w);
    assert!(s.handle_key_events(KeyCode::Enter).is_none());
    assert_eq!(s.state, CreationState::Done);
    assert!(s.selected_players.is_empty());
}

#[test]
fn short_name_is_rejected_then_valid_name_advances() {
    let w = one_planet_world(vec![]);
    let mut s = NewTeamScreen::new();
    s.update(&w);
    assert_eq!(s.state, CreationState::TeamName);
    s.handle_key_events(KeyCode::Char('Z'));
    s.handle_key_events(KeyCode::Char('z'));
    assert!(s.handle_key_events(KeyCode::Enter).is_none());
    assert_eq!(s.state, CreationState::TeamName);
    assert!(!s.team_name_valid);
    // clear the rejected buffer, then type a valid name
    s.handle_key_events(KeyCode::Backspace);
    s.handle_key_events(KeyCode::Backspace);
    for c in "Zonk".chars() {
        s.handle_key_events(KeyCode::Char(c));
    }
    assert!(s.handle_key_events(KeyCode::Enter).is_none());
    assert_eq!(s.state, CreationState::ShipName);
    let expected: Vec<char> = "Zonk".chars().collect();
    assert_eq!(s.team_name, expected);
    assert!(s.team_name_valid);
}

#[test]
fn backspace_on_empty_ship_name_steps_back() {
    let w = one_planet_world(vec![]);
    let mut s = NewTeamScreen::new();
    s.update(&w);
    s.set_state(CreationState::ShipName);
    assert!(s.ship_name.is_empty());
    s.handle_key_events(KeyCode::Backspace);
    assert_eq!(s.state, CreationState::TeamName);
}

#[test]
fn cursor_wraps_around_the_planet_list() {
    let w = WorldSnapshot {
        planets: vec![planet(1, "A", 1), planet(2, "B", 1), planet(3, "C", 1)],
        players: vec![],
    };
    let mut s = NewTeamScreen::new();
    s.update(&w);
    s.set_state(CreationState::Planet);
    assert_eq!(s.planet_index, 0);
    s.handle_key_events(KeyCode::Up);
    s.handle_key_events(KeyCode::Up);
    s.handle_key_events(KeyCode::Up);
    assert_eq!(s.planet_index, 0);
    s.handle_key_events(KeyCode::Down);
    assert_eq!(s.planet_index, 2);
}

#[test]
fn channel_keys_emit_cycling_intents() {
    let w = one_planet_world(vec![]);
    let mut s = NewTeamScreen::new();
    s.update(&w);
    s.set_state(CreationState::Jersey);
    let before = s.red_color_preset;
    match s.handle_key_events(KeyCode::Char('r')) {
        Some(UiCallbackPreset::SetTeamColors { color, channel }) => {
            assert_eq!(channel, 0);
            assert_eq!(color, before.next());
            s.set_team_colors(color, channel);
        }
        _ => panic!("expected a recoloring intent"),
    }
    assert_eq!(s.red_color_preset, before.next());
}

#[test]
fn confirming_emits_the_full_commit_intent() {
    let w = one_planet_world(vec![player(101, 1, 40000, 90)]);
    let mut s = NewTeamScreen::new();
    s.update(&w);
    s.team_name = "Zonk".chars().collect();
    s.ship_name = "Siren".chars().collect();
    s.set_state(CreationState::Players);
    s.toggle_player(101);
    s.set_state(CreationState::Done);
    let ship_cost = s.spaceship_models[s.spaceship_model_index].cost();
    match s.handle_key_events(KeyCode::Enter) {
        Some(UiCallbackPreset::GeneratePlayerTeam {
            name,
            home_planet,
            players,
            balance,
            spaceship,
            ..
        }) => {
            assert_eq!(name, "Zonk");
            assert_eq!(home_planet, 1);
            assert_eq!(players, vec![101]);
            assert_eq!(balance, INITIAL_TEAM_BALANCE as i64 - 40000 - ship_cost as i64);
            assert_eq!(spaceship.name, "Siren");
            assert_eq!(spaceship.prefab, s.spaceship_models[s.spaceship_model_index]);
        }
        _ => panic!("expected the commit intent"),
    }
    // backing out instead emits the cancellation intent
    match s.handle_key_events(KeyCode::Backspace) {
        Some(UiCallbackPreset::CancelGeneratePlayerTeam) => {}
        _ => panic!("expected the cancellation intent"),
    }
}

#[test]
fn new_wizard_draws_three_distinct_palette_colors() {
    let s = NewTeamScreen::new();
    let palette = ColorPreset::palette();
    assert!(palette.contains(&s.red_color_preset));
    assert!(palette.contains(&s.green_color_preset));
    assert!(palette.contains(&s.blue_color_preset));
    assert_ne!(s.red_color_preset, s.green_color_preset);
    assert_ne!(s.red_color_preset, s.blue_color_preset);
    assert_ne!(s.green_color_preset, s.blue_color_preset);
}

#[test]
fn stale_planet_reference_is_reported_not_followed() {
    let w = one_planet_world(vec![]);
    let mut s = NewTeamScreen::new();
    s.update(&w);
    s.set_state(CreationState::Planet);
    let stale = WorldSnapshot { planets: vec![], players: vec![] };
    match s.planet_selection_panel(&stale) {
        Err(SnapshotError::MissingPlanet(1)) => {}
        _ => panic!("expected the missing-planet report"),
    }
}

#[test]
fn stale_player_reference_is_reported_not_followed() {
    let w = one_planet_world(vec![player(101, 1, 100, 90)]);
    let mut s = wizard_at_roster(&w);
    let stale = one_planet_world(vec![]);
    match s.player_list_panel(&stale) {
        Err(SnapshotError::MissingPlayer(101)) => {}
        _ => panic!("expected the missing-player report"),
    }
}

#[test]
fn headline_resolves_the_home_planet_name() {
    let w = one_planet_world(vec![]);
    let mut s = NewTeamScreen::new();
    s.update(&w);
    s.team_name = "Zonk".chars().collect();
    let line = s.confirm_headline(&w).expect("planet 1 is in the snapshot");
    assert_eq!(line, "Zonk from Earth");
}

#[test]
fn balance_panel_styles_by_sign() {
    let w = one_planet_world(vec![player(101, 1, INITIAL_TEAM_BALANCE + 1, 90)]);
    let mut s = wizard_at_roster(&w);
    let (_, style) = s.balance_panel();
    assert_eq!(style, UiStyle::OK);
    s.toggle_player(101);
    let (balance, style) = s.balance_panel();
    assert!(balance < 0);
    assert_eq!(style, StyleTag::Error);
}

#[test]
fn backspace_at_roster_clears_selections_and_steps_back() {
    let w = one_planet_world(vec![player(101, 1, 100, 90), player(102, 1, 200, 80)]);
    let mut s = wizard_at_roster(&w);
    s.toggle_player(101);
    assert!(!s.selected_players.is_empty());
    s.handle_key_events(KeyCode::Backspace);
    assert!(s.selected_players.is_empty());
    assert_eq!(s.state, CreationState::ShipModel);
}
