use dungeon_crawl::entity::{Entity, Hue};
use dungeon_crawl::game::{Dir, Game, KeyEvent};
use dungeon_crawl::{GRID_HEIGHT, GRID_WIDTH};

fn started_game() -> Game {
    let mut g = Game::new();
    g.key(KeyEvent::Unicode('r'));
    g
}

#[test]
fn new_game_initial_state() {
    let g = Game::new();
    assert!(g.game_over);
    assert_eq!(g.score, 0);
    assert_eq!(g.tick_count, 0);
    assert_eq!(g.new_enemy_spawn_index, 0);
    assert_eq!(g.last_enemy_killed_index, 0);
    assert_eq!(g.enemies.len(), GRID_WIDTH);
    assert!(g.enemies.iter().all(|s| s.is_none()));
    assert_eq!(g.player, Entity::default());
    assert_eq!(g.walls.color, Hue::LightGreen);
}

#[test]
fn standard_walls_are_a_perimeter() {
    let g = Game::new();
    for col in 0..GRID_WIDTH {
        assert!(g.walls.occupied(0, col));
        assert!(g.walls.occupied(GRID_HEIGHT - 1, col));
    }
    for row in 0..GRID_HEIGHT {
        assert!(g.walls.occupied(row, 0));
        assert!(g.walls.occupied(row, GRID_WIDTH - 1));
    }
    for row in 1..GRID_HEIGHT - 1 {
        for col in 1..GRID_WIDTH - 1 {
            assert!(!g.walls.occupied(row, col));
        }
    }
}

#[test]
fn restart_resets_score_player_and_registry() {
    let mut g = Game::new();
    g.score = 500;
    g.tick_count = 42;
    g.player.current_health = 2;
    g.player.x = 10;
    g.enemies[3] = Some(Entity::new('W', 5, 5, 15, 4, 0, 1, 1, None, None, Hue::Red));
    g.key(KeyEvent::Unicode('r'));
    assert!(!g.game_over);
    assert_eq!(g.score, 0);
    assert_eq!(g.player, Entity::default());
    assert!(g.enemies.iter().all(|s| s.is_none()));
    assert_eq!(g.enemies.len(), GRID_WIDTH);
    // the tick counter persists across restarts
    assert_eq!(g.tick_count, 42);
}

#[test]
fn restart_only_acts_while_game_over() {
    let mut g = started_game();
    g.score = 300;
    g.key(KeyEvent::Unicode('r'));
    assert_eq!(g.score, 300);
    assert!(!g.game_over);
}

#[test]
fn quit_key_ends_the_game_and_keeps_score() {
    let mut g = started_game();
    g.score = 700;
    g.key(KeyEvent::Unicode('`'));
    assert!(g.game_over);
    assert_eq!(g.score, 700);
}

#[test]
fn movement_keys_step_one_cell() {
    let mut g = started_game();
    g.key(KeyEvent::Unicode('d'));
    assert_eq!((g.player.x, g.player.y), (41, 12));
    g.key(KeyEvent::Unicode('s'));
    assert_eq!((g.player.x, g.player.y), (41, 13));
    g.key(KeyEvent::Unicode('a'));
    assert_eq!((g.player.x, g.player.y), (40, 13));
    g.key(KeyEvent::Unicode('w'));
    assert_eq!((g.player.x, g.player.y), (40, 12));
}

#[test]
fn arrow_keys_move_like_letters() {
    let mut g = started_game();
    g.key(KeyEvent::Raw(Dir::Right));
    assert_eq!((g.player.x, g.player.y), (41, 12));
    g.key(KeyEvent::Raw(Dir::Down));
    assert_eq!((g.player.x, g.player.y), (41, 13));
    g.key(KeyEvent::Raw(Dir::Left));
    g.key(KeyEvent::Raw(Dir::Up));
    assert_eq!((g.player.x, g.player.y), (40, 12));
}

#[test]
fn accepted_move_heals_one_point() {
    let mut g = started_game();
    g.player.current_health = 5;
    g.key(KeyEvent::Unicode('d'));
    assert_eq!(g.player.current_health, 6);
}

#[test]
fn heal_caps_at_max_health() {
    let mut g = started_game();
    g.key(KeyEvent::Unicode('d'));
    assert_eq!(g.player.current_health, 10);
}

#[test]
fn wall_blocks_the_move_without_healing() {
    let mut g = started_game();
    g.player.x = 1;
    g.player.current_health = 5;
    g.key(KeyEvent::Unicode('a'));
    assert_eq!((g.player.x, g.player.y), (1, 12));
    assert_eq!(g.player.current_health, 5);
}

#[test]
fn moving_off_the_grid_is_discarded() {
    let mut g = started_game();
    g.player.x = 0;
    g.key(KeyEvent::Unicode('a'));
    assert_eq!((g.player.x, g.player.y), (0, 12));
}

#[test]
fn movement_is_ignored_while_game_over() {
    let mut g = Game::new();
    g.key(KeyEvent::Unicode('d'));
    g.key(KeyEvent::Raw(Dir::Up));
    assert_eq!(g.player, Entity::default());
    assert!(g.game_over);
}

#[test]
fn unmapped_keys_change_nothing() {
    let mut g = started_game();
    g.key(KeyEvent::Unicode('z'));
    g.key(KeyEvent::Unicode('!'));
    assert_eq!(g.player, Entity::default());
    assert_eq!(g.score, 0);
    assert!(!g.game_over);
}

#[test]
fn closing_on_an_archer_exchanges_damage() {
    // default player at (40, 12); archer three cells right, exactly at its
    // own attack range, and the step right closes the distance
    let mut g = started_game();
    g.enemies[5] = Some(Entity::new('B', 43, 12, 7, 3, 1, 3, 1, None, None, Hue::Red));
    g.key(KeyEvent::Unicode('d'));
    // the player attacks instead of moving
    assert_eq!((g.player.x, g.player.y), (40, 12));
    // archer takes 2 - 1 = 1 damage, player takes 3 - 0 = 3
    let archer = g.enemies[5].expect("archer slot");
    assert_eq!(archer.current_health, 6);
    assert_eq!(g.player.current_health, 7);
    assert_eq!(g.score, 0);
    assert!(!g.game_over);
}

#[test]
fn killing_the_archer_clears_the_slot_and_scores() {
    let mut g = started_game();
    let mut archer = Entity::new('B', 43, 12, 7, 3, 1, 3, 1, None, None, Hue::Red);
    archer.current_health = 1;
    g.enemies[5] = Some(archer);
    g.key(KeyEvent::Unicode('d'));
    assert!(g.enemies[5].is_none());
    assert_eq!(g.score, 100);
    assert_eq!(g.last_enemy_killed_index, 5);
    assert_eq!(g.player.current_health, 7);
}

#[test]
fn porcupine_defense_absorbs_player_damage() {
    let mut g = started_game();
    g.enemies[2] = Some(Entity::new('P', 41, 12, 10, 1, 2, 1, 3, None, None, Hue::Red));
    g.key(KeyEvent::Unicode('d'));
    // 2 damage against 2 defense: the porcupine is unhurt; 1 against 0 lands
    assert_eq!(g.enemies[2].expect("porcupine slot").current_health, 10);
    assert_eq!(g.player.current_health, 9);
    assert_eq!(g.score, 0);
}

#[test]
fn enemy_attacks_only_when_the_move_closes() {
    let mut g = started_game();
    g.enemies[4] = Some(Entity::new('W', 41, 12, 15, 4, 0, 1, 1, None, None, Hue::Red));
    // stepping away from the werewolf is a plain move
    g.key(KeyEvent::Unicode('a'));
    assert_eq!((g.player.x, g.player.y), (39, 12));
    assert_eq!(g.player.current_health, 10);
    assert_eq!(g.enemies[4].expect("werewolf slot").current_health, 15);
}

#[test]
fn player_death_ends_the_game() {
    let mut g = started_game();
    g.player.current_health = 2;
    g.enemies[0] = Some(Entity::new('W', 41, 12, 15, 4, 0, 1, 1, None, None, Hue::Red));
    g.key(KeyEvent::Unicode('d'));
    assert_eq!(g.player.current_health, -2);
    assert!(g.game_over);
}

#[test]
fn tick_while_game_over_only_counts() {
    let mut g = Game::new();
    g.tick();
    g.tick();
    assert_eq!(g.tick_count, 2);
    assert!(g.game_over);
    assert!(g.enemies.iter().all(|s| s.is_none()));
    assert_eq!(g.score, 0);
}

#[test]
fn spawn_reuses_the_last_killed_slot() {
    let mut g = started_game();
    g.last_enemy_killed_index = 6;
    g.new_enemy_spawn_index = 9;
    g.tick_count = 99;
    g.tick();
    assert_eq!(g.tick_count, 100);
    let spawned = g.enemies[6].expect("spawned enemy");
    assert!(matches!(spawned.glyph, 'S' | 'W' | 'B' | 'P'));
    assert_eq!(spawned.current_health, spawned.max_health as isize);
    assert!(spawned.x < GRID_WIDTH && spawned.y < GRID_HEIGHT);
    // the spawn cursor is untouched when a dead slot is reused
    assert_eq!(g.new_enemy_spawn_index, 9);
    assert_eq!(g.last_enemy_killed_index, 6);
}

#[test]
fn spawn_advances_the_cursor_when_no_slot_is_free() {
    let mut g = started_game();
    g.enemies[0] = Some(Entity::new('S', 20, 12, 7, 2, 1, 2, 1, None, None, Hue::Red));
    g.new_enemy_spawn_index = 7;
    g.tick_count = 99;
    g.tick();
    assert!(g.enemies[7].is_some());
    assert_eq!(g.new_enemy_spawn_index, 8);
    assert_eq!(g.last_enemy_killed_index, 0);
}

#[test]
fn registry_capacity_is_fixed_and_cleared_slots_stay_empty() {
    let mut g = started_game();
    let mut archer = Entity::new('B', 43, 12, 7, 3, 1, 3, 1, None, None, Hue::Red);
    archer.current_health = 1;
    g.enemies[5] = Some(archer);
    g.key(KeyEvent::Unicode('d'));
    assert!(g.enemies[5].is_none());
    for _ in 0..50 {
        g.tick();
        assert_eq!(g.enemies.len(), GRID_WIDTH);
        assert!(g.enemies[5].is_none());
    }
}

#[test]
fn enemies_random_walk_stays_on_the_grid() {
    let mut g = started_game();
    g.enemies[1] = Some(Entity::new('S', 1, 1, 7, 2, 1, 2, 1, None, None, Hue::Red));
    let mut prev = (1usize, 1usize);
    for _ in 0..80 {
        g.tick();
        let e = g.enemies[1].expect("skeleton slot");
        assert!(e.x < GRID_WIDTH && e.y < GRID_HEIGHT);
        let dx = if e.x >= prev.0 { e.x - prev.0 } else { prev.0 - e.x };
        let dy = if e.y >= prev.1 { e.y - prev.1 } else { prev.1 - e.y };
        assert!(dx + dy <= 1);
        assert_eq!(e.current_health, 7);
        assert_eq!(e.glyph, 'S');
        prev = (e.x, e.y);
    }
}

#[test]
fn score_never_decreases_while_playing() {
    let mut g = started_game();
    let mut archer = Entity::new('B', 43, 12, 7, 3, 1, 3, 1, None, None, Hue::Red);
    archer.current_health = 1;
    g.enemies[5] = Some(archer);
    let mut last: usize = 0;
    let moves = ['d', 'a', 'd', 'w', 's', 'd'];
    for c in moves {
        g.key(KeyEvent::Unicode(c));
        assert!(g.score >= last);
        last = g.score;
    }
    assert_eq!(g.score, 100);
}

#[test]
fn unobstructed_enemies_never_stand_still() {
    let mut g = started_game();
    g.enemies[1] = Some(Entity::new('S', 40, 10, 7, 2, 1, 2, 1, None, None, Hue::Red));
    let mut prev = (40usize, 10usize);
    for _ in 0..150 {
        g.tick();
        let e = g.enemies[1].expect("skeleton slot");
        // away from the perimeter every neighboring cell is free, so the
        // rolled direction always commits
        if prev.0 >= 2 && prev.0 <= GRID_WIDTH - 3 && prev.1 >= 2 && prev.1 <= GRID_HEIGHT - 3 {
            assert_ne!((e.x, e.y), prev);
        }
        prev = (e.x, e.y);
    }
}

#[test]
fn quit_and_restart_work_at_the_score_ceiling() {
    let mut g = started_game();
    g.score = usize::MAX;
    g.key(KeyEvent::Unicode('`'));
    assert!(g.game_over);
    assert_eq!(g.score, usize::MAX);
    g.key(KeyEvent::Unicode('r'));
    assert!(!g.game_over);
    assert_eq!(g.score, 0);
}
