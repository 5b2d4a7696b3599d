//! The game controller: the top-level state machine orchestrating input
//! handling, player movement with collision and attack resolution, enemy AI
//! stepping, periodic spawning, scoring, and game-over/reset transitions.
//!
//! States are `Playing` (`game_over == false`) and `GameOver`
//! (`game_over == true`); a fresh game starts in `GameOver` and waits for the
//! reset key.  Rendering is an external concern: every field a drawing layer
//! needs is public, and no function here touches a screen.

use vstd::prelude::*;
use crate::entity::{archetype, default_entity, Entity, Hue};
use crate::grid::{parse_layout, WallMap};
use crate::rng::{rng_from_seed, rng_next};
use crate::GRID_HEIGHT;
use crate::GRID_WIDTH;

verus! {

/// Ticks between two periodic enemy spawns.
pub const NEW_ENEMY_FREQ: isize = 100;

/// Points awarded for each enemy death.
pub const KILL_SCORE: usize = 100;

/// A movement direction, as produced by the keyboard decoder and by the
/// enemy AI's random walk.
#[derive(Clone, Copy, Debug, PartialEq, Eq, Structural)]
pub enum Dir {
    Up,
    Down,
    Left,
    Right,
}

/// A decoded keyboard event: either a named directional key or a character.
#[derive(Clone, Copy, Debug, PartialEq)]
pub enum KeyEvent {
    Raw(Dir),
    Unicode(char),
}

/// What a key event asks of the controller.
#[derive(Clone, Copy, Debug, PartialEq)]
pub enum Action {
    Step(Dir),
    Restart,
    Quit,
}

/// The whole game state: the single mutable resource of the simulation.
pub struct Game {
    pub game_over: bool,
    pub player: Entity,
    pub tick_count: isize,
    pub rng: rand::rngs::SmallRng,
    pub enemies: Vec<Option<Entity>>,
    pub walls: WallMap,
    pub score: usize,
    pub new_enemy_spawn_index: usize,
    pub last_enemy_killed_index: usize,
}

/// The static wall layout: a full one-cell frame around an empty interior.
pub const WALL_TEXT: &'static str = "################################################################################
#                                                                              #
#                                                                              #
#                                                                              #
#                                                                              #
#                                                                              #
#                                                                              #
#                                                                              #
#                                                                              #
#                                                                              #
#                                                                              #
#                                                                              #
#                                                                              #
#                                                                              #
#                                                                              #
#                                                                              #
#                                                                              #
#                                                                              #
#                                                                              #
#                                                                              #
#                                                                              #
#                                                                              #
#                                                                              #
#                                                                              #
################################################################################";

/// The layout text the fixed map is parsed from.
pub open spec fn wall_layout() -> Seq<char> {
    WALL_TEXT@
}

/// Whether `(x, y)` lies on the grid.
pub open spec fn in_grid(x: int, y: int) -> bool {
    0 <= x < GRID_WIDTH as int && 0 <= y < GRID_HEIGHT as int
}

/// Absolute distance between two coordinates.
pub open spec fn dist(a: int, b: int) -> int {
    if a >= b {
        a - b
    } else {
        b - a
    }
}

/// Equality of everything but the position.
pub open spec fn same_stats(a: Entity, b: Entity) -> bool {
    &&& a.glyph == b.glyph
    &&& a.max_health == b.max_health
    &&& a.current_health == b.current_health
    &&& a.damage == b.damage
    &&& a.defense == b.defense
    &&& a.attack_range == b.attack_range
    &&& a.attack_width == b.attack_width
    &&& a.weapon == b.weapon
    &&& a.armor == b.armor
    &&& a.color == b.color
}

/// What holds of every live registry entry: it sits on the grid, it is alive,
/// and its stats stay within the bounds the archetype table can produce.
pub open spec fn enemy_ok(e: Entity) -> bool {
    &&& in_grid(e.x as int, e.y as int)
    &&& 1 <= e.damage <= 4
    &&& e.defense <= 2
    &&& 1 <= e.max_health <= 15
    &&& 1 <= e.attack_range <= 3
    &&& 1 <= e.current_health
    &&& e.current_health as int <= e.max_health as int
}

/// What holds of the player: it sits on the grid and keeps the default
/// immutable stats; only its position and current health ever change.
pub open spec fn player_ok(p: Entity) -> bool {
    &&& in_grid(p.x as int, p.y as int)
    &&& p.glyph == 'A'
    &&& p.max_health == 10
    &&& p.damage == 2
    &&& p.defense == 0
    &&& p.attack_range == 1
    &&& p.attack_width == 1
    &&& p.weapon is None
    &&& p.armor is None
    &&& p.color == Hue::LightBlue
    &&& -3 <= p.current_health <= 10
}

impl Game {
    /// The controller's invariant, established at construction and preserved
    /// by every input and tick handler.
    pub open spec fn wf(self) -> bool {
        &&& self.walls.wf()
        &&& player_ok(self.player)
        &&& (!self.game_over ==> self.player.current_health >= 1)
        &&& self.enemies@.len() == GRID_WIDTH as int
        &&& (forall|i: int|
            0 <= i < self.enemies@.len() ==> ((#[trigger] self.enemies@[i]) is Some
                ==> enemy_ok(self.enemies@[i]->0)))
        &&& self.new_enemy_spawn_index < GRID_WIDTH
        &&& self.last_enemy_killed_index < GRID_WIDTH
        &&& 0 <= self.tick_count
    }
}

/// A defender struck by an attacker with the given damage stat: the
/// defender's defense is subtracted from the damage, and the (possibly
/// negative) difference comes off the defender's health.
pub open spec fn struck(v: Entity, attacker_damage: usize) -> Entity {
    Entity {
        current_health: (v.current_health as int - (attacker_damage as int
            - v.defense as int)) as isize,
        ..v
    }
}

/// Passive regeneration: one point back, capped at full health.
pub open spec fn healed(p: Entity) -> Entity {
    if p.current_health < p.max_health as isize {
        Entity { current_health: (p.current_health + 1) as isize, ..p }
    } else {
        p
    }
}

/// The candidate column after one step in direction `d`.
pub open spec fn step_x(d: Dir, x: int) -> int {
    match d {
        Dir::Left => x - 1,
        Dir::Right => x + 1,
        _ => x,
    }
}

/// The candidate row after one step in direction `d`.
pub open spec fn step_y(d: Dir, y: int) -> int {
    match d {
        Dir::Up => y - 1,
        Dir::Down => y + 1,
        _ => y,
    }
}

/// Whether a player at `p`, moving to candidate position `(fx, fy)`, attacks
/// enemy `e`: the enemy lies on the same row or column at exactly its own
/// attack range, and the move closes the distance along that axis.
pub open spec fn triggers_attack(p: Entity, fx: int, fy: int, e: Entity) -> bool {
    ||| (p.y == e.y && (p.x + e.attack_range == e.x || p.x == e.x + e.attack_range)
        && dist(fx, e.x as int) < dist(p.x as int, e.x as int))
    ||| (p.x == e.x && (p.y + e.attack_range == e.y || p.y == e.y + e.attack_range)
        && dist(fy, e.y as int) < dist(p.y as int, e.y as int))
}

/// The least registry slot at or after `i` whose enemy the move attacks, or
/// -1 if there is none.
pub open spec fn first_target_from(p: Entity, fx: int, fy: int, es: Seq<Option<Entity>>, i: int) -> int
    decreases es.len() - i,
{
    if i < 0 || i >= es.len() {
        -1
    } else if es[i] is Some && triggers_attack(p, fx, fy, es[i]->0) {
        i
    } else {
        first_target_from(p, fx, fy, es, i + 1)
    }
}

/// The least registry slot whose enemy the move attacks, or -1.
pub open spec fn first_target(p: Entity, fx: int, fy: int, es: Seq<Option<Entity>>) -> int {
    first_target_from(p, fx, fy, es, 0)
}

/// A non-negative first-target result names an occupied, attacked slot.
proof fn lemma_first_target_some(p: Entity, fx: int, fy: int, es: Seq<Option<Entity>>, i: int)
    requires
        0 <= i,
        first_target_from(p, fx, fy, es, i) >= 0,
    ensures
        es[first_target_from(p, fx, fy, es, i)] is Some,
        triggers_attack(p, fx, fy, es[first_target_from(p, fx, fy, es, i)]->0),
    decreases es.len() - i,
{
    if i >= es.len() {
    } else if es[i] is Some && triggers_attack(p, fx, fy, es[i]->0) {
    } else {
        lemma_first_target_some(p, fx, fy, es, i + 1);
    }
}

/// The least registry slot at or after `i` holding an enemy at `(x, y)`, or
/// -1 if there is none: positional identity is the sole lookup mechanism.
pub open spec fn first_match_from(es: Seq<Option<Entity>>, x: usize, y: usize, i: int) -> int
    decreases es.len() - i,
{
    if i < 0 || i >= es.len() {
        -1
    } else if es[i] is Some && es[i]->0.x == x && es[i]->0.y == y {
        i
    } else {
        first_match_from(es, x, y, i + 1)
    }
}

/// The least registry slot holding an enemy at `(x, y)`, or -1.
pub open spec fn first_match(es: Seq<Option<Entity>>, x: usize, y: usize) -> int {
    first_match_from(es, x, y, 0)
}

/// Nothing observable changed.
pub open spec fn unchanged_core(pre: Game, post: Game) -> bool {
    &&& post.game_over == pre.game_over
    &&& post.player == pre.player
    &&& post.tick_count == pre.tick_count
    &&& post.rng == pre.rng
    &&& post.enemies@ == pre.enemies@
    &&& post.walls.cells@ == pre.walls.cells@
    &&& post.walls.color == pre.walls.color
    &&& post.score == pre.score
    &&& post.new_enemy_spawn_index == pre.new_enemy_spawn_index
    &&& post.last_enemy_killed_index == pre.last_enemy_killed_index
}

/// The restart transition: score 0, player at default stats and position,
/// every enemy slot empty, back to `Playing`.  The tick counter persists (it
/// reseeds the generator), as do the walls and both spawn cursors.
pub open spec fn reset_post(pre: Game, post: Game) -> bool {
    &&& post.game_over == false
    &&& post.player == default_entity()
    &&& post.tick_count == pre.tick_count
    &&& post.enemies@ == Seq::new(GRID_WIDTH as nat, |i: int| None::<Entity>)
    &&& post.walls.cells@ == pre.walls.cells@
    &&& post.walls.color == pre.walls.color
    &&& post.score == 0
    &&& post.new_enemy_spawn_index == pre.new_enemy_spawn_index
    &&& post.last_enemy_killed_index == pre.last_enemy_killed_index
}

/// The quit transition: only the state flag flips; score and tick count
/// persist for the game-over screen.
pub open spec fn quit_post(pre: Game, post: Game) -> bool {
    &&& post.game_over == true
    &&& post.player == pre.player
    &&& post.tick_count == pre.tick_count
    &&& post.rng == pre.rng
    &&& post.enemies@ == pre.enemies@
    &&& post.walls.cells@ == pre.walls.cells@
    &&& post.walls.color == pre.walls.color
    &&& post.score == pre.score
    &&& post.new_enemy_spawn_index == pre.new_enemy_spawn_index
    &&& post.last_enemy_killed_index == pre.last_enemy_killed_index
}

/// A committed, non-attack move: the player stands at the candidate cell and
/// regenerates one point of health; everything else is untouched.
pub open spec fn moved_post(pre: Game, post: Game, fx: int, fy: int) -> bool {
    &&& post.player == (Entity { x: fx as usize, y: fy as usize, ..healed(pre.player) })
    &&& post.game_over == pre.game_over
    &&& post.tick_count == pre.tick_count
    &&& post.rng == pre.rng
    &&& post.enemies@ == pre.enemies@
    &&& post.walls.cells@ == pre.walls.cells@
    &&& post.walls.color == pre.walls.color
    &&& post.score == pre.score
    &&& post.new_enemy_spawn_index == pre.new_enemy_spawn_index
    &&& post.last_enemy_killed_index == pre.last_enemy_killed_index
}

/// Combat resolution against the enemy copy `e`, resolved simultaneously:
/// both sides take their damage in the same invocation.  A dead enemy is
/// re-located by positional equality, its slot cleared and recorded as the
/// preferred spawn slot, and the kill is scored; a surviving enemy keeps its
/// reduced health in its slot.  A player at or below zero health ends the
/// game.
pub open spec fn attack_post(pre: Game, e: Entity, post: Game) -> bool {
    let e2 = struck(e, pre.player.damage);
    let p2 = struck(pre.player, e.damage);
    let idx = first_match(pre.enemies@, e.x, e.y);
    &&& post.player == p2
    &&& post.game_over == (pre.game_over || p2.current_health <= 0)
    &&& post.tick_count == pre.tick_count
    &&& post.rng == pre.rng
    &&& post.walls.cells@ == pre.walls.cells@
    &&& post.walls.color == pre.walls.color
    &&& post.new_enemy_spawn_index == pre.new_enemy_spawn_index
    &&& if e2.current_health <= 0 {
        &&& post.score == pre.score + KILL_SCORE
        &&& if idx >= 0 {
            &&& post.enemies@ == pre.enemies@.update(idx, None::<Entity>)
            &&& post.last_enemy_killed_index == idx
        } else {
            &&& post.enemies@ == pre.enemies@
            &&& post.last_enemy_killed_index == pre.last_enemy_killed_index
        }
    } else {
        &&& post.score == pre.score
        &&& post.last_enemy_killed_index == pre.last_enemy_killed_index
        &&& if idx >= 0 {
            post.enemies@ == pre.enemies@.update(idx, Some(e2))
        } else {
            post.enemies@ == pre.enemies@
        }
    }
}

/// One movement input, resolved while `Playing`.  A candidate cell off the
/// grid is rejected outright; otherwise, if the move attacks some enemy,
/// combat resolves against the first such slot and the player stays put; a
/// wall blocks the move; a free cell commits it with passive regeneration.
/// Exactly one of these happens per input, never more.
pub open spec fn move_post(pre: Game, post: Game, d: Dir) -> bool {
    let fx = step_x(d, pre.player.x as int);
    let fy = step_y(d, pre.player.y as int);
    if !in_grid(fx, fy) {
        unchanged_core(pre, post)
    } else {
        let t = first_target(pre.player, fx, fy, pre.enemies@);
        if t >= 0 {
            attack_post(pre, pre.enemies@[t]->0, post)
        } else if pre.walls.cell(fy, fx) {
            unchanged_core(pre, post)
        } else {
            moved_post(pre, post, fx, fy)
        }
    }
}

/// The direction or control action a key event denotes: `w`/`a`/`s`/`d` and
/// the named arrows move, `r` restarts, a backtick quits; anything else is
/// ignored.
pub open spec fn key_action(k: KeyEvent) -> Option<Action> {
    match k {
        KeyEvent::Raw(d) => Some(Action::Step(d)),
        KeyEvent::Unicode(c) => {
            if c == 'w' {
                Some(Action::Step(Dir::Up))
            } else if c == 's' {
                Some(Action::Step(Dir::Down))
            } else if c == 'a' {
                Some(Action::Step(Dir::Left))
            } else if c == 'd' {
                Some(Action::Step(Dir::Right))
            } else if c == 'r' {
                Some(Action::Restart)
            } else if c == '`' {
                Some(Action::Quit)
            } else {
                None
            }
        },
    }
}

/// The full input-handling contract: movement acts only while `Playing`,
/// restart only while `GameOver`, quit always; an unmapped key changes
/// nothing.
pub open spec fn key_post(pre: Game, post: Game, k: KeyEvent) -> bool {
    match key_action(k) {
        Option::None => unchanged_core(pre, post),
        Some(Action::Step(d)) => if pre.game_over {
            unchanged_core(pre, post)
        } else {
            move_post(pre, post, d)
        },
        Some(Action::Restart) => if pre.game_over {
            reset_post(pre, post)
        } else {
            unchanged_core(pre, post)
        },
        Some(Action::Quit) => quit_post(pre, post),
    }
}

/// Whether every one of the four cells neighboring `(x, y)` lies on the
/// grid and is free of walls: nothing can block a step from such a cell.
pub open spec fn unobstructed(x: int, y: int, walls: WallMap) -> bool {
    &&& in_grid(x - 1, y) && !walls.cell(y, x - 1)
    &&& in_grid(x + 1, y) && !walls.cell(y, x + 1)
    &&& in_grid(x, y - 1) && !walls.cell(y - 1, x)
    &&& in_grid(x, y + 1) && !walls.cell(y + 1, x)
}

/// One enemy slot across one AI step: an empty slot stays empty; a live
/// enemy keeps its stats and either stays put or takes exactly one step onto
/// a free in-grid cell.  Staying put is only for a blocked roll: an enemy
/// whose four neighboring cells are all on the grid and wall-free commits
/// whatever direction it rolls, so it cannot stay where it stands.
pub open spec fn ai_step_ok(pre: Option<Entity>, post: Option<Entity>, walls: WallMap) -> bool {
    match pre {
        Option::None => post is None,
        Some(e) => {
            &&& post is Some
            &&& same_stats(e, post->0)
            &&& in_grid(post->0.x as int, post->0.y as int)
            &&& ((post->0.x == e.x && post->0.y == e.y) || (dist(post->0.x as int, e.x as int)
                + dist(post->0.y as int, e.y as int) == 1 && !walls.cell(
                post->0.y as int,
                post->0.x as int,
            )))
            &&& (unobstructed(e.x as int, e.y as int, walls) ==> (post->0.x != e.x || post->0.y
                != e.y))
        },
    }
}

/// A freshly spawned enemy: some archetype of the table, instantiated at
/// some in-grid coordinate, at full health.
pub open spec fn spawned(e: Entity) -> bool {
    exists|kind: usize, x: usize, y: usize|
        1 <= kind <= 4 && x < GRID_WIDTH && y < GRID_HEIGHT && e == #[trigger] archetype(kind, x, y)
}

/// The per-tick contract.  The tick counter always advances (it never resets,
/// and doubles as restart entropy).  While `Playing`, every enemy slot takes
/// one independent AI step, and on every `NEW_ENEMY_FREQ`th tick one new
/// enemy appears: in the most recently vacated slot if it is free, otherwise
/// in the spawn-cursor slot, which then advances (rotating).  While
/// `GameOver` nothing else changes.  Player, score and walls are never
/// touched by a tick.
pub open spec fn tick_post(pre: Game, post: Game) -> bool {
    &&& post.tick_count == pre.tick_count + 1
    &&& post.game_over == pre.game_over
    &&& post.player == pre.player
    &&& post.score == pre.score
    &&& post.walls.cells@ == pre.walls.cells@
    &&& post.walls.color == pre.walls.color
    &&& post.enemies@.len() == pre.enemies@.len()
    &&& if pre.game_over {
        &&& post.enemies@ == pre.enemies@
        &&& post.rng == pre.rng
        &&& post.new_enemy_spawn_index == pre.new_enemy_spawn_index
        &&& post.last_enemy_killed_index == pre.last_enemy_killed_index
    } else {
        if (post.tick_count as int) % (NEW_ENEMY_FREQ as int) == 0 {
            let reuse = pre.enemies@[pre.last_enemy_killed_index as int] is None;
            let slot = if reuse {
                pre.last_enemy_killed_index as int
            } else {
                pre.new_enemy_spawn_index as int
            };
            &&& forall|i: int|
                0 <= i < pre.enemies@.len() && i != slot ==> ai_step_ok(
                    #[trigger] pre.enemies@[i],
                    post.enemies@[i],
                    pre.walls,
                )
            &&& post.enemies@[slot] is Some
            &&& spawned(post.enemies@[slot]->0)
            &&& post.last_enemy_killed_index == pre.last_enemy_killed_index
            &&& if reuse {
                post.new_enemy_spawn_index == pre.new_enemy_spawn_index
            } else {
                post.new_enemy_spawn_index as int == ((pre.new_enemy_spawn_index + 1) as int)
                    % (GRID_WIDTH as int)
            }
        } else {
            &&& forall|i: int|
                0 <= i < pre.enemies@.len() ==> ai_step_ok(
                    #[trigger] pre.enemies@[i],
                    post.enemies@[i],
                    pre.walls,
                )
            &&& post.new_enemy_spawn_index == pre.new_enemy_spawn_index
            &&& post.last_enemy_killed_index == pre.last_enemy_killed_index
        }
    }
}

/// Absolute distance between two coordinates.
fn distance(a: usize, b: usize) -> (r: usize)
    ensures
        r as int == dist(a as int, b as int),
{
    if a >= b {
        a - b
    } else {
        b - a
    }
}

/// A registry of `GRID_WIDTH` empty slots.
fn empty_registry() -> (v: Vec<Option<Entity>>)
    ensures
        v@ == Seq::new(GRID_WIDTH as nat, |i: int| None::<Entity>),
{
    let mut v: Vec<Option<Entity>> = Vec::new();
    let mut i: usize = 0;
    while i < GRID_WIDTH
        invariant
            i <= GRID_WIDTH,
            v@.len() == i as int,
            forall|j: int| 0 <= j < i as int ==> (#[trigger] v@[j]) is None,
        decreases GRID_WIDTH - i,
    {
        v.push(None);
        i = i + 1;
    }
    proof {
        assert(v@ =~= Seq::new(GRID_WIDTH as nat, |i: int| None::<Entity>));
    }
    v
}

impl Game {
    /// A fresh game: the static perimeter map, the default player, an empty
    /// registry, score 0, waiting in `GameOver` for the reset key.
    pub fn new() -> (g: Game)
        ensures
            g.wf(),
            g.game_over == true,
            g.player == default_entity(),
            g.tick_count == 0,
            g.enemies@ == Seq::new(GRID_WIDTH as nat, |i: int| None::<Entity>),
            g.walls.cells@ == parse_layout(wall_layout()),
            g.walls.color == Hue::LightGreen,
            g.score == 0,
            g.new_enemy_spawn_index == 0,
            g.last_enemy_killed_index == 0,
    {
        Game {
            game_over: true,
            player: Entity::default(),
            tick_count: 0,
            rng: rng_from_seed(3),
            enemies: empty_registry(),
            walls: WallMap::new(WALL_TEXT, Hue::LightGreen),
            score: 0,
            new_enemy_spawn_index: 0,
            last_enemy_killed_index: 0,
        }
    }

    /// The restart transition.  Reseeds the generator from the monotonic
    /// tick counter.
    fn restart(&mut self)
        requires
            old(self).wf(),
        ensures
            final(self).wf(),
            reset_post(*old(self), *final(self)),
    {
        self.game_over = false;
        self.player = Entity::default();
        self.enemies = empty_registry();
        self.score = 0;
        self.rng = rng_from_seed(self.tick_count as u64);
    }

    /// The least registry slot holding an enemy at `enemy`'s position, or -1:
    /// the positional lookup used to clear or update a slot after combat.
    pub fn get_enemy_index(&self, enemy: Entity) -> (r: isize)
        requires
            self.enemies@.len() <= isize::MAX as int,
        ensures
            r as int == first_match(self.enemies@, enemy.x, enemy.y),
            r == -1 || (0 <= r as int && (r as int) < self.enemies@.len()),
    {
        let ghost es = self.enemies@;
        let mut i: usize = 0;
        while i < self.enemies.len()
            invariant
                es == self.enemies@,
                es.len() <= isize::MAX as int,
                i <= es.len(),
                first_match_from(es, enemy.x, enemy.y, 0) == first_match_from(
                    es,
                    enemy.x,
                    enemy.y,
                    i as int,
                ),
            decreases es.len() - i,
        {
            let slot = self.enemies[i];
            match slot {
                Some(e) => {
                    if enemy.equal_to(e) {
                        return i as isize;
                    }
                },
                None => {},
            }
            proof {
                assert(first_match_from(es, enemy.x, enemy.y, i as int) == first_match_from(
                    es,
                    enemy.x,
                    enemy.y,
                    i as int + 1,
                ));
            }
            i = i + 1;
        }
        -1
    }

    /// The first enemy, in slot order, that the move from the player's cell
    /// to candidate `future` attacks, if any.
    pub fn is_colliding_enemy(&self, future: Entity) -> (r: Option<Entity>)
        requires
            self.wf(),
        ensures
            ({
                let t = first_target(self.player, future.x as int, future.y as int, self.enemies@);
                &&& (t == -1 || (0 <= t && t < self.enemies@.len()))
                &&& (t == -1 ==> r is None)
                &&& (t >= 0 ==> r == Some(self.enemies@[t]->0))
            }),
    {
        let ghost es = self.enemies@;
        let ghost fx = future.x as int;
        let ghost fy = future.y as int;
        let p = self.player;
        let mut i: usize = 0;
        while i < self.enemies.len()
            invariant
                self.wf(),
                es == self.enemies@,
                p == self.player,
                fx == future.x as int,
                fy == future.y as int,
                i <= es.len(),
                first_target_from(p, fx, fy, es, 0) == first_target_from(p, fx, fy, es, i as int),
        decreases es.len() - i,
        {
            let slot = self.enemies[i];
            match slot {
                Some(e) => {
                    let closing_x = distance(future.x, e.x) < distance(p.x, e.x);
                    let closing_y = distance(future.y, e.y) < distance(p.y, e.y);
                    let hit_x = p.y == e.y && (p.x + e.attack_range == e.x || p.x == e.x
                        + e.attack_range) && closing_x;
                    let hit_y = p.x == e.x && (p.y + e.attack_range == e.y || p.y == e.y
                        + e.attack_range) && closing_y;
                    if hit_x || hit_y {
                        proof {
                            assert(triggers_attack(p, fx, fy, e));
                            assert(first_target_from(p, fx, fy, es, i as int) == i as int);
                        }
                        return Some(e);
                    }
                },
                None => {},
            }
            proof {
                assert(first_target_from(p, fx, fy, es, i as int) == first_target_from(
                    p,
                    fx,
                    fy,
                    es,
                    i as int + 1,
                ));
            }
            i = i + 1;
        }
        None
    }

    /// Resolves combat against the enemy copy `e`, as `attack_post` states:
    /// both sides take damage in the same invocation; a kill scores
    /// `KILL_SCORE`, clears the slot found by positional lookup and records
    /// it as preferred for the next spawn; player death ends the game.
    fn attack_enemy(&mut self, enemy: Entity)
        requires
            old(self).wf(),
            !old(self).game_over,
            enemy_ok(enemy),
            old(self).score <= usize::MAX - KILL_SCORE,
        ensures
            final(self).wf(),
            attack_post(*old(self), enemy, *final(self)),
    {
        let mut enemy = enemy;
        enemy.current_health = enemy.current_health - (self.player.damage as isize
            - enemy.defense as isize);
        self.player.current_health = self.player.current_health - (enemy.damage as isize
            - self.player.defense as isize);

        if enemy.current_health <= 0 {
            self.score = self.score + KILL_SCORE;
            let enemy_index = self.get_enemy_index(enemy);
            if enemy_index != -1 {
                self.enemies.set(enemy_index as usize, None);
                self.last_enemy_killed_index = enemy_index as usize;
            }
        } else {
            let enemy_index = self.get_enemy_index(enemy);
            if enemy_index != -1 {
                self.enemies.set(enemy_index as usize, Some(enemy));
            }
        }

        if self.player.current_health <= 0 {
            self.game_over = true;
        }
    }

    /// One movement input while `Playing`, as `move_post` states.
    fn player_move(&mut self, d: Dir)
        requires
            old(self).wf(),
            !old(self).game_over,
            old(self).score <= usize::MAX - KILL_SCORE,
        ensures
            final(self).wf(),
            move_post(*old(self), *final(self), d),
    {
        let mut future = self.player;
        let mut in_bounds = true;
        match d {
            Dir::Up => {
                if future.y >= 1 {
                    future.up();
                } else {
                    in_bounds = false;
                }
            },
            Dir::Down => {
                if future.y + 1 < GRID_HEIGHT {
                    future.down();
                } else {
                    in_bounds = false;
                }
            },
            Dir::Left => {
                if future.x >= 1 {
                    future.left();
                } else {
                    in_bounds = false;
                }
            },
            Dir::Right => {
                if future.x + 1 < GRID_WIDTH {
                    future.right();
                } else {
                    in_bounds = false;
                }
            },
        }
        let ghost fx = step_x(d, old(self).player.x as int);
        let ghost fy = step_y(d, old(self).player.y as int);
        if in_bounds {
            proof {
                assert(future.x as int == fx && future.y as int == fy);
                assert(in_grid(fx, fy));
            }
            let target = self.is_colliding_enemy(future);
            match target {
                Some(e) => {
                    proof {
                        let t = first_target(self.player, fx, fy, self.enemies@);
                        lemma_first_target_some(self.player, fx, fy, self.enemies@, 0);
                        assert(enemy_ok(self.enemies@[t]->0));
                    }
                    self.attack_enemy(e);
                },
                None => {
                    if !future.is_colliding(&self.walls) {
                        self.player = future;
                        if self.player.current_health < self.player.max_health as isize {
                            self.player.current_health = self.player.current_health + 1;
                        }
                    }
                },
            }
        }
    }

    /// One keyboard event, as `key_post` states.  Movement keys act only
    /// while `Playing`; `r` restarts only while `GameOver`; a backtick quits.
    pub fn key(&mut self, key: KeyEvent)
        requires
            old(self).wf(),
            // only a movement input resolved while `Playing` can score
            (!old(self).game_over && (key_action(key) matches Some(Action::Step(_))))
                ==> old(self).score <= usize::MAX - KILL_SCORE,
        ensures
            final(self).wf(),
            key_post(*old(self), *final(self), key),
            // The player's position after a movement key either equals the
            // pre-move position or differs by exactly one step.
            (key_action(key) matches Some(Action::Step(_))) ==> dist(
                final(self).player.x as int,
                old(self).player.x as int,
            ) + dist(final(self).player.y as int, old(self).player.y as int) <= 1,
            // While `Playing`, the score never decreases, and moves by
            // exactly `KILL_SCORE` per kill.
            !old(self).game_over ==> (final(self).score == old(self).score || final(self).score
                == old(self).score + KILL_SCORE),
    {
        match key {
            KeyEvent::Raw(d) => {
                if !self.game_over {
                    self.player_move(d);
                }
            },
            KeyEvent::Unicode(c) => {
                if c == 'w' {
                    if !self.game_over {
                        self.player_move(Dir::Up);
                    }
                } else if c == 's' {
                    if !self.game_over {
                        self.player_move(Dir::Down);
                    }
                } else if c == 'a' {
                    if !self.game_over {
                        self.player_move(Dir::Left);
                    }
                } else if c == 'd' {
                    if !self.game_over {
                        self.player_move(Dir::Right);
                    }
                } else if c == 'r' {
                    if self.game_over {
                        self.restart();
                    }
                } else if c == '`' {
                    self.game_over = true;
                }
            },
        }
    }

    /// One independent AI step for every occupied slot: a uniformly random
    /// direction, committed only when the candidate cell is on the grid and
    /// free of walls.  Enemies may stack with each other or the player.
    fn enemy_move(&mut self)
        requires
            old(self).wf(),
            !old(self).game_over,
        ensures
            final(self).wf(),
            final(self).game_over == old(self).game_over,
            final(self).player == old(self).player,
            final(self).tick_count == old(self).tick_count,
            final(self).score == old(self).score,
            final(self).walls.cells@ == old(self).walls.cells@,
            final(self).walls.color == old(self).walls.color,
            final(self).new_enemy_spawn_index == old(self).new_enemy_spawn_index,
            final(self).last_enemy_killed_index == old(self).last_enemy_killed_index,
            final(self).enemies@.len() == old(self).enemies@.len(),
            forall|i: int|
                0 <= i < old(self).enemies@.len() ==> ai_step_ok(
                    #[trigger] old(self).enemies@[i],
                    final(self).enemies@[i],
                    old(self).walls,
                ),
    {
        let n = self.enemies.len();
        let mut i: usize = 0;
        while i < n
            invariant
                self.wf(),
                !self.game_over,
                n == self.enemies@.len(),
                i <= n,
                self.game_over == old(self).game_over,
                self.player == old(self).player,
                self.tick_count == old(self).tick_count,
                self.score == old(self).score,
                self.walls.cells@ == old(self).walls.cells@,
                self.walls.color == old(self).walls.color,
                self.new_enemy_spawn_index == old(self).new_enemy_spawn_index,
                self.last_enemy_killed_index == old(self).last_enemy_killed_index,
                self.enemies@.len() == old(self).enemies@.len(),
                forall|j: int|
                    0 <= j < i as int ==> ai_step_ok(
                        #[trigger] old(self).enemies@[j],
                        self.enemies@[j],
                        old(self).walls,
                    ),
                forall|j: int|
                    i as int <= j < n as int ==> self.enemies@[j] == old(self).enemies@[j],
            decreases n - i,
        {
            let slot = self.enemies[i];
            match slot {
                Some(past) => {
                    let roll = rng_next(&mut self.rng);
                    let dir_num: usize = 1 + (roll as usize) % 4;
                    let mut future = past;
                    let mut in_bounds = true;
                    if dir_num == 1 {
                        if future.y >= 1 {
                            future.up();
                        } else {
                            in_bounds = false;
                        }
                    } else if dir_num == 2 {
                        if future.y + 1 < GRID_HEIGHT {
                            future.down();
                        } else {
                            in_bounds = false;
                        }
                    } else if dir_num == 3 {
                        if future.x + 1 < GRID_WIDTH {
                            future.right();
                        } else {
                            in_bounds = false;
                        }
                    } else {
                        if future.x >= 1 {
                            future.left();
                        } else {
                            in_bounds = false;
                        }
                    }
                    if in_bounds {
                        if !future.is_colliding(&self.walls) {
                            self.enemies.set(i, Some(future));
                        }
                    }
                },
                None => {},
            }
            i = i + 1;
        }
    }

    /// One tick, as `tick_post` states: the counter advances; while `Playing`
    /// every enemy takes an AI step and every `NEW_ENEMY_FREQ`th tick spawns
    /// a new enemy of a random archetype at a random coordinate.
    pub fn tick(&mut self)
        requires
            old(self).wf(),
            old(self).tick_count < isize::MAX,
        ensures
            final(self).wf(),
            tick_post(*old(self), *final(self)),
    {
        if !self.game_over {
            self.tick_count = self.tick_count + 1;
            self.enemy_move();
            if self.tick_count % NEW_ENEMY_FREQ == 0 {
                let kind: usize = 1 + (rng_next(&mut self.rng) as usize) % 4;
                let sx: usize = 1 + (rng_next(&mut self.rng) as usize) % GRID_WIDTH - 1;
                let sy: usize = 1 + (rng_next(&mut self.rng) as usize) % GRID_HEIGHT - 1;
                let fresh = self.player.generate_stats(kind, sx, sy);
                proof {
                    assert(fresh == archetype(kind, sx, sy));
                    assert(spawned(fresh));
                    assert(enemy_ok(fresh));
                }
                if self.enemies[self.last_enemy_killed_index].is_some() {
                    self.enemies.set(self.new_enemy_spawn_index, Some(fresh));
                    self.new_enemy_spawn_index = (self.new_enemy_spawn_index + 1) % GRID_WIDTH;
                } else {
                    self.enemies.set(self.last_enemy_killed_index, Some(fresh));
                }
            }
        } else {
            self.tick_count = self.tick_count + 1;
        }
    }
}

/// Law: combat is monotone.  Whenever neither side's defense exceeds the
/// other's damage — true of the default player against every archetype the
/// spawner produces — resolving combat never increases either entity's
/// health.  (Both sides are struck in the same invocation: see
/// `attack_post`.)
pub proof fn lemma_combat_monotone(p: Entity, e: Entity)
    requires
        e.defense <= p.damage,
        p.defense <= e.damage,
        isize::MIN as int <= p.current_health as int - (e.damage as int - p.defense as int),
        isize::MIN as int <= e.current_health as int - (p.damage as int - e.defense as int),
    ensures
        struck(e, p.damage).current_health <= e.current_health,
        struck(p, e.damage).current_health <= p.current_health,
{
}

/// Law: the enemy registry's length is invariant — a fixed capacity of one
/// slot per grid column, whatever the state.
pub proof fn lemma_registry_capacity(g: Game)
    requires
        g.wf(),
    ensures
        g.enemies@.len() == GRID_WIDTH as int,
{
}

/// Law: combat changes the score by exactly `KILL_SCORE` when the struck
/// enemy dies, and not at all otherwise; it never decreases the score.
pub proof fn lemma_score_change(pre: Game, e: Entity, post: Game)
    requires
        attack_post(pre, e, post),
    ensures
        post.score == pre.score + KILL_SCORE <==> struck(e, pre.player.damage).current_health
            <= 0,
        post.score == pre.score || post.score == pre.score + KILL_SCORE,
        post.score >= pre.score,
{
}

} // verus!
