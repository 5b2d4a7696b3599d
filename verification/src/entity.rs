//! The entity model: the player/enemy stat block with position, health,
//! combat stats, pre-built enemy archetypes, and the movement primitives.

use vstd::prelude::*;
use crate::grid::WallMap;
use crate::GRID_HEIGHT;
use crate::GRID_WIDTH;

verus! {

/// The palette of colors the simulation assigns to what it draws.  The
/// rendering surface maps each to its own color type.
#[derive(Clone, Copy, Debug, PartialEq, Eq, Structural)]
pub enum Hue {
    LightBlue,
    LightGreen,
    Red,
    White,
}

/// A stat-delta item (weapon or armor).  A reserved extension point: no live
/// code path applies the deltas yet.
#[derive(Clone, Copy, Debug, PartialEq, Eq)]
pub struct Item {
    pub glyph: char,
    pub health_change: usize,
    pub damage_change: usize,
    pub defense_change: usize,
    pub attack_range_change: usize,
    pub attack_width_change: usize,
}

/// A player or enemy: glyph, position, health and combat stats.
#[derive(Clone, Copy, Debug, PartialEq)]
pub struct Entity {
    pub glyph: char,
    pub x: usize,
    pub y: usize,
    pub max_health: usize,
    pub current_health: isize,
    pub damage: usize,
    pub defense: usize,
    pub attack_range: usize,
    pub attack_width: usize,
    pub weapon: Option<Item>,
    pub armor: Option<Item>,
    pub color: Hue,
}

/// The default player: glyph 'A', centered on the grid, 10/10 health,
/// damage 2, defense 0, attack range and width 1.
pub open spec fn default_entity() -> Entity {
    Entity {
        glyph: 'A',
        x: GRID_WIDTH / 2,
        y: GRID_HEIGHT / 2,
        max_health: 10,
        current_health: 10,
        damage: 2,
        defense: 0,
        attack_range: 1,
        attack_width: 1,
        weapon: None,
        armor: None,
        color: Hue::LightBlue,
    }
}

/// The archetype table: a named template of fixed stats used to instantiate
/// an enemy at `(x, y)`.  Kind 1 is the skeleton, 2 the werewolf, 3 the
/// archer, 4 the porcupine; any other kind falls back to the default player
/// stats (at the grid's center) recolored as hostile.
pub open spec fn archetype(kind: usize, x: usize, y: usize) -> Entity {
    if kind == 1 {
        Entity {
            glyph: 'S',
            x,
            y,
            max_health: 7,
            current_health: 7,
            damage: 2,
            defense: 1,
            attack_range: 2,
            attack_width: 1,
            weapon: None,
            armor: None,
            color: Hue::Red,
        }
    } else if kind == 2 {
        Entity {
            glyph: 'W',
            x,
            y,
            max_health: 15,
            current_health: 15,
            damage: 4,
            defense: 0,
            attack_range: 1,
            attack_width: 1,
            weapon: None,
            armor: None,
            color: Hue::Red,
        }
    } else if kind == 3 {
        Entity {
            glyph: 'B',
            x,
            y,
            max_health: 7,
            current_health: 7,
            damage: 3,
            defense: 1,
            attack_range: 3,
            attack_width: 1,
            weapon: None,
            armor: None,
            color: Hue::Red,
        }
    } else if kind == 4 {
        Entity {
            glyph: 'P',
            x,
            y,
            max_health: 10,
            current_health: 10,
            damage: 1,
            defense: 2,
            attack_range: 1,
            attack_width: 3,
            weapon: None,
            armor: None,
            color: Hue::Red,
        }
    } else {
        Entity { glyph: 'a', color: Hue::Red, ..default_entity() }
    }
}

impl Default for Entity {
    /// The player entity as created at game start and on every restart.
    fn default() -> (e: Entity)
        ensures
            e == default_entity(),
    {
        Entity {
            glyph: 'A',
            x: GRID_WIDTH / 2,
            y: GRID_HEIGHT / 2,
            max_health: 10,
            current_health: 10,
            damage: 2,
            defense: 0,
            attack_range: 1,
            attack_width: 1,
            weapon: None,
            armor: None,
            color: Hue::LightBlue,
        }
    }
}

impl Entity {
    /// Builds an entity with the given stats, at full health.
    pub fn new(
        character: char,
        x: usize,
        y: usize,
        max_health: usize,
        damage: usize,
        defense: usize,
        attack_range: usize,
        attack_width: usize,
        weapon: Option<Item>,
        armor: Option<Item>,
        color: Hue,
    ) -> (e: Entity)
        requires
            max_health <= isize::MAX as usize,
        ensures
            e == (Entity {
                glyph: character,
                x,
                y,
                max_health,
                current_health: max_health as isize,
                damage,
                defense,
                attack_range,
                attack_width,
                weapon,
                armor,
                color,
            }),
    {
        Entity {
            glyph: character,
            x,
            y,
            max_health,
            current_health: max_health as isize,
            damage,
            defense,
            attack_range,
            attack_width,
            weapon,
            armor,
            color,
        }
    }

    /// Instantiates the archetype table for `enemy_type` at `(x, y)`.
    pub fn generate_stats(&self, enemy_type: usize, x: usize, y: usize) -> (e: Entity)
        ensures
            e == archetype(enemy_type, x, y),
    {
        if enemy_type == 1 {
            Entity::new('S', x, y, 7, 2, 1, 2, 1, None, None, Hue::Red)
        } else if enemy_type == 2 {
            Entity::new('W', x, y, 15, 4, 0, 1, 1, None, None, Hue::Red)
        } else if enemy_type == 3 {
            Entity::new('B', x, y, 7, 3, 1, 3, 1, None, None, Hue::Red)
        } else if enemy_type == 4 {
            Entity::new('P', x, y, 10, 1, 2, 1, 3, None, None, Hue::Red)
        } else {
            let mut temp = Entity::default();
            temp.color = Hue::Red;
            temp.glyph = 'a';
            temp
        }
    }

    /// Positional equality: the sole mechanism used to re-locate an entity's
    /// registry slot.
    pub fn equal_to(&self, entity: Entity) -> (r: bool)
        ensures
            r == (self.x == entity.x && self.y == entity.y),
    {
        if self.x != entity.x || self.y != entity.y {
            return false;
        }
        true
    }

    /// True iff this entity's cell is occupied by a wall.
    pub fn is_colliding(&self, walls: &WallMap) -> (r: bool)
        requires
            walls.wf(),
            self.x < GRID_WIDTH,
            self.y < GRID_HEIGHT,
        ensures
            r == walls.cell(self.y as int, self.x as int),
    {
        walls.occupied(self.y, self.x)
    }

    /// One step down.  Bounds and wall safety are the caller's concern: a
    /// candidate copy is moved speculatively and committed only if valid.
    pub fn down(&mut self)
        requires
            old(self).y < usize::MAX,
        ensures
            *final(self) == (Entity { y: (old(self).y + 1) as usize, ..*old(self) }),
    {
        self.y = self.y + 1;
    }

    /// One step up.
    pub fn up(&mut self)
        requires
            old(self).y >= 1,
        ensures
            *final(self) == (Entity { y: (old(self).y - 1) as usize, ..*old(self) }),
    {
        self.y = self.y - 1;
    }

    /// One step left.
    pub fn left(&mut self)
        requires
            old(self).x >= 1,
        ensures
            *final(self) == (Entity { x: (old(self).x - 1) as usize, ..*old(self) }),
    {
        self.x = self.x - 1;
    }

    /// One step right.
    pub fn right(&mut self)
        requires
            old(self).x < usize::MAX,
        ensures
            *final(self) == (Entity { x: (old(self).x + 1) as usize, ..*old(self) }),
    {
        self.x = self.x + 1;
    }
}

} // verus!
