//! The whole game state, one frame of play, and the input that changes it.
use vstd::prelude::*;
use crate::actor::{
    Actor, COORD_LIMIT, ENEMY_SPEED, MAX_LIFE, MUZZLE_X, MUZZLE_Y, PLAYER_OFFSET_X,
    PLAYER_OFFSET_Y, advance_all, advanced, any_hit, coord_fits, find_hit, is_first_hit,
    pursue_x, pursue_y, toward, walk_axis, TARGET_INSET,
};
use crate::transition::Transition;

verus! {

/// How far up and left of a left click the click marker is placed.
pub const MARKER_INSET: i64 = 90;

/// Where a right click parks the click marker, off screen.
pub const MARKER_HIDDEN: i64 = -80;

/// Which screen the game shows.
#[derive(PartialEq, Eq, Structural, Clone, Copy, Debug)]
pub enum Phase {
    Welcome,
    Playing,
    Win,
    Lose,
}

/// A mouse button, as the game tells them apart.
#[derive(PartialEq, Eq, Structural, Clone, Copy, Debug)]
pub enum MouseButton {
    Left,
    Right,
    Other,
}

/// A key, as the game tells them apart.
#[derive(PartialEq, Eq, Structural, Clone, Copy, Debug)]
pub enum Key {
    /// The fire key.
    Space,
    Other,
}

/// Everything that one frame reads and writes.
///
/// The click marker doubles as the player's walking target: the player walks
/// only while `marker_x > 0`.
#[derive(Clone, Debug)]
pub struct Game {
    pub phase: Phase,
    pub cursor_x: i64,
    pub cursor_y: i64,
    pub transition: Transition,
    pub player: Actor,
    pub enemy: Actor,
    pub marker_x: i64,
    pub marker_y: i64,
}

impl Game {
    /// Health never exceeds `MAX_LIFE` and the animation counters are in range.
    pub open spec fn well_formed(&self) -> bool {
        &&& self.player.life <= MAX_LIFE
        &&& self.enemy.life <= MAX_LIFE
        &&& self.transition.well_formed()
    }

    /// Every coordinate lies within `COORD_LIMIT`.
    pub open spec fn fits(&self) -> bool {
        &&& self.player.fits()
        &&& self.enemy.fits()
        &&& coord_fits(self.marker_x as int)
        &&& coord_fits(self.marker_y as int)
        &&& coord_fits(self.cursor_x as int)
        &&& coord_fits(self.cursor_y as int)
    }

    /// The player walks this frame.
    pub open spec fn walks(&self) -> bool {
        self.phase == Phase::Playing && self.marker_x > 0
    }

    pub open spec fn player_x_after(&self) -> int {
        if self.walks() {
            toward(self.player.x as int, PLAYER_OFFSET_X as int, self.marker_x - TARGET_INSET)
        } else {
            self.player.x as int
        }
    }

    pub open spec fn player_y_after(&self) -> int {
        if self.walks() {
            toward(self.player.y as int, PLAYER_OFFSET_Y as int, self.marker_y - TARGET_INSET)
        } else {
            self.player.y as int
        }
    }

    /// The enemy chases the player's new position, during play only.
    pub open spec fn enemy_x_after(&self) -> int {
        if self.phase == Phase::Playing {
            pursue_x(self.enemy.x as int, self.player_x_after())
        } else {
            self.enemy.x as int
        }
    }

    pub open spec fn enemy_y_after(&self) -> int {
        if self.phase == Phase::Playing {
            pursue_y(self.enemy.y as int, self.player_y_after())
        } else {
            self.enemy.y as int
        }
    }

    /// A projectile lies in the enemy's hit zone and the enemy has health left.
    pub open spec fn hit_lands(&self) -> bool {
        any_hit(self.player.projectiles@, self.enemy_x_after()) && self.enemy.life > 0
    }

    /// The game with the player's projectiles replaced.
    pub open spec fn with_shots(self, shots: Vec<(i64, i64)>) -> Game {
        Game { player: Actor { projectiles: shots, ..self.player }, ..self }
    }

    /// Where a projectile fired now starts.
    pub open spec fn muzzle(&self) -> (i64, i64) {
        (
            (self.player.x + PLAYER_OFFSET_X + MUZZLE_X) as i64,
            (self.player.y + PLAYER_OFFSET_Y + MUZZLE_Y) as i64,
        )
    }

    /// The state after a mouse button is released at `(x, y)`.
    pub open spec fn released(self, button: MouseButton, x: i32, y: i32) -> Game {
        match button {
            MouseButton::Left => {
                let moved = Game {
                    transition: self.transition.started_spec(),
                    cursor_x: x as i64,
                    cursor_y: y as i64,
                    marker_x: (x - MARKER_INSET) as i64,
                    marker_y: (y - MARKER_INSET) as i64,
                    ..self
                };
                if self.phase == Phase::Win || self.phase == Phase::Lose {
                    Game {
                        phase: Phase::Playing,
                        player: Actor { life: MAX_LIFE, ..self.player },
                        enemy: Actor { life: MAX_LIFE, ..self.enemy },
                        ..moved
                    }
                } else {
                    moved
                }
            },
            MouseButton::Right => Game { marker_x: MARKER_HIDDEN, marker_y: MARKER_HIDDEN, ..self },
            MouseButton::Other => self,
        }
    }
}

/// `post` is `pre` one frame later.
///
/// During play the player takes a step toward the marker and the enemy a
/// step toward the player. The animation advances whatever the phase. The
/// first projectile in the enemy's hit zone, if the enemy has health left,
/// is removed and costs the enemy one health; then every projectile moves
/// right. A player without health loses, else an enemy without health is
/// beaten, else the end of the animation starts play.
pub open spec fn frame(pre: Game, post: Game) -> bool {
    let s = pre.player.projectiles@;
    let ex = pre.enemy_x_after();
    &&& post.player.x == pre.player_x_after()
    &&& post.player.y == pre.player_y_after()
    &&& post.player.life == pre.player.life
    &&& post.enemy.x == ex
    &&& post.enemy.y == pre.enemy_y_after()
    &&& post.enemy.projectiles@ == pre.enemy.projectiles@
    &&& post.transition == pre.transition.next_spec()
    &&& post.marker_x == pre.marker_x
    &&& post.marker_y == pre.marker_y
    &&& post.cursor_x == pre.cursor_x
    &&& post.cursor_y == pre.cursor_y
    &&& if pre.hit_lands() {
        &&& post.enemy.life == pre.enemy.life - 1
        &&& exists|k: int| #[trigger]
            is_first_hit(s, ex, k) && advanced(s.remove(k), post.player.projectiles@)
    } else {
        &&& post.enemy.life == pre.enemy.life
        &&& advanced(s, post.player.projectiles@)
    }
    &&& post.phase == if pre.player.life == 0 {
        Phase::Lose
    } else if post.enemy.life == 0 {
        Phase::Win
    } else if pre.transition.completes() {
        Phase::Playing
    } else {
        pre.phase
    }
}

impl Game {
    /// The state at start-up: the welcome screen, both actors at full health.
    pub fn new() -> (r: Game)
        ensures
            r.phase == Phase::Welcome,
            r.cursor_x == -100 && r.cursor_y == -100,
            r.transition == Transition::Idle,
            r.player.x == 200 && r.player.y == 700 && r.player.life == MAX_LIFE,
            r.player.projectiles@ == Seq::<(i64, i64)>::empty(),
            r.enemy.x == 1200 && r.enemy.y == 600 && r.enemy.life == MAX_LIFE,
            r.enemy.projectiles@ == Seq::<(i64, i64)>::empty(),
            r.marker_x == 0 && r.marker_y == 0,
            r.well_formed(),
            r.fits(),
    {
        Game {
            phase: Phase::Welcome,
            cursor_x: -100,
            cursor_y: -100,
            transition: Transition::Idle,
            player: Actor { x: 200, y: 700, life: MAX_LIFE, projectiles: Vec::new() },
            enemy: Actor { x: 1200, y: 600, life: MAX_LIFE, projectiles: Vec::new() },
            marker_x: 0,
            marker_y: 0,
        }
    }

    /// Whether every coordinate lies within `COORD_LIMIT`, as `update` and
    /// `fire` need.
    pub fn is_within_limits(&self) -> (r: bool)
        ensures
            r == self.fits(),
    {
        self.player.is_within_limits() && self.enemy.is_within_limits() && -COORD_LIMIT
            <= self.marker_x && self.marker_x <= COORD_LIMIT && -COORD_LIMIT <= self.marker_y
            && self.marker_y <= COORD_LIMIT && -COORD_LIMIT <= self.cursor_x && self.cursor_x
            <= COORD_LIMIT && -COORD_LIMIT <= self.cursor_y && self.cursor_y <= COORD_LIMIT
    }

    /// Advances the game by one frame.
    pub fn update(&mut self)
        requires
            old(self).well_formed(),
            old(self).fits(),
        ensures
            final(self).well_formed(),
            frame(*old(self), *final(self)),
    {
        let ghost pre = *old(self);
        if self.phase == Phase::Playing {
            if self.marker_x > 0 {
                self.player.x = walk_axis(self.player.x, PLAYER_OFFSET_X, self.marker_x);
                self.player.y = walk_axis(self.player.y, PLAYER_OFFSET_Y, self.marker_y);
            }
            if self.player.x + PLAYER_OFFSET_X <= self.enemy.x {
                self.enemy.x = self.enemy.x - ENEMY_SPEED;
            } else {
                self.enemy.x = self.enemy.x + ENEMY_SPEED;
            }
            if self.player.y + PLAYER_OFFSET_Y >= self.enemy.y {
                self.enemy.y = self.enemy.y + ENEMY_SPEED;
            } else {
                self.enemy.y = self.enemy.y - ENEMY_SPEED;
            }
        }
        let (next, done) = self.transition.next();
        self.transition = next;
        if done {
            self.phase = Phase::Playing;
        }
        let ghost s = self.player.projectiles@;
        match find_hit(&self.player.projectiles, self.enemy.x) {
            Some(k) => {
                if self.enemy.life > 0 {
                    self.player.projectiles.remove(k);
                    self.enemy.life = self.enemy.life - 1;
                    assert forall|i: int| 0 <= i < s.len() - 1 implies #[trigger] s.remove(k as int)[i]
                        == if i < k { s[i] } else { s[i + 1] } by {}
                }
            },
            None => {},
        }
        advance_all(&mut self.player.projectiles);
        if self.player.life == 0 {
            self.phase = Phase::Lose;
        } else if self.enemy.life == 0 {
            self.phase = Phase::Win;
        }
        assert(pre.hit_lands() ==> exists|k: int| #[trigger]
            is_first_hit(s, pre.enemy_x_after(), k) && advanced(s.remove(k), self.player.projectiles@));
    }

    /// Fires a projectile from the player's muzzle.
    pub fn fire(&mut self)
        requires
            old(self).fits(),
        ensures
            final(self).player.projectiles@ == old(self).player.projectiles@.push(old(self).muzzle()),
            *final(self) == old(self).with_shots(final(self).player.projectiles),
    {
        let x = self.player.x + PLAYER_OFFSET_X + MUZZLE_X;
        let y = self.player.y + PLAYER_OFFSET_Y + MUZZLE_Y;
        self.player.projectiles.push((x, y));
    }

    /// A key press: the fire key fires, any other key does nothing.
    pub fn key_down(&mut self, key: Key)
        requires
            old(self).fits(),
        ensures
            key == Key::Space ==> final(self).player.projectiles@ == old(self).player.projectiles@.push(
                old(self).muzzle(),
            ),
            *final(self) == old(self).with_shots(final(self).player.projectiles),
            key == Key::Other ==> *final(self) == *old(self),
    {
        if key == Key::Space {
            self.fire();
        }
    }

    /// A mouse button is released at `(x, y)`.
    ///
    /// A left click moves the cursor and the marker there, starts the welcome
    /// animation if it has not started, and on the win or lose screen restores
    /// both actors' health and starts play again. A right click hides the
    /// marker.
    pub fn mouse_button_up(&mut self, button: MouseButton, x: i32, y: i32)
        ensures
            *final(self) == old(self).released(button, x, y),
            old(self).well_formed() ==> final(self).well_formed(),
            old(self).fits() ==> final(self).fits(),
    {
        match button {
            MouseButton::Left => {
                self.transition = self.transition.started();
                self.cursor_x = x as i64;
                self.cursor_y = y as i64;
                self.marker_x = x as i64 - MARKER_INSET;
                self.marker_y = y as i64 - MARKER_INSET;
                if self.phase == Phase::Win || self.phase == Phase::Lose {
                    self.phase = Phase::Playing;
                    self.enemy.life = MAX_LIFE;
                    self.player.life = MAX_LIFE;
                }
            },
            MouseButton::Right => {
                self.marker_x = MARKER_HIDDEN;
                self.marker_y = MARKER_HIDDEN;
            },
            MouseButton::Other => {},
        }
    }

    /// The pointer moved to `(x, y)`.
    pub fn mouse_motion(&mut self, x: i32, y: i32)
        ensures
            *final(self) == (Game { cursor_x: x as i64, cursor_y: y as i64, ..*old(self) }),
            old(self).well_formed() ==> final(self).well_formed(),
            old(self).fits() ==> final(self).fits(),
    {
        self.cursor_x = x as i64;
        self.cursor_y = y as i64;
    }
}

} // verus!
