//! The two actors, their movement rules and projectile hits.
use vstd::prelude::*;

verus! {

/// Largest coordinate magnitude the frame rules accept, so that every step
/// and every offset stays well inside `i64`.
pub const COORD_LIMIT: i64 = 1_000_000_000_000;

/// Health of a fresh actor, and the most it ever has.
pub const MAX_LIFE: u8 = 5;

/// Horizontal distance from the player's stored position to its drawn sprite.
pub const PLAYER_OFFSET_X: i64 = 200;

/// Vertical distance from the player's stored position to its drawn sprite.
pub const PLAYER_OFFSET_Y: i64 = 650;

/// How far short of the click marker the player aims.
pub const TARGET_INSET: i64 = 40;

/// Player step per frame along each axis.
pub const PLAYER_SPEED: i64 = 4;

/// Enemy step per frame along each axis.
pub const ENEMY_SPEED: i64 = 1;

/// Projectile step per frame, to the right.
pub const PROJECTILE_SPEED: i64 = 3;

/// Width of the enemy's hit zone, from its own x to the right.
pub const ENEMY_WIDTH: i64 = 200;

/// Where a projectile leaves the player, from the player's drawn sprite.
pub const MUZZLE_X: i64 = 155;

/// Where a projectile leaves the player, from the player's drawn sprite.
pub const MUZZLE_Y: i64 = 50;

/// A position, a health counter and the projectiles in flight.
#[derive(Clone, Debug)]
pub struct Actor {
    pub x: i64,
    pub y: i64,
    pub life: u8,
    pub projectiles: Vec<(i64, i64)>,
}

pub open spec fn coord_fits(v: int) -> bool {
    -COORD_LIMIT <= v <= COORD_LIMIT
}

/// One axis of the player's walk toward `target`, with its sprite drawn at
/// `pos + offset`: a full step while the sprite stays short of the target
/// after it, no move when a step would reach it, a step back once the sprite
/// is at or past it.
pub open spec fn toward(pos: int, offset: int, target: int) -> int {
    if pos + offset + PLAYER_SPEED < target {
        pos + PLAYER_SPEED
    } else if pos + offset < target {
        pos
    } else {
        pos - PLAYER_SPEED
    }
}

/// The enemy's horizontal step: left while the player's sprite is at or left
/// of it, right otherwise.
pub open spec fn pursue_x(ex: int, px: int) -> int {
    if px + PLAYER_OFFSET_X <= ex {
        ex - ENEMY_SPEED
    } else {
        ex + ENEMY_SPEED
    }
}

/// The enemy's vertical step: down while the player's sprite is at or below
/// it, up otherwise.
pub open spec fn pursue_y(ey: int, py: int) -> int {
    if py + PLAYER_OFFSET_Y >= ey {
        ey + ENEMY_SPEED
    } else {
        ey - ENEMY_SPEED
    }
}

/// A projectile is inside the hit zone of an enemy at `ex`.
pub open spec fn hits(p: (i64, i64), ex: int) -> bool {
    ex <= p.0 <= ex + ENEMY_WIDTH
}

/// `k` is the first projectile of `s` inside the hit zone.
pub open spec fn is_first_hit(s: Seq<(i64, i64)>, ex: int, k: int) -> bool {
    &&& 0 <= k < s.len()
    &&& hits(s[k], ex)
    &&& forall|j: int| 0 <= j < k ==> !hits(#[trigger] s[j], ex)
}

/// Some projectile of `s` is inside the hit zone.
pub open spec fn any_hit(s: Seq<(i64, i64)>, ex: int) -> bool {
    exists|i: int| 0 <= i < s.len() && hits(#[trigger] s[i], ex)
}

/// `after` is `before` with every projectile moved one step to the right.
pub open spec fn advanced(before: Seq<(i64, i64)>, after: Seq<(i64, i64)>) -> bool {
    &&& after.len() == before.len()
    &&& forall|i: int|
        0 <= i < after.len() ==> #[trigger] after[i] == ((before[i].0 + PROJECTILE_SPEED) as i64, before[i].1)
}

pub open spec fn all_fit(s: Seq<(i64, i64)>) -> bool {
    forall|i: int|
        0 <= i < s.len() ==> coord_fits((#[trigger] s[i]).0 as int) && coord_fits(s[i].1 as int)
}

impl Actor {
    /// Position and projectiles lie within `COORD_LIMIT`.
    pub open spec fn fits(&self) -> bool {
        &&& coord_fits(self.x as int)
        &&& coord_fits(self.y as int)
        &&& all_fit(self.projectiles@)
    }

    pub fn is_within_limits(&self) -> (r: bool)
        ensures
            r == self.fits(),
    {
        if !(-COORD_LIMIT <= self.x && self.x <= COORD_LIMIT && -COORD_LIMIT <= self.y
            && self.y <= COORD_LIMIT) {
            return false;
        }
        let n = self.projectiles.len();
        let mut i: usize = 0;
        while i < n
            invariant
                n == self.projectiles@.len(),
                i <= n,
                forall|j: int|
                    0 <= j < i ==> coord_fits((#[trigger] self.projectiles@[j]).0 as int)
                        && coord_fits(self.projectiles@[j].1 as int),
            decreases n - i,
        {
            let p = self.projectiles[i];
            if !(-COORD_LIMIT <= p.0 && p.0 <= COORD_LIMIT && -COORD_LIMIT <= p.1 && p.1 <= COORD_LIMIT) {
                return false;
            }
            i = i + 1;
        }
        true
    }
}

/// One axis of the player's walk, as a frame makes it: a step forward while
/// the sprite is short of the target, then a step back if the sprite is now
/// at or past it.
pub fn walk_axis(pos: i64, offset: i64, marker: i64) -> (r: i64)
    requires
        coord_fits(pos as int),
        coord_fits(offset as int),
        coord_fits(marker as int),
    ensures
        r as int == toward(pos as int, offset as int, marker - TARGET_INSET),
{
    let target = marker - TARGET_INSET;
    let mut p = pos;
    if offset + p < target {
        p = p + PLAYER_SPEED;
    }
    if offset + p >= target {
        p = p - PLAYER_SPEED;
    }
    p
}

/// The index of the first projectile inside the hit zone of an enemy at `ex`.
pub fn find_hit(projectiles: &Vec<(i64, i64)>, ex: i64) -> (r: Option<usize>)
    requires
        ex <= i64::MAX - ENEMY_WIDTH,
    ensures
        r matches Some(k) ==> is_first_hit(projectiles@, ex as int, k as int),
        r is None <==> !any_hit(projectiles@, ex as int),
{
    let n = projectiles.len();
    let mut i: usize = 0;
    while i < n
        invariant
            n == projectiles@.len(),
            i <= n,
            ex <= i64::MAX - ENEMY_WIDTH,
            forall|j: int| 0 <= j < i ==> !hits(#[trigger] projectiles@[j], ex as int),
        decreases n - i,
    {
        let p = projectiles[i];
        if p.0 >= ex && p.0 <= ex + ENEMY_WIDTH {
            return Some(i);
        }
        i = i + 1;
    }
    None
}

/// Moves every projectile one step to the right.
pub fn advance_all(projectiles: &mut Vec<(i64, i64)>)
    requires
        all_fit(old(projectiles)@),
    ensures
        advanced(old(projectiles)@, final(projectiles)@),
{
    let n = projectiles.len();
    let mut i: usize = 0;
    while i < n
        invariant
            n == projectiles@.len(),
            n == old(projectiles)@.len(),
            i <= n,
            forall|j: int| i <= j < n ==> #[trigger] projectiles@[j] == old(projectiles)@[j],
            forall|j: int|
                0 <= j < i ==> #[trigger] projectiles@[j] == ((old(projectiles)@[j].0 + PROJECTILE_SPEED) as i64, old(projectiles)@[j].1),
            all_fit(old(projectiles)@),
        decreases n - i,
    {
        let p = projectiles[i];
        projectiles.set(i, (p.0 + PROJECTILE_SPEED, p.1));
        i = i + 1;
    }
}

} // verus!
