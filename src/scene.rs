//! What a frame shows: the sprites to draw, in order, and where.
use vstd::prelude::*;
use crate::game::{Game, Phase};

verus! {

/// An image the game draws.
#[derive(PartialEq, Eq, Structural, Clone, Copy, Debug)]
pub enum Sprite {
    Background,
    Girl,
    Dialog,
    StartButton,
    DropBar,
    Player,
    Enemy,
    Life,
    Marker,
    Projectile,
    WinBanner,
    Restart,
    LoseBanner,
    Cursor,
}

/// A sprite drawn with its top left corner at `(x, y)`.
#[derive(PartialEq, Eq, Structural, Clone, Copy, Debug)]
pub struct Placement {
    pub sprite: Sprite,
    pub x: i64,
    pub y: i64,
}

pub open spec fn at(sprite: Sprite, x: int, y: int) -> Placement {
    Placement { sprite, x: x as i64, y: y as i64 }
}

/// One health icon per point of health: the player's run right from the top
/// left corner, the enemy's run left from the top right.
pub open spec fn life_row(life: nat, from_left: bool) -> Seq<Placement> {
    Seq::new(
        life,
        |i: int|
            if from_left {
                at(Sprite::Life, 20 + 40 * i, 20)
            } else {
                at(Sprite::Life, 1170 - (20 + 40 * i), 20)
            },
    )
}

/// One projectile sprite per projectile, where it is.
pub open spec fn shot_row(s: Seq<(i64, i64)>) -> Seq<Placement> {
    s.map_values(|p: (i64, i64)| at(Sprite::Projectile, p.0 as int, p.1 as int))
}

impl Game {
    /// The sprites of the current screen, between background and cursor.
    pub open spec fn screen_spec(&self) -> Seq<Placement> {
        match self.phase {
            Phase::Welcome => {
                let slide = self.transition.slide_spec();
                seq![
                    at(Sprite::Girl, 800 + slide, 210),
                    at(Sprite::Dialog, 500 + slide, 210),
                    at(Sprite::StartButton, 580 + slide, 360),
                    at(Sprite::DropBar, 410, -290 + self.transition.depth_spec()),
                ]
            },
            Phase::Playing => seq![
                at(Sprite::Player, 200 + self.player.x, 650 + self.player.y),
                at(Sprite::Enemy, self.enemy.x as int, self.enemy.y as int),
            ] + life_row(self.player.life as nat, true) + life_row(self.enemy.life as nat, false)
                + seq![at(Sprite::Marker, self.marker_x as int, self.marker_y as int)]
                + shot_row(self.player.projectiles@),
            Phase::Win => seq![at(Sprite::WinBanner, 400, 200), at(Sprite::Restart, 481, 400)],
            Phase::Lose => seq![at(Sprite::LoseBanner, 400, 200)],
        }
    }

    /// Everything drawn this frame, back to front: the background first, the
    /// screen's sprites, the cursor last.
    pub open spec fn scene_spec(&self) -> Seq<Placement> {
        seq![at(Sprite::Background, 0, 0)] + self.screen_spec() + seq![
            at(Sprite::Cursor, self.cursor_x - 50, self.cursor_y - 50),
        ]
    }

    /// The sprites to draw this frame, in order.
    pub fn scene(&self) -> (r: Vec<Placement>)
        requires
            self.fits(),
        ensures
            r@ == self.scene_spec(),
    {
        let mut r: Vec<Placement> = Vec::new();
        r.push(Placement { sprite: Sprite::Background, x: 0, y: 0 });
        match self.phase {
            Phase::Welcome => {
                let slide = self.transition.slide_offset() as i64;
                let depth = self.transition.drop_depth() as i64;
                r.push(Placement { sprite: Sprite::Girl, x: 800 + slide, y: 210 });
                r.push(Placement { sprite: Sprite::Dialog, x: 500 + slide, y: 210 });
                r.push(Placement { sprite: Sprite::StartButton, x: 580 + slide, y: 360 });
                r.push(Placement { sprite: Sprite::DropBar, x: 410, y: -290 + depth });
            },
            Phase::Playing => {
                r.push(
                    Placement { sprite: Sprite::Player, x: 200 + self.player.x, y: 650 + self.player.y },
                );
                r.push(Placement { sprite: Sprite::Enemy, x: self.enemy.x, y: self.enemy.y });
                push_lives(&mut r, self.player.life, true);
                push_lives(&mut r, self.enemy.life, false);
                r.push(Placement { sprite: Sprite::Marker, x: self.marker_x, y: self.marker_y });
                push_shots(&mut r, &self.player.projectiles);
            },
            Phase::Win => {
                r.push(Placement { sprite: Sprite::WinBanner, x: 400, y: 200 });
                r.push(Placement { sprite: Sprite::Restart, x: 481, y: 400 });
            },
            Phase::Lose => {
                r.push(Placement { sprite: Sprite::LoseBanner, x: 400, y: 200 });
            },
        }
        r.push(Placement { sprite: Sprite::Cursor, x: self.cursor_x - 50, y: self.cursor_y - 50 });
        assert(r@ =~= self.scene_spec());
        r
    }
}

/// Appends one health icon per point of `life`.
fn push_lives(out: &mut Vec<Placement>, life: u8, from_left: bool)
    ensures
        final(out)@ == old(out)@ + life_row(life as nat, from_left),
{
    let mut i: u8 = 0;
    while i < life
        invariant
            i <= life,
            out@ =~= old(out)@ + life_row(i as nat, from_left),
        decreases life - i,
    {
        let x = if from_left {
            20 + 40 * (i as i64)
        } else {
            1170 - (20 + 40 * (i as i64))
        };
        out.push(Placement { sprite: Sprite::Life, x, y: 20 });
        i = i + 1;
        assert(out@ =~= old(out)@ + life_row(i as nat, from_left));
    }
}

/// Appends one projectile sprite per projectile.
fn push_shots(out: &mut Vec<Placement>, shots: &Vec<(i64, i64)>)
    ensures
        final(out)@ == old(out)@ + shot_row(shots@),
{
    let n = shots.len();
    let mut i: usize = 0;
    while i < n
        invariant
            n == shots@.len(),
            i <= n,
            out@ =~= old(out)@ + shot_row(shots@.subrange(0, i as int)),
        decreases n - i,
    {
        let p = shots[i];
        out.push(Placement { sprite: Sprite::Projectile, x: p.0, y: p.1 });
        i = i + 1;
        assert(shots@.subrange(0, i as int) =~= shots@.subrange(0, i - 1) + seq![p]);
        assert(out@ =~= old(out)@ + shot_row(shots@.subrange(0, i as int)));
    }
    assert(shots@.subrange(0, n as int) =~= shots@);
}

} // verus!
