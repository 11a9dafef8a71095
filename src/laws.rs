//! Properties of play that hold across frames, proved from the contracts.
use vstd::prelude::*;
use crate::actor::{MAX_LIFE, PROJECTILE_SPEED, hits, is_first_hit};
use crate::game::{Game, Phase, frame};
use crate::transition::{DROP_END, Transition};

verus! {

/// The animation stage `n` frames after the first left click, in closed form:
/// 700 frames of sliding, 287 of dropping, 287 of rising, then finished.
pub open spec fn after_click(n: nat) -> Transition {
    if n <= 700 {
        Transition::Sliding { offset: n as u16 }
    } else if n <= 987 {
        Transition::Dropping { depth: (n - 700) as u16 }
    } else if n <= 1274 {
        Transition::Rising { depth: (1276 - n) as u16 }
    } else {
        Transition::Finished
    }
}

/// Running the animation from the first click goes through the stages in
/// order, as `after_click` gives them.
pub proof fn lemma_run_after_click(n: nat)
    ensures
        (Transition::Sliding { offset: 0 }).run(n) == after_click(n),
    decreases n,
{
    if n > 0 {
        lemma_run_after_click((n - 1) as nat);
    }
}

/// Health stays within 0 to `MAX_LIFE` from frame to frame, and a frame that
/// ends with an actor at no health ends on that actor's terminal screen: the
/// player's loss first.
pub proof fn lemma_health_and_outcome(pre: Game, post: Game)
    requires
        pre.well_formed(),
        frame(pre, post),
    ensures
        post.player.life <= MAX_LIFE,
        post.enemy.life <= MAX_LIFE,
        post.player.life == 0 ==> post.phase == Phase::Lose,
        post.player.life > 0 && post.enemy.life == 0 ==> post.phase == Phase::Win,
{
}

/// A hit consumes exactly one projectile, the first in the hit zone, and one
/// point of the enemy's health; a later projectile in the zone survives the
/// frame and moves on.
pub proof fn lemma_one_hit_per_frame(pre: Game, post: Game, i: int, j: int)
    requires
        frame(pre, post),
        pre.enemy.life > 0,
        0 <= i < j < pre.player.projectiles@.len(),
        hits(pre.player.projectiles@[i], pre.enemy_x_after()),
        hits(pre.player.projectiles@[j], pre.enemy_x_after()),
    ensures
        post.player.projectiles@.len() == pre.player.projectiles@.len() - 1,
        post.enemy.life == pre.enemy.life - 1,
        post.player.projectiles@[j - 1] == (
            (pre.player.projectiles@[j].0 + PROJECTILE_SPEED) as i64,
            pre.player.projectiles@[j].1,
        ),
{
    let s = pre.player.projectiles@;
    let ex = pre.enemy_x_after();
    assert(pre.hit_lands());
    let k = choose|k: int| #[trigger]
        is_first_hit(s, ex, k) && crate::actor::advanced(s.remove(k), post.player.projectiles@);
    assert(k <= i);
    assert(s.remove(k)[j - 1] == s[j]);
}

/// Without a hit no projectile is lost: each one moves right by one step and
/// keeps its height.
pub proof fn lemma_no_hit_keeps_all(pre: Game, post: Game)
    requires
        pre.fits(),
        frame(pre, post),
        !pre.hit_lands(),
    ensures
        post.player.projectiles@.len() == pre.player.projectiles@.len(),
        forall|i: int|
            0 <= i < post.player.projectiles@.len() ==> (#[trigger] post.player.projectiles@[i]).0
                == pre.player.projectiles@[i].0 + PROJECTILE_SPEED && post.player.projectiles@[i].1
                == pre.player.projectiles@[i].1,
{
    assert forall|i: int| 0 <= i < post.player.projectiles@.len() implies (#[trigger] post.player.projectiles@[i]).0
        == pre.player.projectiles@[i].0 + PROJECTILE_SPEED by {
        assert(crate::actor::coord_fits(pre.player.projectiles@[i].0 as int));
    }
}

/// `p` is some projectile of `before` moved right by one step.
pub open spec fn moved_from(p: (i64, i64), before: Seq<(i64, i64)>) -> bool {
    exists|j: int|
        0 <= j < before.len() && p.0 == before[j].0 + PROJECTILE_SPEED && p.1 == #[trigger] before[j].1
}

/// Across any frame at most one projectile is lost, and every projectile
/// left afterwards is one from before moved right by one step.
pub proof fn lemma_survivors_advance(pre: Game, post: Game)
    requires
        pre.fits(),
        frame(pre, post),
    ensures
        post.player.projectiles@.len() + 1 >= pre.player.projectiles@.len(),
        forall|i: int|
            0 <= i < post.player.projectiles@.len() ==> moved_from(
                #[trigger] post.player.projectiles@[i],
                pre.player.projectiles@,
            ),
{
    let s = pre.player.projectiles@;
    let t = post.player.projectiles@;
    if pre.hit_lands() {
        let k = choose|k: int| #[trigger]
            is_first_hit(s, pre.enemy_x_after(), k) && crate::actor::advanced(s.remove(k), t);
        assert forall|i: int| 0 <= i < t.len() implies moved_from(#[trigger] t[i], s) by {
            let j = if i < k { i } else { i + 1 };
            assert(s.remove(k)[i] == s[j]);
            assert(crate::actor::coord_fits(s[j].0 as int));
        }
    } else {
        assert forall|i: int| 0 <= i < t.len() implies moved_from(#[trigger] t[i], s) by {
            assert(crate::actor::coord_fits(s[i].0 as int));
        }
    }
}

/// The bar never rises before it has dropped all the way: it goes up only
/// from the rising stage, and that stage is entered at depth `DROP_END`.
pub proof fn lemma_rise_starts_at_bottom(t: Transition)
    requires
        t.well_formed(),
    ensures
        t.next_spec().depth_spec() < t.depth_spec() ==> t is Rising,
        !(t is Rising) && t.next_spec() is Rising ==> t.next_spec().depth_spec() == DROP_END,
{
}

/// From the first click, the bar's depth falls between two frames only
/// after it has reached `DROP_END`.
pub proof fn lemma_drop_before_rise(n: nat)
    ensures
        (Transition::Sliding { offset: 0 }).run(n + 1).depth_spec() < (Transition::Sliding {
            offset: 0,
        }).run(n).depth_spec() ==> exists|m: nat|
            m <= n && #[trigger] (Transition::Sliding { offset: 0 }).run(m).depth_spec()
                == DROP_END,
{
    lemma_run_after_click(n);
    lemma_run_after_click(n + 1);
    lemma_run_after_click(988);
    assert((Transition::Sliding { offset: 0 }).run(988).depth_spec() == DROP_END);
}

/// From the first click the animation ends exactly at frame 1275
/// (700 + 288 + 287): it is finished then and after, and not before.
pub proof fn lemma_click_to_play(n: nat)
    ensures
        (Transition::Sliding { offset: 0 }).run(n) == Transition::Finished <==> n >= 1275,
        (Transition::Sliding { offset: 0 }).run(n).completes() <==> n == 1274,
{
    lemma_run_after_click(n);
}

/// Play begins from another screen only on the frame that ends the
/// animation, with the bar back up at depth 1.
pub proof fn lemma_playing_only_when_risen(pre: Game, post: Game)
    requires
        frame(pre, post),
        pre.phase != Phase::Playing,
        post.phase == Phase::Playing,
    ensures
        pre.transition.completes(),
        post.transition == Transition::Finished,
        post.transition.depth_spec() == 1,
{
}

} // verus!
