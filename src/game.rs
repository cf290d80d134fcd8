use crate::audio::music;
use crate::enemy::{
    advance_left, after_shot, bounce, bullet_size, enemy_shot_ok, Enemy, ENEMY_SIZE,
    INITIAL_BULLET_VELOCITY, INITIAL_ENEMY_VELOCITY, MAX_ENEMY_BULLETS,
};
use crate::geometry::{collides, detect_collison, fits, screen_ok, Rect};
use crate::player::{
    advance_right, next_y, player_shot_ok, Player, PlayerDirection, INITIAL_BULLET_SPEED,
    PLAYER_LIVES, PLAYER_SIZE,
};
use crate::shots::{
    enemy_queue_dequeue, enemy_queue_enqueue, enemy_queue_len, enemy_queue_new, enemy_shots,
    enqueue_model, player_queue_dequeue, player_queue_enqueue, player_queue_len, player_queue_new,
    player_shots, ENEMY_SHOT_CAPACITY, PLAYER_SHOT_CAPACITY,
};
use heapless::spsc::Queue;
use vstd::prelude::*;

verus! {

/// Points between two difficulty steps.
pub const LEVEL_INTERVAL: u32 = 50;

/// Length of every sound cue, in milliseconds.
pub const CUE_MS: u32 = 20;

#[derive(Clone, Copy, Debug, PartialEq, Eq, Structural)]
pub enum GameState {
    Menu,
    Playing,
    /// Kept for a future level screen; no transition enters or leaves it.
    LevelCompleted,
    Dead,
}

/// A sound cue for the audio collaborator.
#[derive(Clone, Copy, Debug, PartialEq, Eq, Structural)]
pub struct Tone {
    pub note: u32,
    pub duration: u32,
}

/// What the surrounding loop does after a tick: play the cues in order, and
/// clear the button latch (before and after the game-over pause) when set.
pub struct TickReport {
    pub tones: Vec<Tone>,
    pub clear_input: bool,
}

/// The whole game: screen state, score, level and the two entities.
pub struct Game {
    pub state: GameState,
    pub score: u32,
    pub player: Player,
    pub enemy: Enemy,
    pub level: u32,
    pub screen_width: i32,
    pub screen_height: i32,
}

pub open spec fn fire_tone() -> Tone {
    Tone { note: music::NOTE_D6, duration: CUE_MS }
}

pub open spec fn enemy_hit_tone() -> Tone {
    Tone { note: music::NOTE_B4, duration: CUE_MS }
}

pub open spec fn player_hit_tone() -> Tone {
    Tone { note: music::NOTE_FS2, duration: CUE_MS }
}

pub open spec fn clash_tone() -> Tone {
    Tone { note: music::NOTE_AS6, duration: CUE_MS }
}

/// `n` copies of `t`.
pub open spec fn repeat_tone(t: Tone, n: nat) -> Seq<Tone> {
    Seq::new(n, |i: int| t)
}

/// The items of `s` that do not collide with `r`, in order.
pub open spec fn spared(s: Seq<Rect>, r: Rect) -> Seq<Rect>
    decreases s.len(),
{
    if s.len() == 0 {
        seq![]
    } else if collides(s.last(), r) {
        spared(s.drop_last(), r)
    } else {
        spared(s.drop_last(), r).push(s.last())
    }
}

/// How many items of `s` collide with `r`.
pub open spec fn struck(s: Seq<Rect>, r: Rect) -> nat
    decreases s.len(),
{
    if s.len() == 0 {
        0
    } else if collides(s.last(), r) {
        struck(s.drop_last(), r) + 1
    } else {
        struck(s.drop_last(), r)
    }
}

/// Player bullets `ps` against enemy bullets `es`, each player bullet in turn
/// against the enemy bullets still left: every colliding pair is consumed.
/// Gives the surviving player bullets, the surviving enemy bullets and the
/// number of colliding pairs.
pub open spec fn clash(ps: Seq<Rect>, es: Seq<Rect>) -> (Seq<Rect>, Seq<Rect>, nat)
    decreases ps.len(),
{
    if ps.len() == 0 {
        (seq![], es, 0)
    } else {
        let (kept, rest, n) = clash(ps.drop_last(), es);
        let p = ps.last();
        let h = struck(rest, p);
        (if h > 0 {
            kept
        } else {
            kept.push(p)
        }, spared(rest, p), n + h)
    }
}

/// `a + b`, held at `u32::MAX`.
pub open spec fn sat_add(a: int, b: int) -> int {
    if a + b > u32::MAX {
        u32::MAX as int
    } else {
        a + b
    }
}

/// `a - b`, held at zero.
pub open spec fn sat_sub(a: int, b: int) -> int {
    if a - b < 0 {
        0
    } else {
        a - b
    }
}

/// The level that a score earns.
pub open spec fn level_for(score: int) -> int {
    score / LEVEL_INTERVAL as int + 1
}

proof fn lemma_spared_len(s: Seq<Rect>, r: Rect)
    ensures
        spared(s, r).len() + struck(s, r) == s.len(),
    decreases s.len(),
{
    if s.len() > 0 {
        lemma_spared_len(s.drop_last(), r);
    }
}

proof fn lemma_clash_len(ps: Seq<Rect>, es: Seq<Rect>)
    ensures
        clash(ps, es).0.len() <= ps.len(),
        clash(ps, es).1.len() <= es.len(),
    decreases ps.len(),
{
    if ps.len() > 0 {
        lemma_clash_len(ps.drop_last(), es);
        let (kept, rest, n) = clash(ps.drop_last(), es);
        lemma_spared_len(rest, ps.last());
    }
}

proof fn lemma_spared_keeps(s: Seq<Rect>, r: Rect, ok: spec_fn(Rect) -> bool)
    requires
        forall|i: int| 0 <= i < s.len() ==> ok(#[trigger] s[i]),
    ensures
        forall|i: int| 0 <= i < spared(s, r).len() ==> ok(#[trigger] spared(s, r)[i]),
    decreases s.len(),
{
    if s.len() > 0 {
        let prev = s.drop_last();
        assert forall|i: int| 0 <= i < prev.len() implies ok(#[trigger] prev[i]) by {
            assert(prev[i] == s[i]);
        }
        lemma_spared_keeps(prev, r, ok);
        let sp = spared(s, r);
        assert forall|i: int| 0 <= i < sp.len() implies ok(#[trigger] sp[i]) by {
            if i < spared(prev, r).len() {
                assert(sp[i] == spared(prev, r)[i]);
            } else {
                assert(sp[i] == s[s.len() - 1]);
            }
        }
    }
}


proof fn lemma_clash_keeps_players(ps: Seq<Rect>, es: Seq<Rect>, ok: spec_fn(Rect) -> bool)
    requires
        forall|i: int| 0 <= i < ps.len() ==> ok(#[trigger] ps[i]),
    ensures
        forall|i: int| 0 <= i < clash(ps, es).0.len() ==> ok(#[trigger] clash(ps, es).0[i]),
    decreases ps.len(),
{
    if ps.len() > 0 {
        let prev = ps.drop_last();
        assert forall|i: int| 0 <= i < prev.len() implies ok(#[trigger] prev[i]) by {
            assert(prev[i] == ps[i]);
        }
        lemma_clash_keeps_players(prev, es, ok);
        let kept = clash(prev, es).0;
        let k2 = clash(ps, es).0;
        assert forall|i: int| 0 <= i < k2.len() implies ok(#[trigger] k2[i]) by {
            if i < kept.len() {
                assert(k2[i] == kept[i]);
            } else {
                assert(k2[i] == ps[ps.len() - 1]);
            }
        }
    }
}

proof fn lemma_clash_keeps_enemies(ps: Seq<Rect>, es: Seq<Rect>, ok: spec_fn(Rect) -> bool)
    requires
        forall|i: int| 0 <= i < es.len() ==> ok(#[trigger] es[i]),
    ensures
        forall|i: int| 0 <= i < clash(ps, es).1.len() ==> ok(#[trigger] clash(ps, es).1[i]),
    decreases ps.len(),
{
    if ps.len() > 0 {
        lemma_clash_keeps_enemies(ps.drop_last(), es, ok);
        lemma_spared_keeps(clash(ps.drop_last(), es).1, ps.last(), ok);
    }
}

proof fn lemma_repeat_tone_push(t: Tone, n: nat)
    ensures
        repeat_tone(t, n + 1) == repeat_tone(t, n).push(t),
{
    assert(repeat_tone(t, n + 1) =~= repeat_tone(t, n).push(t));
}

/// Appends `n` copies of `t` to `tones`.
fn push_tones(tones: &mut Vec<Tone>, t: Tone, n: usize)
    ensures
        final(tones)@ == old(tones)@ + repeat_tone(t, n as nat),
{
    let mut k: usize = 0;
    while k < n
        invariant
            k <= n,
            tones@ == old(tones)@ + repeat_tone(t, k as nat),
        decreases n - k,
    {
        proof {
            lemma_repeat_tone_push(t, k as nat);
        }
        tones.push(t);
        k = k + 1;
        proof {
            assert(tones@ =~= old(tones)@ + repeat_tone(t, k as nat));
        }
    }
}

/// Drains the player bullets `q` and keeps, in order, those that do not collide
/// with `r`; also counts those that do.
fn filter_player_shots(q: Queue<Rect, 2>, r: Rect) -> (res: (Queue<Rect, 2>, usize))
    requires
        fits(r),
        player_shots(q).len() <= PLAYER_SHOT_CAPACITY,
        forall|i: int| 0 <= i < player_shots(q).len() ==> fits(#[trigger] player_shots(q)[i]),
    ensures
        player_shots(res.0) == spared(player_shots(q), r),
        res.1 == struck(player_shots(q), r),
{
    let ghost orig = player_shots(q);
    let mut q = q;
    let mut kept = player_queue_new();
    let mut hits: usize = 0;
    let n = player_queue_len(&q);
    let mut k: usize = 0;
    while k < n
        invariant
            fits(r),
            n == orig.len(),
            n <= PLAYER_SHOT_CAPACITY,
            k <= n,
            forall|i: int| 0 <= i < orig.len() ==> fits(#[trigger] orig[i]),
            player_shots(q) == orig.subrange(k as int, orig.len() as int),
            player_shots(kept) == spared(orig.subrange(0, k as int), r),
            hits == struck(orig.subrange(0, k as int), r),
        decreases n - k,
    {
        proof {
            assert(player_shots(q)[0] == orig[k as int]);
            lemma_spared_len(orig.subrange(0, k as int), r);
        }
        let b = match player_queue_dequeue(&mut q) {
            Some(b) => b,
            None => unreached(),
        };
        proof {
            assert(orig.subrange(0, k + 1).drop_last() =~= orig.subrange(0, k as int));
            assert(player_shots(q) =~= orig.subrange(k + 1, orig.len() as int));
        }
        k = k + 1;
        if detect_collison(b, r) {
            hits = hits + 1;
        } else {
            let _ = player_queue_enqueue(&mut kept, b);
        }
    }
    proof {
        assert(orig.subrange(0, n as int) =~= orig);
    }
    (kept, hits)
}

/// Drains the enemy bullets `q` and keeps, in order, those that do not collide
/// with `r`; also counts those that do.
fn filter_enemy_shots(q: Queue<Rect, 5>, r: Rect) -> (res: (Queue<Rect, 5>, usize))
    requires
        fits(r),
        enemy_shots(q).len() <= ENEMY_SHOT_CAPACITY,
        forall|i: int| 0 <= i < enemy_shots(q).len() ==> fits(#[trigger] enemy_shots(q)[i]),
    ensures
        enemy_shots(res.0) == spared(enemy_shots(q), r),
        res.1 == struck(enemy_shots(q), r),
{
    let ghost orig = enemy_shots(q);
    let mut q = q;
    let mut kept = enemy_queue_new();
    let mut hits: usize = 0;
    let n = enemy_queue_len(&q);
    let mut k: usize = 0;
    while k < n
        invariant
            fits(r),
            n == orig.len(),
            n <= ENEMY_SHOT_CAPACITY,
            k <= n,
            forall|i: int| 0 <= i < orig.len() ==> fits(#[trigger] orig[i]),
            enemy_shots(q) == orig.subrange(k as int, orig.len() as int),
            enemy_shots(kept) == spared(orig.subrange(0, k as int), r),
            hits == struck(orig.subrange(0, k as int), r),
        decreases n - k,
    {
        proof {
            assert(enemy_shots(q)[0] == orig[k as int]);
            lemma_spared_len(orig.subrange(0, k as int), r);
        }
        let b = match enemy_queue_dequeue(&mut q) {
            Some(b) => b,
            None => unreached(),
        };
        proof {
            assert(orig.subrange(0, k + 1).drop_last() =~= orig.subrange(0, k as int));
            assert(enemy_shots(q) =~= orig.subrange(k + 1, orig.len() as int));
        }
        k = k + 1;
        if detect_collison(b, r) {
            hits = hits + 1;
        } else {
            let _ = enemy_queue_enqueue(&mut kept, b);
        }
    }
    proof {
        assert(orig.subrange(0, n as int) =~= orig);
    }
    (kept, hits)
}

impl Game {
    /// Both entities are well formed for this screen; the level is at least one
    /// and no more than the score has earned; the enemy's speed is at most the level.
    pub open spec fn wf(&self) -> bool {
        &&& screen_ok(self.screen_width, self.screen_height)
        &&& self.player.wf()
        &&& self.enemy.wf()
        &&& self.player.screen_width == self.screen_width
        &&& self.player.screen_height == self.screen_height
        &&& self.enemy.screen_height == self.screen_height
        &&& 1 <= self.level <= level_for(self.score as int)
        &&& -(self.level as int) <= self.enemy.velocity <= self.level
    }

    /// A game on the menu screen, with fresh entities for a screen of the given size.
    pub fn new(screen_width: i32, screen_height: i32) -> (r: Game)
        requires
            screen_ok(screen_width, screen_height),
        ensures
            r.wf(),
            r.fresh(),
            r.state == GameState::Menu,
            r.score == 0,
            r.level == 1,
            r.screen_width == screen_width,
            r.screen_height == screen_height,
    {
        let (player, enemy) = Game::init_game_state(screen_width, screen_height);
        Game {
            state: GameState::Menu,
            score: 0,
            player,
            enemy,
            level: 1,
            screen_width,
            screen_height,
        }
    }

    fn init_game_state(screen_width: i32, screen_height: i32) -> (r: (Player, Enemy))
        requires
            screen_ok(screen_width, screen_height),
        ensures
            r.0.wf(),
            r.1.wf(),
            r.0.screen_width == screen_width,
            r.0.screen_height == screen_height,
            r.0.y == screen_height / 2 - PLAYER_SIZE / 2,
            r.0.lives == PLAYER_LIVES,
            r.0.shots() == Seq::<Rect>::empty(),
            r.1.x == screen_width - ENEMY_SIZE * 15 / 10,
            r.1.y == screen_height / 2 - ENEMY_SIZE / 2,
            r.1.screen_height == screen_height,
            r.1.velocity == INITIAL_ENEMY_VELOCITY,
            r.1.max_bullet == 1,
            r.1.shots() == Seq::<Rect>::empty(),
    {
        (Player::new(screen_width, screen_height), Enemy::new(screen_width, screen_height))
    }

    /// A fresh playthrough: score zero, first level, new entities.
    pub fn reset_game(&mut self)
        requires
            old(self).wf(),
        ensures
            final(self).wf(),
            final(self).fresh(),
            final(self).state == old(self).state,
            final(self).screen_width == old(self).screen_width,
            final(self).screen_height == old(self).screen_height,
    {
        self.score = 0;
        self.level = 1;
        let (player, enemy) = Game::init_game_state(self.screen_width, self.screen_height);
        self.player = player;
        self.enemy = enemy;
    }

    /// Player bullets against the enemy's body: each one that hits is consumed
    /// and scores a point (held at `u32::MAX`), with a cue per hit.
    pub fn enemy_collison(&mut self, tones: &mut Vec<Tone>)
        requires
            old(self).wf(),
        ensures
            final(self).wf(),
            final(self).player.shots() == spared(old(self).player.shots(), old(self).enemy.body()),
            final(self).score == sat_add(
                old(self).score as int,
                struck(old(self).player.shots(), old(self).enemy.body()) as int,
            ),
            final(tones)@ == old(tones)@ + repeat_tone(
                enemy_hit_tone(),
                struck(old(self).player.shots(), old(self).enemy.body()),
            ),
            final(self).enemy == old(self).enemy,
            final(self).state == old(self).state,
            final(self).level == old(self).level,
            final(self).player.y == old(self).player.y,
            final(self).player.lives == old(self).player.lives,
            final(self).screen_width == old(self).screen_width,
            final(self).screen_height == old(self).screen_height,
    {
        let enemy_bb = Rect { x: self.enemy.x, y: self.enemy.y, width: ENEMY_SIZE, height: ENEMY_SIZE };
        let ghost shots = self.player.shots();
        proof {
            assert forall|i: int| 0 <= i < shots.len() implies fits(#[trigger] shots[i]) by {
                assert(player_shot_ok(shots[i]));
            }
            lemma_spared_keeps(shots, enemy_bb, |b: Rect| player_shot_ok(b));
            lemma_spared_len(shots, enemy_bb);
        }
        let mut pending = player_queue_new();
        core::mem::swap(&mut pending, &mut self.player.bullets);
        let (kept, hits) = filter_player_shots(pending, enemy_bb);
        self.player.bullets = kept;
        let room = u32::MAX - self.score;
        self.score = if hits as u32 <= room {
            self.score + hits as u32
        } else {
            u32::MAX
        };
        push_tones(tones, Tone { note: music::NOTE_B4, duration: CUE_MS }, hits);
    }

    /// Enemy bullets against the player's body: each one that hits is consumed
    /// and costs a life (held at zero), with a cue per hit. With no lives left the
    /// game is over; the result says so, and then the button latch is to be cleared.
    pub fn player_collison(&mut self, tones: &mut Vec<Tone>) -> (dead: bool)
        requires
            old(self).wf(),
        ensures
            final(self).wf(),
            final(self).enemy.shots() == spared(old(self).enemy.shots(), old(self).player.body()),
            final(self).player.lives == sat_sub(
                old(self).player.lives as int,
                struck(old(self).enemy.shots(), old(self).player.body()) as int,
            ),
            final(tones)@ == old(tones)@ + repeat_tone(
                player_hit_tone(),
                struck(old(self).enemy.shots(), old(self).player.body()),
            ),
            dead == (final(self).player.lives == 0),
            final(self).state == if dead {
                GameState::Dead
            } else {
                old(self).state
            },
            final(self).player.shots() == old(self).player.shots(),
            final(self).player.y == old(self).player.y,
            final(self).enemy.x == old(self).enemy.x,
            final(self).enemy.y == old(self).enemy.y,
            final(self).enemy.velocity == old(self).enemy.velocity,
            final(self).enemy.max_bullet == old(self).enemy.max_bullet,
            final(self).score == old(self).score,
            final(self).level == old(self).level,
            final(self).screen_width == old(self).screen_width,
            final(self).screen_height == old(self).screen_height,
    {
        let player_bb = Rect {
            x: self.player.x,
            y: self.player.y,
            width: PLAYER_SIZE,
            height: PLAYER_SIZE,
        };
        let ghost shots = self.enemy.shots();
        proof {
            assert forall|i: int| 0 <= i < shots.len() implies fits(#[trigger] shots[i]) by {
                assert(enemy_shot_ok(shots[i]));
            }
            lemma_spared_keeps(shots, player_bb, |b: Rect| enemy_shot_ok(b));
            lemma_spared_len(shots, player_bb);
        }
        let mut pending = enemy_queue_new();
        core::mem::swap(&mut pending, &mut self.enemy.bullets);
        let (kept, hits) = filter_enemy_shots(pending, player_bb);
        self.enemy.bullets = kept;
        self.player.lives = if (hits as u8) < self.player.lives {
            self.player.lives - hits as u8
        } else {
            0
        };
        push_tones(tones, Tone { note: music::NOTE_FS2, duration: CUE_MS }, hits);
        if self.player.lives == 0 {
            self.state = GameState::Dead;
            return true;
        }
        false
    }

    /// Player bullets against enemy bullets: every colliding pair is consumed,
    /// with a cue per pair.
    pub fn bullets_collison(&mut self, tones: &mut Vec<Tone>)
        requires
            old(self).wf(),
        ensures
            final(self).wf(),
            final(self).player.shots() == clash(old(self).player.shots(), old(self).enemy.shots()).0,
            final(self).enemy.shots() == clash(old(self).player.shots(), old(self).enemy.shots()).1,
            final(tones)@ == old(tones)@ + repeat_tone(
                clash_tone(),
                clash(old(self).player.shots(), old(self).enemy.shots()).2,
            ),
            final(self).player.y == old(self).player.y,
            final(self).player.lives == old(self).player.lives,
            final(self).enemy.x == old(self).enemy.x,
            final(self).enemy.y == old(self).enemy.y,
            final(self).enemy.velocity == old(self).enemy.velocity,
            final(self).enemy.max_bullet == old(self).enemy.max_bullet,
            final(self).state == old(self).state,
            final(self).score == old(self).score,
            final(self).level == old(self).level,
            final(self).screen_width == old(self).screen_width,
            final(self).screen_height == old(self).screen_height,
    {
        let ghost ps0 = self.player.shots();
        let ghost es0 = self.enemy.shots();
        let mut pending = player_queue_new();
        core::mem::swap(&mut pending, &mut self.player.bullets);
        let mut enemy_bullets = enemy_queue_new();
        core::mem::swap(&mut enemy_bullets, &mut self.enemy.bullets);
        let mut kept = player_queue_new();
        let n = player_queue_len(&pending);
        let mut k: usize = 0;
        while k < n
            invariant
                n == ps0.len(),
                n <= PLAYER_SHOT_CAPACITY,
                k <= n,
                forall|i: int| 0 <= i < ps0.len() ==> player_shot_ok(#[trigger] ps0[i]),
                forall|i: int| 0 <= i < es0.len() ==> enemy_shot_ok(#[trigger] es0[i]),
                es0.len() <= ENEMY_SHOT_CAPACITY,
                player_shots(pending) == ps0.subrange(k as int, ps0.len() as int),
                player_shots(kept) == clash(ps0.subrange(0, k as int), es0).0,
                enemy_shots(enemy_bullets) == clash(ps0.subrange(0, k as int), es0).1,
                tones@ == old(tones)@ + repeat_tone(
                    clash_tone(),
                    clash(ps0.subrange(0, k as int), es0).2,
                ),
            decreases n - k,
        {
            let ghost prefix = ps0.subrange(0, k as int);
            proof {
                assert(player_shots(pending)[0] == ps0[k as int]);
                lemma_clash_len(prefix, es0);
                lemma_clash_keeps_enemies(prefix, es0, |b: Rect| enemy_shot_ok(b));
                let rest = clash(prefix, es0).1;
                assert forall|i: int| 0 <= i < rest.len() implies fits(#[trigger] rest[i]) by {
                    assert(enemy_shot_ok(rest[i]));
                }
            }
            let p = match player_queue_dequeue(&mut pending) {
                Some(b) => b,
                None => unreached(),
            };
            proof {
                assert(ps0.subrange(0, k + 1).drop_last() =~= prefix);
                assert(player_shots(pending) =~= ps0.subrange(k + 1, ps0.len() as int));
                assert(player_shot_ok(p));
            }
            let (rest, hits) = filter_enemy_shots(enemy_bullets, p);
            enemy_bullets = rest;
            let ghost before = tones@;
            push_tones(tones, Tone { note: music::NOTE_AS6, duration: CUE_MS }, hits);
            proof {
                let n0 = clash(prefix, es0).2;
                assert(old(tones)@ + repeat_tone(clash_tone(), n0) + repeat_tone(clash_tone(), hits as nat)
                    =~= old(tones)@ + repeat_tone(clash_tone(), n0 + hits as nat));
            }
            if hits == 0 {
                let _ = player_queue_enqueue(&mut kept, p);
            }
            k = k + 1;
        }
        proof {
            assert(ps0.subrange(0, n as int) =~= ps0);
            lemma_clash_len(ps0, es0);
            lemma_clash_keeps_players(ps0, es0, |b: Rect| player_shot_ok(b));
            lemma_clash_keeps_enemies(ps0, es0, |b: Rect| enemy_shot_ok(b));
        }
        self.player.bullets = kept;
        self.enemy.bullets = enemy_bullets;
    }

    /// The score has earned a level above the current one.
    pub open spec fn leveled(&self) -> bool {
        level_for(self.score as int) > self.level
    }

    /// The enemy's velocity once the level is brought up to date.
    pub open spec fn velocity_after_level(&self) -> int {
        if !self.leveled() {
            self.enemy.velocity as int
        } else if self.enemy.velocity < 0 {
            self.enemy.velocity - 1
        } else {
            self.enemy.velocity + 1
        }
    }

    /// The enemy's bullet limit once the level is brought up to date.
    pub open spec fn max_bullet_after_level(&self) -> int {
        if self.leveled() && self.enemy.max_bullet + 1 < MAX_ENEMY_BULLETS {
            self.enemy.max_bullet + 1
        } else if self.leveled() {
            MAX_ENEMY_BULLETS as int
        } else {
            self.enemy.max_bullet as int
        }
    }

    /// The enemy's row and velocity after this tick's bounce.
    pub open spec fn enemy_motion(&self) -> (int, int) {
        bounce(self.enemy.y as int, self.velocity_after_level(), self.enemy.max_y())
    }

    /// The enemy's footprint after this tick's bounce.
    pub open spec fn enemy_body_moved(&self) -> Rect {
        Rect {
            x: self.enemy.x,
            y: self.enemy_motion().0 as i32,
            width: ENEMY_SIZE,
            height: ENEMY_SIZE,
        }
    }

    /// The player's footprint after this tick's move.
    pub open spec fn player_body_moved(&self, direction: PlayerDirection) -> Rect {
        Rect {
            x: self.player.x,
            y: next_y(self.player.y as int, direction, self.player.max_y()) as i32,
            width: PLAYER_SIZE,
            height: PLAYER_SIZE,
        }
    }

    /// Whether a press this tick fires a player bullet.
    pub open spec fn fires(&self, pressed: bool) -> bool {
        pressed && self.player.shots().len() < PLAYER_SHOT_CAPACITY
    }

    /// Player bullets after firing (on a press) and moving, before collisions.
    pub open spec fn player_shots_moved(&self, pressed: bool) -> Seq<Rect> {
        let fired = if pressed {
            enqueue_model(self.player.shots(), PLAYER_SHOT_CAPACITY as nat, self.player.spawn())
        } else {
            self.player.shots()
        };
        advance_right(fired, INITIAL_BULLET_SPEED as int, self.player.screen_width as int)
    }

    /// Enemy bullets after moving and the enemy's shot (on an even draw), before
    /// collisions.
    pub open spec fn enemy_shots_moved(&self, fire_draw: u32, size_draw: u32) -> Seq<Rect> {
        let moved = advance_left(self.enemy.shots(), INITIAL_BULLET_VELOCITY as int);
        let size = bullet_size(size_draw);
        let candidate = Rect {
            x: (self.enemy.x - ENEMY_SIZE) as i32,
            y: (self.enemy_motion().0 + ENEMY_SIZE / 2) as i32,
            width: size,
            height: size,
        };
        if fire_draw % 2 == 0 {
            after_shot(moved, self.max_bullet_after_level(), candidate)
        } else {
            moved
        }
    }

    /// Brings the level up to what the score has earned, and makes the enemy
    /// harder once when it rises.
    pub fn level_handle(&mut self)
        requires
            old(self).wf(),
        ensures
            final(self).wf(),
            final(self).level == if old(self).leveled() {
                level_for(old(self).score as int)
            } else {
                old(self).level as int
            },
            final(self).enemy.velocity == old(self).velocity_after_level(),
            final(self).enemy.max_bullet == old(self).max_bullet_after_level(),
            final(self).enemy.x == old(self).enemy.x,
            final(self).enemy.y == old(self).enemy.y,
            final(self).enemy.screen_height == old(self).enemy.screen_height,
            final(self).enemy.shots() == old(self).enemy.shots(),
            final(self).player == old(self).player,
            final(self).state == old(self).state,
            final(self).score == old(self).score,
            final(self).screen_width == old(self).screen_width,
            final(self).screen_height == old(self).screen_height,
    {
        let new_level = self.score / LEVEL_INTERVAL + 1;
        if new_level > self.level {
            self.level = new_level;
            self.enemy.increase_level();
        }
    }

    /// One tick of the state machine. `pressed` is the button latch as it was
    /// swapped out for this tick; `direction` the stick's position; `fire_draw`
    /// and `size_draw` two values of the random source.
    ///
    /// On the menu a press starts a fresh playthrough. While playing: the level
    /// is brought up to date, a press fires, the enemy and then the player move,
    /// and the three collision passes run. On any other screen a press returns
    /// to the menu.
    pub fn tick(
        &mut self,
        pressed: bool,
        direction: PlayerDirection,
        fire_draw: u32,
        size_draw: u32,
    ) -> (r: TickReport)
        requires
            old(self).wf(),
        ensures
            final(self).wf(),
            final(self).screen_width == old(self).screen_width,
            final(self).screen_height == old(self).screen_height,
            old(self).state == GameState::Menu && pressed ==> {
                &&& final(self).fresh()
                &&& final(self).state == GameState::Playing
                &&& r.tones@ == Seq::<Tone>::empty()
                &&& !r.clear_input
            },
            old(self).state != GameState::Playing && !pressed ==> {
                &&& *final(self) == *old(self)
                &&& r.tones@ == Seq::<Tone>::empty()
                &&& !r.clear_input
            },
            (old(self).state == GameState::Dead || old(self).state == GameState::LevelCompleted)
                && pressed ==> {
                &&& final(self).state == GameState::Menu
                &&& final(self).score == old(self).score
                &&& final(self).level == old(self).level
                &&& final(self).player == old(self).player
                &&& final(self).enemy == old(self).enemy
                &&& r.tones@ == Seq::<Tone>::empty()
                &&& !r.clear_input
            },
            old(self).state == GameState::Playing ==> {
                let g = *old(self);
                let pbody = g.player_body_moved(direction);
                let ebody = g.enemy_body_moved();
                let ps = g.player_shots_moved(pressed);
                let es = g.enemy_shots_moved(fire_draw, size_draw);
                let enemy_hits = struck(ps, ebody);
                let player_hits = struck(es, pbody);
                let (ps_left, es_left, clashes) = clash(spared(ps, ebody), spared(es, pbody));
                &&& final(self).level == if g.leveled() {
                    level_for(g.score as int)
                } else {
                    g.level as int
                }
                &&& final(self).enemy.max_bullet == g.max_bullet_after_level()
                &&& final(self).enemy.velocity == g.enemy_motion().1
                &&& final(self).enemy.body() == ebody
                &&& final(self).player.body() == pbody
                &&& final(self).player.shots() == ps_left
                &&& final(self).enemy.shots() == es_left
                &&& final(self).score == sat_add(g.score as int, enemy_hits as int)
                &&& final(self).player.lives == sat_sub(g.player.lives as int, player_hits as int)
                &&& final(self).state == if final(self).player.lives == 0 {
                    GameState::Dead
                } else {
                    GameState::Playing
                }
                &&& r.clear_input == (final(self).state == GameState::Dead)
                &&& r.tones@ == (if g.fires(pressed) {
                    seq![fire_tone()]
                } else {
                    Seq::<Tone>::empty()
                }) + repeat_tone(enemy_hit_tone(), enemy_hits) + repeat_tone(
                    player_hit_tone(),
                    player_hits,
                ) + repeat_tone(clash_tone(), clashes)
            },
            old(self).state == GameState::Playing ==> final(self).score >= old(self).score,
            final(self).score < old(self).score ==> old(self).state == GameState::Menu && pressed
                && final(self).fresh(),
            old(self).state == GameState::Playing && final(self).player.lives == 0
                ==> final(self).state == GameState::Dead && r.clear_input,
    {
        let prev_state = self.state;
        let mut tones: Vec<Tone> = Vec::new();
        match self.state {
            GameState::Menu => {
                if pressed {
                    self.reset_game();
                    self.state = GameState::Playing;
                }
            },
            GameState::Playing => {
                self.level_handle();
                if pressed && self.player.shoot() {
                    tones.push(Tone { note: music::NOTE_D6, duration: CUE_MS });
                }
                self.enemy.update(fire_draw, size_draw);
                self.player.update(direction);
                self.enemy_collison(&mut tones);
                self.player_collison(&mut tones);
                self.bullets_collison(&mut tones);
            },
            _ => {
                if pressed {
                    self.state = GameState::Menu;
                }
            },
        }
        let clear_input = prev_state == GameState::Playing && self.state == GameState::Dead;
        TickReport { tones, clear_input }
    }

    /// Score, level and entities as a new playthrough starts them.
    pub open spec fn fresh(&self) -> bool {
        &&& self.score == 0
        &&& self.level == 1
        &&& self.player.lives == PLAYER_LIVES
        &&& self.player.y == self.screen_height / 2 - PLAYER_SIZE / 2
        &&& self.player.shots() == Seq::<Rect>::empty()
        &&& self.enemy.x == self.screen_width - ENEMY_SIZE * 15 / 10
        &&& self.enemy.y == self.screen_height / 2 - ENEMY_SIZE / 2
        &&& self.enemy.velocity == INITIAL_ENEMY_VELOCITY
        &&& self.enemy.max_bullet == 1
        &&& self.enemy.shots() == Seq::<Rect>::empty()
    }
}

} // verus!
