use crate::geometry::{screen_ok, translate_x, Rect, MAX_SCREEN};
use crate::shots::{
    enemy_queue_dequeue, enemy_queue_enqueue, enemy_queue_is_full, enemy_queue_len,
    enemy_queue_new, enemy_queue_newest, enemy_shots, ENEMY_SHOT_CAPACITY,
};
use heapless::spsc::Queue;
use vstd::prelude::*;

verus! {

/// Most enemy bullets in flight at once, at the highest level.
pub const MAX_ENEMY_BULLETS: usize = 4;

/// Size of the enemy bullet queue: one slot more than it may hold.
pub const BULLET_QUEUE_SIZE: usize = 5;

pub const INITIAL_BULLET_VELOCITY: i32 = -3;

pub const INITIAL_ENEMY_VELOCITY: i32 = 1;

/// Side of the enemy's square sprite.
pub const ENEMY_SIZE: u32 = 24;

/// Bound on how far outside the screen an enemy row or bullet may lie: the
/// bounce keeps the row within twice the speed of the screen.
pub const FIELD: i32 = 0x2000_0000;

/// Bound on the enemy's speed; one level adds one, and a `u32` score reaches
/// fewer levels than this.
pub const MAX_VELOCITY: i32 = 0x800_0000;

/// Least bullet diameter; a random offset of up to four is added.
pub const MIN_BULLET_SIZE: u32 = 5;

/// Spawn points closer than this, on both axes, to the newest bullet are skipped.
pub const SPAWN_GAP: i32 = 5;

/// The enemy ship: it bounces vertically and fires bullets that fly left.
pub struct Enemy {
    /// Top-left corner of the sprite.
    pub x: i32,
    pub y: i32,
    pub velocity: i32,
    pub screen_height: i32,
    pub bullets: Queue<Rect, 5>,
    pub bullet_velocity: i32,
    /// How many bullets may be in flight at the current level.
    pub max_bullet: usize,
}

pub open spec fn abs(a: int) -> int {
    if a < 0 {
        -a
    } else {
        a
    }
}

/// An enemy bullet (the bounding box of a circle) within the arithmetic's range.
pub open spec fn enemy_shot_ok(b: Rect) -> bool {
    &&& b.width == b.height
    &&& MIN_BULLET_SIZE <= b.width <= MIN_BULLET_SIZE + 4
    &&& -64 <= b.x <= MAX_SCREEN
    &&& -FIELD <= b.y <= FIELD + ENEMY_SIZE
}

/// Bullets `s` after each moved horizontally by `dx`; those whose left edge is
/// then at or left of the screen's edge are dropped. Order is kept.
pub open spec fn advance_left(s: Seq<Rect>, dx: int) -> Seq<Rect>
    decreases s.len(),
{
    if s.len() == 0 {
        seq![]
    } else {
        let prev = advance_left(s.drop_last(), dx);
        let b = translate_x(s.last(), dx);
        if b.x <= 0 {
            prev
        } else {
            prev.push(b)
        }
    }
}

/// The candidate bullet lies within the spawn gap of `last` on both axes.
pub open spec fn too_close(candidate: Rect, last: Rect) -> bool {
    abs(candidate.x - last.x) < SPAWN_GAP && abs(candidate.y - last.y) < SPAWN_GAP
}

/// Whether a shot with `candidate` is refused: the queue is full, the level's
/// limit is reached, or the newest bullet is too close to the spawn point.
pub open spec fn shot_blocked(shots: Seq<Rect>, max_bullet: int, candidate: Rect) -> bool {
    ||| shots.len() >= MAX_ENEMY_BULLETS
    ||| shots.len() >= max_bullet
    ||| (shots.len() > 0 && too_close(candidate, shots.last()))
}

/// The bullets after an attempted shot with `candidate`.
pub open spec fn after_shot(shots: Seq<Rect>, max_bullet: int, candidate: Rect) -> Seq<Rect> {
    if shot_blocked(shots, max_bullet, candidate) {
        shots
    } else {
        shots.push(candidate)
    }
}

/// Diameter of a bullet drawn with random value `draw`.
pub open spec fn bullet_size(draw: u32) -> u32 {
    (MIN_BULLET_SIZE + draw % 5) as u32
}

/// Next top row and velocity: move by `v`; if that leaves `[0, max_y)`, reverse
/// the velocity and move by the reversed value instead, once.
pub open spec fn bounce(y: int, v: int, max_y: int) -> (int, int) {
    if y + v < 0 || y + v >= max_y {
        (y - v, -v)
    } else {
        (y + v, v)
    }
}

impl Enemy {
    pub open spec fn shots(&self) -> Seq<Rect> {
        enemy_shots(self.bullets)
    }

    /// The sprite's footprint.
    pub open spec fn body(&self) -> Rect {
        Rect { x: self.x, y: self.y, width: ENEMY_SIZE, height: ENEMY_SIZE }
    }

    /// Lowest row (exclusive) the sprite's top edge moves within.
    pub open spec fn max_y(&self) -> int {
        self.screen_height - ENEMY_SIZE
    }

    /// A bullet of diameter `size` at the spawn point: one sprite width left of
    /// the sprite, half way down.
    pub open spec fn spawn(&self, size: u32) -> Rect {
        Rect {
            x: (self.x - ENEMY_SIZE) as i32,
            y: (self.y + ENEMY_SIZE / 2) as i32,
            width: size,
            height: size,
        }
    }

    /// Position, speed and bullets are in range; the row lies within twice the
    /// speed of the band the enemy bounces in; the bullet limit is between one
    /// and the queue's capacity.
    pub open spec fn wf(&self) -> bool {
        &&& ENEMY_SIZE <= self.screen_height <= MAX_SCREEN
        &&& -36 <= self.x <= MAX_SCREEN
        &&& -FIELD <= self.y <= FIELD
        &&& self.velocity != 0
        &&& -MAX_VELOCITY <= self.velocity <= MAX_VELOCITY
        &&& self.velocity > 0 ==> -self.velocity <= self.y < self.max_y() + 2 * self.velocity
        &&& self.velocity < 0 ==> 2 * self.velocity <= self.y < self.max_y() - self.velocity
        &&& self.bullet_velocity == INITIAL_BULLET_VELOCITY
        &&& 1 <= self.max_bullet <= MAX_ENEMY_BULLETS
        &&& self.shots().len() <= ENEMY_SHOT_CAPACITY
        &&& forall|i: int| 0 <= i < self.shots().len() ==> enemy_shot_ok(#[trigger] self.shots()[i])
    }

    /// An enemy at the right of the screen, centred vertically, at the first
    /// level and with no bullets.
    pub fn new(screen_width: i32, screen_height: i32) -> (r: Enemy)
        requires
            screen_ok(screen_width, screen_height),
        ensures
            r.wf(),
            r.x == screen_width - ENEMY_SIZE * 15 / 10,
            r.y == screen_height / 2 - ENEMY_SIZE / 2,
            r.screen_height == screen_height,
            r.velocity == INITIAL_ENEMY_VELOCITY,
            r.max_bullet == 1,
            r.shots() == Seq::<Rect>::empty(),
    {
        let x = screen_width - (ENEMY_SIZE * 15 / 10) as i32;
        let y = screen_height / 2 - ENEMY_SIZE as i32 / 2;
        Enemy {
            x,
            y,
            velocity: INITIAL_ENEMY_VELOCITY,
            screen_height,
            bullets: enemy_queue_new(),
            bullet_velocity: INITIAL_BULLET_VELOCITY,
            max_bullet: 1,
        }
    }

    /// One level up: one more bullet allowed (up to the queue's capacity), and
    /// one more unit of speed in the current direction.
    pub fn increase_level(&mut self)
        requires
            old(self).wf(),
            -MAX_VELOCITY < old(self).velocity < MAX_VELOCITY,
        ensures
            final(self).wf(),
            final(self).max_bullet == if old(self).max_bullet + 1 < MAX_ENEMY_BULLETS {
                old(self).max_bullet + 1
            } else {
                MAX_ENEMY_BULLETS as int
            },
            final(self).velocity == if old(self).velocity < 0 {
                old(self).velocity - 1
            } else {
                old(self).velocity + 1
            },
            final(self).y == old(self).y,
            final(self).x == old(self).x,
            final(self).screen_height == old(self).screen_height,
            final(self).shots() == old(self).shots(),
    {
        let next = self.max_bullet + 1;
        self.max_bullet = if next < MAX_ENEMY_BULLETS {
            next
        } else {
            MAX_ENEMY_BULLETS
        };
        self.velocity = self.velocity + if self.velocity < 0 {
            -1i32
        } else {
            1i32
        };
    }

    /// One tick: bounce, advance the bullets, then shoot when `fire_draw` is even,
    /// with a bullet of diameter `5 + size_draw % 5`.
    pub fn update(&mut self, fire_draw: u32, size_draw: u32)
        requires
            old(self).wf(),
        ensures
            final(self).wf(),
            (final(self).y as int, final(self).velocity as int) == bounce(
                old(self).y as int,
                old(self).velocity as int,
                old(self).max_y(),
            ),
            final(self).shots() == if fire_draw % 2 == 0 {
                after_shot(
                    advance_left(old(self).shots(), INITIAL_BULLET_VELOCITY as int),
                    old(self).max_bullet as int,
                    final(self).spawn(bullet_size(size_draw)),
                )
            } else {
                advance_left(old(self).shots(), INITIAL_BULLET_VELOCITY as int)
            },
            final(self).x == old(self).x,
            final(self).screen_height == old(self).screen_height,
            final(self).max_bullet == old(self).max_bullet,
    {
        self.update_position();
        self.update_bullet();
        if fire_draw % 2 == 0 {
            self.shoot(size_draw);
        }
    }

    pub fn update_position(&mut self)
        requires
            old(self).wf(),
        ensures
            final(self).wf(),
            (final(self).y as int, final(self).velocity as int) == bounce(
                old(self).y as int,
                old(self).velocity as int,
                old(self).max_y(),
            ),
            final(self).x == old(self).x,
            final(self).screen_height == old(self).screen_height,
            final(self).max_bullet == old(self).max_bullet,
            final(self).shots() == old(self).shots(),
    {
        let y = self.y;
        let mut new_y = y + self.velocity;
        let max_bound = self.screen_height - ENEMY_SIZE as i32;
        if new_y < 0 || new_y >= max_bound {
            self.velocity = -self.velocity;
            new_y = y + self.velocity;
        }
        self.y = new_y;
    }

    /// Fires a bullet of diameter `5 + draw % 5` from the spawn point, unless the
    /// queue is full, the level's limit is reached, or the newest bullet lies
    /// within the spawn gap of the spawn point.
    pub fn shoot(&mut self, draw: u32)
        requires
            old(self).wf(),
        ensures
            final(self).wf(),
            final(self).shots() == after_shot(
                old(self).shots(),
                old(self).max_bullet as int,
                old(self).spawn(bullet_size(draw)),
            ),
            final(self).y == old(self).y,
            final(self).velocity == old(self).velocity,
            final(self).x == old(self).x,
            final(self).screen_height == old(self).screen_height,
            final(self).max_bullet == old(self).max_bullet,
    {
        if enemy_queue_is_full(&self.bullets) || enemy_queue_len(&self.bullets) >= self.max_bullet {
            return;
        }
        let spawn_x = self.x - ENEMY_SIZE as i32;
        let spawn_y = self.y + ENEMY_SIZE as i32 / 2;
        if let Some(last) = enemy_queue_newest(&self.bullets) {
            let dx = if spawn_x >= last.x {
                spawn_x - last.x
            } else {
                last.x - spawn_x
            };
            let dy = if spawn_y >= last.y {
                spawn_y - last.y
            } else {
                last.y - spawn_y
            };
            if dx < SPAWN_GAP && dy < SPAWN_GAP {
                return;
            }
        }
        let bullet_size = MIN_BULLET_SIZE + draw % 5;
        let bullet = Rect { x: spawn_x, y: spawn_y, width: bullet_size, height: bullet_size };
        let ghost before = self.shots();
        let _ = enemy_queue_enqueue(&mut self.bullets, bullet);
        proof {
            assert forall|i: int| 0 <= i < self.shots().len() implies enemy_shot_ok(
                #[trigger] self.shots()[i],
            ) by {
                if i < before.len() {
                    assert(self.shots()[i] == before[i]);
                }
            }
        }
    }

    fn update_bullet(&mut self)
        requires
            old(self).wf(),
        ensures
            final(self).wf(),
            final(self).shots() == advance_left(old(self).shots(), INITIAL_BULLET_VELOCITY as int),
            final(self).y == old(self).y,
            final(self).velocity == old(self).velocity,
            final(self).x == old(self).x,
            final(self).screen_height == old(self).screen_height,
            final(self).max_bullet == old(self).max_bullet,
    {
        let ghost orig = self.shots();
        let mut new_queue = enemy_queue_new();
        let n = enemy_queue_len(&self.bullets);
        let mut k: usize = 0;
        while k < n
            invariant
                self.wf(),
                n == orig.len(),
                n <= ENEMY_SHOT_CAPACITY,
                k <= n,
                self.shots() == orig.subrange(k as int, orig.len() as int),
                enemy_shots(new_queue) == advance_left(
                    orig.subrange(0, k as int),
                    INITIAL_BULLET_VELOCITY as int,
                ),
                enemy_shots(new_queue).len() <= k,
                forall|i: int|
                    0 <= i < enemy_shots(new_queue).len() ==> enemy_shot_ok(
                        #[trigger] enemy_shots(new_queue)[i],
                    ),
                self.y == old(self).y,
                self.velocity == old(self).velocity,
                self.x == old(self).x,
                self.screen_height == old(self).screen_height,
                self.max_bullet == old(self).max_bullet,
                orig == old(self).shots(),
            decreases n - k,
        {
            proof {
                assert(self.shots()[0] == orig[k as int]);
            }
            let bullet = match enemy_queue_dequeue(&mut self.bullets) {
                Some(b) => b,
                None => unreached(),
            };
            proof {
                assert(orig.subrange(0, k + 1).drop_last() =~= orig.subrange(0, k as int));
                assert(self.shots() =~= orig.subrange(k + 1, orig.len() as int));
                assert(enemy_shot_ok(bullet));
            }
            let moved = Rect { x: bullet.x + self.bullet_velocity, ..bullet };
            k = k + 1;
            if moved.x > 0 {
                let ghost before = enemy_shots(new_queue);
                let _ = enemy_queue_enqueue(&mut new_queue, moved);
                proof {
                    assert forall|i: int| 0 <= i < enemy_shots(new_queue).len() implies enemy_shot_ok(
                        #[trigger] enemy_shots(new_queue)[i],
                    ) by {
                        if i < before.len() {
                            assert(enemy_shots(new_queue)[i] == before[i]);
                        }
                    }
                }
            }
        }
        proof {
            assert(orig.subrange(0, n as int) =~= orig);
        }
        self.bullets = new_queue;
    }
}

} // verus!
