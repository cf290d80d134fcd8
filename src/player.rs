use crate::geometry::{screen_ok, translate_x, Rect, MAX_SCREEN};
use crate::shots::{
    enqueue_model, player_queue_dequeue, player_queue_enqueue, player_queue_is_full,
    player_queue_len, player_queue_new, player_shots, PLAYER_SHOT_CAPACITY,
};
use heapless::spsc::Queue;
use vstd::prelude::*;

verus! {

/// The direction the stick points at, as published by the input sampler.
#[derive(Clone, Copy, Debug, PartialEq, Eq, Structural)]
pub enum PlayerDirection {
    Up,
    Down,
    Idle,
}

pub const PLAYER_LIVES: u8 = 3;

/// Side of the player's square sprite.
pub const PLAYER_SIZE: u32 = 16;

/// Column of the player's left edge; the player only moves vertically.
pub const PLAYER_X: i32 = 10;

/// Margin kept between the player and the top and bottom of the screen.
pub const BOUND_PAD: i32 = 5;

pub const BULLET_WIDTH: u32 = 5;

pub const BULLET_HEIGHT: u32 = 2;

pub const INITIAL_BULLET_SPEED: i32 = 3;

pub const INITIAL_PLAYER_SPEED: i32 = 3;

/// The player's ship, its lives and its bullets.
pub struct Player {
    pub screen_width: i32,
    pub screen_height: i32,
    /// Top-left corner of the sprite.
    pub x: i32,
    pub y: i32,
    pub speed: i32,
    pub lives: u8,
    pub bullets: Queue<Rect, 2>,
    pub bullet_speed: i32,
}

/// A player bullet as the player fires it, anywhere within the arithmetic's range.
pub open spec fn player_shot_ok(b: Rect) -> bool {
    &&& b.width == BULLET_WIDTH
    &&& b.height == BULLET_HEIGHT
    &&& 0 <= b.x <= MAX_SCREEN + PLAYER_X + PLAYER_SIZE
    &&& 0 <= b.y <= MAX_SCREEN
}

/// Bullets `s` after each moved right by `dx`; those whose left edge is then past
/// `limit` are dropped. Order is kept.
pub open spec fn advance_right(s: Seq<Rect>, dx: int, limit: int) -> Seq<Rect>
    decreases s.len(),
{
    if s.len() == 0 {
        seq![]
    } else {
        let prev = advance_right(s.drop_last(), dx, limit);
        let b = translate_x(s.last(), dx);
        if b.x > limit {
            prev
        } else {
            prev.push(b)
        }
    }
}

impl Player {
    /// Lowest row the sprite's top edge may reach.
    pub open spec fn max_y(&self) -> int {
        self.screen_height - BOUND_PAD - PLAYER_SIZE
    }

    pub open spec fn shots(&self) -> Seq<Rect> {
        player_shots(self.bullets)
    }

    /// The sprite's footprint.
    pub open spec fn body(&self) -> Rect {
        Rect { x: self.x, y: self.y, width: PLAYER_SIZE, height: PLAYER_SIZE }
    }

    /// The player keeps its column, speeds and margins, has at most full lives,
    /// and its bullets are in range.
    pub open spec fn wf(&self) -> bool {
        &&& screen_ok(self.screen_width, self.screen_height)
        &&& self.x == PLAYER_X
        &&& self.speed == INITIAL_PLAYER_SPEED
        &&& self.bullet_speed == INITIAL_BULLET_SPEED
        &&& BOUND_PAD <= self.y <= self.max_y()
        &&& self.lives <= PLAYER_LIVES
        &&& self.shots().len() <= PLAYER_SHOT_CAPACITY
        &&& forall|i: int| 0 <= i < self.shots().len() ==> player_shot_ok(#[trigger] self.shots()[i])
    }

    /// Where the next bullet appears: at the sprite's right edge, half way down.
    pub open spec fn spawn(&self) -> Rect {
        Rect {
            x: (self.x + PLAYER_SIZE) as i32,
            y: (self.y + PLAYER_SIZE / 2) as i32,
            width: BULLET_WIDTH,
            height: BULLET_HEIGHT,
        }
    }

    /// A player centred vertically at the left of the screen, with full lives
    /// and no bullets.
    pub fn new(screen_width: i32, screen_height: i32) -> (r: Player)
        requires
            screen_ok(screen_width, screen_height),
        ensures
            r.wf(),
            r.screen_width == screen_width,
            r.screen_height == screen_height,
            r.y == screen_height / 2 - PLAYER_SIZE / 2,
            r.lives == PLAYER_LIVES,
            r.shots() == Seq::<Rect>::empty(),
    {
        let x: i32 = PLAYER_X;
        let y: i32 = screen_height / 2 - PLAYER_SIZE as i32 / 2;
        Player {
            screen_width,
            screen_height,
            x,
            y,
            speed: INITIAL_PLAYER_SPEED,
            lives: PLAYER_LIVES,
            bullets: player_queue_new(),
            bullet_speed: INITIAL_BULLET_SPEED,
        }
    }

    /// Moves the sprite, then the bullets.
    pub fn update(&mut self, direction: PlayerDirection)
        requires
            old(self).wf(),
        ensures
            final(self).wf(),
            BOUND_PAD <= final(self).y <= final(self).max_y(),
            final(self).y == next_y(old(self).y as int, direction, old(self).max_y()),
            final(self).shots() == advance_right(
                old(self).shots(),
                INITIAL_BULLET_SPEED as int,
                old(self).screen_width as int,
            ),
            final(self).lives == old(self).lives,
            final(self).screen_width == old(self).screen_width,
            final(self).screen_height == old(self).screen_height,
    {
        self.update_position(direction);
        self.update_bullet();
    }

    fn update_position(&mut self, direction: PlayerDirection)
        requires
            old(self).wf(),
        ensures
            final(self).wf(),
            final(self).y == next_y(old(self).y as int, direction, old(self).max_y()),
            final(self).shots() == old(self).shots(),
            final(self).lives == old(self).lives,
            final(self).screen_width == old(self).screen_width,
            final(self).screen_height == old(self).screen_height,
    {
        let y = self.y;
        let bound_pad: i32 = BOUND_PAD;
        let max_bound = self.screen_height - bound_pad - PLAYER_SIZE as i32;
        let new_y = match direction {
            PlayerDirection::Idle => y,
            PlayerDirection::Up => {
                let up = y - self.speed;
                if up > bound_pad {
                    up
                } else {
                    bound_pad
                }
            },
            PlayerDirection::Down => {
                let down = y + self.speed;
                if down < max_bound {
                    down
                } else {
                    max_bound
                }
            },
        };
        self.y = new_y;
    }

    fn update_bullet(&mut self)
        requires
            old(self).wf(),
        ensures
            final(self).wf(),
            final(self).shots() == advance_right(
                old(self).shots(),
                INITIAL_BULLET_SPEED as int,
                old(self).screen_width as int,
            ),
            final(self).y == old(self).y,
            final(self).lives == old(self).lives,
            final(self).screen_width == old(self).screen_width,
            final(self).screen_height == old(self).screen_height,
    {
        let ghost orig = self.shots();
        let ghost limit = self.screen_width as int;
        let mut new_queue = player_queue_new();
        let n = player_queue_len(&self.bullets);
        let mut k: usize = 0;
        while k < n
            invariant
                self.wf(),
                n == orig.len(),
                n <= PLAYER_SHOT_CAPACITY,
                k <= n,
                self.shots() == orig.subrange(k as int, orig.len() as int),
                player_shots(new_queue) == advance_right(
                    orig.subrange(0, k as int),
                    INITIAL_BULLET_SPEED as int,
                    limit,
                ),
                player_shots(new_queue).len() <= k,
                forall|i: int|
                    0 <= i < player_shots(new_queue).len() ==> player_shot_ok(
                        #[trigger] player_shots(new_queue)[i],
                    ),
                self.screen_width == limit,
                self.y == old(self).y,
                self.lives == old(self).lives,
                self.screen_width == old(self).screen_width,
                self.screen_height == old(self).screen_height,
                orig == old(self).shots(),
            decreases n - k,
        {
            proof {
                assert(self.shots()[0] == orig[k as int]);
            }
            let bullet = match player_queue_dequeue(&mut self.bullets) {
                Some(b) => b,
                None => unreached(),
            };
            proof {
                assert(orig.subrange(0, k + 1).drop_last() =~= orig.subrange(0, k as int));
                assert(self.shots() =~= orig.subrange(k + 1, orig.len() as int));
                assert(player_shot_ok(bullet));
            }
            let moved = Rect { x: bullet.x + self.bullet_speed, ..bullet };
            k = k + 1;
            if moved.x <= self.screen_width {
                let ghost before = player_shots(new_queue);
                let _ = player_queue_enqueue(&mut new_queue, moved);
                proof {
                    assert(player_shots(new_queue) == before.push(moved));
                    assert forall|i: int| 0 <= i < player_shots(new_queue).len() implies player_shot_ok(
                        #[trigger] player_shots(new_queue)[i],
                    ) by {
                        if i < before.len() {
                            assert(player_shots(new_queue)[i] == before[i]);
                        }
                    }
                }
            }
        }
        proof {
            assert(orig.subrange(0, n as int) =~= orig);
        }
        self.bullets = new_queue;
    }

    /// Fires a bullet from the sprite's right edge unless the queue is full.
    /// Returns whether a bullet was fired.
    pub fn shoot(&mut self) -> (fired: bool)
        requires
            old(self).wf(),
        ensures
            final(self).wf(),
            fired == (old(self).shots().len() < PLAYER_SHOT_CAPACITY),
            final(self).shots() == enqueue_model(
                old(self).shots(),
                PLAYER_SHOT_CAPACITY as nat,
                old(self).spawn(),
            ),
            final(self).y == old(self).y,
            final(self).lives == old(self).lives,
            final(self).screen_width == old(self).screen_width,
            final(self).screen_height == old(self).screen_height,
    {
        if player_queue_is_full(&self.bullets) {
            return false;
        }
        let bullet = Rect {
            x: self.x + PLAYER_SIZE as i32,
            y: self.y + PLAYER_SIZE as i32 / 2,
            width: BULLET_WIDTH,
            height: BULLET_HEIGHT,
        };
        let ghost before = self.shots();
        let _ = player_queue_enqueue(&mut self.bullets, bullet);
        proof {
            assert forall|i: int| 0 <= i < self.shots().len() implies player_shot_ok(
                #[trigger] self.shots()[i],
            ) by {
                if i < before.len() {
                    assert(self.shots()[i] == before[i]);
                }
            }
        }
        true
    }
}

/// The sprite's next top row: `Up` and `Down` move by the player's speed and stop
/// at the margins, `Idle` stays.
pub open spec fn next_y(y: int, direction: PlayerDirection, max_y: int) -> int {
    match direction {
        PlayerDirection::Idle => y,
        PlayerDirection::Up => if y - INITIAL_PLAYER_SPEED > BOUND_PAD {
            y - INITIAL_PLAYER_SPEED
        } else {
            BOUND_PAD as int
        },
        PlayerDirection::Down => if y + INITIAL_PLAYER_SPEED < max_y {
            y + INITIAL_PLAYER_SPEED
        } else {
            max_y
        },
    }
}

/// Whatever the direction, a well-formed player stays between its margins.
pub proof fn lemma_next_y_in_bounds(p: Player, direction: PlayerDirection)
    requires
        p.wf(),
    ensures
        BOUND_PAD <= next_y(p.y as int, direction, p.max_y()) <= p.max_y(),
{
}

} // verus!
