//! The top-down shooter variant: enemies fall from random columns on a
//! fixed cadence, the player fires bullets upward, and every frame the
//! crashing enemy/bullet pairs are scored and removed. Entities carry
//! random identifiers and removal is by identifier, so a stale
//! identifier list removes nothing twice.

use vstd::prelude::*;
use crate::geometry::Position;
use crate::random::fresh_id;
use crate::random::random_in_range;

verus! {

/// Square body size shared by player, enemies and bullets.
pub const PLAYER_SIZE: i32 = 80;

/// A new enemy is created once every this many update ticks.
pub const ENEMY_EVERY: usize = 10;

pub const ENEMY_STEP: i32 = 1;

pub const PLAYER_STEP: i32 = 5;

pub const BULLET_STEP: i32 = 5;

/// A positioned entity with a random identifier. The visual handle the
/// renderer needs is owned by the surrounding program's asset table and
/// looked up by kind, not stored here.
#[derive(Clone, Copy, PartialEq, Eq, Structural, Debug)]
pub struct GameObject {
    pub id: u128,
    pub pos: Position,
}

impl GameObject {
    pub fn mov_down(&mut self, step: i32)
        ensures
            final(self).pos.y as int == crate::motion::sat_i32(old(self).pos.y + step),
            final(self).pos.x == old(self).pos.x,
            final(self).id == old(self).id,
    {
        self.pos.add(0, step);
    }

    pub fn mov_up(&mut self, step: i32)
        ensures
            final(self).pos.y as int == crate::motion::sat_i32(old(self).pos.y - step),
            final(self).pos.x == old(self).pos.x,
            final(self).id == old(self).id,
    {
        self.pos.y = crate::motion::step_coord(self.pos.y, -1, step);
    }

    pub fn mov_left(&mut self, step: i32)
        ensures
            final(self).pos.x as int == crate::motion::sat_i32(old(self).pos.x - step),
            final(self).pos.y == old(self).pos.y,
            final(self).id == old(self).id,
    {
        self.pos.x = crate::motion::step_coord(self.pos.x, -1, step);
    }

    pub fn mov_right(&mut self, step: i32)
        ensures
            final(self).pos.x as int == crate::motion::sat_i32(old(self).pos.x + step),
            final(self).pos.y == old(self).pos.y,
            final(self).id == old(self).id,
    {
        self.pos.x = crate::motion::step_coord(self.pos.x, 1, step);
    }
}

/// An enemy/bullet pair crashes when their two equal square bodies
/// overlap on both axes, borders included.
pub open spec fn spec_is_crash(enemy: GameObject, bullet: GameObject) -> bool {
    &&& enemy.pos.y <= bullet.pos.y + PLAYER_SIZE
    &&& bullet.pos.y <= enemy.pos.y + PLAYER_SIZE
    &&& enemy.pos.x <= bullet.pos.x + PLAYER_SIZE
    &&& bullet.pos.x <= enemy.pos.x + PLAYER_SIZE
}

/// Overlap reflexivity at this collision test: two coincident
/// non-degenerate bodies crash.
pub proof fn lemma_is_crash_coincident(enemy: GameObject, bullet: GameObject)
    requires
        enemy.pos == bullet.pos,
    ensures
        spec_is_crash(enemy, bullet),
{
}

/// Overlap symmetry at this collision test: the answer does not depend
/// on which of the two equal squares is the enemy.
pub proof fn lemma_is_crash_symmetric(a: GameObject, b: GameObject)
    ensures
        spec_is_crash(a, b) == spec_is_crash(b, a),
{
}

/// Whether the identifier list names `id`.
pub open spec fn spec_has_id(ids: Seq<u128>, id: u128) -> bool {
    exists|j: int| 0 <= j < ids.len() && ids[j] == id
}

/// The entities whose identifier the list does not name, in order.
pub open spec fn spec_remove_ids(s: Seq<GameObject>, ids: Seq<u128>) -> Seq<GameObject>
    decreases s.len(),
{
    if s.len() == 0 {
        s
    } else {
        let init = spec_remove_ids(s.drop_last(), ids);
        if spec_has_id(ids, s.last().id) {
            init
        } else {
            init.push(s.last())
        }
    }
}

/// Whether some crashing pair involves an enemy with this identifier.
pub open spec fn spec_enemy_id_crashed(es: Seq<GameObject>, bs: Seq<GameObject>, id: u128) -> bool {
    exists|k: int, j: int|
        0 <= k < es.len() && 0 <= j < bs.len() && spec_is_crash(es[k], bs[j]) && es[k].id == id
}

/// Whether some crashing pair involves a bullet with this identifier.
pub open spec fn spec_bullet_id_crashed(es: Seq<GameObject>, bs: Seq<GameObject>, id: u128) -> bool {
    exists|k: int, j: int|
        0 <= k < es.len() && 0 <= j < bs.len() && spec_is_crash(es[k], bs[j]) && bs[j].id == id
}

/// The enemies that took part in no crashing pair, in order.
pub open spec fn spec_remove_crashed_enemies(
    s: Seq<GameObject>,
    es: Seq<GameObject>,
    bs: Seq<GameObject>,
) -> Seq<GameObject>
    decreases s.len(),
{
    if s.len() == 0 {
        s
    } else {
        let init = spec_remove_crashed_enemies(s.drop_last(), es, bs);
        if spec_enemy_id_crashed(es, bs, s.last().id) {
            init
        } else {
            init.push(s.last())
        }
    }
}

/// The bullets that took part in no crashing pair, in order.
pub open spec fn spec_remove_crashed_bullets(
    s: Seq<GameObject>,
    es: Seq<GameObject>,
    bs: Seq<GameObject>,
) -> Seq<GameObject>
    decreases s.len(),
{
    if s.len() == 0 {
        s
    } else {
        let init = spec_remove_crashed_bullets(s.drop_last(), es, bs);
        if spec_bullet_id_crashed(es, bs, s.last().id) {
            init
        } else {
            init.push(s.last())
        }
    }
}

/// A removal pass never grows the list.
proof fn lemma_remove_ids_len(s: Seq<GameObject>, ids: Seq<u128>)
    ensures
        spec_remove_ids(s, ids).len() <= s.len(),
    decreases s.len(),
{
    if s.len() > 0 {
        lemma_remove_ids_len(s.drop_last(), ids);
    }
}

/// An identifier list that names exactly the crashed enemy identifiers
/// removes exactly the crashed enemies.
proof fn lemma_remove_crashed_enemies_eq(
    s: Seq<GameObject>,
    ids: Seq<u128>,
    es: Seq<GameObject>,
    bs: Seq<GameObject>,
)
    requires
        forall|id: u128| #[trigger] spec_has_id(ids, id) == spec_enemy_id_crashed(es, bs, id),
    ensures
        spec_remove_ids(s, ids) == spec_remove_crashed_enemies(s, es, bs),
    decreases s.len(),
{
    if s.len() > 0 {
        lemma_remove_crashed_enemies_eq(s.drop_last(), ids, es, bs);
        assert(spec_has_id(ids, s.last().id) == spec_enemy_id_crashed(es, bs, s.last().id));
        assert(spec_remove_ids(s, ids) =~= spec_remove_crashed_enemies(s, es, bs));
    } else {
        assert(spec_remove_ids(s, ids) =~= spec_remove_crashed_enemies(s, es, bs));
    }
}

/// An identifier list that names exactly the crashed bullet identifiers
/// removes exactly the crashed bullets.
proof fn lemma_remove_crashed_bullets_eq(
    s: Seq<GameObject>,
    ids: Seq<u128>,
    es: Seq<GameObject>,
    bs: Seq<GameObject>,
)
    requires
        forall|id: u128| #[trigger] spec_has_id(ids, id) == spec_bullet_id_crashed(es, bs, id),
    ensures
        spec_remove_ids(s, ids) == spec_remove_crashed_bullets(s, es, bs),
    decreases s.len(),
{
    if s.len() > 0 {
        lemma_remove_crashed_bullets_eq(s.drop_last(), ids, es, bs);
        assert(spec_has_id(ids, s.last().id) == spec_bullet_id_crashed(es, bs, s.last().id));
        assert(spec_remove_ids(s, ids) =~= spec_remove_crashed_bullets(s, es, bs));
    } else {
        assert(spec_remove_ids(s, ids) =~= spec_remove_crashed_bullets(s, es, bs));
    }
}

/// Appending an identifier keeps every name the list already had, and
/// adds the appended one.
proof fn lemma_has_id_push(ids: Seq<u128>, x: u128)
    ensures
        forall|y: u128| spec_has_id(ids, y) ==> #[trigger] spec_has_id(ids.push(x), y),
        spec_has_id(ids.push(x), x),
        forall|y: u128| #[trigger] spec_has_id(ids.push(x), y) ==> spec_has_id(ids, y) || y == x,
{
    assert forall|y: u128| spec_has_id(ids, y) implies #[trigger] spec_has_id(ids.push(x), y) by {
        let j = choose|j: int| 0 <= j < ids.len() && ids[j] == y;
        assert(ids.push(x)[j] == y);
    }
    assert(ids.push(x)[ids.len() as int] == x);
    assert forall|y: u128| #[trigger] spec_has_id(ids.push(x), y) implies spec_has_id(ids, y) || y
        == x by {
        let j = choose|j: int| 0 <= j < ids.push(x).len() && ids.push(x)[j] == y;
        if j < ids.len() {
            assert(ids[j] == y);
        }
    }
}

/// Removing by identifier is idempotent: nothing the first pass kept
/// is named by the list, so a second pass with the same list keeps
/// everything.
pub proof fn lemma_remove_ids_idempotent(s: Seq<GameObject>, ids: Seq<u128>)
    ensures
        spec_remove_ids(spec_remove_ids(s, ids), ids) == spec_remove_ids(s, ids),
{
    lemma_remove_ids_spares(s, ids);
    lemma_remove_ids_absent(spec_remove_ids(s, ids), ids);
}

/// Every entity a removal pass keeps escapes the identifier list.
proof fn lemma_remove_ids_spares(s: Seq<GameObject>, ids: Seq<u128>)
    ensures
        forall|i: int|
            0 <= i < spec_remove_ids(s, ids).len() ==> !spec_has_id(
                ids,
                #[trigger] spec_remove_ids(s, ids)[i].id,
            ),
    decreases s.len(),
{
    if s.len() > 0 {
        lemma_remove_ids_spares(s.drop_last(), ids);
        let init = spec_remove_ids(s.drop_last(), ids);
        if !spec_has_id(ids, s.last().id) {
            assert(spec_remove_ids(s, ids) == init.push(s.last()));
            assert forall|i: int| 0 <= i < spec_remove_ids(s, ids).len() implies !spec_has_id(
                ids,
                spec_remove_ids(s, ids)[i].id,
            ) by {
                if i < init.len() {
                    assert(spec_remove_ids(s, ids)[i] == init[i]);
                } else {
                    assert(spec_remove_ids(s, ids)[i] == s.last());
                }
            }
        }
    }
}

/// A removal pass over a list none of whose identifiers are named
/// leaves the list unchanged.
proof fn lemma_remove_ids_absent(s: Seq<GameObject>, ids: Seq<u128>)
    requires
        forall|i: int| 0 <= i < s.len() ==> !spec_has_id(ids, #[trigger] s[i].id),
    ensures
        spec_remove_ids(s, ids) == s,
    decreases s.len(),
{
    if s.len() > 0 {
        lemma_remove_ids_absent(s.drop_last(), ids);
        assert(spec_remove_ids(s, ids) =~= s);
    } else {
        assert(spec_remove_ids(s, ids) =~= s);
    }
}

pub struct Domination {
    pub width: i32,
    pub height: i32,
    pub enemies: Vec<GameObject>,
    pub player: GameObject,
    pub bullets: Vec<GameObject>,
    pub last_enemy: usize,
    pub score: usize,
}

/// The spawn counter stays below its period between updates and the
/// field has a positive width.
pub open spec fn game_wf(g: Domination) -> bool {
    1 <= g.width && g.last_enemy < ENEMY_EVERY
}

impl Domination {
    /// A fresh game on a field of the given size: the player stands on
    /// the lower edge, mid-field, and no enemy or bullet exists yet.
    pub fn new(width: i32, height: i32) -> (g: Domination)
        requires
            1 <= width,
        ensures
            game_wf(g),
            g.width == width,
            g.height == height,
            g.player.pos.x == width / 2,
            g.player.pos.y as int == crate::motion::sat_i32(height - 100),
            g.enemies@.len() == 0,
            g.bullets@.len() == 0,
            g.last_enemy == 0,
            g.score == 0,
    {
        Domination {
            width,
            height,
            enemies: Vec::new(),
            bullets: Vec::new(),
            player: Domination::create_player(width, height),
            last_enemy: 0,
            score: 0,
        }
    }

    /// The player's starting entity, on the lower edge at mid-width.
    pub fn create_player(width: i32, height: i32) -> (p: GameObject)
        requires
            1 <= width,
        ensures
            p.pos.x == width / 2,
            p.pos.y as int == crate::motion::sat_i32(height - 100),
    {
        let x = width / 2;
        let y = crate::motion::step_coord(height, -1, 100);
        GameObject { id: fresh_id(), pos: Position { x, y } }
    }

    /// A fresh enemy on the top band, in a random column.
    pub fn create_enemy(&self) -> (e: GameObject)
        requires
            1 <= self.width,
        ensures
            0 <= e.pos.x < self.width,
            e.pos.y == 10,
    {
        let x = random_in_range(0, self.width as i64) as i32;
        GameObject { id: fresh_id(), pos: Position { x, y: 10 } }
    }

    /// A fresh bullet just above the player.
    pub fn create_bullet(&self) -> (b: GameObject)
        ensures
            b.pos.x == self.player.pos.x,
            b.pos.y as int == crate::motion::sat_i32(self.player.pos.y - 50),
    {
        let x = self.player.pos.x;
        let y = crate::motion::step_coord(self.player.pos.y, -1, 50);
        GameObject { id: fresh_id(), pos: Position { x, y } }
    }

    pub fn add_enemy(&mut self)
        requires
            1 <= old(self).width,
        ensures
            final(self).enemies@.len() == old(self).enemies@.len() + 1,
            final(self).enemies@.subrange(0, old(self).enemies@.len() as int) == old(self).enemies@,
            final(self).enemies@.last().pos.y == 10,
            0 <= final(self).enemies@.last().pos.x < old(self).width,
            final(self).bullets@ == old(self).bullets@,
            final(self).player == old(self).player,
            final(self).last_enemy == old(self).last_enemy,
            final(self).score == old(self).score,
            final(self).width == old(self).width,
            final(self).height == old(self).height,
    {
        let enemy = self.create_enemy();
        self.enemies.push(enemy);
        proof {
            assert(self.enemies@.subrange(0, old(self).enemies@.len() as int) =~= old(
                self,
            ).enemies@);
        }
    }

    /// Advance the spawn cadence; when it fires, one enemy enters and
    /// the counter resets.
    pub fn add_enemy_conditional(&mut self)
        requires
            game_wf(*old(self)),
        ensures
            game_wf(*final(self)),
            final(self).bullets@ == old(self).bullets@,
            final(self).player == old(self).player,
            final(self).score == old(self).score,
            final(self).width == old(self).width,
            final(self).height == old(self).height,
            old(self).last_enemy + 1 < ENEMY_EVERY ==> final(self).enemies@ == old(self).enemies@
                && final(self).last_enemy == old(self).last_enemy + 1,
            old(self).last_enemy + 1 >= ENEMY_EVERY ==> final(self).last_enemy == 0
                && final(self).enemies@.len() == old(self).enemies@.len() + 1
                && final(self).enemies@.subrange(0, old(self).enemies@.len() as int) == old(self).enemies@
                && final(self).enemies@.last().pos.y == 10
                && 0 <= final(self).enemies@.last().pos.x < old(self).width,
    {
        self.last_enemy = self.last_enemy + 1;
        if self.last_enemy >= ENEMY_EVERY {
            self.add_enemy();
            self.last_enemy = 0;
        }
    }

    pub fn add_bullet(&mut self)
        ensures
            final(self).bullets@.len() == old(self).bullets@.len() + 1,
            final(self).bullets@.subrange(0, old(self).bullets@.len() as int) == old(self).bullets@,
            final(self).bullets@.last().pos.x == old(self).player.pos.x,
            final(self).bullets@.last().pos.y as int == crate::motion::sat_i32(
                old(self).player.pos.y - 50,
            ),
            final(self).enemies@ == old(self).enemies@,
            final(self).player == old(self).player,
            final(self).last_enemy == old(self).last_enemy,
            final(self).score == old(self).score,
            final(self).width == old(self).width,
            final(self).height == old(self).height,
    {
        let bullet = self.create_bullet();
        self.bullets.push(bullet);
        proof {
            assert(self.bullets@.subrange(0, old(self).bullets@.len() as int) =~= old(
                self,
            ).bullets@);
        }
    }

    /// Fire a bullet. The surrounding program plays the shot sound.
    pub fn shot(&mut self)
        ensures
            final(self).bullets@.len() == old(self).bullets@.len() + 1,
            final(self).bullets@.subrange(0, old(self).bullets@.len() as int) == old(self).bullets@,
            final(self).bullets@.last().pos.x == old(self).player.pos.x,
            final(self).enemies@ == old(self).enemies@,
            final(self).player == old(self).player,
            final(self).score == old(self).score,
    {
        self.add_bullet();
    }

    pub fn left(&mut self)
        ensures
            final(self).player.pos.x as int == crate::motion::sat_i32(
                old(self).player.pos.x - PLAYER_STEP,
            ),
            final(self).player.pos.y == old(self).player.pos.y,
            final(self).enemies@ == old(self).enemies@,
            final(self).bullets@ == old(self).bullets@,
            final(self).score == old(self).score,
            final(self).last_enemy == old(self).last_enemy,
            final(self).width == old(self).width,
            final(self).height == old(self).height,
    {
        self.player.mov_left(PLAYER_STEP);
    }

    pub fn right(&mut self)
        ensures
            final(self).player.pos.x as int == crate::motion::sat_i32(
                old(self).player.pos.x + PLAYER_STEP,
            ),
            final(self).player.pos.y == old(self).player.pos.y,
            final(self).enemies@ == old(self).enemies@,
            final(self).bullets@ == old(self).bullets@,
            final(self).score == old(self).score,
            final(self).last_enemy == old(self).last_enemy,
            final(self).width == old(self).width,
            final(self).height == old(self).height,
    {
        self.player.mov_right(PLAYER_STEP);
    }

    /// Whether the enemy/bullet pair crashes.
    pub fn is_crash(enemy: &GameObject, bullet: &GameObject) -> (r: bool)
        ensures
            r == spec_is_crash(*enemy, *bullet),
    {
        let size = PLAYER_SIZE as i64;

        let enemy_t = enemy.pos.y as i64;
        let bullet_t = bullet.pos.y as i64;

        if enemy_t + size < bullet_t || bullet_t + size < enemy_t {
            return false;
        }

        let enemy_l = enemy.pos.x as i64;
        let bullet_l = bullet.pos.x as i64;

        enemy_l <= bullet_l + size && bullet_l <= enemy_l + size
    }

    /// Every enemy falls one step.
    pub fn mov_enemies(&mut self)
        ensures
            final(self).enemies@.len() == old(self).enemies@.len(),
            forall|i: int|
                0 <= i < old(self).enemies@.len() ==> final(self).enemies@[i].id == old(
                    self,
                ).enemies@[i].id && final(self).enemies@[i].pos.x == old(self).enemies@[i].pos.x
                    && final(self).enemies@[i].pos.y as int == crate::motion::sat_i32(
                    old(self).enemies@[i].pos.y + ENEMY_STEP,
                ),
            final(self).bullets@ == old(self).bullets@,
            final(self).player == old(self).player,
            final(self).last_enemy == old(self).last_enemy,
            final(self).score == old(self).score,
            final(self).width == old(self).width,
            final(self).height == old(self).height,
    {
        let ghost g0 = *self;
        let mut i: usize = 0;
        while i < self.enemies.len()
            invariant
                i <= self.enemies@.len(),
                self.enemies@.len() == g0.enemies@.len(),
                self.bullets@ == g0.bullets@,
                self.player == g0.player,
                self.last_enemy == g0.last_enemy,
                self.score == g0.score,
                self.width == g0.width,
                self.height == g0.height,
                forall|j: int|
                    0 <= j < i ==> self.enemies@[j].id == g0.enemies@[j].id && self.enemies@[j].pos.x
                        == g0.enemies@[j].pos.x && self.enemies@[j].pos.y as int
                        == crate::motion::sat_i32(g0.enemies@[j].pos.y + ENEMY_STEP),
                forall|j: int| i <= j < g0.enemies@.len() ==> self.enemies@[j] == g0.enemies@[j],
            decreases g0.enemies@.len() - i,
        {
            let mut e = self.enemies[i];
            e.mov_down(ENEMY_STEP);
            self.enemies[i] = e;
            i = i + 1;
        }
    }

    /// Every bullet rises one step.
    pub fn mov_bullets(&mut self)
        ensures
            final(self).bullets@.len() == old(self).bullets@.len(),
            forall|i: int|
                0 <= i < old(self).bullets@.len() ==> final(self).bullets@[i].id == old(
                    self,
                ).bullets@[i].id && final(self).bullets@[i].pos.x == old(self).bullets@[i].pos.x
                    && final(self).bullets@[i].pos.y as int == crate::motion::sat_i32(
                    old(self).bullets@[i].pos.y - BULLET_STEP,
                ),
            final(self).enemies@ == old(self).enemies@,
            final(self).player == old(self).player,
            final(self).last_enemy == old(self).last_enemy,
            final(self).score == old(self).score,
            final(self).width == old(self).width,
            final(self).height == old(self).height,
    {
        let ghost g0 = *self;
        let mut i: usize = 0;
        while i < self.bullets.len()
            invariant
                i <= self.bullets@.len(),
                self.bullets@.len() == g0.bullets@.len(),
                self.enemies@ == g0.enemies@,
                self.player == g0.player,
                self.last_enemy == g0.last_enemy,
                self.score == g0.score,
                self.width == g0.width,
                self.height == g0.height,
                forall|j: int|
                    0 <= j < i ==> self.bullets@[j].id == g0.bullets@[j].id && self.bullets@[j].pos.x
                        == g0.bullets@[j].pos.x && self.bullets@[j].pos.y as int
                        == crate::motion::sat_i32(g0.bullets@[j].pos.y - BULLET_STEP),
                forall|j: int| i <= j < g0.bullets@.len() ==> self.bullets@[j] == g0.bullets@[j],
            decreases g0.bullets@.len() - i,
        {
            let mut b = self.bullets[i];
            b.mov_up(BULLET_STEP);
            self.bullets[i] = b;
            i = i + 1;
        }
    }

    /// Whether the identifier list names `id`.
    fn contains_id(ids: &Vec<u128>, id: u128) -> (r: bool)
        ensures
            r == spec_has_id(ids@, id),
    {
        let mut j: usize = 0;
        while j < ids.len()
            invariant
                j <= ids@.len(),
                forall|k: int| 0 <= k < j ==> ids@[k] != id,
            decreases ids@.len() - j,
        {
            if ids[j] == id {
                return true;
            }
            j = j + 1;
        }
        false
    }

    /// Rebuild the enemy list without the named identifiers.
    pub fn remove_enemies(&mut self, enemies: &Vec<u128>)
        ensures
            final(self).enemies@ == spec_remove_ids(old(self).enemies@, enemies@),
            final(self).bullets@ == old(self).bullets@,
            final(self).player == old(self).player,
            final(self).last_enemy == old(self).last_enemy,
            final(self).score == old(self).score,
            final(self).width == old(self).width,
            final(self).height == old(self).height,
    {
        let ghost g0 = *self;
        let mut out: Vec<GameObject> = Vec::new();
        let mut i: usize = 0;
        while i < self.enemies.len()
            invariant
                i <= self.enemies@.len(),
                *self == g0,
                out@ == spec_remove_ids(g0.enemies@.take(i as int), enemies@),
            decreases g0.enemies@.len() - i,
        {
            let e = self.enemies[i];
            if !Domination::contains_id(enemies, e.id) {
                out.push(e);
            }
            i = i + 1;
            proof {
                assert(g0.enemies@.take(i as int).drop_last() =~= g0.enemies@.take(i - 1));
            }
        }
        proof {
            assert(g0.enemies@.take(g0.enemies@.len() as int) =~= g0.enemies@);
        }
        self.enemies = out;
    }

    /// Rebuild the bullet list without the named identifiers.
    pub fn remove_bullets(&mut self, bullets: &Vec<u128>)
        ensures
            final(self).bullets@ == spec_remove_ids(old(self).bullets@, bullets@),
            final(self).enemies@ == old(self).enemies@,
            final(self).player == old(self).player,
            final(self).last_enemy == old(self).last_enemy,
            final(self).score == old(self).score,
            final(self).width == old(self).width,
            final(self).height == old(self).height,
    {
        let ghost g0 = *self;
        let mut out: Vec<GameObject> = Vec::new();
        let mut i: usize = 0;
        while i < self.bullets.len()
            invariant
                i <= self.bullets@.len(),
                *self == g0,
                out@ == spec_remove_ids(g0.bullets@.take(i as int), bullets@),
            decreases g0.bullets@.len() - i,
        {
            let b = self.bullets[i];
            if !Domination::contains_id(bullets, b.id) {
                out.push(b);
            }
            i = i + 1;
            proof {
                assert(g0.bullets@.take(i as int).drop_last() =~= g0.bullets@.take(i - 1));
            }
        }
        proof {
            assert(g0.bullets@.take(g0.bullets@.len() as int) =~= g0.bullets@);
        }
        self.bullets = out;
    }

    /// One frame's collision pass: both lists are rebuilt without the
    /// identifiers that took part in a crash, and the score rises by
    /// the number of enemies removed — each counted once, however many
    /// bullets hit it. The surrounding program plays the explosion
    /// sound when the score moved.
    pub fn handle_crash(&mut self)
        requires
            old(self).score + old(self).enemies@.len() <= usize::MAX,
        ensures
            final(self).score == old(self).score + old(self).enemies@.len() - final(self).enemies@.len(),
            final(self).enemies@ == spec_remove_crashed_enemies(
                old(self).enemies@,
                old(self).enemies@,
                old(self).bullets@,
            ),
            final(self).bullets@ == spec_remove_crashed_bullets(
                old(self).bullets@,
                old(self).enemies@,
                old(self).bullets@,
            ),
            final(self).player == old(self).player,
            final(self).last_enemy == old(self).last_enemy,
            final(self).width == old(self).width,
            final(self).height == old(self).height,
    {
        let ghost g0 = *self;
        let ghost es = self.enemies@;
        let ghost bs = self.bullets@;

        let mut enemies: Vec<u128> = Vec::new();
        let mut bullets: Vec<u128> = Vec::new();

        let mut k: usize = 0;
        while k < self.enemies.len()
            invariant
                *self == g0,
                k <= es.len(),
                es == self.enemies@,
                bs == self.bullets@,
                forall|p: int|
                    0 <= p < enemies@.len() ==> spec_enemy_id_crashed(es, bs, #[trigger] enemies@[p]),
                forall|p: int|
                    0 <= p < bullets@.len() ==> spec_bullet_id_crashed(es, bs, #[trigger] bullets@[p]),
                forall|k2: int, j2: int|
                    0 <= k2 < k && 0 <= j2 < bs.len() && spec_is_crash(es[k2], bs[j2])
                        ==> spec_has_id(enemies@, es[k2].id) && spec_has_id(bullets@, bs[j2].id),
            decreases es.len() - k,
        {
            let e = self.enemies[k];
            let mut j: usize = 0;
            while j < self.bullets.len()
                invariant
                    *self == g0,
                    k < es.len(),
                    e == es[k as int],
                    es == self.enemies@,
                    bs == self.bullets@,
                    j <= bs.len(),
                    forall|p: int|
                        0 <= p < enemies@.len() ==> spec_enemy_id_crashed(
                            es,
                            bs,
                            #[trigger] enemies@[p],
                        ),
                    forall|p: int|
                        0 <= p < bullets@.len() ==> spec_bullet_id_crashed(
                            es,
                            bs,
                            #[trigger] bullets@[p],
                        ),
                    forall|k2: int, j2: int|
                        0 <= k2 < k && 0 <= j2 < bs.len() && spec_is_crash(es[k2], bs[j2])
                            ==> spec_has_id(enemies@, es[k2].id) && spec_has_id(bullets@, bs[j2].id),
                    forall|j2: int|
                        0 <= j2 < j && spec_is_crash(es[k as int], bs[j2]) ==> spec_has_id(
                            enemies@,
                            es[k as int].id,
                        ) && spec_has_id(bullets@, bs[j2].id),
                decreases bs.len() - j,
            {
                let b = self.bullets[j];
                if Domination::is_crash(&e, &b) {
                    proof {
                        lemma_has_id_push(enemies@, e.id);
                        lemma_has_id_push(bullets@, b.id);
                    }
                    enemies.push(e.id);
                    bullets.push(b.id);
                }
                j = j + 1;
            }
            k = k + 1;
        }

        proof {
            assert forall|id: u128| #[trigger]
                spec_has_id(enemies@, id) == spec_enemy_id_crashed(es, bs, id) by {
                if spec_has_id(enemies@, id) {
                    let p = choose|p: int| 0 <= p < enemies@.len() && enemies@[p] == id;
                    assert(spec_enemy_id_crashed(es, bs, enemies@[p]));
                }
                if spec_enemy_id_crashed(es, bs, id) {
                    let (k2, j2) = choose|k2: int, j2: int|
                        0 <= k2 < es.len() && 0 <= j2 < bs.len() && spec_is_crash(es[k2], bs[j2])
                            && es[k2].id == id;
                    assert(spec_has_id(enemies@, es[k2].id));
                }
            }
            assert forall|id: u128| #[trigger]
                spec_has_id(bullets@, id) == spec_bullet_id_crashed(es, bs, id) by {
                if spec_has_id(bullets@, id) {
                    let p = choose|p: int| 0 <= p < bullets@.len() && bullets@[p] == id;
                    assert(spec_bullet_id_crashed(es, bs, bullets@[p]));
                }
                if spec_bullet_id_crashed(es, bs, id) {
                    let (k2, j2) = choose|k2: int, j2: int|
                        0 <= k2 < es.len() && 0 <= j2 < bs.len() && spec_is_crash(es[k2], bs[j2])
                            && bs[j2].id == id;
                    assert(spec_has_id(bullets@, bs[j2].id));
                }
            }
            lemma_remove_crashed_enemies_eq(es, enemies@, es, bs);
            lemma_remove_crashed_bullets_eq(bs, bullets@, es, bs);
        }

        proof {
            lemma_remove_ids_len(es, enemies@);
        }
        let len_before = self.enemies.len();
        self.remove_enemies(&enemies);
        let crashes = len_before - self.enemies.len();
        self.score = self.score + crashes;
        self.remove_bullets(&bullets);
    }

    /// One update tick: enemies fall, the spawn cadence advances (a
    /// random column enters when it fires), bullets rise, and the
    /// frame's crashes are scored and removed.
    pub fn mov(&mut self)
        requires
            game_wf(*old(self)),
            old(self).score + old(self).enemies@.len() + 1 <= usize::MAX,
        ensures
            game_wf(*final(self)),
            final(self).player == old(self).player,
            final(self).width == old(self).width,
            final(self).height == old(self).height,
            ({
                let se = Seq::new(
                    old(self).enemies@.len(),
                    |i: int| spec_step_down(old(self).enemies@[i], ENEMY_STEP as int),
                );
                let sb = Seq::new(
                    old(self).bullets@.len(),
                    |i: int| spec_step_up(old(self).bullets@[i], BULLET_STEP as int),
                );
                let fired = old(self).last_enemy + 1 >= ENEMY_EVERY;
                &&& final(self).last_enemy == (if fired {
                    0int
                } else {
                    old(self).last_enemy + 1
                })
                &&& if fired {
                    exists|nv: GameObject|
                        #![auto]
                        nv.pos.y == 10 && 0 <= nv.pos.x < old(self).width
                            && final(self).score == old(self).score + old(self).enemies@.len() + 1
                                - final(self).enemies@.len()
                            && final(self).enemies@ == spec_remove_crashed_enemies(se.push(nv), se.push(nv), sb)
                            && final(self).bullets@ == spec_remove_crashed_bullets(sb, se.push(nv), sb)
                } else {
                    final(self).score == old(self).score + old(self).enemies@.len()
                        - final(self).enemies@.len()
                        && final(self).enemies@ == spec_remove_crashed_enemies(se, se, sb)
                        && final(self).bullets@ == spec_remove_crashed_bullets(sb, se, sb)
                }
            }),
    {
        self.mov_enemies();
        let ghost se = self.enemies@;
        self.add_enemy_conditional();
        proof {
            assert(se =~= Seq::new(
                old(self).enemies@.len(),
                |i: int| spec_step_down(old(self).enemies@[i], ENEMY_STEP as int),
            ));
            if old(self).last_enemy + 1 >= ENEMY_EVERY {
                assert(self.enemies@ =~= se.push(self.enemies@.last()));
            }
        }
        self.mov_bullets();
        proof {
            assert(self.bullets@ =~= Seq::new(
                old(self).bullets@.len(),
                |i: int| spec_step_up(old(self).bullets@[i], BULLET_STEP as int),
            ));
        }
        self.handle_crash();
    }
}

/// An entity one step further down, saturated at the coordinate limits.
pub open spec fn spec_step_down(e: GameObject, step: int) -> GameObject {
    GameObject {
        id: e.id,
        pos: Position { x: e.pos.x, y: crate::motion::sat_i32(e.pos.y + step) as i32 },
    }
}

/// An entity one step further up, saturated at the coordinate limits.
pub open spec fn spec_step_up(e: GameObject, step: int) -> GameObject {
    GameObject {
        id: e.id,
        pos: Position { x: e.pos.x, y: crate::motion::sat_i32(e.pos.y - step) as i32 },
    }
}

} // verus!
