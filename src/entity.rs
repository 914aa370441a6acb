use vstd::prelude::*;

use crate::player::{Player, SUBCELLS};

verus! {

/// The two kinds of moving things; they share a shape and differ in how
/// close the player must come to touch them.
#[derive(Clone, Copy, Debug, PartialEq, Eq, Structural)]
pub enum EntityKind {
    Obstacle,
    Collectible,
}

impl EntityKind {
    /// Touching distance, in tenths of a cell.
    pub open spec fn reach(self) -> int {
        match self {
            EntityKind::Obstacle => 20,
            EntityKind::Collectible => 15,
        }
    }
}

/// An obstacle or collectible on the grid. Inactive ones are neither moved,
/// drawn nor tested for contact.
#[derive(Clone, Copy, Debug, PartialEq, Eq, Structural)]
pub struct Entity {
    pub kind: EntityKind,
    pub x: i32,
    pub y: i32,
    pub active: bool,
}

/// Square of the distance from the player to a grid cell, in fifths of a
/// cell; the player's height counts with its fractional part.
pub open spec fn dist_sq(p: Player, x: int, y: int) -> int {
    let dx = (p.x - x) * SUBCELLS;
    let dy = p.y - y * SUBCELLS;
    dx * dx + dy * dy
}

impl Entity {
    /// An active entity lies right of the left boundary.
    pub open spec fn wf(self) -> bool {
        self.active ==> self.x > 0
    }

    /// Whether the player is strictly nearer than the kind's reach.
    pub open spec fn touches(self, p: Player) -> bool {
        4 * dist_sq(p, self.x as int, self.y as int) < self.kind.reach() * self.kind.reach()
    }

    /// Whether the next step takes this entity across the left boundary.
    pub open spec fn expiring(self) -> bool {
        self.active && self.x <= 1
    }

    /// The entity after one simulation step: an active one moves a cell left
    /// and goes inactive on reaching the left boundary.
    pub open spec fn drifted(self) -> Entity {
        if self.active {
            Entity { x: (self.x - 1) as i32, active: self.x - 1 > 0, ..self }
        } else {
            self
        }
    }

    /// A fresh active entity.
    pub fn new(kind: EntityKind, x: i32, y: i32) -> (e: Entity)
        ensures
            e == (Entity { kind, x, y, active: true }),
    {
        Entity { kind, x, y, active: true }
    }

    /// Contact test against the player, by distance.
    pub fn hit(&self, player: &Player) -> (r: bool)
        ensures
            r == self.touches(*player),
    {
        let unit: i128 = SUBCELLS as i128;
        assert(unit == 5);
        let dx: i128 = (player.x as i128 - self.x as i128) * unit;
        let dy: i128 = player.y as i128 - self.y as i128 * unit;
        let reach: i128 = match self.kind {
            EntityKind::Obstacle => 20,
            EntityKind::Collectible => 15,
        };
        if dx >= reach || dx <= -reach || dy >= reach || dy <= -reach {
            proof {
                assert(dx * dx >= reach * reach || dy * dy >= reach * reach) by (nonlinear_arith)
                    requires
                        dx >= reach || dx <= -reach || dy >= reach || dy <= -reach,
                        reach > 0,
                ;
                assert(dx * dx >= 0 && dy * dy >= 0) by (nonlinear_arith);
            }
            return false;
        }
        proof {
            assert(0 <= dx * dx < 400 && 0 <= dy * dy < 400) by (nonlinear_arith)
                requires
                    -20 < dx < 20,
                    -20 < dy < 20,
            ;
        }
        4 * (dx * dx + dy * dy) < reach * reach
    }

    /// One simulation step; reports whether the entity went inactive.
    pub fn drift(&mut self) -> (expired: bool)
        requires
            old(self).wf(),
        ensures
            *final(self) == old(self).drifted(),
            expired == old(self).expiring(),
            final(self).wf(),
    {
        if self.active {
            self.x = self.x - 1;
            if self.x <= 0 {
                self.active = false;
                return true;
            }
        }
        false
    }
}

/// Number of active entities in a pool.
pub open spec fn count_active(s: Seq<Entity>) -> nat
    decreases s.len(),
{
    if s.len() == 0 {
        0
    } else {
        count_active(s.drop_last()) + if s.last().active {
            1nat
        } else {
            0nat
        }
    }
}

/// Number of entities in a pool that the next step deactivates.
pub open spec fn count_expiring(s: Seq<Entity>) -> nat
    decreases s.len(),
{
    if s.len() == 0 {
        0
    } else {
        count_expiring(s.drop_last()) + if s.last().expiring() {
            1nat
        } else {
            0nat
        }
    }
}

/// A pool after one simulation step.
pub open spec fn drifted_pool(s: Seq<Entity>) -> Seq<Entity> {
    s.map_values(|e: Entity| e.drifted())
}

/// A pool whose entities are all well formed.
pub open spec fn pool_wf(s: Seq<Entity>) -> bool {
    forall|i: int| 0 <= i < s.len() ==> (#[trigger] s[i]).wf()
}

/// A pool whose entities are all of one kind.
pub open spec fn of_kind(s: Seq<Entity>, kind: EntityKind) -> bool {
    forall|i: int| 0 <= i < s.len() ==> (#[trigger] s[i]).kind == kind
}

/// The pool made from a wave of spawn cells.
pub open spec fn wave_pool(kind: EntityKind, wave: Seq<(i32, i32)>) -> Seq<Entity> {
    wave.map_values(|c: (i32, i32)| Entity { kind, x: c.0, y: c.1, active: true })
}

/// Every spawn cell of a wave lies right of the left boundary.
pub open spec fn wave_wf(wave: Seq<(i32, i32)>) -> bool {
    forall|i: int| 0 <= i < wave.len() ==> (#[trigger] wave[i]).0 > 0
}

/// A prefix of a pool holds no more active or expiring entities than the
/// whole pool.
pub proof fn lemma_count_prefix(s: Seq<Entity>, i: int)
    requires
        0 <= i <= s.len(),
    ensures
        count_active(s.subrange(0, i)) <= count_active(s),
        count_expiring(s.subrange(0, i)) <= count_expiring(s),
    decreases s.len() - i,
{
    if i < s.len() {
        lemma_count_prefix(s, i + 1);
        assert(s.subrange(0, i + 1).drop_last() =~= s.subrange(0, i));
    } else {
        assert(s.subrange(0, i) =~= s);
    }
}

/// Each active entity that a step deactivates takes exactly one off the
/// active count, and no other entity changes it.
pub proof fn lemma_drift_count(s: Seq<Entity>)
    ensures
        count_active(drifted_pool(s)) + count_expiring(s) == count_active(s),
    decreases s.len(),
{
    if s.len() > 0 {
        lemma_drift_count(s.drop_last());
        assert(drifted_pool(s).drop_last() =~= drifted_pool(s.drop_last()));
    }
}

/// A step deactivates an active entity exactly when it reaches the left
/// boundary, and leaves an inactive one as it is.
pub proof fn lemma_deactivates_at_boundary(e: Entity)
    requires
        e.wf(),
    ensures
        e.active ==> (e.drifted().active <==> e.drifted().x > 0),
        e.active ==> e.drifted().x == e.x - 1,
        !e.active ==> e.drifted() == e,
        e.drifted().wf(),
{
}

/// Every entity of a fresh wave is active.
pub proof fn lemma_wave_count(kind: EntityKind, wave: Seq<(i32, i32)>)
    ensures
        count_active(wave_pool(kind, wave)) == wave.len(),
    decreases wave.len(),
{
    if wave.len() > 0 {
        lemma_wave_count(kind, wave.drop_last());
        assert(wave_pool(kind, wave).drop_last() =~= wave_pool(kind, wave.drop_last()));
    }
}

/// Moves every active entity of a pool one cell left, deactivating those that
/// reach the left boundary and taking each of them off the active count once.
pub fn drift_pool(pool: &mut Vec<Entity>, active: &mut usize)
    requires
        pool_wf(old(pool)@),
        *old(active) == count_active(old(pool)@),
    ensures
        final(pool)@ == drifted_pool(old(pool)@),
        *final(active) == *old(active) - count_expiring(old(pool)@),
        *final(active) == count_active(final(pool)@),
        pool_wf(final(pool)@),
{
    let ghost s0 = pool@;
    let n = pool.len();
    let mut i: usize = 0;
    while i < n
        invariant
            n == s0.len(),
            0 <= i <= n,
            pool@.len() == n,
            *old(active) == count_active(s0),
            pool_wf(s0),
            forall|j: int| 0 <= j < i ==> pool@[j] == (#[trigger] s0[j]).drifted(),
            forall|j: int| i <= j < n ==> pool@[j] == s0[j],
            *active + count_expiring(s0.subrange(0, i as int)) == *old(active),
        decreases n - i,
    {
        let mut e = pool[i];
        assert(e == s0[i as int]);
        let expired = e.drift();
        pool.set(i, e);
        assert(s0.subrange(0, i + 1).drop_last() =~= s0.subrange(0, i as int));
        proof {
            lemma_count_prefix(s0, i + 1);
            lemma_drift_count(s0);
        }
        if expired {
            *active = *active - 1;
        }
        i = i + 1;
    }
    assert(s0.subrange(0, n as int) =~= s0);
    assert(pool@ =~= drifted_pool(s0));
    proof {
        lemma_drift_count(s0);
    }
}

/// Whether the player picks up this entity now.
pub open spec fn picked(e: Entity, p: Player) -> bool {
    e.active && e.touches(p)
}

/// Number of entities in a pool that the player picks up now.
pub open spec fn count_picked(s: Seq<Entity>, p: Player) -> nat
    decreases s.len(),
{
    if s.len() == 0 {
        0
    } else {
        count_picked(s.drop_last(), p) + if picked(s.last(), p) {
            1nat
        } else {
            0nat
        }
    }
}

/// A pool after the player has picked up what it touches: those entities go
/// inactive.
pub open spec fn collected_pool(s: Seq<Entity>, p: Player) -> Seq<Entity> {
    s.map_values(|e: Entity| if picked(e, p) { Entity { active: false, ..e } } else { e })
}

/// A prefix of a pool holds no more picked entities than the whole pool.
pub proof fn lemma_picked_prefix(s: Seq<Entity>, p: Player, i: int)
    requires
        0 <= i <= s.len(),
    ensures
        count_picked(s.subrange(0, i), p) <= count_picked(s, p),
    decreases s.len() - i,
{
    if i < s.len() {
        lemma_picked_prefix(s, p, i + 1);
        assert(s.subrange(0, i + 1).drop_last() =~= s.subrange(0, i));
    } else {
        assert(s.subrange(0, i) =~= s);
    }
}

/// Each pick-up takes exactly one off the active count.
pub proof fn lemma_collect_count(s: Seq<Entity>, p: Player)
    ensures
        count_active(collected_pool(s, p)) + count_picked(s, p) == count_active(s),
    decreases s.len(),
{
    if s.len() > 0 {
        lemma_collect_count(s.drop_last(), p);
        assert(collected_pool(s, p).drop_last() =~= collected_pool(s.drop_last(), p));
    }
}

/// Refills a pool from a wave, but only when none of its entities is active;
/// afterwards the active count is the number of entities just created.
pub fn refill_pool(
    pool: &mut Vec<Entity>,
    active: &mut usize,
    kind: EntityKind,
    wave: &Vec<(i32, i32)>,
)
    ensures
        *old(active) != 0 ==> final(pool)@ == old(pool)@ && *final(active) == *old(active),
        *old(active) == 0 ==> final(pool)@ == wave_pool(kind, wave@) && *final(active)
            == wave@.len(),
        *old(active) == 0 ==> count_active(final(pool)@) == *final(active),
        wave_wf(wave@) ==> pool_wf(wave_pool(kind, wave@)),
        of_kind(wave_pool(kind, wave@), kind),
{
    proof {
        lemma_wave_count(kind, wave@);
    }
    if *active == 0 {
        pool.clear();
        let mut i: usize = 0;
        while i < wave.len()
            invariant
                0 <= i <= wave@.len(),
                pool@ == wave_pool(kind, wave@.subrange(0, i as int)),
            decreases wave@.len() - i,
        {
            let (x, y) = wave[i];
            pool.push(Entity::new(kind, x, y));
            i = i + 1;
            assert(pool@ =~= wave_pool(kind, wave@.subrange(0, i as int)));
        }
        assert(wave@.subrange(0, i as int) =~= wave@);
        *active = wave.len();
    }
}

/// Deactivates every entity of the pool that the player touches, taking each
/// off the active count once; returns how many there were.
pub fn collect_pool(pool: &mut Vec<Entity>, active: &mut usize, player: &Player) -> (n: usize)
    requires
        pool_wf(old(pool)@),
        *old(active) == count_active(old(pool)@),
    ensures
        final(pool)@ == collected_pool(old(pool)@, *player),
        n == count_picked(old(pool)@, *player),
        *final(active) == *old(active) - n,
        *final(active) == count_active(final(pool)@),
        pool_wf(final(pool)@),
{
    let ghost s0 = pool@;
    let n = pool.len();
    let mut i: usize = 0;
    let mut got: usize = 0;
    proof {
        lemma_collect_count(s0, *player);
    }
    while i < n
        invariant
            n == s0.len(),
            0 <= i <= n,
            pool@.len() == n,
            *old(active) == count_active(s0),
            count_active(collected_pool(s0, *player)) + count_picked(s0, *player) == count_active(s0),
            pool_wf(s0),
            forall|j: int| 0 <= j < i ==> pool@[j] == collected_pool(s0, *player)[j],
            forall|j: int| i <= j < n ==> pool@[j] == s0[j],
            got == count_picked(s0.subrange(0, i as int), *player),
            *active + got == *old(active),
        decreases n - i,
    {
        let mut e = pool[i];
        assert(e == s0[i as int]);
        assert(s0.subrange(0, i + 1).drop_last() =~= s0.subrange(0, i as int));
        proof {
            lemma_picked_prefix(s0, *player, i + 1);
        }
        if e.active && e.hit(player) {
            e.active = false;
            pool.set(i, e);
            *active = *active - 1;
            got = got + 1;
        }
        i = i + 1;
    }
    assert(s0.subrange(0, n as int) =~= s0);
    assert(pool@ =~= collected_pool(s0, *player));
    got
}

} // verus!
