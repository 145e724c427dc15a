//! Interaction detection and ladder alignment: when the interact action is
//! pressed, the character's forward probe hits are scanned for the first
//! entity carrying a ladder descriptor; the character is repositioned onto
//! the ladder's face, turned to face it, and a ladder-begin signal carrying
//! the climb bounds is raised. Pressing interact while already climbing
//! raises a ladder-end signal instead.

use vstd::prelude::*;

use crate::math::{iabs, sqrt_ceil, tdiv, Vec3};
use crate::state::{LadderBeginSignal, LadderEndSignal, Mode};
use crate::units::{COORD_LIMIT, HALF_PLAYER_HEIGHT, SCALE, SIM_LIMIT};

verus! {

/// The ladder data carried by an entity a probe hit: the descriptor's face
/// normal, the collider's world position, and the vertical extent of the
/// collider's world axis-aligned bounding box, from which the climb bounds
/// are derived.
#[derive(Clone, Copy, Debug)]
pub struct LadderHit {
    /// Outward unit normal of the climbable face, fixed-point scaled.
    pub face_normal: Vec3,
    /// World position of the ladder collider.
    pub position: Vec3,
    /// Vertical center of the collider's world bounding box.
    pub aabb_center_y: i64,
    /// Vertical half-extent of the collider's world bounding box.
    pub aabb_half_y: i64,
}

impl LadderHit {
    /// Usable ladder data: world-bounded geometry and a collider tall enough
    /// that the derived bottom bound stays below the top bound.
    pub open spec fn wf(self) -> bool {
        &&& self.position.in_world()
        &&& self.face_normal.bounded(SCALE as int)
        &&& -(COORD_LIMIT as int) <= self.aabb_center_y <= COORD_LIMIT as int
        &&& 0 <= self.aabb_half_y <= COORD_LIMIT as int
        &&& 2 * self.aabb_half_y >= HALF_PLAYER_HEIGHT
    }
}

/// One hit reported by the forward probe, in the order the spatial query
/// returned them (nearest first is not guaranteed).
#[derive(Clone, Copy, Debug)]
pub struct ProbeHit {
    /// The entity the ray hit.
    pub entity: u64,
    /// Time of impact along the ray, in fixed-point units.
    pub time_of_impact: i64,
    /// The ladder data attached to the hit entity, if it carries any;
    /// non-ladder geometry carries none and is skipped.
    pub ladder: Option<LadderHit>,
}

impl ProbeHit {
    /// A usable hit: impact within the world and any ladder data usable.
    pub open spec fn wf(self) -> bool {
        &&& 0 <= self.time_of_impact <= COORD_LIMIT as int
        &&& (self.ladder matches Some(l) ==> l.wf())
    }
}

/// What one frame of interaction detection decided: at most one signal, and
/// the character's possibly realigned position and facing.
#[derive(Clone, Copy, Debug)]
pub struct InteractionOutcome {
    /// A ladder-begin signal raised this frame, if any.
    pub begin: Option<LadderBeginSignal>,
    /// A ladder-end signal raised this frame, if any.
    pub end: Option<LadderEndSignal>,
    /// The character's position after any alignment.
    pub translation: Vec3,
    /// The character's facing after any alignment.
    pub facing: Vec3,
}

/// One coordinate of the point where the probe ray met the hit:
/// origin + direction * time_of_impact.
pub open spec fn ray_point(origin: int, dir: int, toi: int) -> int {
    origin + tdiv(dir * toi, SCALE as int)
}

/// The component along the face normal of the offset from the ladder's
/// position to the point (px, py, pz), scaled by `SCALE`.
pub open spec fn proj_dot(px: int, py: int, pz: int, pos: Vec3, n: Vec3) -> int {
    (px - pos.x) * n.x + (py - pos.y) * n.y + (pz - pos.z) * n.z
}

/// One coordinate of the projection of a point onto the line through the
/// ladder's position along its face normal: position + (offset . normal) *
/// normal, with both fixed-point scalings divided back out.
pub open spec fn proj_c(d: int, pos_c: int, n_c: int) -> int {
    pos_c + tdiv(d * n_c, (SCALE as int) * (SCALE as int))
}

/// A face normal pointing exactly along one coordinate axis at unit length.
pub open spec fn axis_unit(n: Vec3) -> bool {
    ||| (iabs(n.x as int) == SCALE as int && n.y == 0 && n.z == 0)
    ||| (n.x == 0 && iabs(n.y as int) == SCALE as int && n.z == 0)
    ||| (n.x == 0 && n.y == 0 && iabs(n.z as int) == SCALE as int)
}

/// The first probe hit whose entity carries ladder data, in the order the
/// hits were reported.
pub open spec fn first_ladder(hits: Seq<ProbeHit>) -> Option<ProbeHit>
    decreases hits.len(),
{
    if hits.len() == 0 {
        None
    } else if hits[0].ladder is Some {
        Some(hits[0])
    } else {
        first_ladder(hits.skip(1))
    }
}

/// Scanning may skip any ladder-less prefix without changing which hit is
/// found first.
proof fn lemma_first_ladder_skip(hits: Seq<ProbeHit>, i: int)
    requires
        0 <= i <= hits.len(),
        forall|j: int| 0 <= j < i ==> !(#[trigger] hits[j].ladder is Some),
    ensures
        first_ladder(hits) == first_ladder(hits.skip(i)),
    decreases i,
{
    if i > 0 {
        assert(hits.skip(1).skip(i - 1) =~= hits.skip(i));
        assert(forall|j: int|
            0 <= j < i - 1 ==> !(#[trigger] hits.skip(1)[j].ladder is Some)) by {
            assert(forall|j: int| 0 <= j < i - 1 ==> hits.skip(1)[j] == hits[j + 1]);
        }
        lemma_first_ladder_skip(hits.skip(1), i - 1);
    } else {
        assert(hits.skip(0) =~= hits);
    }
}

/// The point where the probe ray met the hit, in world space.
fn hit_point(origin: Vec3, dir: Vec3, toi: i64) -> (p: Vec3)
    requires
        origin.in_world(),
        dir.bounded(SCALE as int),
        0 <= toi <= COORD_LIMIT,
    ensures
        p.x == ray_point(origin.x as int, dir.x as int, toi as int),
        p.y == ray_point(origin.y as int, dir.y as int, toi as int),
        p.z == ray_point(origin.z as int, dir.z as int, toi as int),
        p.bounded(2 * COORD_LIMIT as int),
{
    proof {
        crate::math::lemma_mul_bound(dir.x as int, toi as int, SCALE as int, COORD_LIMIT as int);
        crate::math::lemma_mul_bound(dir.y as int, toi as int, SCALE as int, COORD_LIMIT as int);
        crate::math::lemma_mul_bound(dir.z as int, toi as int, SCALE as int, COORD_LIMIT as int);
        vstd::arithmetic::div_mod::lemma_div_is_ordered(
            iabs((dir.x as int) * (toi as int)),
            (SCALE as int) * (COORD_LIMIT as int),
            SCALE as int,
        );
        vstd::arithmetic::div_mod::lemma_div_is_ordered(
            iabs((dir.y as int) * (toi as int)),
            (SCALE as int) * (COORD_LIMIT as int),
            SCALE as int,
        );
        vstd::arithmetic::div_mod::lemma_div_is_ordered(
            iabs((dir.z as int) * (toi as int)),
            (SCALE as int) * (COORD_LIMIT as int),
            SCALE as int,
        );
    }
    let px: i64 = origin.x + crate::math::div_trunc(dir.x * toi, SCALE);
    let py: i64 = origin.y + crate::math::div_trunc(dir.y * toi, SCALE);
    let pz: i64 = origin.z + crate::math::div_trunc(dir.z * toi, SCALE);
    Vec3 { x: px, y: py, z: pz }
}

/// The projection of the hit point onto the line through the ladder's
/// position along its face normal; its horizontal coordinates center the
/// character on the ladder's face.
fn ladder_center(p: Vec3, pos: Vec3, n: Vec3) -> (c: Vec3)
    requires
        p.bounded(2 * COORD_LIMIT as int),
        pos.in_world(),
        n.bounded(SCALE as int),
    ensures
        c.x == proj_c(proj_dot(p.x as int, p.y as int, p.z as int, pos, n), pos.x as int, n.x as int),
        c.y == proj_c(proj_dot(p.x as int, p.y as int, p.z as int, pos, n), pos.y as int, n.y as int),
        c.z == proj_c(proj_dot(p.x as int, p.y as int, p.z as int, pos, n), pos.z as int, n.z as int),
        c.bounded(SIM_LIMIT as int),
{
    proof {
        crate::math::lemma_mul_bound(p.x - pos.x, n.x as int, 3 * COORD_LIMIT as int, SCALE as int);
        crate::math::lemma_mul_bound(p.y - pos.y, n.y as int, 3 * COORD_LIMIT as int, SCALE as int);
        crate::math::lemma_mul_bound(p.z - pos.z, n.z as int, 3 * COORD_LIMIT as int, SCALE as int);
    }
    let dx: i64 = p.x - pos.x;
    let dy: i64 = p.y - pos.y;
    let dz: i64 = p.z - pos.z;
    let d: i64 = dx * n.x + dy * n.y + dz * n.z;
    proof {
        crate::math::lemma_mul_bound(
            d as int,
            n.x as int,
            9 * (COORD_LIMIT as int) * (SCALE as int),
            SCALE as int,
        );
        crate::math::lemma_mul_bound(
            d as int,
            n.y as int,
            9 * (COORD_LIMIT as int) * (SCALE as int),
            SCALE as int,
        );
        crate::math::lemma_mul_bound(
            d as int,
            n.z as int,
            9 * (COORD_LIMIT as int) * (SCALE as int),
            SCALE as int,
        );
        vstd::arithmetic::div_mod::lemma_div_is_ordered(
            iabs((d as int) * (n.x as int)),
            9 * (COORD_LIMIT as int) * (SCALE as int) * (SCALE as int),
            (SCALE as int) * (SCALE as int),
        );
        vstd::arithmetic::div_mod::lemma_div_is_ordered(
            iabs((d as int) * (n.y as int)),
            9 * (COORD_LIMIT as int) * (SCALE as int) * (SCALE as int),
            (SCALE as int) * (SCALE as int),
        );
        vstd::arithmetic::div_mod::lemma_div_is_ordered(
            iabs((d as int) * (n.z as int)),
            9 * (COORD_LIMIT as int) * (SCALE as int) * (SCALE as int),
            (SCALE as int) * (SCALE as int),
        );
    }
    let cx: i64 = pos.x + crate::math::div_trunc(d * n.x, SCALE * SCALE);
    let cy: i64 = pos.y + crate::math::div_trunc(d * n.y, SCALE * SCALE);
    let cz: i64 = pos.z + crate::math::div_trunc(d * n.z, SCALE * SCALE);
    Vec3 { x: cx, y: cy, z: cz }
}

/// Full description of the alignment performed against the first
/// ladder-carrying probe hit `h`: where the character ends up, how it turns,
/// and the begin signal raised.
pub open spec fn aligned_post(
    entity: u64,
    origin: Vec3,
    dir: Vec3,
    translation: Vec3,
    facing: Vec3,
    h: ProbeHit,
    r: InteractionOutcome,
) -> bool {
    h.ladder matches Some(l) ==> {
        let toi = h.time_of_impact as int;
        let hx = ray_point(origin.x as int, dir.x as int, toi);
        let hy = ray_point(origin.y as int, dir.y as int, toi);
        let hz = ray_point(origin.z as int, dir.z as int, toi);
        let d = proj_dot(hx, hy, hz, l.position, l.face_normal);
        let cx = proj_c(d, l.position.x as int, l.face_normal.x as int);
        let cz = proj_c(d, l.position.z as int, l.face_normal.z as int);
        let fx = -(l.face_normal.x as int);
        let fz = -(l.face_normal.z as int);
        let dn = sqrt_ceil((fx * fx + fz * fz) as nat) as int;
        &&& r.translation.x == cx
        &&& r.translation.y == translation.y
        &&& r.translation.z == cz
        &&& ((l.face_normal.x == 0 && l.face_normal.z == 0) ==> r.facing == facing)
        &&& (!(l.face_normal.x == 0 && l.face_normal.z == 0) ==> (r.facing.y == 0 && r.facing.x
            == tdiv(fx * (SCALE as int), dn) && r.facing.z == tdiv(fz * (SCALE as int), dn)))
        &&& r.end is None
        &&& (r.begin matches Some(sig) && {
            &&& sig.entity == entity
            &&& sig.face_normal == l.face_normal
            &&& sig.top.x == cx
            &&& sig.top.y == l.aabb_center_y + l.aabb_half_y
            &&& sig.top.z == cz
            &&& sig.bottom.x == cx
            &&& sig.bottom.y == l.aabb_center_y - l.aabb_half_y + HALF_PLAYER_HEIGHT
            &&& sig.bottom.z == cz
        })
    }
}

/// Full description of one interaction frame: nothing happens without a
/// just-pressed interact; interact while climbing raises only a ladder-end
/// signal; interact while grounded aligns to the first ladder-carrying hit
/// and raises a ladder-begin signal, or is absorbed when no hit carries a
/// ladder; interact while jumping is absorbed.
pub open spec fn interaction_post(
    entity: u64,
    mode: Mode,
    interact: bool,
    origin: Vec3,
    dir: Vec3,
    hits: Seq<ProbeHit>,
    translation: Vec3,
    facing: Vec3,
    r: InteractionOutcome,
) -> bool {
    &&& (!interact ==> (r.begin is None && r.end is None && r.translation == translation
        && r.facing == facing))
    &&& ((interact && mode is OnLadder) ==> (r.begin is None && r.end == Some(
        LadderEndSignal { entity },
    ) && r.translation == translation && r.facing == facing))
    &&& ((interact && mode is Jumping) ==> (r.begin is None && r.end is None && r.translation
        == translation && r.facing == facing))
    &&& ((interact && mode is Grounded && first_ladder(hits) is None) ==> (r.begin is None
        && r.end is None && r.translation == translation && r.facing == facing))
    &&& ((interact && mode is Grounded) ==> (first_ladder(hits) matches Some(h) ==> aligned_post(
        entity,
        origin,
        dir,
        translation,
        facing,
        h,
        r,
    )))
}

/// One frame of interaction detection for the character `entity`, reading
/// the mode as it stood at the start of the frame. On a just-pressed
/// interact while grounded, the probe hits are scanned in the order
/// received; the first hit whose entity carries a ladder descriptor fixes
/// the character onto the ladder: the hit point is projected onto the
/// ladder's face line, the character keeps its height but takes the
/// projected horizontal position, turns to face opposite the ladder's
/// normal (keeping its old facing when the normal has no horizontal part),
/// and a ladder-begin signal carries the climb bounds derived from the
/// collider's bounding box. A just-pressed interact while climbing raises a
/// ladder-end signal without scanning.
pub fn player_interaction(
    entity: u64,
    mode: &Mode,
    interact_just_pressed: bool,
    origin: Vec3,
    dir: Vec3,
    hits: &Vec<ProbeHit>,
    translation: Vec3,
    facing: Vec3,
) -> (r: InteractionOutcome)
    requires
        origin.in_world(),
        dir.bounded(SCALE as int),
        translation.bounded(SIM_LIMIT as int),
        facing.bounded(SCALE as int),
        forall|i: int| 0 <= i < hits@.len() ==> (#[trigger] hits@[i]).wf(),
    ensures
        interaction_post(
            entity,
            *mode,
            interact_just_pressed,
            origin,
            dir,
            hits@,
            translation,
            facing,
            r,
        ),
        r.translation.bounded(SIM_LIMIT as int),
        r.facing.bounded(SCALE as int),
        (r.begin matches Some(sig) ==> sig.spec_context().wf() && sig.entity == entity),
        (r.end matches Some(sig) ==> sig.entity == entity),
        // A single press cannot both begin and end a climb: detection reads
        // the mode as it stood at the start of the frame, and each mode
        // raises at most one kind of signal.
        !(r.begin is Some && r.end is Some),
{
    if !interact_just_pressed {
        return InteractionOutcome { begin: None, end: None, translation, facing };
    }
    match mode {
        Mode::OnLadder(_) => InteractionOutcome {
            begin: None,
            end: Some(LadderEndSignal { entity }),
            translation,
            facing,
        },
        Mode::Jumping => InteractionOutcome { begin: None, end: None, translation, facing },
        Mode::Grounded => {
            let n = hits.len();
            let mut idx: usize = 0;
            while idx < n
                invariant
                    n == hits@.len(),
                    0 <= idx <= n,
                    forall|j: int| 0 <= j < idx ==> !((#[trigger] hits@[j]).ladder is Some),
                    interact_just_pressed,
                    *mode is Grounded,
                    origin.in_world(),
                    dir.bounded(SCALE as int),
                    translation.bounded(SIM_LIMIT as int),
                    facing.bounded(SCALE as int),
                    forall|i: int| 0 <= i < hits@.len() ==> (#[trigger] hits@[i]).wf(),
                decreases n - idx,
            {
                let hit = &hits[idx];
                match &hit.ladder {
                    Some(l) => {
                        proof {
                            lemma_first_ladder_skip(hits@, idx as int);
                            assert(hits@.skip(idx as int)[0] == hits@[idx as int]);
                            assert(first_ladder(hits@) == Some(hits@[idx as int]));
                        }
                        let p = hit_point(origin, dir, hit.time_of_impact);
                        let c = ladder_center(p, l.position, l.face_normal);
                        let new_translation = Vec3 { x: c.x, y: translation.y, z: c.z };
                        let new_facing = if l.face_normal.x == 0 && l.face_normal.z == 0 {
                            facing
                        } else {
                            let planar = Vec3 { x: -l.face_normal.x, y: 0, z: -l.face_normal.z };
                            proof {
                                assert((planar.x as int) * (planar.x as int) + (planar.z as int)
                                    * (planar.z as int) > 0 <==> !(planar.x == 0 && planar.z
                                    == 0)) by (nonlinear_arith);
                            }
                            planar.normalize_or_zero()
                        };
                        let top_y: i64 = l.aabb_center_y + l.aabb_half_y;
                        let bottom_y: i64 = l.aabb_center_y - l.aabb_half_y + HALF_PLAYER_HEIGHT;
                        let sig = LadderBeginSignal {
                            entity,
                            face_normal: l.face_normal,
                            top: Vec3 { x: new_translation.x, y: top_y, z: new_translation.z },
                            bottom: Vec3 {
                                x: new_translation.x,
                                y: bottom_y,
                                z: new_translation.z,
                            },
                        };
                        return InteractionOutcome {
                            begin: Some(sig),
                            end: None,
                            translation: new_translation,
                            facing: new_facing,
                        };
                    },
                    None => {
                        idx += 1;
                    },
                }
            }
            proof {
                lemma_first_ladder_skip(hits@, n as int);
                assert(hits@.skip(n as int).len() == 0);
            }
            InteractionOutcome { begin: None, end: None, translation, facing }
        },
    }
}

/// Projecting onto the line of an axis-aligned unit face normal is
/// idempotent: re-running the alignment on an already aligned point gives
/// the same point, so re-triggering the same interaction against the same
/// ladder moves the character nowhere new.
pub proof fn lemma_alignment_idempotent(p: Vec3, pos: Vec3, n: Vec3, c: Vec3)
    requires
        axis_unit(n),
        c.x == proj_c(proj_dot(p.x as int, p.y as int, p.z as int, pos, n), pos.x as int, n.x as int),
        c.y == proj_c(proj_dot(p.x as int, p.y as int, p.z as int, pos, n), pos.y as int, n.y as int),
        c.z == proj_c(proj_dot(p.x as int, p.y as int, p.z as int, pos, n), pos.z as int, n.z as int),
    ensures
        c.x == proj_c(proj_dot(c.x as int, c.y as int, c.z as int, pos, n), pos.x as int, n.x as int),
        c.y == proj_c(proj_dot(c.x as int, c.y as int, c.z as int, pos, n), pos.y as int, n.y as int),
        c.z == proj_c(proj_dot(c.x as int, c.y as int, c.z as int, pos, n), pos.z as int, n.z as int),
{
    let d1 = proj_dot(p.x as int, p.y as int, p.z as int, pos, n);
    let d2 = proj_dot(c.x as int, c.y as int, c.z as int, pos, n);
    if iabs(n.x as int) == SCALE as int {
        lemma_dot_collapses(p.x as int, pos.x as int, d1, n.x as int, p.y as int, pos.y as int, n.y as int, p.z as int, pos.z as int, n.z as int);
        lemma_axis_core(p.x - pos.x, n.x as int, d1);
        lemma_zero_axis(d1, n.y as int);
        lemma_zero_axis(d1, n.z as int);
        assert(c.x == p.x && c.y == pos.y && c.z == pos.z);
        lemma_dot_collapses(c.x as int, pos.x as int, d2, n.x as int, c.y as int, pos.y as int, n.y as int, c.z as int, pos.z as int, n.z as int);
        assert(d2 == d1);
    } else if iabs(n.y as int) == SCALE as int {
        lemma_dot_collapses(p.y as int, pos.y as int, d1, n.y as int, p.x as int, pos.x as int, n.x as int, p.z as int, pos.z as int, n.z as int);
        lemma_axis_core(p.y - pos.y, n.y as int, d1);
        lemma_zero_axis(d1, n.x as int);
        lemma_zero_axis(d1, n.z as int);
        assert(c.y == p.y && c.x == pos.x && c.z == pos.z);
        lemma_dot_collapses(c.y as int, pos.y as int, d2, n.y as int, c.x as int, pos.x as int, n.x as int, c.z as int, pos.z as int, n.z as int);
        assert(d2 == d1);
    } else {
        lemma_dot_collapses(p.z as int, pos.z as int, d1, n.z as int, p.x as int, pos.x as int, n.x as int, p.y as int, pos.y as int, n.y as int);
        lemma_axis_core(p.z - pos.z, n.z as int, d1);
        lemma_zero_axis(d1, n.x as int);
        lemma_zero_axis(d1, n.y as int);
        assert(c.z == p.z && c.x == pos.x && c.y == pos.y);
        lemma_dot_collapses(c.z as int, pos.z as int, d2, n.z as int, c.x as int, pos.x as int, n.x as int, c.y as int, pos.y as int, n.y as int);
        assert(d2 == d1);
    }
}

/// A dot product against a normal with two zero components collapses to the
/// one remaining term.
proof fn lemma_dot_collapses(
    ta: int,
    posa: int,
    d: int,
    na: int,
    tb: int,
    posb: int,
    nb: int,
    tc: int,
    posc: int,
    nc: int,
)
    requires
        nb == 0,
        nc == 0,
        d == (ta - posa) * na + (tb - posb) * nb + (tc - posc) * nc,
    ensures
        d == (ta - posa) * na,
{
    assert((tb - posb) * nb == 0) by (nonlinear_arith)
        requires
            nb == 0,
    ;
    assert((tc - posc) * nc == 0) by (nonlinear_arith)
        requires
            nc == 0,
    ;
}

/// Projecting a one-axis dot product back along the same unit axis recovers
/// the offset it came from exactly.
proof fn lemma_axis_core(offa: int, na: int, d: int)
    requires
        iabs(na) == SCALE as int,
        d == offa * na,
    ensures
        tdiv(d * na, (SCALE as int) * (SCALE as int)) == offa,
{
    let s = SCALE as int;
    assert(d * na == offa * (s * s)) by (nonlinear_arith)
        requires
            d == offa * na,
            (na == s || na == -s),
    ;
    assert(s * s == 1_000_000) by (nonlinear_arith)
        requires
            s == 1000,
    ;
    crate::math::lemma_tdiv_exact(offa, s * s);
}

/// Any dot product projected along a zero normal component vanishes.
proof fn lemma_zero_axis(d: int, nb: int)
    requires
        nb == 0,
    ensures
        tdiv(d * nb, (SCALE as int) * (SCALE as int)) == 0,
{
    let s = SCALE as int;
    assert(d * nb == 0) by (nonlinear_arith)
        requires
            nb == 0,
    ;
    assert(s * s == 1_000_000) by (nonlinear_arith)
        requires
            s == 1000,
    ;
    vstd::arithmetic::div_mod::lemma_div_of0(1_000_000);
}

} // verus!
