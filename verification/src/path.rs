//! Path geometry: subpath accumulation and curve flattening.
//!
//! A [`Path`] is an ordered sequence of [`Subpath`]s; each subpath is an
//! ordered sequence of already-flattened device-space points plus a closed
//! flag and a winding tag. Points enter the path already transformed; the
//! context owns the transform and the user-space bookkeeping. A subpath
//! always holds at least one point: subpaths are only ever started by a
//! move, which supplies their first point.
//!
//! Curves are flattened by adaptive recursive subdivision: a cubic segment
//! is split at its midpoint until the deviation of the control points from
//! the chord is below the flattening tolerance, with a fixed depth limit.

use vstd::prelude::*;

use crate::fixed::Fx;
use crate::fixed::fx_abs;
use crate::fixed::fx_add;
use crate::fixed::fx_half;
use crate::fixed::fx_mul;
use crate::fixed::fx_sub;
use crate::state::Winding;

verus! {

/// The model of a subpath: its device-space points, closed flag and
/// winding tag.
#[verifier::ext_equal]
pub ghost struct SubModel {
    pub pts: Seq<(Fx, Fx)>,
    pub closed: bool,
    pub winding: Winding,
}

/// One subpath: flattened device-space points, whether a close command was
/// issued, and the winding tag deciding solid versus hole.
#[derive(Clone, Debug)]
pub struct Subpath {
    pub pts: Vec<(Fx, Fx)>,
    pub closed: bool,
    pub winding: Winding,
}

impl View for Subpath {
    type V = SubModel;

    open spec fn view(&self) -> SubModel {
        SubModel { pts: self.pts@, closed: self.closed, winding: self.winding }
    }
}

/// The model of a whole path: the models of its subpaths, in order.
pub open spec fn path_model(subs: Seq<Subpath>) -> Seq<SubModel> {
    subs.map_values(|s: Subpath| s@)
}

/// Every subpath of a well-formed path holds at least one point.
pub open spec fn path_wf(m: Seq<SubModel>) -> bool {
    forall|i: int| 0 <= i < m.len() ==> #[trigger] m[i].pts.len() >= 1
}

/// The whole current path: an ordered sequence of subpaths, owned by the
/// context and rebuilt fresh on every path begin.
#[derive(Clone, Debug)]
pub struct Path {
    pub subs: Vec<Subpath>,
}

impl View for Path {
    type V = Seq<SubModel>;

    open spec fn view(&self) -> Seq<SubModel> {
        path_model(self.subs@)
    }
}

/// The model update shared by the commands that rewrite the last subpath.
pub open spec fn updated_last(m: Seq<SubModel>, s: SubModel) -> Seq<SubModel> {
    m.update(m.len() - 1, s)
}

impl Path {
    /// An empty path.
    pub fn new() -> (r: Path)
        ensures
            r@ =~= Seq::<SubModel>::empty(),
    {
        Path { subs: Vec::new() }
    }

    /// Removes every subpath.
    pub fn clear(&mut self)
        ensures
            final(self)@ =~= Seq::<SubModel>::empty(),
    {
        self.subs.clear();
    }

    /// Whether the path holds no subpath at all.
    pub fn is_empty(&self) -> (r: bool)
        ensures
            r == (self@.len() == 0),
    {
        self.subs.len() == 0
    }

    /// Starts a new subpath at the given device-space point, tagged solid
    /// and open.
    pub fn move_to(&mut self, x: Fx, y: Fx)
        ensures
            final(self)@ =~= old(self)@.push(
                SubModel { pts: seq![(x, y)], closed: false, winding: Winding::CCW },
            ),
    {
        let mut pts: Vec<(Fx, Fx)> = Vec::new();
        pts.push((x, y));
        self.subs.push(Subpath { pts, closed: false, winding: Winding::CCW });
        proof {
            assert(self@ =~= old(self)@.push(
                SubModel { pts: seq![(x, y)], closed: false, winding: Winding::CCW },
            ));
        }
    }

    /// Appends a device-space point to the last subpath; with no subpath to
    /// extend, the command is silently ignored, matching an immediate-mode
    /// API's tolerance for malformed call sequences.
    pub fn line_to(&mut self, x: Fx, y: Fx)
        ensures
            old(self)@.len() == 0 ==> *final(self) == *old(self),
            old(self)@.len() > 0 ==> final(self)@ =~= updated_last(
                old(self)@,
                SubModel {
                    pts: old(self)@.last().pts.push((x, y)),
                    closed: old(self)@.last().closed,
                    winding: old(self)@.last().winding,
                },
            ),
    {
        if self.subs.len() > 0 {
            let mut sub: Subpath = self.subs.pop().unwrap();
            sub.pts.push((x, y));
            self.subs.push(sub);
            proof {
                assert(self@ =~= updated_last(
                    old(self)@,
                    SubModel {
                        pts: old(self)@.last().pts.push((x, y)),
                        closed: old(self)@.last().closed,
                        winding: old(self)@.last().winding,
                    },
                ));
            }
        }
    }

    /// Marks the last subpath closed; ignored on an empty path.
    pub fn close(&mut self)
        ensures
            old(self)@.len() == 0 ==> *final(self) == *old(self),
            old(self)@.len() > 0 ==> final(self)@ =~= updated_last(
                old(self)@,
                SubModel {
                    pts: old(self)@.last().pts,
                    closed: true,
                    winding: old(self)@.last().winding,
                },
            ),
    {
        if self.subs.len() > 0 {
            let mut sub: Subpath = self.subs.pop().unwrap();
            sub.closed = true;
            self.subs.push(sub);
            proof {
                assert(self@ =~= updated_last(
                    old(self)@,
                    SubModel {
                        pts: old(self)@.last().pts,
                        closed: true,
                        winding: old(self)@.last().winding,
                    },
                ));
            }
        }
    }

    /// Tags the most recently started subpath's winding; ignored on an
    /// empty path.
    pub fn set_winding(&mut self, w: Winding)
        ensures
            old(self)@.len() == 0 ==> *final(self) == *old(self),
            old(self)@.len() > 0 ==> final(self)@ =~= updated_last(
                old(self)@,
                SubModel {
                    pts: old(self)@.last().pts,
                    closed: old(self)@.last().closed,
                    winding: w,
                },
            ),
    {
        if self.subs.len() > 0 {
            let mut sub: Subpath = self.subs.pop().unwrap();
            sub.winding = w;
            self.subs.push(sub);
            proof {
                assert(self@ =~= updated_last(
                    old(self)@,
                    SubModel {
                        pts: old(self)@.last().pts,
                        closed: old(self)@.last().closed,
                        winding: w,
                    },
                ));
            }
        }
    }

    /// The last point of the last subpath, if any.
    pub fn last_point(&self) -> (r: Option<(Fx, Fx)>)
        requires
            path_wf(self@),
        ensures
            self@.len() == 0 ==> r is None,
            self@.len() > 0 ==> r == Some(self@.last().pts.last()),
    {
        let n: usize = self.subs.len();
        if n == 0 {
            None
        } else {
            let sub: &Subpath = &self.subs[n - 1];
            proof {
                assert(self@[n - 1] == self.subs@[n - 1]@);
                assert(self@[n - 1].pts.len() >= 1);
            }
            let m: usize = sub.pts.len();
            Some(sub.pts[m - 1])
        }
    }

    /// Flattens a cubic Bezier segment from the current point `(x1, y1)`
    /// through the control points `(x2, y2)`, `(x3, y3)` to `(x4, y4)`,
    /// appending exactly the run [`tess_spec`] describes to the last
    /// subpath. `tol` is the flattening tolerance. With no subpath open the
    /// command is silently ignored.
    pub fn bezier_to(
        &mut self,
        x1: Fx,
        y1: Fx,
        x2: Fx,
        y2: Fx,
        x3: Fx,
        y3: Fx,
        x4: Fx,
        y4: Fx,
        tol: Fx,
    )
        ensures
            old(self)@.len() == 0 ==> *final(self) == *old(self),
            old(self)@.len() > 0 ==> final(self)@ =~= updated_last(
                old(self)@,
                SubModel {
                    pts: old(self)@.last().pts + tess_spec(x1, y1, x2, y2, x3, y3, x4, y4, tol, 0),
                    closed: old(self)@.last().closed,
                    winding: old(self)@.last().winding,
                },
            ),
            old(self)@.len() > 0 ==> appended_to_last(old(self)@, final(self)@, (x4, y4)),
    {
        if self.subs.len() > 0 {
            self.tess_bezier(x1, y1, x2, y2, x3, y3, x4, y4, tol, 0);
        }
    }

    /// Recursive adaptive subdivision: splits the segment at its midpoint
    /// until the control-point deviation from the chord is below `tol` or
    /// the depth limit is reached, then appends the endpoint; the appended
    /// run is exactly [`tess_spec`].
    #[verifier::rlimit(100)]
    fn tess_bezier(
        &mut self,
        x1: Fx,
        y1: Fx,
        x2: Fx,
        y2: Fx,
        x3: Fx,
        y3: Fx,
        x4: Fx,
        y4: Fx,
        tol: Fx,
        level: u32,
    )
        requires
            old(self)@.len() > 0,
            level <= 10,
        ensures
            final(self)@ =~= updated_last(
                old(self)@,
                SubModel {
                    pts: old(self)@.last().pts + tess_spec(
                        x1,
                        y1,
                        x2,
                        y2,
                        x3,
                        y3,
                        x4,
                        y4,
                        tol,
                        level,
                    ),
                    closed: old(self)@.last().closed,
                    winding: old(self)@.last().winding,
                },
            ),
            appended_to_last(old(self)@, final(self)@, (x4, y4)),
        decreases 10 - level,
    {
        let ghost run = tess_spec(x1, y1, x2, y2, x3, y3, x4, y4, tol, level);
        let dx: Fx = fx_sub(x4, x1);
        let dy: Fx = fx_sub(y4, y1);
        let d2: Fx = fx_abs(fx_sub(fx_mul(fx_sub(x2, x4), dy), fx_mul(fx_sub(y2, y4), dx)));
        let d3: Fx = fx_abs(fx_sub(fx_mul(fx_sub(x3, x4), dy), fx_mul(fx_sub(y3, y4), dx)));
        let dev: Fx = fx_add(d2, d3);
        let chord2: Fx = fx_add(fx_mul(dx, dx), fx_mul(dy, dy));
        proof {
            assert(dx == fxi_sub(x4, x1) && dy == fxi_sub(y4, y1));
            assert(d2 == fxi_abs(
                fxi_sub(fxi_mul(fxi_sub(x2, x4), dy), fxi_mul(fxi_sub(y2, y4), dx)),
            ));
            assert(d3 == fxi_abs(
                fxi_sub(fxi_mul(fxi_sub(x3, x4), dy), fxi_mul(fxi_sub(y3, y4), dx)),
            ));
            assert(dev == fxi_add(d2, d3));
            assert(chord2 == fxi_add(fxi_mul(dx, dx), fxi_mul(dy, dy)));
        }
        let dev2: Fx = fx_mul(dev, dev);
        let bound: Fx = fx_mul(tol, chord2);
        proof {
            assert(dev2 == fxi_mul(dev, dev) && bound == fxi_mul(tol, chord2));
        }
        if level == 10 || dev2 < bound {
            proof {
                assert(run =~= seq![(x4, y4)]);
            }
            self.line_to(x4, y4);
            proof {
                assert(self@.last().pts =~= old(self)@.last().pts + run);
                assert(self@ =~~= updated_last(
                    old(self)@,
                    SubModel {
                        pts: old(self)@.last().pts + run,
                        closed: old(self)@.last().closed,
                        winding: old(self)@.last().winding,
                    },
                ));
                lemma_tess_ends(x1, y1, x2, y2, x3, y3, x4, y4, tol, level);
                lemma_exact_append(old(self)@, self@, run, (x4, y4));
            }
        } else {
            let x12: Fx = fx_half(fx_add(x1, x2));
            let y12: Fx = fx_half(fx_add(y1, y2));
            let x23: Fx = fx_half(fx_add(x2, x3));
            let y23: Fx = fx_half(fx_add(y2, y3));
            let x34: Fx = fx_half(fx_add(x3, x4));
            let y34: Fx = fx_half(fx_add(y3, y4));
            let x123: Fx = fx_half(fx_add(x12, x23));
            let y123: Fx = fx_half(fx_add(y12, y23));
            let x234: Fx = fx_half(fx_add(x23, x34));
            let y234: Fx = fx_half(fx_add(y23, y34));
            let x1234: Fx = fx_half(fx_add(x123, x234));
            let y1234: Fx = fx_half(fx_add(y123, y234));
            proof {
                assert(x12 == fxi_mid(x1, x2) && y12 == fxi_mid(y1, y2) && x23 == fxi_mid(x2, x3)
                    && y23 == fxi_mid(y2, y3) && x34 == fxi_mid(x3, x4) && y34 == fxi_mid(y3, y4));
                assert(x123 == fxi_mid(x12, x23) && y123 == fxi_mid(y12, y23) && x234 == fxi_mid(
                    x23,
                    x34,
                ) && y234 == fxi_mid(y23, y34) && x1234 == fxi_mid(x123, x234) && y1234
                    == fxi_mid(y123, y234));
                assert(run =~= tess_spec(
                    x1,
                    y1,
                    x12,
                    y12,
                    x123,
                    y123,
                    x1234,
                    y1234,
                    tol,
                    (level + 1) as u32,
                ) + tess_spec(x1234, y1234, x234, y234, x34, y34, x4, y4, tol, (level + 1) as u32));
            }
            self.tess_bezier(x1, y1, x12, y12, x123, y123, x1234, y1234, tol, level + 1);
            self.tess_bezier(x1234, y1234, x234, y234, x34, y34, x4, y4, tol, level + 1);
            proof {
                assert(self@.last().pts =~= old(self)@.last().pts + run);
                assert(self@ =~~= updated_last(
                    old(self)@,
                    SubModel {
                        pts: old(self)@.last().pts + run,
                        closed: old(self)@.last().closed,
                        winding: old(self)@.last().winding,
                    },
                ));
                lemma_tess_ends(x1, y1, x2, y2, x3, y3, x4, y4, tol, level);
                lemma_exact_append(old(self)@, self@, run, (x4, y4));
            }
        }
    }
}

/// Fixed-point addition at the representation level: `i64` in, `i64` out.
pub open spec fn fxi_add(a: Fx, b: Fx) -> Fx {
    crate::fixed::fx_add_spec(a as int, b as int) as i64
}

/// Fixed-point subtraction at the representation level.
pub open spec fn fxi_sub(a: Fx, b: Fx) -> Fx {
    crate::fixed::fx_sub_spec(a as int, b as int) as i64
}

/// Fixed-point multiplication at the representation level.
pub open spec fn fxi_mul(a: Fx, b: Fx) -> Fx {
    crate::fixed::fx_mul_spec(a as int, b as int) as i64
}

/// Saturated magnitude at the representation level.
pub open spec fn fxi_abs(a: Fx) -> Fx {
    crate::fixed::fx_clip(crate::fixed::abs_i(a as int)) as i64
}

/// The midpoint of two scalars, as the flattening computes it.
pub open spec fn fxi_mid(a: Fx, b: Fx) -> Fx {
    crate::fixed::fx_half_spec(crate::fixed::fx_add_spec(a as int, b as int)) as i64
}

/// The flatness test of the adaptive subdivision: the deviation of the two
/// control points from the chord, squared, is below the tolerance times
/// the squared chord length.
pub open spec fn tess_flat(
    x1: Fx,
    y1: Fx,
    x2: Fx,
    y2: Fx,
    x3: Fx,
    y3: Fx,
    x4: Fx,
    y4: Fx,
    tol: Fx,
) -> bool {
    let dx = fxi_sub(x4, x1);
    let dy = fxi_sub(y4, y1);
    let d2 = fxi_abs(fxi_sub(fxi_mul(fxi_sub(x2, x4), dy), fxi_mul(fxi_sub(y2, y4), dx)));
    let d3 = fxi_abs(fxi_sub(fxi_mul(fxi_sub(x3, x4), dy), fxi_mul(fxi_sub(y3, y4), dx)));
    let dev = fxi_add(d2, d3);
    let chord2 = fxi_add(fxi_mul(dx, dx), fxi_mul(dy, dy));
    fxi_mul(dev, dev) < fxi_mul(tol, chord2)
}

/// The polyline the adaptive subdivision produces for one cubic segment
/// from `(x1, y1)` through the control points to `(x4, y4)`: while the
/// segment is not flat and the depth limit is not reached, split it at its
/// midpoint and concatenate the two halves' runs; a finished segment
/// contributes exactly its endpoint. The run always ends at `(x4, y4)`.
pub open spec fn tess_spec(
    x1: Fx,
    y1: Fx,
    x2: Fx,
    y2: Fx,
    x3: Fx,
    y3: Fx,
    x4: Fx,
    y4: Fx,
    tol: Fx,
    level: u32,
) -> Seq<(Fx, Fx)>
    decreases 10 - level,
{
    if level >= 10 || tess_flat(x1, y1, x2, y2, x3, y3, x4, y4, tol) {
        seq![(x4, y4)]
    } else {
        let x12 = fxi_mid(x1, x2);
        let y12 = fxi_mid(y1, y2);
        let x23 = fxi_mid(x2, x3);
        let y23 = fxi_mid(y2, y3);
        let x34 = fxi_mid(x3, x4);
        let y34 = fxi_mid(y3, y4);
        let x123 = fxi_mid(x12, x23);
        let y123 = fxi_mid(y12, y23);
        let x234 = fxi_mid(x23, x34);
        let y234 = fxi_mid(y23, y34);
        let x1234 = fxi_mid(x123, x234);
        let y1234 = fxi_mid(y123, y234);
        tess_spec(x1, y1, x12, y12, x123, y123, x1234, y1234, tol, (level + 1) as u32)
            + tess_spec(x1234, y1234, x234, y234, x34, y34, x4, y4, tol, (level + 1) as u32)
    }
}

/// A flattening run is never empty and ends exactly at the segment's
/// endpoint.
pub proof fn lemma_tess_ends(
    x1: Fx,
    y1: Fx,
    x2: Fx,
    y2: Fx,
    x3: Fx,
    y3: Fx,
    x4: Fx,
    y4: Fx,
    tol: Fx,
    level: u32,
)
    requires
        level <= 10,
    ensures
        tess_spec(x1, y1, x2, y2, x3, y3, x4, y4, tol, level).len() >= 1,
        tess_spec(x1, y1, x2, y2, x3, y3, x4, y4, tol, level).last() == (x4, y4),
    decreases 10 - level,
{
    if !(level >= 10 || tess_flat(x1, y1, x2, y2, x3, y3, x4, y4, tol)) {
        let x12 = fxi_mid(x1, x2);
        let y12 = fxi_mid(y1, y2);
        let x23 = fxi_mid(x2, x3);
        let y23 = fxi_mid(y2, y3);
        let x34 = fxi_mid(x3, x4);
        let y34 = fxi_mid(y3, y4);
        let x123 = fxi_mid(x12, x23);
        let y123 = fxi_mid(y12, y23);
        let x234 = fxi_mid(x23, x34);
        let y234 = fxi_mid(y23, y34);
        let x1234 = fxi_mid(x123, x234);
        let y1234 = fxi_mid(y123, y234);
        lemma_tess_ends(x1, y1, x12, y12, x123, y123, x1234, y1234, tol, (level + 1) as u32);
        lemma_tess_ends(x1234, y1234, x234, y234, x34, y34, x4, y4, tol, (level + 1) as u32);
    }
}

/// Deriving the structural append relation from the exact one.
proof fn lemma_exact_append(
    before: Seq<SubModel>,
    after: Seq<SubModel>,
    run: Seq<(Fx, Fx)>,
    q: (Fx, Fx),
)
    requires
        before.len() > 0,
        run.len() >= 1,
        run.last() == q,
        after =~= updated_last(
            before,
            SubModel {
                pts: before.last().pts + run,
                closed: before.last().closed,
                winding: before.last().winding,
            },
        ),
    ensures
        appended_to_last(before, after, q),
{
    assert(after.last().pts.subrange(0, before.last().pts.len() as int) =~= before.last().pts);
    assert(after.last().pts.last() == q);
}

/// The relation a flattening step leaves behind: the subpath list keeps its
/// length, every earlier subpath is untouched, the last subpath keeps its
/// flag, tag and existing points, gains at least one point, and now ends at
/// `last`.
pub open spec fn appended_to_last(
    before: Seq<SubModel>,
    after: Seq<SubModel>,
    last: (Fx, Fx),
) -> bool {
    &&& before.len() > 0
    &&& after.len() == before.len()
    &&& forall|i: int| 0 <= i < before.len() - 1 ==> after[i] == #[trigger] before[i]
    &&& after.last().closed == before.last().closed
    &&& after.last().winding == before.last().winding
    &&& after.last().pts.len() > before.last().pts.len()
    &&& after.last().pts.subrange(0, before.last().pts.len() as int) =~= before.last().pts
    &&& after.last().pts.last() == last
}

/// Two flattening steps in sequence still relate as one flattening step.
proof fn lemma_appended_trans(
    before: Seq<SubModel>,
    mid: Seq<SubModel>,
    after: Seq<SubModel>,
    mid_pt: (Fx, Fx),
    last_pt: (Fx, Fx),
)
    requires
        appended_to_last(before, mid, mid_pt),
        appended_to_last(mid, after, last_pt),
    ensures
        appended_to_last(before, after, last_pt),
{
    assert(after.last().pts.subrange(0, before.last().pts.len() as int) =~= before.last().pts)
        by {
        assert(forall|j: int|
            0 <= j < mid.last().pts.len() ==> after.last().pts[j] == #[trigger] mid.last().pts[j]);
        assert(forall|j: int|
            0 <= j < before.last().pts.len() ==> mid.last().pts[j] == #[trigger] before.last(
            ).pts[j]);
    };
}

} // verus!
