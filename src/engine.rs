use vstd::prelude::*;

use crate::float::{eq, lt, spec_eq, spec_lt};
use crate::shapes::{Color, Construction, Point};
use crate::tools::{Compass, Measures, Tool};

verus! {

/// The binary32 encoding of `1.0`, the stroke width of a new session.
pub const DEFAULT_WIDTH: u32 = 0x3f80_0000;

/// The binary32 encoding of `0.1`, the snap radius of a new session.
pub const DEFAULT_SNAP_RADIUS: u32 = 0x3dcc_cccd;

/// The points cached by `cs`, construction by construction, in order.
pub open spec fn cached(cs: Seq<Construction>) -> Seq<Point>
    decreases cs.len(),
{
    if cs.len() == 0 {
        Seq::empty()
    } else {
        cached(cs.drop_last()) + cs.last().intersections@
    }
}

/// The point lists of `s` one after another.
pub open spec fn joined(s: Seq<Seq<Point>>) -> Seq<Point>
    decreases s.len(),
{
    if s.len() == 0 {
        Seq::empty()
    } else {
        joined(s.drop_last()) + s.last()
    }
}

/// The views of a list of point lists.
pub open spec fn views(s: Seq<Vec<Point>>) -> Seq<Seq<Point>> {
    s.map_values(|v: Vec<Point>| v@)
}

/// Whether `p` equals, coordinate by coordinate and as numbers, one of `ignore`.
pub open spec fn is_ignored(ignore: Seq<Point>, p: Point) -> bool {
    exists|j: int|
        0 <= j < ignore.len() && spec_eq(#[trigger] ignore[j].x, p.x) && spec_eq(ignore[j].y, p.y)
}

/// The index of the nearest point among the first `n` of `pts` that is not
/// ignored, where `dists[k]` is the squared distance of `pts[k]` from the
/// probe: the first one found, replaced only by a later one that is strictly
/// nearer.
pub open spec fn closest_among(pts: Seq<Point>, dists: Seq<u32>, ignore: Seq<Point>, n: nat) -> Option<
    int,
>
    decreases n,
{
    if n == 0 {
        None
    } else {
        let best = closest_among(pts, dists, ignore, (n - 1) as nat);
        let k = n - 1;
        if is_ignored(ignore, pts[k]) {
            best
        } else {
            match best {
                None => Some(k),
                Some(b) => if spec_lt(dists[k], dists[b]) {
                    Some(k)
                } else {
                    best
                },
            }
        }
    }
}

proof fn lemma_closest_in_range(pts: Seq<Point>, dists: Seq<u32>, ignore: Seq<Point>, n: nat)
    ensures
        match closest_among(pts, dists, ignore, n) {
            Some(k) => 0 <= k < n,
            None => true,
        },
    decreases n,
{
    if n > 0 {
        lemma_closest_in_range(pts, dists, ignore, (n - 1) as nat);
    }
}

/// The point that `closest_among` picks is not ignored and no point that is
/// not ignored is strictly nearer; it finds none only where every point is
/// ignored.
pub proof fn closest_is_nearest(pts: Seq<Point>, dists: Seq<u32>, ignore: Seq<Point>, n: nat)
    requires
        n <= pts.len(),
        n <= dists.len(),
    ensures
        match closest_among(pts, dists, ignore, n) {
            Some(b) => {
                &&& 0 <= b < n
                &&& !is_ignored(ignore, pts[b])
                &&& forall|k: int|
                    0 <= k < n && !is_ignored(ignore, pts[k]) ==> !spec_lt(
                        #[trigger] dists[k],
                        dists[b],
                    )
            },
            None => forall|k: int| 0 <= k < n ==> is_ignored(ignore, #[trigger] pts[k]),
        },
    decreases n,
{
    if n > 0 {
        closest_is_nearest(pts, dists, ignore, (n - 1) as nat);
    }
}

/// Where a click at `mouse` lands: on the nearest cached point that is not
/// ignored, when its squared distance `dists[k]` is not above `radius_sq`;
/// else on `mouse` itself.
pub open spec fn snapped(
    pts: Seq<Point>,
    dists: Seq<u32>,
    ignore: Seq<Point>,
    mouse: Point,
    radius_sq: u32,
) -> Point {
    match closest_among(pts, dists, ignore, dists.len()) {
        Some(k) => if spec_lt(radius_sq, dists[k]) {
            mouse
        } else {
            pts[k]
        },
        None => mouse,
    }
}

/// Counts for display: cached intersection points (capped at `usize::MAX`),
/// collected points and placed constructions.
#[derive(Clone, Copy, Debug, PartialEq, Eq, Structural)]
pub struct EngineStats {
    pub num_intersections: usize,
    pub num_points: usize,
    pub num_constructions: usize,
}

impl EngineStats {
    /// The counts of `engine`.
    pub fn from(engine: &Engine) -> (r: EngineStats)
        ensures
            r.num_intersections == if cached(engine@.constructions).len() <= usize::MAX {
                cached(engine@.constructions).len()
            } else {
                usize::MAX as nat
            },
            r.num_points == engine@.points.len(),
            r.num_constructions == engine@.constructions.len(),
    {
        let cs = &engine.constructions;
        let mut total: usize = 0;
        let n = cs.len();
        for i in 0..n
            invariant
                n == cs@.len(),
                total == if cached(cs@.take(i as int)).len() <= usize::MAX {
                    cached(cs@.take(i as int)).len()
                } else {
                    usize::MAX as nat
                },
        {
            assert(cs@.take(i + 1).drop_last() =~= cs@.take(i as int));
            let len = cs[i].intersections.len();
            if total > usize::MAX - len {
                total = usize::MAX;
            } else {
                total = total + len;
            }
        }
        assert(cs@.take(n as int) =~= cs@);
        EngineStats {
            num_intersections: total,
            num_points: engine.points.len(),
            num_constructions: engine.constructions.len(),
        }
    }
}

/// One undoable step: a construction taken off alone, or a whole list at once.
#[derive(Debug)]
pub enum RedoFrame {
    Single(Construction),
    Group(Vec<Construction>),
}

impl RedoFrame {
    /// The constructions that the frame holds, in their order.
    pub open spec fn members(self) -> Seq<Construction> {
        match self {
            RedoFrame::Single(c) => seq![c],
            RedoFrame::Group(v) => v@,
        }
    }

    /// The frame's constructions, to be put back.
    pub fn constructions(self) -> (r: Vec<Construction>)
        ensures
            r@ == self.members(),
    {
        match self {
            RedoFrame::Single(c) => vec![c],
            RedoFrame::Group(v) => v,
        }
    }
}

/// The state of one construction session, as a value.
pub struct EngineView {
    pub points: Seq<Point>,
    pub constructions: Seq<Construction>,
    pub redo: Seq<Seq<Construction>>,
    pub tool: Tool,
    pub layer: String,
    pub color: Color,
    pub width: u32,
    pub snap_radius: u32,
    pub show_intersections: bool,
}

/// A construction session: the placed constructions, the points collected
/// towards the next one, the undone steps, and the style that new
/// constructions get.
pub struct Engine {
    pub points: Vec<Point>,
    pub constructions: Vec<Construction>,
    pub redo_stack: Vec<RedoFrame>,
    pub current_tool: Tool,
    pub current_layer: String,
    pub current_color: Color,
    pub current_width: u32,
    pub snap_radius: u32,
    pub show_intersections: bool,
}

impl Engine {
    /// The undone steps, oldest first, each as the list it restores.
    pub open spec fn redo_frames(&self) -> Seq<Seq<Construction>> {
        self.redo_stack@.map_values(|f: RedoFrame| f.members())
    }
}

impl View for Engine {
    type V = EngineView;

    open spec fn view(&self) -> EngineView {
        EngineView {
            points: self.points@,
            constructions: self.constructions@,
            redo: self.redo_frames(),
            tool: self.current_tool,
            layer: self.current_layer,
            color: self.current_color,
            width: self.current_width,
            snap_radius: self.snap_radius,
            show_intersections: self.show_intersections,
        }
    }
}

impl EngineView {
    /// The session after `undo`.
    pub open spec fn undone(self) -> EngineView {
        if self.constructions.len() == 0 {
            self
        } else {
            EngineView {
                constructions: self.constructions.drop_last(),
                redo: self.redo.push(seq![self.constructions.last()]),
                ..self
            }
        }
    }

    /// The session after `redo`.
    pub open spec fn redone(self) -> EngineView {
        if self.redo.len() == 0 {
            self
        } else {
            EngineView {
                constructions: self.constructions + self.redo.last(),
                redo: self.redo.drop_last(),
                ..self
            }
        }
    }

    /// Whether one more point makes the buffer exactly as long as the current
    /// tool's input.
    pub open spec fn completes_with_next(self) -> bool {
        self.points.len() + 1 == self.tool.spec_num_points() as int
    }

    /// The session after a click at `point`: the point joins the buffer;
    /// when that fills the tool's input, the buffer is emptied and the
    /// tool's shape is placed, in the current style, with the points of
    /// `found` as its intersections.
    pub open spec fn clicked(
        self,
        point: Point,
        m: Measures,
        found: Seq<Seq<Point>>,
        post: EngineView,
    ) -> bool {
        let pts = self.points.push(point);
        if self.completes_with_next() {
            &&& post == (EngineView {
                points: Seq::empty(),
                constructions: post.constructions,
                ..self
            })
            &&& post.constructions.len() == self.constructions.len() + 1
            &&& post.constructions.drop_last() == self.constructions
            &&& post.constructions.last().shape == self.tool.spec_shape(pts, m)
            &&& post.constructions.last().layer == self.layer
            &&& post.constructions.last().color == self.color
            &&& post.constructions.last().width == self.width
            &&& post.constructions.last().intersections@ == joined(found)
        } else {
            post == (EngineView { points: pts, ..self })
        }
    }

    /// The session after `clear`.
    pub open spec fn cleared(self) -> EngineView {
        EngineView {
            points: Seq::empty(),
            constructions: Seq::empty(),
            redo: self.redo.push(self.constructions),
            ..self
        }
    }
}

/// Undoing and then redoing puts the construction list back as it was, each
/// construction with the very intersection list that it had. (With nothing
/// placed, undo does nothing and redo would restore an older step.)
pub proof fn undo_then_redo_restores(s: EngineView)
    requires
        s.constructions.len() > 0,
    ensures
        s.undone().redone().redo == s.redo,
        s.undone().redone().constructions == s.constructions,
{
    assert(s.constructions.drop_last() + seq![s.constructions.last()] =~= s.constructions);
    assert(s.redo.push(seq![s.constructions.last()]).drop_last() =~= s.redo);
}

/// Clearing and then redoing puts the whole construction list back as it
/// was, in one step.
pub proof fn clear_then_redo_restores(s: EngineView)
    ensures
        s.cleared().redone().constructions == s.constructions,
        s.cleared().redone().redo == s.redo,
{
    assert(Seq::<Construction>::empty() + s.constructions =~= s.constructions);
    assert(s.redo.push(s.constructions).drop_last() =~= s.redo);
}

/// The click law's premise: `states` runs from `states[0]` through one click
/// per step, at `points[i]` with `measures[i]` and `found[i]`.
pub open spec fn click_run(
    states: Seq<EngineView>,
    points: Seq<Point>,
    measures: Seq<Measures>,
    found: Seq<Seq<Seq<Point>>>,
) -> bool {
    &&& states.len() == points.len() + 1
    &&& measures.len() == points.len()
    &&& found.len() == points.len()
    &&& forall|i: int|
        0 <= i < points.len() ==> #[trigger] states[i].clicked(
            points[i],
            measures[i],
            found[i],
            states[i + 1],
        )
}

proof fn lemma_clicks_short_of_count(
    states: Seq<EngineView>,
    points: Seq<Point>,
    measures: Seq<Measures>,
    found: Seq<Seq<Seq<Point>>>,
    k: int,
)
    requires
        click_run(states, points, measures, found),
        states[0].points.len() == 0,
        0 <= k < states[0].tool.spec_num_points(),
        k < states.len(),
    ensures
        states[k].points == points.take(k),
        states[k].constructions == states[0].constructions,
        states[k].tool == states[0].tool,
    decreases k,
{
    if k > 0 {
        lemma_clicks_short_of_count(states, points, measures, found, k - 1);
        assert(states[k - 1].clicked(points[k - 1], measures[k - 1], found[k - 1], states[k]));
        assert(points.take(k - 1).push(points[k - 1]) =~= points.take(k));
    } else {
        assert(points.take(0) =~= Seq::<Point>::empty());
    }
}

/// Starting from an empty buffer, each click short of the tool's count keeps
/// its point in the buffer and places nothing; the click that reaches the
/// count places exactly one construction and leaves the buffer empty.
pub proof fn clicks_fill_tool_input(
    states: Seq<EngineView>,
    points: Seq<Point>,
    measures: Seq<Measures>,
    found: Seq<Seq<Seq<Point>>>,
)
    requires
        click_run(states, points, measures, found),
        states[0].points.len() == 0,
        points.len() == states[0].tool.spec_num_points(),
    ensures
        forall|k: int|
            0 <= k < points.len() ==> (#[trigger] states[k]).points.len() == k
                && states[k].constructions == states[0].constructions,
        states.last().points.len() == 0,
        states.last().constructions.len() == states[0].constructions.len() + 1,
        states.last().constructions.drop_last() == states[0].constructions,
{
    let n = points.len() as int;
    assert forall|k: int| 0 <= k < n implies (#[trigger] states[k]).points.len() == k
        && states[k].constructions == states[0].constructions by {
        lemma_clicks_short_of_count(states, points, measures, found, k);
    }
    lemma_clicks_short_of_count(states, points, measures, found, n - 1);
    assert(states[n - 1].clicked(points[n - 1], measures[n - 1], found[n - 1], states[n]));
}

impl Engine {
    /// A session with nothing placed, the compass selected, "Layer 1", the
    /// given colour, width one and snap radius one tenth.
    pub fn new(color: Color) -> (e: Engine)
        ensures
            e@.points.len() == 0,
            e@.constructions.len() == 0,
            e@.redo.len() == 0,
            e@.tool == Tool::Compass(Compass),
            e@.layer@ == "Layer 1"@,
            e@.color == color,
            e@.width == DEFAULT_WIDTH,
            e@.snap_radius == DEFAULT_SNAP_RADIUS,
            e@.show_intersections,
    {
        let e = Engine {
            points: Vec::new(),
            constructions: Vec::new(),
            redo_stack: Vec::new(),
            current_tool: Tool::Compass(Compass),
            current_layer: "Layer 1".to_owned(),
            current_color: color,
            current_width: DEFAULT_WIDTH,
            snap_radius: DEFAULT_SNAP_RADIUS,
            show_intersections: true,
        };
        assert(e.redo_frames() =~= Seq::empty());
        e
    }

    /// Drops the collected points without making a construction.
    pub fn clear_points(&mut self)
        ensures
            final(self)@ == (EngineView { points: Seq::empty(), ..old(self)@ }),
    {
        self.points.clear();
    }

    /// Takes the last construction off, as one undoable step.
    pub fn undo(&mut self)
        ensures
            final(self)@ == old(self)@.undone(),
    {
        let ghost before = self.redo_frames();
        if let Some(construction) = self.constructions.pop() {
            self.redo_stack.push(RedoFrame::Single(construction));
            assert(self.redo_frames() =~= before.push(seq![construction]));
        }
    }

    /// Puts back the constructions of the last undone step, as they were.
    pub fn redo(&mut self)
        ensures
            final(self)@ == old(self)@.redone(),
    {
        let ghost before = self.redo_frames();
        if let Some(frame) = self.redo_stack.pop() {
            let ghost members = frame.members();
            assert(self.redo_frames() =~= before.drop_last());
            let mut restored = frame.constructions();
            self.constructions.append(&mut restored);
            assert(self.constructions@ == old(self).constructions@ + members);
        }
    }

    /// Takes every construction off as one undoable step, and drops the
    /// collected points.
    pub fn clear(&mut self)
        ensures
            final(self)@ == old(self)@.cleared(),
    {
        let ghost before = self.redo_frames();
        let mut all: Vec<Construction> = Vec::new();
        std::mem::swap(&mut all, &mut self.constructions);
        let ghost all_view = all@;
        self.redo_stack.push(RedoFrame::Group(all));
        assert(self.redo_frames() =~= before.push(all_view));
        self.points.clear();
    }

    /// Places `construction` with a fresh intersection list: the points in
    /// `found`, one after another, where `found[i]` holds where its shape
    /// meets that of the `i`-th construction already placed. Whatever list
    /// the given construction carried is dropped.
    pub fn add_construction(&mut self, construction: Construction, found: Vec<Vec<Point>>)
        requires
            found@.len() == old(self).constructions@.len(),
        ensures
            final(self)@ == (EngineView { constructions: final(self)@.constructions, ..old(self)@ }),
            final(self)@.constructions.len() == old(self)@.constructions.len() + 1,
            final(self)@.constructions.drop_last() == old(self)@.constructions,
            final(self)@.constructions.last().shape == construction.shape,
            final(self)@.constructions.last().layer == construction.layer,
            final(self)@.constructions.last().color == construction.color,
            final(self)@.constructions.last().width == construction.width,
            final(self)@.constructions.last().intersections@ == joined(views(found@)),
    {
        let mut placed = construction;
        placed.intersections = Vec::new();
        let ghost start = placed.intersections@;
        let n = found.len();
        for i in 0..n
            invariant
                n == found@.len(),
                placed.shape == construction.shape,
                placed.layer == construction.layer,
                placed.color == construction.color,
                placed.width == construction.width,
                start == Seq::<Point>::empty(),
                placed.intersections@ == start + joined(views(found@.take(i as int))),
        {
            let ghost before = placed.intersections@;
            let m = found[i].len();
            for j in 0..m
                invariant
                    i < n,
                    n == found@.len(),
                    m == found@[i as int]@.len(),
                    placed.shape == construction.shape,
                    placed.layer == construction.layer,
                    placed.color == construction.color,
                    placed.width == construction.width,
                    placed.intersections@ == before + found@[i as int]@.take(j as int),
            {
                placed.intersections.push(found[i][j]);
                assert(found@[i as int]@.take(j + 1) == found@[i as int]@.take(j as int).push(
                    found@[i as int]@[j as int],
                ));
            }
            proof {
                let t = views(found@.take(i + 1));
                assert(t.drop_last() =~= views(found@.take(i as int)));
                assert(found@[i as int]@.take(m as int) =~= found@[i as int]@);
                assert(joined(t) == joined(t.drop_last()) + t.last());
            }
        }
        assert(found@.take(n as int) =~= found@);
        assert(start + joined(views(found@)) =~= joined(views(found@)));
        self.constructions.push(placed);
    }

    /// Every cached intersection point, construction by construction, in order.
    pub fn cached_intersections(&self) -> (r: Vec<Point>)
        ensures
            r@ == cached(self@.constructions),
    {
        let mut all: Vec<Point> = Vec::new();
        let n = self.constructions.len();
        for i in 0..n
            invariant
                n == self.constructions@.len(),
                all@ == cached(self.constructions@.take(i as int)),
        {
            let ghost before = all@;
            let m = self.constructions[i].intersections.len();
            for j in 0..m
                invariant
                    i < n,
                    n == self.constructions@.len(),
                    m == self.constructions@[i as int].intersections@.len(),
                    all@ == before + self.constructions@[i as int].intersections@.take(j as int),
            {
                all.push(self.constructions[i].intersections[j]);
                assert(self.constructions@[i as int].intersections@.take(j + 1)
                    == self.constructions@[i as int].intersections@.take(j as int).push(
                    self.constructions@[i as int].intersections@[j as int],
                ));
            }
            proof {
                let t = self.constructions@.take(i + 1);
                assert(t.drop_last() =~= self.constructions@.take(i as int));
                assert(self.constructions@[i as int].intersections@.take(m as int)
                    =~= self.constructions@[i as int].intersections@);
            }
        }
        assert(self.constructions@.take(n as int) =~= self.constructions@);
        all
    }

    /// Of the cached intersection points not equal to one in `ignore`, the
    /// index of the nearest, given `dists[k]`, the squared distance of the
    /// `k`-th cached point from the probe.
    fn closest_index(&self, ignore: &Vec<Point>, dists: &Vec<u32>) -> (r: Option<usize>)
        requires
            dists@.len() == cached(self@.constructions).len(),
        ensures
            match r {
                Some(k) => closest_among(
                    cached(self@.constructions),
                    dists@,
                    ignore@,
                    dists@.len(),
                ) == Some(k as int),
                None => closest_among(cached(self@.constructions), dists@, ignore@, dists@.len())
                    is None,
            },
    {
        let pts = self.cached_intersections();
        let ghost all = cached(self@.constructions);
        let mut best: Option<usize> = None;
        let n = pts.len();
        for k in 0..n
            invariant
                n == pts@.len(),
                pts@ == all,
                dists@.len() == n,
                match best {
                    Some(b) => b < k && closest_among(all, dists@, ignore@, k as nat) == Some(
                        b as int,
                    ),
                    None => closest_among(all, dists@, ignore@, k as nat) is None,
                },
        {
            let p = pts[k];
            let mut ignored = false;
            let m = ignore.len();
            for j in 0..m
                invariant
                    m == ignore@.len(),
                    ignored == exists|t: int|
                        0 <= t < j && spec_eq(#[trigger] ignore@[t].x, p.x) && spec_eq(
                            ignore@[t].y,
                            p.y,
                        ),
            {
                if eq(ignore[j].x, p.x) && eq(ignore[j].y, p.y) {
                    ignored = true;
                }
            }
            if !ignored {
                match best {
                    None => {
                        best = Some(k);
                    },
                    Some(b) => {
                        if lt(dists[k], dists[b]) {
                            best = Some(k);
                        }
                    },
                }
            }
        }
        best
    }

    /// The nearest cached intersection point that equals none of `ignore`,
    /// given `dists[k]`, the squared distance of the `k`-th cached point (in
    /// the order of `cached_intersections`) from the probe.
    pub fn closest_intersection(&self, ignore: &Vec<Point>, dists: &Vec<u32>) -> (r: Option<Point>)
        requires
            dists@.len() == cached(self@.constructions).len(),
        ensures
            r == match closest_among(cached(self@.constructions), dists@, ignore@, dists@.len()) {
                Some(k) => Some(cached(self@.constructions)[k]),
                None => None,
            },
    {
        match self.closest_index(ignore, dists) {
            Some(k) => {
                proof {
                    lemma_closest_in_range(cached(self@.constructions), dists@, ignore@, dists@.len());
                }
                let pts = self.cached_intersections();
                Some(pts[k])
            },
            None => None,
        }
    }

    /// Where a click at `mouse` lands, given `dists[k]`, the squared
    /// distance of the `k`-th cached point from `mouse`, and the square of
    /// the snap radius. Points already collected are not snapped to again.
    pub fn get_snap_pos(&self, mouse: Point, dists: &Vec<u32>, radius_sq: u32) -> (r: Point)
        requires
            dists@.len() == cached(self@.constructions).len(),
        ensures
            r == snapped(cached(self@.constructions), dists@, self@.points, mouse, radius_sq),
    {
        match self.closest_index(&self.points, dists) {
            Some(k) => {
                proof {
                    lemma_closest_in_range(
                        cached(self@.constructions),
                        dists@,
                        self@.points,
                        dists@.len(),
                    );
                }
                if lt(radius_sq, dists[k]) {
                    mouse
                } else {
                    let pts = self.cached_intersections();
                    pts[k]
                }
            },
            None => mouse,
        }
    }

    /// Whether one more point fills the current tool's input.
    pub fn completes_with_next(&self) -> (r: bool)
        ensures
            r == self@.completes_with_next(),
    {
        self.points.len() < usize::MAX && self.points.len() + 1
            == self.current_tool.num_points() as usize
    }

    /// Adds `point` (already snapped) to the buffer; when that fills the
    /// current tool's input, places the tool's shape in the current style and
    /// empties the buffer. `measures` are what the buffered points measure
    /// and `found[i]` holds where the new shape meets the `i`-th placed
    /// construction; both are read only when the input is filled.
    pub fn click(&mut self, point: Point, measures: Measures, found: Vec<Vec<Point>>)
        requires
            old(self)@.completes_with_next() ==> found@.len() == old(self)@.constructions.len(),
        ensures
            old(self)@.clicked(point, measures, views(found@), final(self)@),
    {
        self.points.push(point);
        if self.points.len() == self.current_tool.num_points() as usize {
            let shape = self.current_tool.get_shape(&self.points, measures);
            let construction = Construction {
                shape,
                layer: self.current_layer.clone(),
                color: self.current_color,
                width: self.current_width,
                intersections: Vec::new(),
            };
            self.add_construction(construction, found);
            self.points.clear();
        }
    }

    pub fn stats(&self) -> (r: EngineStats)
        ensures
            r.num_intersections == if cached(self@.constructions).len() <= usize::MAX {
                cached(self@.constructions).len()
            } else {
                usize::MAX as nat
            },
            r.num_points == self@.points.len(),
            r.num_constructions == self@.constructions.len(),
    {
        EngineStats::from(self)
    }

    pub fn can_undo(&self) -> (r: bool)
        ensures
            r == (self@.constructions.len() > 0),
    {
        !self.constructions.is_empty()
    }

    pub fn can_redo(&self) -> (r: bool)
        ensures
            r == (self@.redo.len() > 0),
    {
        !self.redo_stack.is_empty()
    }
}

} // verus!
