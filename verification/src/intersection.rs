//! Per-ray hit records and the sorted intersection list.

use vstd::prelude::*;
use crate::fx::{near_equal, spec_near, EPSILON, FX_ONE};
use crate::ray::{Ray, spec_position};
use crate::shape::spec_normal_at;
use crate::tuple::{
    Tuple, spec_add, spec_sub, spec_neg, spec_mul_scalar, spec_dot, spec_reflect,
};
use crate::world::{World, WorldView, world_wf};

verus! {

broadcast use vstd::seq_lib::group_to_multiset_ensures;

#[derive(Clone, Copy, Debug, PartialEq, Eq, Structural)]
pub struct Intersection {
    pub t: i64,
    pub object_id: usize,
}

/// Prepared shading inputs for one intersection along a ray.
#[derive(Clone, Copy, Debug, PartialEq, Eq, Structural)]
pub struct Comp {
    pub object_id: usize,
    pub point: Tuple,
    pub eyev: Tuple,
    pub normalv: Tuple,
    pub reflectv: Tuple,
    pub inside: bool,
    pub over_point: Tuple,
    pub under_point: Tuple,
    pub n1: i64,
    pub n2: i64,
}

/// The ray-local shading inputs for one intersection: hit point, eye
/// vector, the normal flipped to face the eye (setting `inside`), the
/// reflection vector, and the hit point nudged along the normal both ways
/// by `EPSILON`. The refractive indices are left at zero here; the list
/// variant fills them from the containment stack.
pub open spec fn spec_prepare_basic(i: Intersection, r: Ray, w: WorldView) -> Comp {
    let object = w.objects[i.object_id as int];
    let point = spec_position(r, i.t);
    let eyev = spec_neg(r.direction);
    let n0 = spec_normal_at(object, point);
    let inside = spec_dot(n0, eyev) < 0;
    let normalv = if inside {
        spec_neg(n0)
    } else {
        n0
    };
    Comp {
        object_id: i.object_id,
        point,
        eyev,
        normalv,
        reflectv: spec_reflect(r.direction, normalv),
        inside,
        over_point: spec_add(point, spec_mul_scalar(normalv, EPSILON)),
        under_point: spec_sub(point, spec_mul_scalar(normalv, EPSILON)),
        n1: 0i64,
        n2: 0i64,
    }
}

/// `s` with the first occurrence of `id` removed (unchanged when absent).
pub open spec fn spec_remove_id(s: Seq<usize>, id: usize) -> Seq<usize>
    decreases s.len(),
{
    if s.len() == 0 {
        s
    } else if s[0] == id {
        s.subrange(1, s.len() as int)
    } else {
        seq![s[0]] + spec_remove_id(s.subrange(1, s.len() as int), id)
    }
}

/// One step of the containment stack: entering a shape pushes its id,
/// meeting it again (leaving it) removes the earlier entry.
pub open spec fn spec_toggle(s: Seq<usize>, id: usize) -> Seq<usize> {
    if s.contains(id) {
        spec_remove_id(s, id)
    } else {
        s.push(id)
    }
}

/// The containment stack after processing the first `k` intersections.
pub open spec fn spec_containers(ix: Seq<Intersection>, k: int) -> Seq<usize>
    decreases k,
{
    if k <= 0 {
        Seq::empty()
    } else {
        spec_toggle(spec_containers(ix, k - 1), ix[k - 1].object_id)
    }
}

/// The refractive index of the medium the stack says the ray is in:
/// vacuum (1.0) for an empty stack, else the top shape's index.
pub open spec fn spec_ri_at(w: WorldView, containers: Seq<usize>) -> i64 {
    if containers.len() == 0 {
        FX_ONE
    } else {
        w.objects[containers.last() as int].material.refractive_index
    }
}

/// The full shading inputs for intersection `idx` of the ray-ordered list
/// `ixs`: the basic record plus `n1`/`n2`, the refractive indices of the
/// media being exited and entered, read from the containment stack before
/// and after processing the target intersection.
pub open spec fn spec_prepare_computation(ixs: Seq<Intersection>, idx: int, r: Ray, w: WorldView) -> Comp {
    Comp {
        n1: spec_ri_at(w, spec_containers(ixs, idx)),
        n2: spec_ri_at(w, spec_containers(ixs, idx + 1)),
        ..spec_prepare_basic(ixs[idx], r, w)
    }
}

proof fn lemma_remove_id_at(s: Seq<usize>, id: usize, j: int)
    requires
        0 <= j < s.len(),
        s[j] == id,
        forall|k: int| 0 <= k < j ==> s[k] != id,
    ensures
        spec_remove_id(s, id) == s.remove(j),
    decreases s.len(),
{
    if s[0] == id {
        assert(j == 0);
        assert(s.subrange(1, s.len() as int) =~= s.remove(0));
    } else {
        let tail = s.subrange(1, s.len() as int);
        lemma_remove_id_at(tail, id, j - 1);
        assert(seq![s[0]] + tail.remove(j - 1) =~= s.remove(j));
    }
}

/// Remove the first occurrence of `id`, or push it when absent.
fn toggle_container(containers: &mut Vec<usize>, id: usize)
    ensures
        final(containers)@ == spec_toggle(old(containers)@, id),
        forall|k: int|
            0 <= k < final(containers)@.len() ==> old(containers)@.contains(
                #[trigger] final(containers)@[k],
            ) || final(containers)@[k] == id,
{
    let n: usize = containers.len();
    let mut j: usize = 0;
    while j < n
        invariant
            n == containers@.len(),
            j <= n,
            containers@ == old(containers)@,
            forall|k: int| 0 <= k < j ==> containers@[k] != id,
        decreases n - j,
    {
        if containers[j] == id {
            proof {
                assert(containers@.contains(id));
                lemma_remove_id_at(containers@, id, j as int);
            }
            containers.remove(j);
            proof {
                assert forall|k: int| 0 <= k < containers@.len() implies old(
                    containers,
                )@.contains(#[trigger] containers@[k]) by {
                    if k < j {
                        assert(containers@[k] == old(containers)@[k]);
                    } else {
                        assert(containers@[k] == old(containers)@[k + 1]);
                    }
                }
            }
            return ;
        }
        j = j + 1;
    }
    proof {
        assert(!containers@.contains(id));
    }
    containers.push(id);
}

impl Intersection {
    pub fn new(t: i64, object_id: usize) -> (r: Intersection)
        ensures
            r == (Intersection { t, object_id }),
    {
        Intersection { t, object_id }
    }

    /// The basic shading inputs for this intersection (without refractive
    /// indices, which need the whole list).
    pub fn prepare_computation(&self, r: &Ray, w: &World) -> (c: Comp)
        requires
            self.object_id < w@.objects.len(),
            world_wf(w@),
        ensures
            c == spec_prepare_basic(*self, *r, w@),
    {
        let t: i64 = self.t;
        let object = w.get_object(self.object_id).unwrap();
        let point: Tuple = r.position(t);
        let eyev: Tuple = r.direction.neg();
        let mut normalv: Tuple = object.normal_at(point);
        let mut inside: bool = false;
        if normalv.dot_product(&eyev) < 0 {
            inside = true;
            normalv = normalv.neg();
        }
        let reflectv: Tuple = r.direction.reflect(&normalv);
        let over_point: Tuple = point.add(&normalv.mul_scalar(EPSILON));
        let under_point: Tuple = point.sub(&normalv.mul_scalar(EPSILON));
        Comp {
            object_id: self.object_id,
            point,
            eyev,
            normalv,
            reflectv,
            inside,
            over_point,
            under_point,
            n1: 0,
            n2: 0,
        }
    }
}

/// Ascending order on the ray parameter.
pub open spec fn sorted_by_t(s: Seq<Intersection>) -> bool {
    forall|i: int, j: int| 0 <= i < j < s.len() ==> s[i].t <= s[j].t
}

/// An intersection that counts as "the hit": strictly positive `t`, and
/// not within `EPSILON` of zero.
pub open spec fn spec_is_hit(i: Intersection) -> bool {
    !spec_near(i.t, 0) && i.t > 0
}

/// `x` inserted into the (sorted) sequence `s` after every element whose
/// `t` does not exceed `x.t`.
pub open spec fn spec_insert_sorted(s: Seq<Intersection>, x: Intersection) -> Seq<Intersection>
    decreases s.len(),
{
    if s.len() == 0 {
        seq![x]
    } else if s.last().t <= x.t {
        s.push(x)
    } else {
        spec_insert_sorted(s.drop_last(), x).push(s.last())
    }
}

/// Stable insertion sort by `t`, ascending: equal `t` values keep their
/// relative order.
pub open spec fn spec_sort(s: Seq<Intersection>) -> Seq<Intersection>
    decreases s.len(),
{
    if s.len() == 0 {
        Seq::empty()
    } else {
        spec_insert_sorted(spec_sort(s.drop_last()), s.last())
    }
}

/// The index of the first qualifying intersection at or after `k`.
pub open spec fn spec_find_hit(s: Seq<Intersection>, k: int) -> Option<int>
    decreases s.len() - k,
{
    if k < 0 || k >= s.len() {
        None
    } else if spec_is_hit(s[k]) {
        Some(k)
    } else {
        spec_find_hit(s, k + 1)
    }
}

proof fn lemma_find_hit_from(s: Seq<Intersection>, m: int, idx: int)
    requires
        0 <= m <= idx <= s.len(),
        forall|k: int| m <= k < idx ==> !spec_is_hit(#[trigger] s[k]),
    ensures
        idx < s.len() && spec_is_hit(s[idx]) ==> spec_find_hit(s, m) == Some(idx),
        idx == s.len() ==> spec_find_hit(s, m) == None::<int>,
    decreases idx - m,
{
    if m < idx {
        lemma_find_hit_from(s, m + 1, idx);
    }
}

proof fn lemma_insert_sorted_at(s: Seq<Intersection>, x: Intersection, j: int)
    requires
        0 <= j <= s.len(),
        forall|k: int| 0 <= k < j ==> (#[trigger] s[k]).t <= x.t,
        forall|k: int| j <= k < s.len() ==> (#[trigger] s[k]).t > x.t,
    ensures
        spec_insert_sorted(s, x) == s.insert(j, x),
    decreases s.len(),
{
    if s.len() == 0 {
        assert(spec_insert_sorted(s, x) =~= s.insert(0, x));
    } else if s.last().t <= x.t {
        assert(j == s.len());
        assert(s.push(x) =~= s.insert(j, x));
    } else {
        assert(j < s.len());
        lemma_insert_sorted_at(s.drop_last(), x, j);
        assert(s.drop_last().insert(j, x).push(s.last()) =~= s.insert(j, x));
    }
}

/// Insertion sort, ascending by `t`, stable.
fn sort_by_t(list: &Vec<Intersection>) -> (out: Vec<Intersection>)
    ensures
        out@ == spec_sort(list@),
        sorted_by_t(out@),
        out@.to_multiset() == list@.to_multiset(),
        out@.len() == list@.len(),
{
    let n: usize = list.len();
    let mut out: Vec<Intersection> = Vec::new();
    let mut i: usize = 0;
    while i < n
        invariant
            n == list@.len(),
            i <= n,
            out@ == spec_sort(list@.subrange(0, i as int)),
            sorted_by_t(out@),
            out@.to_multiset() == list@.subrange(0, i as int).to_multiset(),
            out@.len() == i,
        decreases n - i,
    {
        let x: Intersection = list[i];
        let mut j: usize = out.len();
        while j > 0 && out[j - 1].t > x.t
            invariant
                j <= out@.len(),
                sorted_by_t(out@),
                forall|k: int| j <= k < out@.len() ==> (#[trigger] out@[k]).t > x.t,
            decreases j,
        {
            j = j - 1;
        }
        let ghost prev = out@;
        proof {
            assert forall|k: int| 0 <= k < j implies (#[trigger] prev[k]).t <= x.t by {
                assert(prev[j - 1].t <= x.t);
                if k < j - 1 {
                    assert(prev[k].t <= prev[j - 1].t);
                }
            }
            lemma_insert_sorted_at(prev, x, j as int);
            assert(list@.subrange(0, i as int + 1).drop_last() =~= list@.subrange(0, i as int));
            assert(list@.subrange(0, i as int + 1).last() == list@[i as int]);
            assert(list@.subrange(0, i as int + 1) =~= list@.subrange(0, i as int).push(
                list@[i as int],
            ));
        }
        out.insert(j, x);
        proof {
            assert(sorted_by_t(out@)) by {
                assert forall|a: int, b: int| 0 <= a < b < out@.len() implies out@[a].t
                    <= out@[b].t by {
                    if b < j {
                        assert(out@[a] == prev[a] && out@[b] == prev[b]);
                    } else if a > j {
                        assert(out@[a] == prev[a - 1] && out@[b] == prev[b - 1]);
                    }
                }
            }
        }
        i = i + 1;
    }
    proof {
        assert(list@.subrange(0, n as int) =~= list@);
    }
    out
}

pub struct IntersectionList {
    ix: Vec<Intersection>,
    sorted: bool,
    pub hit_index: usize,
}

impl View for IntersectionList {
    type V = Seq<Intersection>;

    closed spec fn view(&self) -> Seq<Intersection> {
        self.ix@
    }
}

impl IntersectionList {
    /// The cached sort flag is honest: when set, the records are sorted.
    pub closed spec fn wf(&self) -> bool {
        self.sorted ==> sorted_by_t(self.ix@)
    }

    /// The records were sorted on construction and left that way.
    pub closed spec fn is_presorted(&self) -> bool {
        self.sorted
    }

    /// The index that the last `hit` call settled on.
    pub closed spec fn spec_hit_index(&self) -> usize {
        self.hit_index
    }

    /// The index that the last `hit` call settled on.
    pub fn hit_index(&self) -> (r: usize)
        ensures
            r == self.spec_hit_index(),
    {
        self.hit_index
    }

    /// Records sorted ascending by `t`; the collection keeps exactly the
    /// given intersections.
    pub fn new(ix: &Vec<Intersection>) -> (r: IntersectionList)
        ensures
            r@ == spec_sort(ix@),
            r@.len() == ix@.len(),
            r@.to_multiset() == ix@.to_multiset(),
            sorted_by_t(r@),
            r.wf(),
            r.is_presorted(),
            r.spec_hit_index() == 0,
    {
        let mut list: Vec<Intersection> = Vec::new();
        let mut k: usize = 0;
        while k < ix.len()
            invariant
                k <= ix@.len(),
                list@ == ix@.subrange(0, k as int),
            decreases ix@.len() - k,
        {
            list.push(ix[k]);
            k = k + 1;
        }
        proof {
            assert(list@ =~= ix@);
        }
        let out: Vec<Intersection> = sort_by_t(&list);
        IntersectionList { ix: out, sorted: true, hit_index: 0 }
    }

    pub fn get(&self, i: usize) -> (r: Option<&Intersection>)
        ensures
            match r {
                Some(x) => i < self@.len() && *x == self@[i as int],
                None => i >= self@.len(),
            },
    {
        if i < self.ix.len() {
            Some(&self.ix[i])
        } else {
            None
        }
    }

    pub fn len(&self) -> (r: usize)
        ensures
            r == self@.len(),
    {
        self.ix.len()
    }

    pub fn is_empty(&self) -> (r: bool)
        ensures
            r == (self@.len() == 0),
    {
        self.ix.is_empty()
    }

    /// The hit: the qualifying intersection (strictly positive `t`, not
    /// within `EPSILON` of zero) with the lowest `t`, if any qualifies.
    /// `hit_index` is left at its position in the sorted order.
    pub fn hit(&mut self) -> (r: Option<Intersection>)
        requires
            old(self).wf(),
        ensures
            final(self).wf(),
            final(self).is_presorted(),
            final(self)@.to_multiset() == old(self)@.to_multiset(),
            sorted_by_t(final(self)@),
            old(self).is_presorted() ==> final(self)@ == old(self)@,
            match r {
                Some(i) => {
                    &&& spec_find_hit(final(self)@, 0) == Some(final(self).spec_hit_index() as int)
                    &&& spec_is_hit(i)
                    &&& final(self).spec_hit_index() < final(self)@.len()
                    &&& final(self)@[final(self).spec_hit_index() as int] == i
                    &&& forall|k: int|
                        0 <= k < final(self).spec_hit_index() ==> !spec_is_hit(#[trigger] final(self)@[k])
                    &&& forall|k: int|
                        0 <= k < final(self)@.len() && spec_is_hit(#[trigger] final(self)@[k])
                            ==> i.t <= final(self)@[k].t
                },
                None => {
                    &&& spec_find_hit(final(self)@, 0) == None::<int>
                    &&& forall|k: int|
                        0 <= k < final(self)@.len() ==> !spec_is_hit(#[trigger] final(self)@[k])
                    &&& final(self).spec_hit_index() == old(self).spec_hit_index()
                },
            },
    {
        if !self.sorted {
            let sorted_list: Vec<Intersection> = sort_by_t(&self.ix);
            self.ix = sorted_list;
            self.sorted = true;
        }
        let n: usize = self.ix.len();
        let mut idx: usize = 0;
        while idx < n
            invariant
                n == self.ix@.len(),
                idx <= n,
                sorted_by_t(self.ix@),
                self.sorted,
                self.ix@.to_multiset() == old(self)@.to_multiset(),
                old(self).is_presorted() ==> self.ix@ == old(self)@,
                self.hit_index == old(self).spec_hit_index(),
                forall|k: int| 0 <= k < idx ==> !spec_is_hit(#[trigger] self.ix@[k]),
            decreases n - idx,
        {
            let i: Intersection = self.ix[idx];
            if !near_equal(i.t, 0) && i.t > 0 {
                self.hit_index = idx;
                proof {
                    lemma_find_hit_from(self.ix@, 0, idx as int);
                }
                return Some(i);
            }
            idx = idx + 1;
        }
        proof {
            lemma_find_hit_from(self.ix@, 0, self.ix@.len() as int);
        }
        None
    }

    /// The shading inputs for intersection `idx`, including the
    /// containment-stack refractive indices `n1` and `n2`.
    pub fn prepare_computation(&self, idx: usize, r: &Ray, w: &World) -> (c: Comp)
        requires
            idx < self@.len(),
            world_wf(w@),
            forall|k: int|
                0 <= k < self@.len() ==> (#[trigger] self@[k]).object_id < w@.objects.len(),
        ensures
            c == spec_prepare_computation(self@, idx as int, *r, w@),
    {
        let mut containers: Vec<usize> = Vec::new();
        let target: Intersection = self.ix[idx];
        let mut result: Comp = target.prepare_computation(r, w);
        let mut i: usize = 0;
        while i < idx
            invariant
                idx < self@.len(),
                world_wf(w@),
                forall|k: int|
                    0 <= k < self@.len() ==> (#[trigger] self@[k]).object_id < w@.objects.len(),
                i <= idx,
                containers@ == spec_containers(self@, i as int),
                forall|k: int|
                    0 <= k < containers@.len() ==> #[trigger] containers@[k] < w@.objects.len(),
            decreases idx - i,
        {
            toggle_container(&mut containers, self.ix[i].object_id);
            i = i + 1;
        }
        if containers.len() == 0 {
            result.n1 = FX_ONE;
        } else {
            let top: usize = containers[containers.len() - 1];
            let object = w.get_object(top).unwrap();
            result.n1 = object.material.refractive_index;
        }
        toggle_container(&mut containers, target.object_id);
        proof {
            assert(containers@ == spec_containers(self@, idx as int + 1));
        }
        if containers.len() == 0 {
            result.n2 = FX_ONE;
        } else {
            let top: usize = containers[containers.len() - 1];
            let object = w.get_object(top).unwrap();
            result.n2 = object.material.refractive_index;
        }
        result
    }
}

} // verus!
