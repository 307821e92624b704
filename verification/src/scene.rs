//! Bookkeeping of the renderable objects in the scene.
//!
//! The scene keeps an ordered list of mesh instances. Every instance tells
//! where it came from: the built-in demo scene, a permanent engine fixture,
//! or a model the user loaded at runtime. All primitives of one loaded model
//! share a group id so that the model can be moved and removed as a unit.
//! The mesh (GPU buffers) and the transform (floating point) are carried as
//! opaque payloads `M` and `T`.
use vstd::prelude::*;

verus! {

/// Distinguishes built-in demo geometry from user-uploaded models.
#[derive(Debug, Clone)]
pub enum MeshSource {
    /// Part of the hardcoded demo scene.
    Demo,
    /// Permanent engine fixture (ground plane, etc.), never removed by the user.
    EngineDefault,
    /// Loaded at runtime from a file. All primitives of one file share
    /// the same `group_id` so they can be removed as a unit.
    UserModel { group_id: u32, filename: String },
}

/// The group of a source: `Some(id)` for a user model, `None` otherwise.
pub open spec fn source_group(source: MeshSource) -> Option<u32> {
    match source {
        MeshSource::UserModel { group_id, .. } => Some(group_id),
        _ => None,
    }
}

impl MeshSource {
    /// The group id of a user model, `None` for demo geometry and fixtures.
    pub fn group_id(&self) -> (res: Option<u32>)
        ensures
            res == source_group(*self),
    {
        match self {
            MeshSource::UserModel { group_id, .. } => Some(*group_id),
            _ => None,
        }
    }

    /// True when this source is the user model of group `group_id`.
    pub fn is_group(&self, group_id: u32) -> (res: bool)
        ensures
            res == (source_group(*self) == Some(group_id)),
    {
        match self {
            MeshSource::UserModel { group_id: gid, .. } => *gid == group_id,
            _ => false,
        }
    }
}

/// A mesh and its transform in the scene.
pub struct MeshInstance<M, T> {
    pub mesh: M,
    pub transform: T,
    pub material_index: usize,
    pub source: MeshSource,
}

/// True when the instance belongs to the user model `group_id`.
pub open spec fn in_group<M, T>(inst: MeshInstance<M, T>, group_id: u32) -> bool {
    source_group(inst.source) == Some(group_id)
}

/// The predicate kept by `remove_user_model(group_id)`.
pub open spec fn outside_group<M, T>(group_id: u32) -> spec_fn(MeshInstance<M, T>) -> bool {
    |inst: MeshInstance<M, T>| !in_group(inst, group_id)
}

/// Container for all renderable objects in the scene.
pub struct Scene<M, T> {
    pub meshes: Vec<MeshInstance<M, T>>,
    /// Monotonically increasing counter for user-model groups.
    next_group_id: u32,
}

impl<M, T> View for Scene<M, T> {
    type V = Seq<MeshInstance<M, T>>;

    /// The instances of the scene, in drawing order.
    closed spec fn view(&self) -> Seq<MeshInstance<M, T>> {
        self.meshes@
    }
}

impl<M, T> Scene<M, T> {
    /// The group id that the next loaded model will receive.
    pub closed spec fn next_group(&self) -> u32 {
        self.next_group_id
    }

    /// Every user model in the scene has a group id below the next one,
    /// so a freshly issued id names no instance yet.
    pub closed spec fn wf(&self) -> bool {
        forall|k: int|
            0 <= k < self.meshes@.len() ==> match #[trigger] source_group(self.meshes@[k].source) {
                Some(g) => g < self.next_group(),
                None => true,
            }
    }

    pub fn new() -> (res: Self)
        ensures
            res@ == Seq::<MeshInstance<M, T>>::empty(),
            res.next_group() == 0,
            res.wf(),
    {
        Scene { meshes: Vec::new(), next_group_id: 0 }
    }

    /// The group id that the next loaded model will receive.
    pub fn next_group_id(&self) -> (res: u32)
        ensures
            res == self.next_group(),
    {
        self.next_group_id
    }

    /// Add a demo mesh (part of the built-in scene).
    pub fn add_mesh(&mut self, mesh: M, transform: T, material_index: usize)
        ensures
            final(self)@ == old(self)@.push(
                MeshInstance { mesh, transform, material_index, source: MeshSource::Demo },
            ),
            final(self).next_group() == old(self).next_group(),
            old(self).wf() ==> final(self).wf(),
    {
        self.meshes.push(MeshInstance { mesh, transform, material_index, source: MeshSource::Demo });
    }
}

impl<M, T> Scene<M, T> {
    /// Remove all mesh instances belonging to the user model `group_id`,
    /// keeping the others in their order.
    pub fn remove_user_model(&mut self, group_id: u32)
        ensures
            final(self)@ == old(self)@.filter(outside_group(group_id)),
            final(self).next_group() == old(self).next_group(),
            old(self).wf() ==> final(self).wf(),
    {
        let ghost orig = self.meshes@;
        let ghost keep = outside_group::<M, T>(group_id);
        let mut i: usize = 0;
        let ghost mut j: int = 0;
        while i < self.meshes.len()
            invariant
                orig == old(self)@,
                keep == outside_group::<M, T>(group_id),
                self.next_group_id == old(self).next_group(),
                0 <= i <= j <= orig.len(),
                i <= self.meshes@.len(),
                self.meshes@.take(i as int) == orig.take(j).filter(keep),
                self.meshes@.skip(i as int) == orig.skip(j),
            decreases self.meshes@.len() - i,
        {
            let ghost cur = self.meshes@;
            proof {
                assert(cur.skip(i as int).len() == orig.skip(j).len());
                assert(j < orig.len());
                assert(orig.take(j + 1) =~= orig.take(j).push(orig[j]));
                assert(orig.skip(j)[0] == orig[j]);
                assert(cur[i as int] == orig[j]);
                reveal_with_fuel(Seq::filter, 1);
                assert(orig.take(j + 1).drop_last() =~= orig.take(j));
            }
            if self.meshes[i].source.is_group(group_id) {
                self.meshes.remove(i);
                proof {
                    assert(self.meshes@.take(i as int) =~= cur.take(i as int));
                    assert forall|k: int| 0 <= k < self.meshes@.len() - i implies
                        #[trigger] self.meshes@.skip(i as int)[k] == orig.skip(j + 1)[k] by {
                        assert(self.meshes@[i + k] == cur[i + k + 1]);
                        assert(cur.skip(i as int)[k + 1] == orig.skip(j)[k + 1]);
                    }
                    assert(self.meshes@.len() - i == orig.len() - (j + 1));
                    assert(self.meshes@.skip(i as int) =~= orig.skip(j + 1));
                }
            } else {
                proof {
                    assert(self.meshes@.take(i + 1) =~= cur.take(i as int).push(cur[i as int]));
                    assert forall|k: int| 0 <= k < self.meshes@.len() - (i + 1) implies
                        #[trigger] self.meshes@.skip(i + 1)[k] == orig.skip(j + 1)[k] by {
                        assert(cur.skip(i as int)[k + 1] == orig.skip(j)[k + 1]);
                    }
                    assert(self.meshes@.len() - (i + 1) == orig.len() - (j + 1));
                    assert(self.meshes@.skip(i + 1) =~= orig.skip(j + 1));
                }
                i = i + 1;
            }
            proof {
                j = j + 1;
            }
        }
        proof {
            assert(self.meshes@.skip(i as int).len() == 0);
            assert(j == orig.len());
            assert(orig.take(j) =~= orig);
            assert(self.meshes@ =~= self.meshes@.take(i as int));
            lemma_filter_keeps_wf(orig, keep, self.next_group_id, group_id);
        }
    }
}

/// Every element of `s.filter(keep)` occurs in `s`, so a bound on the groups
/// of `s` carries over to the filtered sequence.
proof fn lemma_filter_keeps_wf<M, T>(
    s: Seq<MeshInstance<M, T>>,
    keep: spec_fn(MeshInstance<M, T>) -> bool,
    next: u32,
    group_id: u32,
)
    ensures
        (forall|k: int|
            0 <= k < s.len() ==> match #[trigger] source_group(s[k].source) {
                Some(g) => g < next,
                None => true,
            }) ==> forall|k: int|
            0 <= k < s.filter(keep).len() ==> match #[trigger] source_group(
                s.filter(keep)[k].source,
            ) {
                Some(g) => g < next,
                None => true,
            },
    decreases s.len(),
{
    reveal_with_fuel(Seq::filter, 1);
    if s.len() > 0 {
        lemma_filter_keeps_wf(s.drop_last(), keep, next, group_id);
        let sub = s.drop_last().filter(keep);
        if forall|k: int|
            0 <= k < s.len() ==> match #[trigger] source_group(s[k].source) {
                Some(g) => g < next,
                None => true,
            } {
            assert forall|k: int| 0 <= k < s.drop_last().len() implies match #[trigger] source_group(
                s.drop_last()[k].source,
            ) {
                Some(g) => g < next,
                None => true,
            } by {
                assert(s.drop_last()[k] == s[k]);
            }
            let last = s.len() - 1;
            assert(match source_group(s[last].source) {
                Some(g) => g < next,
                None => true,
            });
        }
    }
}

/// The instances left after removing the groups of `groups`, one after the
/// other.
pub open spec fn without_groups<M, T>(s: Seq<MeshInstance<M, T>>, groups: Seq<u32>) -> Seq<
    MeshInstance<M, T>,
>
    decreases groups.len(),
{
    if groups.len() == 0 {
        s
    } else {
        without_groups(s, groups.drop_last()).filter(outside_group(groups.last()))
    }
}

impl<M, T> Scene<M, T> {
    /// Remove the user models of all the given groups (the removals the
    /// model panel queued during a frame), in order.
    pub fn remove_user_models(&mut self, groups: &Vec<u32>)
        ensures
            final(self)@ == without_groups(old(self)@, groups@),
            final(self).next_group() == old(self).next_group(),
            old(self).wf() ==> final(self).wf(),
    {
        let mut i: usize = 0;
        while i < groups.len()
            invariant
                i <= groups@.len(),
                self@ == without_groups(old(self)@, groups@.take(i as int)),
                self.next_group() == old(self).next_group(),
                old(self).wf() ==> self.wf(),
            decreases groups@.len() - i,
        {
            self.remove_user_model(groups[i]);
            proof {
                assert(groups@.take(i + 1).drop_last() =~= groups@.take(i as int));
                assert(groups@.take(i + 1).last() == groups@[i as int]);
            }
            i = i + 1;
        }
        proof {
            assert(groups@.take(i as int) =~= groups@);
        }
    }
}

/// After the queued groups are removed, no instance of any of them is left,
/// and every instance outside all of them is still there.
pub proof fn lemma_without_groups<M, T>(s: Seq<MeshInstance<M, T>>, groups: Seq<u32>)
    ensures
        forall|k: int, g: int|
            0 <= k < without_groups(s, groups).len() && 0 <= g < groups.len() ==> !in_group(
                #[trigger] without_groups(s, groups)[k],
                #[trigger] groups[g],
            ),
        forall|k: int|
            0 <= k < s.len() && (forall|g: int| 0 <= g < groups.len() ==> !in_group(s[k], groups[g]))
                ==> without_groups(s, groups).contains(#[trigger] s[k]),
    decreases groups.len(),
{
    if groups.len() > 0 {
        let prev = groups.drop_last();
        lemma_without_groups(s, prev);
        let mid = without_groups(s, prev);
        let last = groups.last();
        lemma_remove_keeps_others(mid, last);
        let out = without_groups(s, groups);
        assert forall|k: int, g: int|
            0 <= k < out.len() && 0 <= g < groups.len() implies !in_group(
            #[trigger] out[k],
            #[trigger] groups[g],
        ) by {
            if g < prev.len() {
                assert(out.contains(out[k]));
                mid.lemma_filter_contains_rev(outside_group(last), out[k]);
                let j = choose|j: int| 0 <= j < mid.len() && mid[j] == out[k];
                assert(prev[g] == groups[g]);
                assert(!in_group(mid[j], prev[g]));
            } else {
                assert(groups[g] == last);
            }
        }
        assert forall|k: int|
            0 <= k < s.len() && (forall|g: int| 0 <= g < groups.len() ==> !in_group(s[k], groups[g]))
            implies out.contains(#[trigger] s[k]) by {
            assert forall|g: int| 0 <= g < prev.len() implies !in_group(s[k], prev[g]) by {
                assert(prev[g] == groups[g]);
            }
            assert(mid.contains(s[k]));
            let j = choose|j: int| 0 <= j < mid.len() && mid[j] == s[k];
            assert(!in_group(s[k], groups[groups.len() - 1]));
        }
    }
}

impl<M, T: Clone> Scene<M, T> {
    /// Add the meshes of one loaded model file, all sharing a new group id
    /// and each carrying a clone of `transform`; returns that group id.
    pub fn add_user_model(&mut self, meshes: Vec<M>, transform: T, filename: &str) -> (res: u32)
        requires
            old(self).next_group() < u32::MAX,
        ensures
            res == old(self).next_group(),
            final(self).next_group() == old(self).next_group() + 1,
            final(self)@.len() == old(self)@.len() + meshes@.len(),
            final(self)@.take(old(self)@.len() as int) == old(self)@,
            forall|k: int|
                0 <= k < meshes@.len() ==> {
                    let inst = #[trigger] final(self)@[old(self)@.len() + k];
                    &&& inst.mesh == meshes@[k]
                    &&& cloned(transform, inst.transform)
                    &&& inst.material_index == 0
                    &&& inst.source matches MeshSource::UserModel { group_id, filename: f }
                    &&& group_id == res
                    &&& f@ == filename@
                },
            forall|k: int|
                old(self)@.len() <= k < final(self)@.len() ==> in_group(
                    #[trigger] final(self)@[k],
                    res,
                ),
            old(self).wf() ==> final(self).wf(),
    {
        let group_id = self.next_group_id;
        self.next_group_id = self.next_group_id + 1;
        let ghost start = self.meshes@;
        let total = meshes.len();
        let mut rest = meshes;
        let mut k: usize = 0;
        while rest.len() > 0
            invariant
                self.next_group_id == group_id + 1,
                group_id == old(self).next_group(),
                start == old(self)@,
                rest@ == meshes@.skip(k as int),
                total == meshes@.len(),
                k <= meshes@.len(),
                self.meshes@.len() == start.len() + k,
                self.meshes@.take(start.len() as int) == start,
                forall|i: int|
                    0 <= i < k ==> {
                        let inst = #[trigger] self.meshes@[start.len() + i];
                        &&& inst.mesh == meshes@[i]
                        &&& cloned(transform, inst.transform)
                        &&& inst.material_index == 0
                        &&& inst.source matches MeshSource::UserModel { group_id: g, filename: f }
                        &&& g == group_id
                        &&& f@ == filename@
                    },
                old(self).wf() ==> forall|i: int|
                    0 <= i < self.meshes@.len() ==> match #[trigger] source_group(
                        self.meshes@[i].source,
                    ) {
                        Some(g) => g < self.next_group_id,
                        None => true,
                    },
            decreases rest@.len(),
        {
            assert(k < meshes@.len());
            let m = rest.remove(0);
            let name = filename.to_owned();
            let t = transform.clone();
            let ghost before = self.meshes@;
            self.meshes.push(
                MeshInstance {
                    mesh: m,
                    transform: t,
                    material_index: 0,
                    source: MeshSource::UserModel { group_id, filename: name },
                },
            );
            proof {
                assert(self.meshes@.take(start.len() as int) =~= before.take(start.len() as int));
                assert(meshes@.skip(k as int)[0] == meshes@[k as int]);
                assert(rest@ =~= meshes@.skip(k + 1));
            }
            k = k + 1;
        }
        proof {
            assert(k == meshes@.len());
            assert forall|i: int| start.len() <= i < self.meshes@.len() implies in_group(
                #[trigger] self.meshes@[i],
                group_id,
            ) by {
                assert(self.meshes@[start.len() + (i - start.len())] == self.meshes@[i]);
            }
        }
        group_id
    }

    /// Give every instance of the user model `group_id` a clone of `transform`;
    /// all other instances stay as they are.
    pub fn set_group_transform(&mut self, group_id: u32, transform: T)
        ensures
            final(self).next_group() == old(self).next_group(),
            final(self)@.len() == old(self)@.len(),
            forall|k: int|
                0 <= k < old(self)@.len() ==> {
                    let before = old(self)@[k];
                    let after = #[trigger] final(self)@[k];
                    if in_group(before, group_id) {
                        &&& cloned(transform, after.transform)
                        &&& after.mesh == before.mesh
                        &&& after.material_index == before.material_index
                        &&& after.source == before.source
                    } else {
                        after == before
                    }
                },
            old(self).wf() ==> final(self).wf(),
    {
        let n = self.meshes.len();
        let mut i: usize = 0;
        while i < n
            invariant
                n == old(self)@.len(),
                self.meshes@.len() == n,
                i <= n,
                self.next_group_id == old(self).next_group(),
                forall|k: int|
                    0 <= k < n ==> {
                        let before = old(self)@[k];
                        let after = #[trigger] self.meshes@[k];
                        if k < i && in_group(before, group_id) {
                            &&& cloned(transform, after.transform)
                            &&& after.mesh == before.mesh
                            &&& after.material_index == before.material_index
                            &&& after.source == before.source
                        } else {
                            after == before
                        }
                    },
            decreases n - i,
        {
            if self.meshes[i].source.is_group(group_id) {
                let mut inst = self.meshes.remove(i);
                inst.transform = transform.clone();
                self.meshes.insert(i, inst);
            }
            i = i + 1;
        }
    }
}

/// Filtering keeps a sequence whole when every element passes, and
/// empties it when none does.
proof fn lemma_filter_all_or_none<A>(s: Seq<A>, pred: spec_fn(A) -> bool)
    ensures
        (forall|k: int| 0 <= k < s.len() ==> #[trigger] pred(s[k])) ==> s.filter(pred) == s,
        (forall|k: int| 0 <= k < s.len() ==> !#[trigger] pred(s[k])) ==> s.filter(pred).len() == 0,
    decreases s.len(),
{
    reveal_with_fuel(Seq::filter, 1);
    if s.len() > 0 {
        lemma_filter_all_or_none(s.drop_last(), pred);
        if forall|k: int| 0 <= k < s.len() ==> #[trigger] pred(s[k]) {
            assert(forall|k: int| 0 <= k < s.drop_last().len() ==> s.drop_last()[k] == s[k]);
            assert(pred(s[s.len() - 1]));
            assert(s.drop_last().filter(pred) == s.drop_last()) by {
                assert forall|k: int| 0 <= k < s.drop_last().len() implies #[trigger] pred(
                    s.drop_last()[k],
                ) by {
                    assert(s.drop_last()[k] == s[k]);
                }
            }
            assert(s.drop_last().push(s.last()) =~= s);
        }
        if forall|k: int| 0 <= k < s.len() ==> !#[trigger] pred(s[k]) {
            assert(!pred(s[s.len() - 1]));
            assert forall|k: int| 0 <= k < s.drop_last().len() implies !#[trigger] pred(
                s.drop_last()[k],
            ) by {
                assert(s.drop_last()[k] == s[k]);
            }
        }
    }
}

/// A well-formed scene has no instance in the group that the next loaded
/// model will receive: issued group ids are fresh.
pub proof fn lemma_next_group_is_fresh<M, T>(scene: Scene<M, T>)
    requires
        scene.wf(),
    ensures
        forall|k: int| 0 <= k < scene@.len() ==> !in_group(#[trigger] scene@[k], scene.next_group()),
{
    assert forall|k: int| 0 <= k < scene@.len() implies !in_group(
        #[trigger] scene@[k],
        scene.next_group(),
    ) by {
        assert(scene@[k] == scene.meshes@[k]);
    }
}

/// Removing the group that `add_user_model` just issued gives back exactly
/// the instances the scene held before the model was added.
///
/// The `requires` are what `add_user_model` ensures of the scene before
/// (`before`) and after (`after`) the call.
pub proof fn lemma_remove_undoes_add<M, T>(before: Scene<M, T>, after: Scene<M, T>, group_id: u32)
    requires
        before.wf(),
        group_id == before.next_group(),
        after@.len() >= before@.len(),
        after@.take(before@.len() as int) == before@,
        forall|k: int| before@.len() <= k < after@.len() ==> in_group(#[trigger] after@[k], group_id),
    ensures
        after@.filter(outside_group(group_id)) == before@,
{
    let keep = outside_group::<M, T>(group_id);
    let added = after@.skip(before@.len() as int);
    assert(after@ =~= before@ + added);
    Seq::filter_distributes_over_add(before@, added, keep);
    lemma_next_group_is_fresh(before);
    lemma_filter_all_or_none(before@, keep);
    assert forall|k: int| 0 <= k < added.len() implies !#[trigger] keep(added[k]) by {
        assert(added[k] == after@[before@.len() + k]);
    }
    lemma_filter_all_or_none(added, keep);
    assert(before@.filter(keep) + added.filter(keep) =~= before@);
}

/// Removing the same user model a second time changes nothing.
pub proof fn lemma_remove_twice_is_once<M, T>(before: Seq<MeshInstance<M, T>>, group_id: u32)
    ensures
        before.filter(outside_group(group_id)).filter(outside_group(group_id)) == before.filter(
            outside_group(group_id),
        ),
{
    let keep = outside_group::<M, T>(group_id);
    let once = before.filter(keep);
    lemma_remove_keeps_others(before, group_id);
    assert forall|k: int| 0 <= k < once.len() implies #[trigger] keep(once[k]) by {
        assert(!in_group(once[k], group_id));
    }
    lemma_filter_all_or_none(once, keep);
}

/// Removing a user model leaves no instance of that group behind, and every
/// other instance (other models, demo geometry, engine fixtures such as the
/// ground plane) is still in the scene.
pub proof fn lemma_remove_keeps_others<M, T>(
    before: Seq<MeshInstance<M, T>>,
    group_id: u32,
)
    ensures
        forall|k: int|
            0 <= k < before.filter(outside_group(group_id)).len() ==> !in_group(
                #[trigger] before.filter(outside_group(group_id))[k],
                group_id,
            ),
        forall|k: int|
            0 <= k < before.len() && !in_group(before[k], group_id) ==> before.filter(
                outside_group(group_id),
            ).contains(#[trigger] before[k]),
{
    let keep = outside_group::<M, T>(group_id);
    assert forall|k: int| 0 <= k < before.filter(keep).len() implies !in_group(
        #[trigger] before.filter(keep)[k],
        group_id,
    ) by {
        before.lemma_filter_pred(keep, k);
    }
    assert forall|k: int| 0 <= k < before.len() && !in_group(before[k], group_id) implies before.filter(
        keep,
    ).contains(#[trigger] before[k]) by {
        before.lemma_filter_contains(keep, k);
    }
}

} // verus!
