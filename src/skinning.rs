use vstd::prelude::*;

use crate::error::{HothamError, HothamResult};
use crate::resources::Buffer;

verus! {

/// One joint's result for this tick: the skeleton root it belongs to and
/// its skinning matrix, `inverse(root transform) * joint transform *
/// inverse bind matrix`, or `None` when the skeleton root has no transform
/// to invert.
#[derive(Debug, Clone, Copy)]
pub struct JointMatrix<M> {
    pub skeleton_root: u64,
    pub matrix: Option<M>,
}

/// A skin: the entity it is attached to (which is the skeleton root its
/// joints refer to), the joint matrices it was loaded with, and the buffer
/// that the skinning pass fills.
#[derive(Debug)]
pub struct Skin<M> {
    pub entity: u64,
    pub joint_matrices: Vec<M>,
    pub buffer: Buffer<M>,
}

/// The joints that refer to `root`, in traversal order.
pub open spec fn joints_of<M>(joints: Seq<JointMatrix<M>>, root: u64) -> Seq<JointMatrix<M>> {
    joints.filter(|j: JointMatrix<M>| j.skeleton_root == root)
}

/// The matrices to upload for the skin at `root`: those of the joints that
/// refer to it, in traversal order. `None` when no joint refers to it or
/// one of them has no matrix.
pub open spec fn skin_upload<M>(joints: Seq<JointMatrix<M>>, root: u64) -> Option<Seq<M>> {
    let g = joints_of(joints, root);
    if g.len() > 0 && forall|i: int| 0 <= i < g.len() ==> (#[trigger] g[i]).matrix is Some {
        Some(g.map_values(|j: JointMatrix<M>| j.matrix->0))
    } else {
        None
    }
}

/// The matrices of the joints that refer to `root`, in traversal order.
fn gather<M: Copy>(joints: &Vec<JointMatrix<M>>, root: u64) -> (r: Vec<Option<M>>)
    ensures
        r@ == joints_of(joints@, root).map_values(|j: JointMatrix<M>| j.matrix),
{
    let mut r: Vec<Option<M>> = Vec::new();
    let mut i: usize = 0;
    while i < joints.len()
        invariant
            i <= joints@.len(),
            r@ == joints_of(joints@.subrange(0, i as int), root).map_values(
                |j: JointMatrix<M>| j.matrix,
            ),
        decreases joints@.len() - i,
    {
        let ghost prefix = joints@.subrange(0, i as int);
        let ghost next = joints@.subrange(0, i as int + 1);
        assert(next.drop_last() =~= prefix);
        assert(next.last() == joints@[i as int]);
        reveal(Seq::filter);
        if joints[i].skeleton_root == root {
            r.push(joints[i].matrix);
            assert(joints_of(next, root) == joints_of(prefix, root).push(joints@[i as int]));
            assert(r@ =~= joints_of(next, root).map_values(|j: JointMatrix<M>| j.matrix));
        } else {
            assert(joints_of(next, root) == joints_of(prefix, root));
        }
        i = i + 1;
    }
    assert(joints@.subrange(0, joints@.len() as int) =~= joints@);
    r
}

/// The matrices to upload into the skin attached to entity `skin`: those
/// of the joints whose skeleton root is `skin`, in traversal order. No
/// joint referring to it, or one with no matrix, is a
/// `SkinningTraversalError` for that skin.
pub fn skin_matrices<M: Copy>(joints: &Vec<JointMatrix<M>>, skin: u64) -> (r: HothamResult<Vec<M>>)
    ensures
        match skin_upload(joints@, skin) {
            Some(s) => r matches Ok(v) && v@ == s,
            None => r == Err::<Vec<M>, HothamError>(HothamError::SkinningTraversalError(skin)),
        },
{
    let gathered = gather(joints, skin);
    let ghost g = joints_of(joints@, skin);
    if gathered.len() == 0 {
        return Err(HothamError::SkinningTraversalError(skin));
    }
    let mut out: Vec<M> = Vec::new();
    let mut k: usize = 0;
    while k < gathered.len()
        invariant
            k <= gathered@.len(),
            gathered@ == g.map_values(|j: JointMatrix<M>| j.matrix),
            g == joints_of(joints@, skin),
            out@ == g.subrange(0, k as int).map_values(|j: JointMatrix<M>| j.matrix->0),
            forall|i: int| 0 <= i < k ==> (#[trigger] g[i]).matrix is Some,
        decreases gathered@.len() - k,
    {
        match gathered[k] {
            Some(m) => {
                out.push(m);
                assert(g[k as int].matrix == Some(m));
                assert(out@ =~= g.subrange(0, k as int + 1).map_values(
                    |j: JointMatrix<M>| j.matrix->0,
                ));
            },
            None => {
                assert(g[k as int].matrix is None);
                return Err(HothamError::SkinningTraversalError(skin));
            },
        }
        k = k + 1;
    }
    assert(g.subrange(0, g.len() as int) =~= g);
    Ok(out)
}

/// What the skinning pass reports for one skin: a `SkinningTraversalError`
/// when there is nothing to upload, a `JointCountMismatch` when the upload
/// does not have the length the skin's buffer was allocated for, and
/// nothing otherwise.
pub open spec fn skin_outcome<M>(joints: Seq<JointMatrix<M>>, s: Skin<M>) -> Option<HothamError> {
    match skin_upload(joints, s.entity) {
        None => Some(HothamError::SkinningTraversalError(s.entity)),
        Some(u) => if u.len() == s.buffer.capacity {
            None
        } else {
            Some(HothamError::JointCountMismatch(s.entity))
        },
    }
}

/// The errors the skinning pass reports for `skins`, in skin order.
pub open spec fn skinning_errors<M>(joints: Seq<JointMatrix<M>>, skins: Seq<Skin<M>>) -> Seq<
    HothamError,
>
    decreases skins.len(),
{
    if skins.len() == 0 {
        Seq::empty()
    } else {
        let prev = skinning_errors(joints, skins.drop_last());
        match skin_outcome(joints, skins.last()) {
            Some(e) => prev.push(e),
            None => prev,
        }
    }
}

/// The contents of a skin's buffer after the skinning pass: the upload
/// when there is one of exactly the buffer's capacity, the previous
/// contents otherwise.
pub open spec fn skinned_data<M>(joints: Seq<JointMatrix<M>>, s: Skin<M>) -> Seq<M> {
    match skin_upload(joints, s.entity) {
        Some(u) => if u.len() == s.buffer.capacity {
            u
        } else {
            s.buffer.data@
        },
        None => s.buffer.data@,
    }
}

/// `after` is `before` with its buffer filled by the skinning pass.
pub open spec fn skinned<M>(joints: Seq<JointMatrix<M>>, before: Skin<M>, after: Skin<M>) -> bool {
    &&& after.entity == before.entity
    &&& after.joint_matrices == before.joint_matrices
    &&& after.buffer.handle == before.buffer.handle
    &&& after.buffer.device_memory == before.buffer.device_memory
    &&& after.buffer.capacity == before.buffer.capacity
    &&& after.buffer.data@ == skinned_data(joints, before)
}

/// Whether one of `skins` is attached to entity `root`.
pub open spec fn has_skin<M>(skins: Seq<Skin<M>>, root: u64) -> bool {
    exists|i: int| 0 <= i < skins.len() && (#[trigger] skins[i]).entity == root
}

/// The skeleton roots, each once and in the order the joints first name
/// them, that a joint without a matrix refers to and that no skin is
/// attached to: their missing transforms are reported on their own.
pub open spec fn unskinned_missing_roots<M>(joints: Seq<JointMatrix<M>>, skins: Seq<Skin<M>>) -> Seq<u64>
    decreases joints.len(),
{
    if joints.len() == 0 {
        Seq::empty()
    } else {
        let prev = unskinned_missing_roots(joints.drop_last(), skins);
        let j = joints.last();
        if j.matrix is None && !has_skin(skins, j.skeleton_root) && !prev.contains(j.skeleton_root) {
            prev.push(j.skeleton_root)
        } else {
            prev
        }
    }
}

/// Everything one skinning pass reports: the errors of the skins, in skin
/// order, then a `SkinningTraversalError` for each root of
/// `unskinned_missing_roots`.
pub open spec fn pass_errors<M>(joints: Seq<JointMatrix<M>>, skins: Seq<Skin<M>>) -> Seq<HothamError> {
    skinning_errors(joints, skins) + unskinned_missing_roots(joints, skins).map_values(
        |r: u64| HothamError::SkinningTraversalError(r),
    )
}

fn skin_attached<M>(skins: &Vec<Skin<M>>, root: u64) -> (r: bool)
    ensures
        r == has_skin(skins@, root),
{
    let mut i: usize = 0;
    while i < skins.len()
        invariant
            i <= skins@.len(),
            forall|k: int| 0 <= k < i ==> (#[trigger] skins@[k]).entity != root,
        decreases skins@.len() - i,
    {
        if skins[i].entity == root {
            return true;
        }
        i = i + 1;
    }
    false
}

fn holds_root(v: &Vec<u64>, root: u64) -> (r: bool)
    ensures
        r == v@.contains(root),
{
    let mut i: usize = 0;
    while i < v.len()
        invariant
            i <= v@.len(),
            forall|k: int| 0 <= k < i ==> v@[k] != root,
        decreases v@.len() - i,
    {
        if v[i] == root {
            assert(v@[i as int] == root);
            return true;
        }
        i = i + 1;
    }
    false
}

/// The roots of `unskinned_missing_roots`.
fn missing_roots<M: Copy>(joints: &Vec<JointMatrix<M>>, skins: &Vec<Skin<M>>) -> (r: Vec<u64>)
    ensures
        r@ == unskinned_missing_roots(joints@, skins@),
{
    let mut r: Vec<u64> = Vec::new();
    let mut i: usize = 0;
    while i < joints.len()
        invariant
            i <= joints@.len(),
            r@ == unskinned_missing_roots(joints@.subrange(0, i as int), skins@),
        decreases joints@.len() - i,
    {
        let ghost next = joints@.subrange(0, i as int + 1);
        assert(next.drop_last() =~= joints@.subrange(0, i as int));
        assert(next.last() == joints@[i as int]);
        let root = joints[i].skeleton_root;
        if joints[i].matrix.is_none() && !skin_attached(skins, root) && !holds_root(&r, root) {
            r.push(root);
        }
        i = i + 1;
    }
    assert(joints@.subrange(0, joints@.len() as int) =~= joints@);
    r
}

/// One skinning pass: fills every skin's buffer with the matrices of the
/// joints that refer to it, in traversal order. A skin that cannot be
/// skinned keeps its buffer as it was and its error is reported; the pass
/// goes on with the remaining skins. A joint without a matrix whose root
/// carries no skin is reported too, once per root.
pub fn skinning<M: Copy>(joints: &Vec<JointMatrix<M>>, skins: &mut Vec<Skin<M>>) -> (errors: Vec<
    HothamError,
>)
    requires
        forall|i: int| 0 <= i < old(skins)@.len() ==> (#[trigger] old(skins)@[i]).buffer.wf(),
    ensures
        final(skins)@.len() == old(skins)@.len(),
        forall|i: int|
            0 <= i < old(skins)@.len() ==> skinned(joints@, old(skins)@[i], #[trigger] final(skins)@[i]),
        forall|i: int| 0 <= i < final(skins)@.len() ==> (#[trigger] final(skins)@[i]).buffer.wf(),
        errors@ == pass_errors(joints@, old(skins)@),
{
    let missing = missing_roots(joints, skins);
    let mut errors: Vec<HothamError> = Vec::new();
    let mut i: usize = 0;
    while i < skins.len()
        invariant
            skins@.len() == old(skins)@.len(),
            i <= skins@.len(),
            forall|j: int| 0 <= j < i ==> skinned(joints@, old(skins)@[j], #[trigger] skins@[j]),
            forall|j: int| i <= j < skins@.len() ==> #[trigger] skins@[j] == old(skins)@[j],
            forall|j: int| 0 <= j < skins@.len() ==> (#[trigger] skins@[j]).buffer.wf(),
            errors@ == skinning_errors(joints@, old(skins)@.subrange(0, i as int)),
        decreases skins@.len() - i,
    {
        let ghost before = skins@;
        let mut skin = skins.remove(i);
        assert(skin == old(skins)@[i as int]);
        let ghost prefix = old(skins)@.subrange(0, i as int);
        let ghost next = old(skins)@.subrange(0, i as int + 1);
        assert(next.drop_last() =~= prefix);
        assert(next.last() == skin);
        match skin_matrices(joints, skin.entity) {
            Ok(m) => if m.len() != skin.buffer.capacity {
                errors.push(HothamError::JointCountMismatch(skin.entity));
            } else {
                let _ = skin.buffer.update(&m);
            },
            Err(e) => {
                errors.push(e);
            },
        }
        skins.insert(i, skin);
        assert forall|j: int| 0 <= j < skins@.len() && j != i implies #[trigger] skins@[j] == before[j] by {
            assert(skins@[j] == before[j]);
        }
        i = i + 1;
    }
    assert(old(skins)@.subrange(0, i as int) =~= old(skins)@);
    let ghost base = errors@;
    let mut k: usize = 0;
    while k < missing.len()
        invariant
            k <= missing@.len(),
            missing@ == unskinned_missing_roots(joints@, old(skins)@),
            base == skinning_errors(joints@, old(skins)@),
            errors@ == base + missing@.subrange(0, k as int).map_values(
                |r: u64| HothamError::SkinningTraversalError(r),
            ),
        decreases missing@.len() - k,
    {
        errors.push(HothamError::SkinningTraversalError(missing[k]));
        k = k + 1;
        assert(errors@ =~= base + missing@.subrange(0, k as int).map_values(
            |r: u64| HothamError::SkinningTraversalError(r),
        ));
    }
    assert(missing@.subrange(0, k as int) =~= missing@);
    errors
}

/// A skin that the skinning pass reported no error for holds exactly one
/// matrix per joint that refers to it after the pass, never fewer and never
/// more, at least one joint refers to it, and that count is the capacity the
/// skin's buffer was allocated for.
pub proof fn skinned_buffer_holds_one_matrix_per_joint<M>(
    joints: Seq<JointMatrix<M>>,
    before: Skin<M>,
    after: Skin<M>,
)
    requires
        skinned(joints, before, after),
        skin_outcome(joints, before) is None,
    ensures
        after.buffer.data@.len() == joints_of(joints, before.entity).len(),
        joints_of(joints, before.entity).len() > 0,
        after.buffer.data@.len() == before.buffer.capacity,
{
}

} // verus!
