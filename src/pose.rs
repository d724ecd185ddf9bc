//! Poses that own their rotation and translation matrices, the estimate that
//! pairs a pose with its fit error, and the camera parameters of a tag.

use vstd::prelude::*;
use crate::matd::{at, lemma_transpose_entries, transpose_elems, Matd, MatdRef};

verus! {

/// An estimated pose: a 3x3 rotation matrix and a 3x1 translation vector, both
/// stored row by row and owned by the pose, which releases them when dropped.
#[derive(Debug)]
pub struct Pose<T> {
    rotation: Matd<T>,
    translation: Matd<T>,
}

/// An estimated pose together with its fit error.
#[derive(Debug)]
pub struct PoseEstimation<T> {
    pub pose: Pose<T>,
    pub error: T,
}

/// The physical size of a square tag and the pinhole intrinsics of the camera:
/// focal lengths (`fx`, `fy`) and principal point (`cx`, `cy`), in pixels.
#[derive(Debug, Clone, PartialEq)]
pub struct TagParams<T> {
    pub tagsize: T,
    pub fx: T,
    pub fy: T,
    pub cx: T,
    pub cy: T,
}

/// The parts of a rigid transform, rotation first and then translation, in the
/// orientation that geometry code expects: the rotation's columns are the
/// rotated basis vectors.
#[derive(Debug)]
pub struct RigidTransform<T> {
    rotation: Matd<T>,
    translation: Matd<T>,
}

impl<T> Pose<T> {
    /// The rotation matrix that the pose owns.
    pub closed spec fn rotation_matd(&self) -> Matd<T> {
        self.rotation
    }

    /// The translation matrix that the pose owns.
    pub closed spec fn translation_matd(&self) -> Matd<T> {
        self.translation
    }

    /// Both matrices are well formed.
    pub open spec fn wf(&self) -> bool {
        self.rotation_matd().wf() && self.translation_matd().wf()
    }

    /// The pose that owns `rotation` and `translation`.
    pub closed spec fn from_parts(rotation: Matd<T>, translation: Matd<T>) -> Pose<T> {
        Pose { rotation, translation }
    }

    /// Takes ownership of a rotation and a translation matrix, as handed over by
    /// a pose solver; their dimensions are taken as they are.
    pub fn new(rotation: Matd<T>, translation: Matd<T>) -> (p: Pose<T>)
        ensures
            p == Pose::from_parts(rotation, translation),
            p.rotation_matd() == rotation,
            p.translation_matd() == translation,
    {
        Pose { rotation, translation }
    }

    /// A view of the rotation matrix, valid while the pose lives.
    pub fn rotation(&self) -> (v: MatdRef<'_, T>)
        requires
            self.wf(),
        ensures
            v.wf(),
            v.nrows() == self.rotation_matd().nrows(),
            v.ncols() == self.rotation_matd().ncols(),
            v.elems() == self.rotation_matd().elems(),
    {
        self.rotation.as_view()
    }

    /// A view of the translation matrix, valid while the pose lives.
    pub fn translation(&self) -> (v: MatdRef<'_, T>)
        requires
            self.wf(),
        ensures
            v.wf(),
            v.nrows() == self.translation_matd().nrows(),
            v.ncols() == self.translation_matd().ncols(),
            v.elems() == self.translation_matd().elems(),
    {
        self.translation.as_view()
    }

    /// Converts the pose into rigid-transform parts: the rotation is the
    /// transpose of the stored row-major rotation, the translation is copied
    /// as it is. The pose is left untouched.
    pub fn to_rigid(&self) -> (r: RigidTransform<T>) where T: Copy
        requires
            self.wf(),
        ensures
            r.is_conversion_of(*self),
    {
        let rotation = self.rotation().transpose();
        let translation = self.translation().to_matd();
        RigidTransform { rotation, translation }
    }
}

impl<T> RigidTransform<T> {
    /// The rotation part.
    pub closed spec fn rotation_matd(&self) -> Matd<T> {
        self.rotation
    }

    /// The translation part.
    pub closed spec fn translation_matd(&self) -> Matd<T> {
        self.translation
    }

    /// Both parts are well formed.
    pub open spec fn wf(&self) -> bool {
        self.rotation_matd().wf() && self.translation_matd().wf()
    }

    /// These are the parts of `p`: the transpose of its rotation, and its
    /// translation unchanged.
    pub open spec fn is_conversion_of(&self, p: Pose<T>) -> bool {
        let rot = p.rotation_matd();
        let tr = p.translation_matd();
        &&& self.wf()
        &&& self.rotation_matd().nrows() == rot.ncols()
        &&& self.rotation_matd().ncols() == rot.nrows()
        &&& self.rotation_matd().elems() == transpose_elems(rot.elems(), rot.nrows(), rot.ncols())
        &&& self.translation_matd().nrows() == tr.nrows()
        &&& self.translation_matd().ncols() == tr.ncols()
        &&& self.translation_matd().elems() == tr.elems()
    }

    /// A view of the rotation part, row by row.
    pub fn rotation(&self) -> (v: MatdRef<'_, T>)
        requires
            self.wf(),
        ensures
            v.wf(),
            v.nrows() == self.rotation_matd().nrows(),
            v.ncols() == self.rotation_matd().ncols(),
            v.elems() == self.rotation_matd().elems(),
    {
        self.rotation.as_view()
    }

    /// A view of the translation part.
    pub fn translation(&self) -> (v: MatdRef<'_, T>)
        requires
            self.wf(),
        ensures
            v.wf(),
            v.nrows() == self.translation_matd().nrows(),
            v.ncols() == self.translation_matd().ncols(),
            v.elems() == self.translation_matd().elems(),
    {
        self.translation.as_view()
    }
}

/// A pose built from a 3x3 rotation and a 3x1 translation reads them back as
/// they were given: dimensions (3, 3) and (3, 1), the same elements in the same order.
pub proof fn lemma_pose_reads_back<T>(rotation: Matd<T>, translation: Matd<T>)
    requires
        rotation.wf(),
        translation.wf(),
        rotation.nrows() == 3,
        rotation.ncols() == 3,
        translation.nrows() == 3,
        translation.ncols() == 1,
    ensures
        ({
            let p = Pose::from_parts(rotation, translation);
            &&& p.wf()
            &&& p.rotation_matd().nrows() == 3
            &&& p.rotation_matd().ncols() == 3
            &&& p.rotation_matd().elems() == rotation.elems()
            &&& p.translation_matd().nrows() == 3
            &&& p.translation_matd().ncols() == 1
            &&& p.translation_matd().elems() == translation.elems()
        }),
{
}

/// Converting a pose whose rotation is the identity gives the identity as
/// rotation and the pose's translation, unchanged, as translation.
pub proof fn lemma_identity_rotation_round_trip<T>(
    p: Pose<T>,
    r: RigidTransform<T>,
    zero: T,
    one: T,
)
    requires
        p.wf(),
        p.rotation_matd().nrows() == 3,
        p.rotation_matd().ncols() == 3,
        p.rotation_matd().elems() == seq![one, zero, zero, zero, one, zero, zero, zero, one],
        r.is_conversion_of(p),
    ensures
        r.rotation_matd().nrows() == 3,
        r.rotation_matd().ncols() == 3,
        r.rotation_matd().elems() == seq![one, zero, zero, zero, one, zero, zero, zero, one],
        r.translation_matd().nrows() == p.translation_matd().nrows(),
        r.translation_matd().ncols() == p.translation_matd().ncols(),
        r.translation_matd().elems() == p.translation_matd().elems(),
{
    let id = seq![one, zero, zero, zero, one, zero, zero, zero, one];
    assert(transpose_elems(id, 3, 3) =~= id);
}

/// The rotation of a converted pose is the transpose of the pose's row-major
/// rotation: its entry (`i`, `j`) is the pose's entry (`j`, `i`).
pub proof fn lemma_rigid_rotation_is_transpose<T>(p: Pose<T>, r: RigidTransform<T>)
    requires
        p.wf(),
        r.is_conversion_of(p),
    ensures
        forall|i: nat, j: nat|
            i < p.rotation_matd().ncols() && j < p.rotation_matd().nrows() ==> #[trigger] at(
                r.rotation_matd().elems(),
                r.rotation_matd().ncols(),
                i,
                j,
            ) == at(p.rotation_matd().elems(), p.rotation_matd().ncols(), j, i),
{
    let rot = p.rotation_matd();
    lemma_transpose_entries(rot.elems(), rot.nrows(), rot.ncols());
}

} // verus!
