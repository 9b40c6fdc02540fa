//! A path in the file system tree: the mount it lies in and its directory
//! entry.
use vstd::prelude::*;
use std::sync::Arc;

verus! {

/// Objects that have an empty, zero-initialised value.
pub trait ZeroInit: Sized {
    /// The zero-initialised value.
    fn zero_init() -> Self;
}

/// `Arc::clone`: another pointer to the same allocation.
#[verifier::external_body]
pub(crate) fn arc_clone<T>(a: &Arc<T>) -> (r: Arc<T>)
    ensures
        r == *a,
{
    Arc::clone(a)
}

/// A mount and a directory entry.
pub struct Path<M, D> {
    pub mnt: Arc<M>,
    pub dentry: Arc<D>,
}

impl<M: ZeroInit, D: ZeroInit> Path<M, D> {
    /// The path of the zero-initialised mount and directory entry.
    pub fn zero_init() -> (r: Arc<Self>)
        ensures
            M::zero_init.ensures((), *r.mnt),
            D::zero_init.ensures((), *r.dentry),
    {
        Arc::new(Path { mnt: Arc::new(M::zero_init()), dentry: Arc::new(D::zero_init()) })
    }
}

impl<M, D> Path<M, D> {
    /// A new path sharing the mount and directory entry of `old_path`.
    pub fn from_existed_user(old_path: &Arc<Path<M, D>>) -> (r: Arc<Self>)
        ensures
            r.mnt == old_path.mnt,
            r.dentry == old_path.dentry,
    {
        Arc::new(Path { mnt: arc_clone(&old_path.mnt), dentry: arc_clone(&old_path.dentry) })
    }

    /// The path of `dentry` in `mnt`.
    pub fn new(mnt: Arc<M>, dentry: Arc<D>) -> (r: Arc<Self>)
        ensures
            r.mnt == mnt,
            r.dentry == dentry,
    {
        Arc::new(Path { mnt, dentry })
    }
}

} // verus!
