//! Plain-value models of the records that Ceph's block device library
//! (librbd) fills in: the description of one snapshot and the description
//! of one image.
#![allow(non_camel_case_types)]

use vstd::prelude::*;

verus! {

/// What librbd reports of one snapshot of an image.
///
/// `name` is the address of the snapshot's NUL-terminated name, which
/// librbd owns until the snapshot list is released; `0` is the null
/// address.
#[derive(Copy, Debug, PartialEq, Eq)]
pub struct rbd_snap_info_t {
    pub id: u64,
    pub size: u64,
    pub name: usize,
}

impl Clone for rbd_snap_info_t {
    /// A field-for-field copy.
    fn clone(&self) -> (r: Self)
        ensures
            r == *self,
    {
        *self
    }
}

impl Default for rbd_snap_info_t {
    /// The all-zero record: id and size `0`, null name.
    fn default() -> (r: Self)
        ensures
            r.id == 0,
            r.size == 0,
            r.name == 0,
    {
        rbd_snap_info_t { id: 0, size: 0, name: 0 }
    }
}

/// What librbd reports of one image.
///
/// `block_name_prefix` and `parent_name` hold NUL-terminated C strings
/// (C `char`s, signed here); `parent_pool` is the id of the parent's pool.
#[derive(Copy, Debug, PartialEq, Eq)]
pub struct rbd_image_info_t {
    pub size: u64,
    pub obj_size: u64,
    pub num_objs: u64,
    pub order: i32,
    pub block_name_prefix: [i8; 24],
    pub parent_pool: i64,
    pub parent_name: [i8; 96],
}

impl Clone for rbd_image_info_t {
    /// A field-for-field copy.
    fn clone(&self) -> (r: Self)
        ensures
            r == *self,
    {
        *self
    }
}

impl Default for rbd_image_info_t {
    /// The all-zero record: every number `0`, both name buffers all `0`
    /// (empty C strings).
    fn default() -> (r: Self)
        ensures
            r.size == 0,
            r.obj_size == 0,
            r.num_objs == 0,
            r.order == 0,
            r.parent_pool == 0,
            r.block_name_prefix@ == Seq::new(24, |i: int| 0i8),
            r.parent_name@ == Seq::new(96, |i: int| 0i8),
    {
        let r = rbd_image_info_t {
            size: 0,
            obj_size: 0,
            num_objs: 0,
            order: 0,
            block_name_prefix: [0i8; 24],
            parent_pool: 0,
            parent_name: [0i8; 96],
        };
        assert(r.block_name_prefix@ =~= Seq::new(24, |i: int| 0i8));
        assert(r.parent_name@ =~= Seq::new(96, |i: int| 0i8));
        r
    }
}

} // verus!
