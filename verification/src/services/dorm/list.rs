//! The page query of the dormitory task list.

use vstd::prelude::*;

use crate::constants::dorm::{LIST_CURRENT, LIST_SIZE};

verus! {

/// A page of the task list.
#[derive(Debug, Clone, Copy, PartialEq, Eq)]
pub struct DormListRequest {
    pub current: i32,
    pub size: i32,
}

impl DormListRequest {
    /// Page `current` of `size` tasks.
    pub fn new(current: i32, size: i32) -> (r: Self)
        ensures
            r.current == current,
            r.size == size,
    {
        DormListRequest { current, size }
    }
}

impl Default for DormListRequest {
    /// The first page of fifteen.
    fn default() -> (r: Self)
        ensures
            r.current == LIST_CURRENT,
            r.size == LIST_SIZE,
    {
        DormListRequest { current: LIST_CURRENT, size: LIST_SIZE }
    }
}

} // verus!
