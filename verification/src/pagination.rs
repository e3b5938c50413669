//! Slicing an ordered list of entries into pages of a fixed size.
//!
//! Pages are numbered from 1. Page 0 is not refused: it is read as page 1.
//! A page beyond the last entry is empty, and so is every page of size 0.
//! The entries are taken in the order in which they are stored; nothing is
//! sorted.

use vstd::prelude::*;
use crate::entry::{views, AuditLog};

verus! {

/// The index of the first entry of a page; page 0 starts where page 1 does.
pub open spec fn page_start(page_size: u32, page_number: u32) -> int {
    if page_number == 0 {
        0
    } else {
        page_size * (page_number - 1)
    }
}

/// The index one past the last entry of a page, in a list of `len` entries.
pub open spec fn page_end(len: int, page_size: u32, page_number: u32) -> int {
    if page_start(page_size, page_number) + page_size <= len {
        page_start(page_size, page_number) + page_size
    } else {
        len
    }
}

/// The entries of one page, in their stored order.
pub open spec fn page_of<T>(entries: Seq<T>, page_size: u32, page_number: u32) -> Seq<T> {
    if page_start(page_size, page_number) >= entries.len() {
        Seq::empty()
    } else {
        entries.subrange(
            page_start(page_size, page_number),
            page_end(entries.len() as int, page_size, page_number),
        )
    }
}

/// Copies out the page `page_number` of `entries`, with `page_size` entries to a page.
pub fn paginate<AccountId: Copy>(
    entries: &Vec<AuditLog<AccountId>>,
    page_size: u32,
    page_number: u32,
) -> (page: Vec<AuditLog<AccountId>>)
    ensures
        views(page@) == page_of(views(entries@), page_size, page_number),
{
    let len: usize = entries.len();
    let pages_before: u64 = if page_number == 0 {
        0
    } else {
        (page_number - 1) as u64
    };
    assert(page_size * pages_before <= u64::MAX) by (nonlinear_arith)
        requires
            0 <= page_size <= u32::MAX,
            0 <= pages_before <= u32::MAX,
    ;
    let start: u64 = (page_size as u64) * pages_before;
    let mut page: Vec<AuditLog<AccountId>> = Vec::new();
    if start >= len as u64 {
        return page;
    }
    let first: usize = start as usize;
    let end: usize = if page_size as u64 <= (len - first) as u64 {
        first + page_size as usize
    } else {
        len
    };
    let mut i: usize = first;
    while i < end
        invariant
            first <= i <= end <= len,
            len == entries@.len(),
            views(page@) == views(entries@).subrange(first as int, i as int),
        decreases end - i,
    {
        let ghost copied = views(page@);
        let entry = entries[i].clone();
        page.push(entry);
        assert(views(page@) =~= copied.push(entries@[i as int]@));
        i += 1;
    }
    page
}

} // verus!
