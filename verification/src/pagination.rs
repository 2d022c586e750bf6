//! The pagination window: a bounded, cursor-containing slice of the visible
//! rows, for rendering.

use vstd::prelude::*;

use crate::option_answer::OptionAnswer;

verus! {

/// One page of rows to draw: a contiguous window of the visible rows, and
/// the position of the highlighted row inside the window. When the row list
/// is empty, `content` is empty and `selection` points at no row.
pub struct Page {
    pub content: Vec<OptionAnswer>,
    pub selection: usize,
}

/// Where the window starts: the whole list when it fits the page; otherwise
/// a full page, pinned to the top or bottom near the ends and centered on
/// the selection in between.
pub open spec fn spec_page_start(page_size: int, len: int, sel: int) -> int {
    if len <= page_size {
        0
    } else if sel < page_size / 2 {
        0
    } else if len - sel - 1 < page_size / 2 {
        len - page_size
    } else {
        sel - page_size / 2
    }
}

/// How many rows the window holds.
pub open spec fn spec_page_len(page_size: int, len: int) -> int {
    if len <= page_size {
        len
    } else {
        page_size
    }
}

/// Cuts the window of at most `page_size` rows around the selected position
/// `sel` out of `choices`. The window always contains the selected position
/// (when `sel` is in range), and `selection` is its offset in the window.
pub fn paginate(page_size: usize, choices: &Vec<OptionAnswer>, sel: usize) -> (page: Page)
    requires
        page_size >= 1,
        choices@.len() > page_size ==> sel < choices@.len(),
    ensures
        ({
            let start = spec_page_start(page_size as int, choices@.len() as int, sel as int);
            let plen = spec_page_len(page_size as int, choices@.len() as int);
            &&& page.content@ == choices@.subrange(start, start + plen)
            &&& page.selection == sel - start
            &&& sel < choices@.len() ==> start <= sel < start + plen
        }),
{
    let len = choices.len();
    let half: usize = page_size / 2;
    let (start, end): (usize, usize) = if len <= page_size {
        (0, len)
    } else if sel < half {
        (0, page_size)
    } else if len - sel - 1 < half {
        (len - page_size, len)
    } else {
        (sel - half, sel - half + page_size)
    };
    let mut content: Vec<OptionAnswer> = Vec::new();
    let mut k: usize = start;
    while k < end
        invariant
            start <= k <= end,
            end <= choices@.len(),
            content@ == choices@.subrange(start as int, k as int),
        decreases end - k,
    {
        let row = OptionAnswer { index: choices[k].index, value: choices[k].value.clone() };
        assert(row == choices@[k as int]);
        content.push(row);
        assert(content@ =~= choices@.subrange(start as int, k + 1));
        k = k + 1;
    }
    Page { content, selection: sel - start }
}

} // verus!
