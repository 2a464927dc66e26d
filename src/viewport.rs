use vstd::prelude::*;

verus! {

/// Selection after moving down one row over `len` rows, wrapping to the top.
pub open spec fn next_index(sel: int, len: int) -> int {
    if len <= 0 {
        sel
    } else {
        (sel + 1) % len
    }
}

/// Selection after moving up one row over `len` rows, wrapping to the bottom.
pub open spec fn prev_index(sel: int, len: int) -> int {
    if len <= 0 {
        sel
    } else if sel > 0 {
        sel - 1
    } else {
        len - 1
    }
}

/// `next_index` applied `k` times.
pub open spec fn next_times(sel: int, len: int, k: nat) -> int
    decreases k,
{
    if k == 0 {
        sel
    } else {
        next_index(next_times(sel, len, (k - 1) as nat), len)
    }
}

/// Scroll offset after making row `sel` visible in a window of `height`
/// rows that started at `offset`.
pub open spec fn visible_offset(sel: int, offset: int, height: int) -> int {
    if sel < offset {
        sel
    } else if sel >= offset + height {
        sel - height + 1
    } else {
        offset
    }
}

/// The largest scroll offset that still fills a window of `height` rows
/// over `len` rows.
pub open spec fn max_scroll(len: int, height: int) -> int {
    if len > height {
        len - height
    } else {
        0
    }
}

/// Scroll offset after scrolling down `lines` rows, clamped to the bottom.
pub open spec fn scrolled_down(offset: int, lines: int, len: int, height: int) -> int {
    if offset + lines < max_scroll(len, height) {
        offset + lines
    } else {
        max_scroll(len, height)
    }
}

/// Scroll offset after scrolling up `lines` rows, clamped to the top.
pub open spec fn scrolled_up(offset: int, lines: int) -> int {
    if offset > lines {
        offset - lines
    } else {
        0
    }
}

pub fn next_selection(sel: usize, len: usize) -> (r: usize)
    ensures
        r == next_index(sel as int, len as int),
{
    if len == 0 {
        sel
    } else {
        ((sel as u128 + 1) % len as u128) as usize
    }
}

pub fn previous_selection(sel: usize, len: usize) -> (r: usize)
    ensures
        r == prev_index(sel as int, len as int),
{
    if len == 0 {
        sel
    } else if sel > 0 {
        sel - 1
    } else {
        len - 1
    }
}

pub fn ensure_visible(sel: usize, offset: usize, height: usize) -> (r: usize)
    requires
        height > 0,
    ensures
        r == visible_offset(sel as int, offset as int, height as int),
        r <= sel < r + height,
{
    if sel < offset {
        sel
    } else if sel - offset >= height {
        sel - (height - 1)
    } else {
        offset
    }
}

pub fn scroll_down_offset(offset: usize, lines: usize, len: usize, height: usize) -> (r: usize)
    ensures
        r == scrolled_down(offset as int, lines as int, len as int, height as int),
        r <= max_scroll(len as int, height as int),
{
    let max: usize = if len > height { len - height } else { 0 };
    if offset < max && lines < max - offset {
        offset + lines
    } else {
        max
    }
}

pub fn scroll_up_offset(offset: usize, lines: usize) -> (r: usize)
    ensures
        r == scrolled_up(offset as int, lines as int),
{
    if offset > lines {
        offset - lines
    } else {
        0
    }
}

/// Moving down `len` times from a row of a list of `len` rows comes back
/// to that row, and moving up undoes moving down and the other way round.
pub proof fn lemma_selection_wraparound(sel: int, len: int)
    requires
        0 <= sel < len,
    ensures
        next_times(sel, len, len as nat) == sel,
        prev_index(next_index(sel, len), len) == sel,
        next_index(prev_index(sel, len), len) == sel,
{
    lemma_next_times(sel, len, len as nat);
    assert((sel + len) % len == sel) by {
        vstd::arithmetic::div_mod::lemma_mod_add_multiples_vanish(sel, len);
        vstd::arithmetic::div_mod::lemma_small_mod(sel as nat, len as nat);
    }
    if sel + 1 < len {
        vstd::arithmetic::div_mod::lemma_small_mod((sel + 1) as nat, len as nat);
    } else {
        vstd::arithmetic::div_mod::lemma_mod_self_0(len);
    }
    if sel > 0 {
        vstd::arithmetic::div_mod::lemma_small_mod(sel as nat, len as nat);
    } else {
        vstd::arithmetic::div_mod::lemma_mod_self_0(len);
    }
}

proof fn lemma_next_times(sel: int, len: int, k: nat)
    requires
        0 <= sel < len,
    ensures
        next_times(sel, len, k) == (sel + k) % len,
    decreases k,
{
    if k == 0 {
        vstd::arithmetic::div_mod::lemma_small_mod(sel as nat, len as nat);
    } else {
        lemma_next_times(sel, len, (k - 1) as nat);
        vstd::arithmetic::div_mod::lemma_add_mod_noop_right(1, sel + k - 1, len);
    }
}

/// After making a row visible in a window of `height > 0` rows, the row
/// lies inside the window, whatever the previous offset.
pub proof fn lemma_visible_after_ensure(sel: int, offset: int, height: int)
    requires
        height > 0,
        0 <= sel,
        0 <= offset,
    ensures
        visible_offset(sel, offset, height) <= sel < visible_offset(sel, offset, height) + height,
        visible_offset(sel, offset, height) >= 0,
{
}

} // verus!
