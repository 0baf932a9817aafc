//! Stepping through the images of the current folder.

use vstd::prelude::*;
use vstd::arithmetic::div_mod::{
    lemma_add_mod_noop, lemma_mod_add_multiples_vanish, lemma_mod_self_0, lemma_small_mod,
};

verus! {

/// The next image to try after `previous` (or after the shown image `index`
/// when nothing was tried yet), going forward and wrapping around; none once
/// the walk is back at `index` or the list is empty.
pub open spec fn next_attempt_spec(index: int, previous: Option<int>, len: int) -> Option<int> {
    if len == 0 {
        None
    } else {
        let n = match previous {
            Some(p) => (p + 1) % len,
            None => (index + 1) % len,
        };
        if n == index {
            None
        } else {
            Some(n)
        }
    }
}

/// The same walk going backward.
pub open spec fn previous_attempt_spec(index: int, previous: Option<int>, len: int) -> Option<int> {
    if len == 0 {
        None
    } else {
        let n = match previous {
            Some(p) => (p + len - 1) % len,
            None => (index + len - 1) % len,
        };
        if n == index {
            None
        } else {
            Some(n)
        }
    }
}

pub open spec fn opt_int(o: Option<usize>) -> Option<int> {
    match o {
        Some(p) => Some(p as int),
        None => None,
    }
}

/// The next image to try when stepping forward from the image at `index`:
/// the caller tries to show it, and if that fails asks again with it as
/// `previous`, until an image is shown or none is left.
pub fn next_attempt(index: usize, previous: Option<usize>, len: usize) -> (r: Option<usize>)
    requires
        index < usize::MAX,
        previous matches Some(p) ==> p < usize::MAX,
    ensures
        r == (match next_attempt_spec(index as int, opt_int(previous), len as int) {
            Some(n) => Some(n as usize),
            None => None,
        }),
{
    if len == 0 {
        return None;
    }
    let n = match previous {
        Some(p) => (p + 1) % len,
        None => (index + 1) % len,
    };
    if n == index {
        None
    } else {
        Some(n)
    }
}

/// The next image to try when stepping backward from the image at `index`.
pub fn previous_attempt(index: usize, previous: Option<usize>, len: usize) -> (r: Option<usize>)
    requires
        index + len <= usize::MAX,
        previous matches Some(p) ==> p + len <= usize::MAX,
    ensures
        r == (match previous_attempt_spec(index as int, opt_int(previous), len as int) {
            Some(n) => Some(n as usize),
            None => None,
        }),
{
    if len == 0 {
        return None;
    }
    let n = match previous {
        Some(p) => (p + len - 1) % len,
        None => (index + len - 1) % len,
    };
    if n == index {
        None
    } else {
        Some(n)
    }
}

/// The image tried at step `k` (from 0) of a forward walk from `index`.
pub open spec fn forward_walk(index: int, len: int, k: nat) -> Option<int>
    decreases k,
{
    if k == 0 {
        next_attempt_spec(index, None, len)
    } else {
        match forward_walk(index, len, (k - 1) as nat) {
            Some(p) => next_attempt_spec(index, Some(p), len),
            None => None,
        }
    }
}

/// The image tried at step `k` (from 0) of a backward walk from `index`.
pub open spec fn backward_walk(index: int, len: int, k: nat) -> Option<int>
    decreases k,
{
    if k == 0 {
        previous_attempt_spec(index, None, len)
    } else {
        match backward_walk(index, len, (k - 1) as nat) {
            Some(p) => previous_attempt_spec(index, Some(p), len),
            None => None,
        }
    }
}

/// Stepping forward from the image at `index` tries every other image of the
/// list exactly once, in order `index + 1, index + 2, ...` wrapping around,
/// and then stops.
pub proof fn law_forward_walk_visits_all(index: int, len: int, k: nat)
    requires
        0 <= index < len,
    ensures
        k < len - 1 ==> forward_walk(index, len, k) == Some((index + k + 1) % len),
        k == len - 1 ==> forward_walk(index, len, k) is None,
    decreases k,
{
    if k > 0 && k <= len - 1 {
        law_forward_walk_visits_all(index, len, (k - 1) as nat);
        lemma_add_mod_noop(index + k, 1, len);
        lemma_small_mod(1, len as nat);
    }
    if k <= len - 1 {
        if index + k + 1 < len {
            lemma_small_mod((index + k + 1) as nat, len as nat);
        } else {
            lemma_small_mod((index + k + 1 - len) as nat, len as nat);
            lemma_add_mod_noop(index + k + 1 - len, len, len);
            lemma_mod_self_0(len);
        }
    }
}

/// Stepping backward from the image at `index` tries every other image of the
/// list exactly once, in order `index - 1, index - 2, ...` wrapping around,
/// and then stops.
pub proof fn law_backward_walk_visits_all(index: int, len: int, k: nat)
    requires
        0 <= index < len,
    ensures
        k < len - 1 ==> backward_walk(index, len, k) == Some((index + len - k - 1) % len),
        k == len - 1 ==> backward_walk(index, len, k) is None,
    decreases k,
{
    if k > 0 && k <= len - 1 {
        law_backward_walk_visits_all(index, len, (k - 1) as nat);
        lemma_add_mod_noop(index + len - k, len - 1, len);
        lemma_small_mod((len - 1) as nat, len as nat);
        lemma_mod_add_multiples_vanish(index + len - k - 1, len);
    }
    if k <= len - 1 {
        if index + len - k - 1 < len {
            lemma_small_mod((index + len - k - 1) as nat, len as nat);
        } else {
            lemma_small_mod((index - k - 1) as nat, len as nat);
            lemma_add_mod_noop(index - k - 1, len, len);
            lemma_mod_self_0(len);
        }
    }
}

/// The image to show when the thumbnail selection moves by `delta` from the
/// image at `index`: `(index as i32 + delta).max(0).min(len as i32 - 1)`,
/// or none when that is `index` itself.
pub fn thumbnail_step(index: usize, delta: i32, len: usize) -> (r: Option<usize>)
    requires
        index <= i32::MAX,
        1 <= len <= i32::MAX,
        i32::MIN <= index + delta <= i32::MAX,
    ensures
        ({
            let t = index + delta;
            let n = if t < 0 {
                0
            } else if t > len - 1 {
                len - 1
            } else {
                t
            };
            r == if n == index {
                None
            } else {
                Some(n as usize)
            }
        }),
{
    let t = index as i32 + delta;
    let a = if t > 0 {
        t
    } else {
        0
    };
    let hi = len as i32 - 1;
    let n = if a < hi {
        a
    } else {
        hi
    };
    let n = n as usize;
    if n != index {
        Some(n)
    } else {
        None
    }
}

} // verus!
