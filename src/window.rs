use vstd::prelude::*;

verus! {

/// The full windows of `size` words taken from `start` on, advancing by `step`.
pub open spec fn windows_from(words: Seq<String>, start: nat, size: nat, step: nat) -> Seq<Seq<String>>
    decreases if start <= words.len() { words.len() - start + 1 } else { 0 },
{
    if start + size <= words.len() && step > 0 {
        seq![words.subrange(start as int, (start + size) as int)] + windows_from(words, start + step, size, step)
    } else {
        seq![]
    }
}

/// Where the window after the last full one would start.
pub open spec fn end_of_windows(len: nat, start: nat, size: nat, step: nat) -> nat
    decreases if start <= len { len - start + 1 } else { 0 },
{
    if start + size <= len && step > 0 {
        end_of_windows(len, start + step, size, step)
    } else {
        start
    }
}

/// The windows of `size` words overlapping by `overlap`: all the words where
/// they fit in one window; otherwise each full window, then a last one that
/// reaches back twice the overlap from where the next would start.
pub open spec fn sliding_windows(words: Seq<String>, size: nat, overlap: nat) -> Seq<Seq<String>> {
    if words.len() <= size {
        seq![words]
    } else {
        let step = (size - overlap) as nat;
        let end = end_of_windows(words.len(), 0, size, step);
        windows_from(words, 0, size, step).push(words.subrange(end - 2 * overlap, words.len() as int))
    }
}

fn copy_words(words: &Vec<String>, lo: usize, hi: usize) -> (r: Vec<String>)
    requires
        lo <= hi <= words.len(),
    ensures
        r@ == words@.subrange(lo as int, hi as int),
{
    let mut r: Vec<String> = Vec::new();
    let mut i: usize = lo;
    while i < hi
        invariant
            lo <= i <= hi <= words.len(),
            r@ == words@.subrange(lo as int, i as int),
        decreases hi - i,
    {
        r.push(words[i].clone());
        i = i + 1;
        assert(r@ =~= words@.subrange(lo as int, i as int));
    }
    r
}

/// Splits `words` into windows of `window_size` words that overlap by
/// `overlap_size`.
pub fn sliding_window(words: Vec<String>, window_size: usize, overlap_size: usize) -> (r: Vec<Vec<String>>)
    requires
        words@.len() > window_size ==> overlap_size < window_size
            && end_of_windows(words@.len(), 0, window_size as nat, (window_size - overlap_size) as nat) >= 2 * overlap_size,
    ensures
        r@.map_values(|w: Vec<String>| w@) == sliding_windows(words@, window_size as nat, overlap_size as nat),
{
    let mut result: Vec<Vec<String>> = Vec::new();
    if words.len() <= window_size {
        let ghost w = words@;
        result.push(words);
        assert(result@.map_values(|w: Vec<String>| w@) =~= seq![w]);
        return result;
    }
    let step = window_size - overlap_size;
    let ghost size = window_size as nat;
    let ghost len = words@.len();
    let mut start: usize = 0;
    while window_size <= words.len() - start
        invariant
            0 < step == window_size - overlap_size,
            start <= words.len(),
            len == words@.len(),
            size == window_size,
            result@.map_values(|w: Vec<String>| w@) + windows_from(words@, start as nat, size, step as nat)
                == windows_from(words@, 0, size, step as nat),
            end_of_windows(len, start as nat, size, step as nat) == end_of_windows(len, 0, size, step as nat),
        decreases if start <= words.len() { words.len() - start + 1 } else { 0 },
    {
        let end = start + window_size;
        let window = copy_words(&words, start, end);
        let ghost before = result@.map_values(|w: Vec<String>| w@);
        result.push(window);
        assert(result@.map_values(|w: Vec<String>| w@) =~= before.push(words@.subrange(start as int, end as int)));
        assert(windows_from(words@, start as nat, size, step as nat)
            == seq![words@.subrange(start as int, end as int)] + windows_from(words@, (start + step) as nat, size, step as nat));
        assert(before.push(words@.subrange(start as int, end as int)) + windows_from(words@, (start + step) as nat, size, step as nat)
            =~= before + (seq![words@.subrange(start as int, end as int)] + windows_from(words@, (start + step) as nat, size, step as nat)));
        start = start + step;
    }
    assert(windows_from(words@, start as nat, size, step as nat) == Seq::<Seq<String>>::empty());
    assert(end_of_windows(len, start as nat, size, step as nat) == start);
    assert(result@.map_values(|w: Vec<String>| w@) =~= windows_from(words@, 0, size, step as nat));
    let last = copy_words(&words, start - overlap_size - overlap_size, words.len());
    let ghost before = result@.map_values(|w: Vec<String>| w@);
    result.push(last);
    assert(result@.map_values(|w: Vec<String>| w@) =~= before.push(last@));
    result
}

/// Whether `sliding_window` accepts these sizes for `len` words: where the
/// words do not fit in one window, the overlap is smaller than the window and
/// the last window does not reach back before the first word.
pub open spec fn window_sizes_ok(len: nat, size: nat, overlap: nat) -> bool {
    len > size ==> overlap < size && end_of_windows(len, 0, size, (size - overlap) as nat) >= 2 * overlap
}

/// `sliding_window` where the sizes suit the words, `None` where they do not.
pub fn checked_sliding_window(words: Vec<String>, window_size: usize, overlap_size: usize) -> (r: Option<Vec<Vec<String>>>)
    ensures
        r is Some == window_sizes_ok(words@.len(), window_size as nat, overlap_size as nat),
        r is Some ==> r->0@.map_values(|w: Vec<String>| w@) == sliding_windows(words@, window_size as nat, overlap_size as nat),
{
    if words.len() > window_size {
        if overlap_size >= window_size {
            return None;
        }
        let step = window_size - overlap_size;
        let ghost len = words@.len();
        let mut start: usize = 0;
        while window_size <= words.len() - start
            invariant
                0 < step,
                step <= window_size,
                start <= words.len(),
                len == words@.len(),
                end_of_windows(len, start as nat, window_size as nat, step as nat)
                    == end_of_windows(len, 0, window_size as nat, step as nat),
            decreases words.len() - start,
        {
            start = start + step;
        }
        assert(end_of_windows(len, start as nat, window_size as nat, step as nat) == start);
        if start < overlap_size || start - overlap_size < overlap_size {
            return None;
        }
    }
    Some(sliding_window(words, window_size, overlap_size))
}

} // verus!
