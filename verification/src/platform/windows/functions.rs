//! Desktop state decisions: lock screen and secure desktop detection, cloaked windows,
//! the `WorkerW` z-order scan and fullscreen occlusion sampling.
use crate::platform::windows::attach::Rect;
use crate::platform::windows::constants::ERROR_INSUFFICIENT_BUFFER;
use vstd::prelude::*;
use vstd::string::StrSliceExecFns;

verus! {

/// A character with ASCII upper-case letters mapped to lower case, as a code point.
pub open spec fn ascii_fold(c: char) -> u32 {
    let v = c as u32;
    if 65 <= v <= 90 {
        (v + 32) as u32
    } else {
        v
    }
}

/// ASCII case-insensitive equality of two strings (what `str::eq_ignore_ascii_case`
/// computes on their UTF-8 bytes).
pub open spec fn spec_eq_ignore_ascii_case(a: Seq<char>, b: Seq<char>) -> bool {
    a.len() == b.len() && forall|i: int| 0 <= i < a.len() ==> #[trigger] ascii_fold(a[i]) == ascii_fold(b[i])
}

/// Length of a string without its trailing NUL characters.
pub open spec fn trimmed_nul_len(s: Seq<char>) -> nat
    decreases s.len(),
{
    if s.len() == 0 {
        0
    } else if s.last() == '\0' {
        trimmed_nul_len(s.drop_last())
    } else {
        s.len()
    }
}

/// Trimming keeps a prefix: everything cut off is NUL, and the last character kept is not.
pub proof fn lemma_trimmed_nul_len(s: Seq<char>)
    ensures
        trimmed_nul_len(s) <= s.len(),
        forall|i: int| trimmed_nul_len(s) <= i < s.len() ==> s[i] == '\0',
        trimmed_nul_len(s) > 0 ==> s[trimmed_nul_len(s) - 1] != '\0',
    decreases s.len(),
{
    if s.len() > 0 && s.last() == '\0' {
        lemma_trimmed_nul_len(s.drop_last());
        assert forall|i: int| trimmed_nul_len(s) <= i < s.len() implies s[i] == '\0' by {
            if i < s.len() - 1 {
                assert(s[i] == s.drop_last()[i]);
            }
        }
        if trimmed_nul_len(s) > 0 {
            assert(s[trimmed_nul_len(s) - 1] == s.drop_last()[trimmed_nul_len(s) - 1]);
        }
    }
}

fn fold_char(c: char) -> (r: u32)
    ensures
        r == ascii_fold(c),
{
    let v = c as u32;
    if 65 <= v && v <= 90 {
        v + 32
    } else {
        v
    }
}

/// Compares the first `len` characters of `a` with `b`, ignoring ASCII case.
pub fn prefix_eq_ignore_ascii_case(a: &str, len: usize, b: &str) -> (r: bool)
    requires
        len <= a@.len(),
    ensures
        r == spec_eq_ignore_ascii_case(a@.take(len as int), b@),
{
    let b_len = b.unicode_len();
    if len != b_len {
        return false;
    }
    let mut i: usize = 0;
    while i < len
        invariant
            len <= a@.len(),
            len == b@.len(),
            0 <= i <= len,
            forall|j: int| 0 <= j < i ==> #[trigger] ascii_fold(a@[j]) == ascii_fold(b@[j]),
        decreases len - i,
    {
        if fold_char(a.get_char(i)) != fold_char(b.get_char(i)) {
            assert(ascii_fold(a@.take(len as int)[i as int]) != ascii_fold(b@[i as int]));
            return false;
        }
        i += 1;
    }
    assert forall|j: int| 0 <= j < len implies #[trigger] ascii_fold(a@.take(len as int)[j])
        == ascii_fold(b@[j]) by {
        assert(a@.take(len as int)[j] == a@[j]);
    }
    true
}

/// ASCII case-insensitive string equality.
pub fn eq_ignore_ascii_case(a: &str, b: &str) -> (r: bool)
    ensures
        r == spec_eq_ignore_ascii_case(a@, b@),
{
    let n = a.unicode_len();
    assert(a@.take(n as int) =~= a@);
    prefix_eq_ignore_ascii_case(a, n, b)
}

/// Number of characters of `s` left after removing its trailing NUL characters.
pub fn trimmed_nul_length(s: &str) -> (n: usize)
    ensures
        n == trimmed_nul_len(s@),
{
    let mut n = s.unicode_len();
    assert(s@.take(n as int) =~= s@);
    while n > 0 && s.get_char(n - 1) == '\0'
        invariant
            n <= s@.len(),
            trimmed_nul_len(s@.take(n as int)) == trimmed_nul_len(s@),
        decreases n,
    {
        assert(s@.take(n as int).drop_last() =~= s@.take(n - 1));
        n -= 1;
    }
    assert(s@.take(n as int).len() == n);
    if n > 0 {
        assert(s@.take(n as int).last() == s@[n - 1]);
    }
    n
}

/// The name of the desktop that receives user input, when it could be read, decides
/// whether the session is on a secure desktop (log-on screen, UAC prompt, Ctrl+Alt+Del):
/// any desktop other than `Default` (ignoring ASCII case and trailing NULs) is secure,
/// and so is a desktop whose name could not be read.
pub open spec fn spec_is_secure_desktop(input_desktop_name: Option<Seq<char>>) -> bool {
    match input_desktop_name {
        None => true,
        Some(name) => !spec_eq_ignore_ascii_case(name.take(trimmed_nul_len(name) as int), "Default"@),
    }
}

/// Whether the session is on a secure desktop, from the name of the input desktop
/// (`None` when it could not be opened or its name could not be read).
pub fn is_secure_desktop(input_desktop_name: Option<&str>) -> (r: bool)
    ensures
        r == spec_is_secure_desktop(
            match input_desktop_name {
                Some(n) => Some(n@),
                None => None,
            },
        ),
{
    match input_desktop_name {
        None => true,
        Some(name) => {
            let n = trimmed_nul_length(name);
            proof {
                lemma_trimmed_nul_len(name@);
            }
            !prefix_eq_ignore_ascii_case(name, n, "Default")
        },
    }
}

/// Size of the UTF-16 buffer (in code units, one more than the reported byte size
/// holds) for the input desktop's name, given the outcome of the size query; `None`
/// means the session is treated as secure: the query failed for another reason than a
/// too small buffer, or the reported size is zero.
pub open spec fn spec_desktop_name_buffer_len(size_query_succeeded: bool, last_error: u32, bytes: u32) -> Option<nat> {
    if !size_query_succeeded && last_error != ERROR_INSUFFICIENT_BUFFER {
        None
    } else if bytes == 0 {
        None
    } else {
        Some((bytes / 2 + 1) as nat)
    }
}

/// Decides how large a buffer to read the input desktop's name into.
pub fn desktop_name_buffer_len(size_query_succeeded: bool, last_error: u32, bytes: u32) -> (r: Option<usize>)
    ensures
        r matches Some(n) ==> spec_desktop_name_buffer_len(size_query_succeeded, last_error, bytes) == Some(n as nat),
        r is None ==> spec_desktop_name_buffer_len(size_query_succeeded, last_error, bytes) is None,
{
    if !size_query_succeeded && last_error != ERROR_INSUFFICIENT_BUFFER {
        return None;
    }
    if bytes == 0 {
        return None;
    }
    Some((bytes / 2) as usize + 1)
}

/// Whether the desktop is locked: it is on a secure desktop, or the process that owns
/// the foreground window runs `LockApp.exe` (ASCII case ignored).
pub open spec fn spec_is_desktop_locked(secure_desktop: bool, foreground_image_file_name: Option<Seq<char>>) -> bool {
    secure_desktop || match foreground_image_file_name {
        Some(name) => spec_eq_ignore_ascii_case(name, "LockApp.exe"@),
        None => false,
    }
}

/// The lock-screen rules: a secure desktop always counts as locked; otherwise the desktop
/// is locked exactly when the foreground window's process image is `LockApp.exe`
/// (ASCII case ignored), and never when that name is unknown. A desktop whose name
/// cannot be read is secure; a readable name is secure unless it is `Default` (ASCII case
/// and trailing NULs ignored).
pub proof fn lemma_lock_rules(secure_desktop: bool, foreground_image_file_name: Option<Seq<char>>, input_desktop_name: Option<Seq<char>>)
    ensures
        secure_desktop ==> spec_is_desktop_locked(secure_desktop, foreground_image_file_name),
        !secure_desktop && foreground_image_file_name is None ==> !spec_is_desktop_locked(
            secure_desktop,
            foreground_image_file_name,
        ),
        !secure_desktop && foreground_image_file_name is Some ==> (spec_is_desktop_locked(
            secure_desktop,
            foreground_image_file_name,
        ) <==> spec_eq_ignore_ascii_case(foreground_image_file_name->0, "LockApp.exe"@)),
        input_desktop_name is None ==> spec_is_secure_desktop(input_desktop_name),
        input_desktop_name is Some ==> (spec_is_secure_desktop(input_desktop_name) <==> !spec_eq_ignore_ascii_case(
            input_desktop_name->0.take(trimmed_nul_len(input_desktop_name->0) as int),
            "Default"@,
        )),
{
}

/// Decides whether the desktop is locked, from whether the input desktop is secure and
/// the file name of the foreground window's process image (`None` when there is no
/// foreground window, no owning process, or its image name could not be read).
pub fn is_desktop_locked(secure_desktop: bool, foreground_image_file_name: Option<&str>) -> (r: bool)
    ensures
        r == spec_is_desktop_locked(
            secure_desktop,
            match foreground_image_file_name {
                Some(n) => Some(n@),
                None => None,
            },
        ),
{
    if secure_desktop {
        return true;
    }
    match foreground_image_file_name {
        None => false,
        Some(name) => eq_ignore_ascii_case(name, "LockApp.exe"),
    }
}

/// Whether a window is cloaked by the desktop window manager, from its `DWMWA_CLOAKED`
/// attribute (`None` when the attribute could not be read).
pub fn is_invisible_win10_background_app_window(cloaked_attribute: Option<u32>) -> (r: bool)
    ensures
        r == (cloaked_attribute matches Some(v) && v != 0),
{
    match cloaked_attribute {
        Some(v) => v != 0,
        None => false,
    }
}

/// Whether a window class name is `WorkerW`.
pub fn is_workerw_class(class_name: &str) -> (r: bool)
    ensures
        r == (class_name@ == "WorkerW"@),
{
    str_equals(class_name, "WorkerW")
}

/// Exact string equality.
pub fn str_equals(a: &str, b: &str) -> (r: bool)
    ensures
        r == (a@ == b@),
{
    let n = a.unicode_len();
    if n != b.unicode_len() {
        return false;
    }
    let mut i: usize = 0;
    while i < n
        invariant
            n == a@.len(),
            n == b@.len(),
            0 <= i <= n,
            forall|j: int| 0 <= j < i ==> a@[j] == b@[j],
        decreases n - i,
    {
        if a.get_char(i) != b.get_char(i) {
            return false;
        }
        i += 1;
    }
    assert(a@ =~= b@);
    true
}

/// One step of walking the z-order upwards from the engine window, looking for a
/// `WorkerW` before the icons view is reached.
#[derive(Clone, Copy, Debug, PartialEq, Eq, Structural)]
pub enum ZOrderScanStep {
    /// The walk is over: whether a `WorkerW` lies between the icons and the engine.
    Finished(bool),
    /// Read the class name of this window next.
    InspectClass(isize),
}

/// Decides on the window just above the current one (`None` when there is none): the walk
/// ends without a `WorkerW` at the top of the z-order or at the icons view.
pub fn has_workerw_between_step(shell_def_view: isize, previous: Option<isize>) -> (r: ZOrderScanStep)
    ensures
        previous is None ==> r == ZOrderScanStep::Finished(false),
        previous == Some(shell_def_view) ==> r == ZOrderScanStep::Finished(false),
        previous matches Some(p) ==> (p != shell_def_view ==> r == ZOrderScanStep::InspectClass(p)),
{
    match previous {
        None => ZOrderScanStep::Finished(false),
        Some(p) => {
            if p == shell_def_view {
                ZOrderScanStep::Finished(false)
            } else {
                ZOrderScanStep::InspectClass(p)
            }
        },
    }
}

/// Whether point `(x, y)` lies in `r`.
pub open spec fn rect_contains(r: Rect, x: int, y: int) -> bool {
    r.left <= x < r.right && r.top <= y < r.bottom
}

/// Whether point `(x, y)` lies in one of `rects`.
pub open spec fn point_occluded(rects: Seq<Rect>, x: int, y: int) -> bool {
    exists|i: int| 0 <= i < rects.len() && rect_contains(#[trigger] rects[i], x, y)
}

/// Distance from `a` up to `b`, or 0 when `a` is not below `b`.
pub open spec fn span(a: int, b: int) -> int {
    if a < b {
        b - a
    } else {
        0
    }
}

/// Number of sample columns `x, x + step, ...` below `x_end`.
pub open spec fn row_samples(x: int, x_end: int, step: int) -> nat
    decreases span(x, x_end),
{
    if step <= 0 || x >= x_end {
        0
    } else {
        1 + row_samples(x + step, x_end, step)
    }
}

/// Number of occluded samples `(x, y), (x + step, y), ...` with `x` below `x_end`.
pub open spec fn row_hits(rects: Seq<Rect>, x: int, x_end: int, y: int, step: int) -> nat
    decreases span(x, x_end),
{
    if step <= 0 || x >= x_end {
        0
    } else {
        (if point_occluded(rects, x, y) {
            1nat
        } else {
            0nat
        }) + row_hits(rects, x + step, x_end, y, step)
    }
}

/// Number of grid samples in rows `y, y + step, ...` below `y_end`.
pub open spec fn grid_samples(x: int, x_end: int, y: int, y_end: int, step: int) -> nat
    decreases span(y, y_end),
{
    if step <= 0 || y >= y_end {
        0
    } else {
        row_samples(x, x_end, step) + grid_samples(x, x_end, y + step, y_end, step)
    }
}

/// Number of occluded grid samples in rows `y, y + step, ...` below `y_end`.
pub open spec fn grid_hits(rects: Seq<Rect>, x: int, x_end: int, y: int, y_end: int, step: int) -> nat
    decreases span(y, y_end),
{
    if step <= 0 || y >= y_end {
        0
    } else {
        row_hits(rects, x, x_end, y, step) + grid_hits(rects, x, x_end, y + step, y_end, step)
    }
}

/// The number of sample columns is the width divided by the step, rounded up.
pub proof fn lemma_row_samples_count(x: int, x_end: int, step: int)
    requires
        step > 0,
    ensures
        row_samples(x, x_end, step) == if x < x_end {
            (x_end - x - 1) / step + 1
        } else {
            0
        },
    decreases span(x, x_end),
{
    if x < x_end {
        lemma_row_samples_count(x + step, x_end, step);
        let a = x_end - x - 1;
        if x + step < x_end {
            assert((a - step) / step + 1 == a / step) by (nonlinear_arith)
                requires
                    a >= step,
                    step > 0,
            ;
        } else {
            assert(a / step == 0) by (nonlinear_arith)
                requires
                    0 <= a < step,
            ;
        }
    }
}

/// The grid holds one sample per column in every row.
pub proof fn lemma_grid_samples_count(x: int, x_end: int, y: int, y_end: int, step: int)
    requires
        step > 0,
    ensures
        grid_samples(x, x_end, y, y_end, step) == row_samples(y, y_end, step) * row_samples(
            x,
            x_end,
            step,
        ),
    decreases span(y, y_end),
{
    if y < y_end {
        lemma_grid_samples_count(x, x_end, y + step, y_end, step);
        let rows = row_samples(y + step, y_end, step);
        let cols = row_samples(x, x_end, step);
        assert(cols + rows * cols == (rows + 1) * cols) by (nonlinear_arith);
        assert(row_samples(y, y_end, step) == rows + 1);
        assert(grid_samples(x, x_end, y, y_end, step) == cols + rows * cols);
    } else {
        assert(row_samples(y, y_end, step) == 0);
        assert(0 * row_samples(x, x_end, step) == 0) by (nonlinear_arith);
    }
}

/// Without occluding rectangles no sample is occluded.
pub proof fn lemma_no_occluders(x: int, x_end: int, y: int, y_end: int, step: int)
    ensures
        grid_hits(Seq::<Rect>::empty(), x, x_end, y, y_end, step) == 0,
    decreases span(y, y_end),
{
    if step > 0 && y < y_end {
        lemma_no_occluders_row(x, x_end, y, step);
        lemma_no_occluders(x, x_end, y + step, y_end, step);
    }
}

proof fn lemma_no_occluders_row(x: int, x_end: int, y: int, step: int)
    ensures
        row_hits(Seq::<Rect>::empty(), x, x_end, y, step) == 0,
    decreases span(x, x_end),
{
    if step > 0 && x < x_end {
        lemma_no_occluders_row(x + step, x_end, y, step);
    }
}

/// When one rectangle covers the whole sampled area, every sample is occluded.
pub proof fn lemma_full_cover(rects: Seq<Rect>, cover: int, x: int, x_end: int, y: int, y_end: int, step: int)
    requires
        0 <= cover < rects.len(),
        rects[cover].left <= x,
        x_end <= rects[cover].right,
        rects[cover].top <= y,
        y_end <= rects[cover].bottom,
    ensures
        grid_hits(rects, x, x_end, y, y_end, step) == grid_samples(x, x_end, y, y_end, step),
    decreases span(y, y_end),
{
    if step > 0 && y < y_end {
        lemma_full_cover_row(rects, cover, x, x_end, y, step);
        lemma_full_cover(rects, cover, x, x_end, y + step, y_end, step);
    }
}

proof fn lemma_full_cover_row(rects: Seq<Rect>, cover: int, x: int, x_end: int, y: int, step: int)
    requires
        0 <= cover < rects.len(),
        rects[cover].left <= x,
        x_end <= rects[cover].right,
        rects[cover].top <= y < rects[cover].bottom,
    ensures
        row_hits(rects, x, x_end, y, step) == row_samples(x, x_end, step),
    decreases span(x, x_end),
{
    if step > 0 && x < x_end {
        assert(rect_contains(rects[cover], x, y));
        lemma_full_cover_row(rects, cover, x + step, x_end, y, step);
    }
}

/// Never more samples are occluded than there are samples.
pub proof fn lemma_hits_at_most_samples(rects: Seq<Rect>, x: int, x_end: int, y: int, y_end: int, step: int)
    ensures
        grid_hits(rects, x, x_end, y, y_end, step) <= grid_samples(x, x_end, y, y_end, step),
    decreases span(y, y_end),
{
    if step > 0 && y < y_end {
        lemma_row_hits_at_most_samples(rects, x, x_end, y, step);
        lemma_hits_at_most_samples(rects, x, x_end, y + step, y_end, step);
    }
}

proof fn lemma_row_hits_at_most_samples(rects: Seq<Rect>, x: int, x_end: int, y: int, step: int)
    ensures
        row_hits(rects, x, x_end, y, step) <= row_samples(x, x_end, step),
    decreases span(x, x_end),
{
    if step > 0 && x < x_end {
        lemma_row_hits_at_most_samples(rects, x + step, x_end, y, step);
    }
}

/// A single rectangle occludes exactly the points with `left <= x < right` and
/// `top <= y < bottom`: its right and bottom edges are outside it.
pub proof fn lemma_single_rect_occlusion(r: Rect, x: int, y: int)
    ensures
        point_occluded(seq![r], x, y) <==> (r.left <= x < r.right && r.top <= y < r.bottom),
{
    if r.left <= x < r.right && r.top <= y < r.bottom {
        assert(rect_contains(seq![r][0], x, y));
    }
}

/// ASCII case folding: an upper-case ASCII letter and its lower-case form fold to the
/// same value, and otherwise two characters fold to the same value only when they are
/// equal.
pub proof fn lemma_ascii_fold_pairs(c: char, d: char)
    ensures
        (ascii_fold(c) == ascii_fold(d)) <==> (c == d || (65 <= c as u32 <= 90 && d as u32 == c as u32 + 32)
            || (65 <= d as u32 <= 90 && c as u32 == d as u32 + 32)),
{
}

/// Sample counts of an area: how many grid points were checked and how many of them lie
/// in an occluding rectangle.
#[derive(Clone, Copy, Debug, PartialEq, Eq, Structural)]
pub struct SampleCounts {
    pub occluded: u64,
    pub total: u64,
}

/// Whether point `(x, y)` lies in one of `rects`.
pub fn is_point_occluded(rects: &[Rect], x: i32, y: i32) -> (r: bool)
    ensures
        r == point_occluded(rects@, x as int, y as int),
{
    let n = rects.len();
    let mut i: usize = 0;
    while i < n
        invariant
            n == rects@.len(),
            0 <= i <= n,
            forall|j: int| 0 <= j < i ==> !rect_contains(#[trigger] rects@[j], x as int, y as int),
        decreases n - i,
    {
        let r = rects[i];
        if x >= r.left && x < r.right && y >= r.top && y < r.bottom {
            assert(rect_contains(rects@[i as int], x as int, y as int));
            return true;
        }
        i += 1;
    }
    false
}

/// Samples the area `x .. x + width` by `y .. y + height` every `sample_step` pixels in
/// both directions and counts the samples, and those that lie in one of
/// `occluded_rects`. The occluded fraction of the area is `occluded / total` (0 when
/// nothing was sampled).
pub fn occlusion_sample_counts(
    occluded_rects: &[Rect],
    x: i32,
    y: i32,
    width: i32,
    height: i32,
    sample_step: usize,
) -> (r: SampleCounts)
    requires
        sample_step > 0,
        x + width <= i32::MAX,
        y + height <= i32::MAX,
    ensures
        r.total == grid_samples(x as int, x + width, y as int, y + height, sample_step as int),
        r.occluded == grid_hits(occluded_rects@, x as int, x + width, y as int, y + height, sample_step as int),
        r.occluded <= r.total,
{
    let step = sample_step as i128;
    let x_start = x as i128;
    let x_end = x as i128 + width as i128;
    let y_start = y as i128;
    let y_end = y as i128 + height as i128;
    let ghost rects = occluded_rects@;
    let mut occluded: u64 = 0;
    let mut total: u64 = 0;
    let mut rows: u64 = 0;
    let mut cy: i128 = y_start;
    while cy < y_end
        invariant
            step == sample_step as int,
            step > 0,
            rects == occluded_rects@,
            x_start == x,
            x_end == x + width,
            y_start == y,
            y_end == y + height,
            x_end <= i32::MAX,
            y_end <= i32::MAX,
            y_start <= cy,
            total + grid_samples(x_start as int, x_end as int, cy as int, y_end as int, step as int)
                == grid_samples(x_start as int, x_end as int, y_start as int, y_end as int, step as int),
            occluded + grid_hits(rects, x_start as int, x_end as int, cy as int, y_end as int, step as int)
                == grid_hits(rects, x_start as int, x_end as int, y_start as int, y_end as int, step as int),
            occluded <= total,
            rows <= cy - y_start,
            total <= rows * 0x8000_0000,
        decreases span(cy as int, y_end as int),
    {
        let mut row_total: u64 = 0;
        let mut row_occluded: u64 = 0;
        let mut cx: i128 = x_start;
        while cx < x_end
            invariant
                step == sample_step as int,
                step > 0,
                rects == occluded_rects@,
                x_start == x,
                x_end == x + width,
                x_end <= i32::MAX,
                i32::MIN <= cy < y_end,
                y_end <= i32::MAX,
                x_start <= cx,
                row_total <= cx - x_start,
                row_total == 0 || row_total <= width,
                row_occluded <= row_total,
                row_total + row_samples(cx as int, x_end as int, step as int) == row_samples(
                    x_start as int,
                    x_end as int,
                    step as int,
                ),
                row_occluded + row_hits(rects, cx as int, x_end as int, cy as int, step as int)
                    == row_hits(rects, x_start as int, x_end as int, cy as int, step as int),
            decreases span(cx as int, x_end as int),
        {
            row_total += 1;
            if is_point_occluded(occluded_rects, cx as i32, cy as i32) {
                row_occluded += 1;
            }
            cx += step;
        }
        assert(row_total <= 0x7fff_ffff);
        assert(rows + 1 <= 0x7fff_ffff);
        assert(total + row_total <= (rows + 1) * 0x8000_0000);
        total += row_total;
        occluded += row_occluded;
        rows += 1;
        cy += step;
    }
    SampleCounts { occluded, total }
}

} // verus!
