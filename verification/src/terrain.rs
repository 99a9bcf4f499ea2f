use vstd::prelude::*;

verus! {

/// One step of midpoint displacement: column `mid` takes the average of the
/// columns `left` and `right` plus a random offset, whose range has been
/// narrowed once for each level of `depth`.
#[derive(Debug, Clone, Copy, PartialEq, Eq, Structural)]
pub struct Subdivision {
    pub left: usize,
    pub mid: usize,
    pub right: usize,
    pub depth: usize,
}

/// The steps of midpoint displacement between columns `left` and `right`, in the
/// order they are taken: the middle column first, then the left half, then the
/// right half, each half one level deeper.
pub open spec fn schedule(left: usize, right: usize, depth: usize) -> Seq<Subdivision>
    decreases right - left,
{
    if right <= left + 1 {
        Seq::empty()
    } else {
        let mid = ((left + right) / 2) as usize;
        seq![Subdivision { left, mid, right, depth }] + schedule(left, mid, (depth + 1) as usize)
            + schedule(mid, right, (depth + 1) as usize)
    }
}

/// Whether one of `steps` sets column `c`.
pub open spec fn sets_column(steps: Seq<Subdivision>, c: int) -> bool {
    exists|k: int| 0 <= k < steps.len() && steps[k].mid == c
}

fn steps_from(left: usize, right: usize, depth: usize) -> (steps: Vec<Subdivision>)
    requires
        left <= right,
        depth + (right - left) <= usize::MAX,
    ensures
        steps@ == schedule(left, right, depth),
    decreases right - left,
{
    if right - left <= 1 {
        return Vec::new();
    }
    let mid = left + (right - left) / 2;
    assert(mid == (left + right) / 2);
    let mut steps: Vec<Subdivision> = Vec::new();
    steps.push(Subdivision { left, mid, right, depth });
    let mut lower = steps_from(left, mid, depth + 1);
    let mut upper = steps_from(mid, right, depth + 1);
    steps.append(&mut lower);
    steps.append(&mut upper);
    steps
}

/// The steps of midpoint displacement between columns `left` and `right`,
/// starting at depth 0.
pub fn midpoint_steps(left: usize, right: usize) -> (steps: Vec<Subdivision>)
    requires
        left <= right,
    ensures
        steps@ == schedule(left, right, 0),
{
    steps_from(left, right, 0)
}

/// Midpoint displacement sets every column strictly between its two ends, and
/// each of them once: the steps are as many as those columns, each sets one of
/// them, to the middle of its own two ends, and no two steps set the same column.
pub proof fn law_schedule_covers(left: usize, right: usize, depth: usize)
    requires
        left <= right,
    ensures
        schedule(left, right, depth).len() == if right <= left + 1 {
            0
        } else {
            right - left - 1
        },
        forall|k: int|
            0 <= k < schedule(left, right, depth).len() ==> {
                let s = #[trigger] schedule(left, right, depth)[k];
                &&& left <= s.left < s.mid < s.right <= right
                &&& s.mid == (s.left + s.right) / 2
            },
        forall|c: int| left < c < right ==> #[trigger] sets_column(schedule(left, right, depth), c),
        forall|i: int, j: int|
            0 <= i < j < schedule(left, right, depth).len() ==> schedule(left, right, depth)[i].mid
                != schedule(left, right, depth)[j].mid,
    decreases right - left,
{
    if right > left + 1 {
        let mid = ((left + right) / 2) as usize;
        let d = (depth + 1) as usize;
        law_schedule_covers(left, mid, d);
        law_schedule_covers(mid, right, d);
        let a = schedule(left, mid, d);
        let b = schedule(mid, right, d);
        let s = schedule(left, right, depth);
        let head = seq![Subdivision { left, mid, right, depth }];
        assert(s == head + a + b);
        assert forall|k: int| 0 <= k < s.len() implies {
            let e = #[trigger] s[k];
            &&& left <= e.left < e.mid < e.right <= right
            &&& e.mid == (e.left + e.right) / 2
        } by {
            if k == 0 {
            } else if k < 1 + a.len() {
                assert(s[k] == a[k - 1]);
            } else {
                assert(s[k] == b[k - 1 - a.len()]);
            }
        }
        assert forall|c: int| left < c < right implies #[trigger] sets_column(s, c) by {
            if c == mid {
                assert(s[0].mid == c);
            } else if c < mid {
                assert(sets_column(a, c));
                let k = choose|k: int| 0 <= k < a.len() && a[k].mid == c;
                assert(s[k + 1] == a[k]);
            } else {
                assert(sets_column(b, c));
                let k = choose|k: int| 0 <= k < b.len() && b[k].mid == c;
                assert(s[k + 1 + a.len()] == b[k]);
            }
        }
        assert forall|i: int, j: int| 0 <= i < j < s.len() implies s[i].mid != s[j].mid by {
            if i == 0 {
                if j < 1 + a.len() {
                    assert(s[j] == a[j - 1]);
                } else {
                    assert(s[j] == b[j - 1 - a.len()]);
                }
            } else if i < 1 + a.len() {
                assert(s[i] == a[i - 1]);
                if j < 1 + a.len() {
                    assert(s[j] == a[j - 1]);
                } else {
                    assert(s[j] == b[j - 1 - a.len()]);
                }
            } else {
                assert(s[i] == b[i - 1 - a.len()]);
                assert(s[j] == b[j - 1 - a.len()]);
            }
        }
    }
}

/// Every step of midpoint displacement reads only columns already set: each of
/// its two ends is one of the outer ends, or was set by an earlier step.
pub proof fn law_schedule_reads_set_columns(left: usize, right: usize, depth: usize)
    requires
        left <= right,
    ensures
        forall|k: int|
            0 <= k < schedule(left, right, depth).len() ==> {
                &&& (#[trigger] schedule(left, right, depth)[k]).left == left || exists|j: int|
                    0 <= j < k && schedule(left, right, depth)[j].mid == schedule(
                        left,
                        right,
                        depth,
                    )[k].left
                &&& schedule(left, right, depth)[k].right == right || exists|j: int|
                    0 <= j < k && schedule(left, right, depth)[j].mid == schedule(
                        left,
                        right,
                        depth,
                    )[k].right
            },
    decreases right - left,
{
    if right > left + 1 {
        let mid = ((left + right) / 2) as usize;
        let d = (depth + 1) as usize;
        law_schedule_reads_set_columns(left, mid, d);
        law_schedule_reads_set_columns(mid, right, d);
        let a = schedule(left, mid, d);
        let b = schedule(mid, right, d);
        let s = schedule(left, right, depth);
        assert(s == seq![Subdivision { left, mid, right, depth }] + a + b);
        assert forall|k: int| 0 <= k < s.len() implies {
            &&& (#[trigger] s[k]).left == left || exists|j: int| 0 <= j < k && s[j].mid == s[k].left
            &&& s[k].right == right || exists|j: int| 0 <= j < k && s[j].mid == s[k].right
        } by {
            if k == 0 {
            } else if k < 1 + a.len() {
                let kk = k - 1;
                assert(s[k] == a[kk]);
                if a[kk].left != left {
                    let j = choose|j: int| 0 <= j < kk && a[j].mid == a[kk].left;
                    assert(s[j + 1] == a[j]);
                }
                if a[kk].right != mid {
                    let j = choose|j: int| 0 <= j < kk && a[j].mid == a[kk].right;
                    assert(s[j + 1] == a[j]);
                } else {
                    assert(s[0].mid == mid);
                }
            } else {
                let kk = k - 1 - a.len();
                assert(s[k] == b[kk]);
                if b[kk].left != mid {
                    let j = choose|j: int| 0 <= j < kk && b[j].mid == b[kk].left;
                    assert(s[j + 1 + a.len()] == b[j]);
                } else {
                    assert(s[0].mid == mid);
                }
                if b[kk].right != right {
                    let j = choose|j: int| 0 <= j < kk && b[j].mid == b[kk].right;
                    assert(s[j + 1 + a.len()] == b[j]);
                }
            }
        }
    }
}

/// Whether step `inner` works on one half of the interval of step `outer`, one
/// level deeper: the left half, from its left end to its middle, or the right
/// half, from its middle to its right end.
pub open spec fn is_half_of(inner: Subdivision, outer: Subdivision) -> bool {
    &&& inner.depth == outer.depth + 1
    &&& (inner.left == outer.left && inner.right == outer.mid) || (inner.left == outer.mid
        && inner.right == outer.right)
}

/// Each step's depth is its level of subdivision: the first step splits the
/// whole interval at the starting depth, every later step splits one half of an
/// earlier step's interval one level deeper, so that the offset range narrows
/// once per level; no step lies above the starting depth.
pub proof fn law_schedule_depths(left: usize, right: usize, depth: usize)
    requires
        left <= right,
        depth + (right - left) <= usize::MAX,
    ensures
        right > left + 1 ==> schedule(left, right, depth)[0] == (Subdivision {
            left,
            mid: ((left + right) / 2) as usize,
            right,
            depth,
        }),
        forall|k: int|
            0 < k < schedule(left, right, depth).len() ==> exists|j: int|
                0 <= j < k && is_half_of(
                    #[trigger] schedule(left, right, depth)[k],
                    schedule(left, right, depth)[j],
                ),
        forall|k: int|
            0 <= k < schedule(left, right, depth).len() ==> #[trigger] schedule(
                left,
                right,
                depth,
            )[k].depth >= depth,
    decreases right - left,
{
    if right > left + 1 {
        let mid = ((left + right) / 2) as usize;
        let d = (depth + 1) as usize;
        law_schedule_depths(left, mid, d);
        law_schedule_depths(mid, right, d);
        let a = schedule(left, mid, d);
        let b = schedule(mid, right, d);
        let s = schedule(left, right, depth);
        let head = Subdivision { left, mid, right, depth };
        assert(s == seq![head] + a + b);
        assert forall|k: int| 0 < k < s.len() implies exists|j: int|
            0 <= j < k && is_half_of(#[trigger] s[k], s[j]) by {
            if k < 1 + a.len() {
                let kk = k - 1;
                assert(s[k] == a[kk]);
                if kk == 0 {
                    assert(is_half_of(s[k], s[0]));
                } else {
                    let j = choose|j: int| 0 <= j < kk && is_half_of(a[kk], a[j]);
                    assert(s[j + 1] == a[j]);
                    assert(is_half_of(s[k], s[j + 1]));
                }
            } else {
                let kk = k - 1 - a.len();
                assert(s[k] == b[kk]);
                if kk == 0 {
                    assert(is_half_of(s[k], s[0]));
                } else {
                    let j = choose|j: int| 0 <= j < kk && is_half_of(b[kk], b[j]);
                    assert(s[j + 1 + a.len()] == b[j]);
                    assert(is_half_of(s[k], s[j + 1 + a.len()]));
                }
            }
        }
        assert forall|k: int| 0 <= k < s.len() implies #[trigger] s[k].depth >= depth by {
            if k == 0 {
            } else if k < 1 + a.len() {
                assert(s[k] == a[k - 1]);
            } else {
                assert(s[k] == b[k - 1 - a.len()]);
            }
        }
    }
}

} // verus!
