use vstd::prelude::*;

verus! {

/// `query` occurs in `title` as a run of consecutive characters.
pub open spec fn contains(title: Seq<char>, query: Seq<char>) -> bool {
    exists|i: int| 0 <= i && i + query.len() <= title.len() && #[trigger] title.subrange(i, i + query.len()) == query
}

/// Whether `query` occurs in `title`.
pub fn title_contains(title: &String, query: &String) -> (r: bool)
    ensures
        r == contains(title@, query@),
{
    let t = title.as_str();
    let q = query.as_str();
    let tl = t.unicode_len();
    let ql = q.unicode_len();
    if ql > tl {
        return false;
    }
    let mut i: usize = 0;
    while i <= tl - ql
        invariant
            t@ == title@,
            q@ == query@,
            tl == t@.len(),
            ql == q@.len(),
            ql <= tl,
            i <= tl - ql + 1,
            forall|k: int| 0 <= k < i ==> #[trigger] t@.subrange(k, k + ql) != q@,
        decreases tl - ql + 1 - i,
    {
        let mut j: usize = 0;
        let mut same: bool = true;
        while same && j < ql
            invariant
                tl == t@.len(),
                ql == q@.len(),
                i + ql <= tl,
                j <= ql,
                forall|m: int| 0 <= m < j ==> t@[i + m] == q@[m],
                !same ==> j < ql && t@[i + j] != q@[j as int],
            decreases ql - j + (if same { 1int } else { 0int }),
        {
            if t.get_char(i + j) == q.get_char(j) {
                j = j + 1;
            } else {
                same = false;
            }
        }
        if same {
            assert(t@.subrange(i as int, i + ql) =~= q@);
            assert(title@.subrange(i as int, i as int + query@.len()) == query@);
            return true;
        }
        assert(t@.subrange(i as int, i + ql)[j as int] != q@[j as int]);
        i = i + 1;
    }
    false
}

} // verus!
