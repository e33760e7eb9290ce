//! Splitting a reply body into lines: line `k` runs from after the `k`-th
//! newline up to the next newline or the end of the body.
use vstd::prelude::*;

verus! {

/// Index of the first newline at or after `from`, or the length of `b`.
pub open spec fn line_end(b: Seq<u8>, from: nat) -> nat
    decreases b.len() - from,
{
    if from >= b.len() {
        b.len() as nat
    } else if b[from as int] == 10u8 {
        from
    } else {
        line_end(b, from + 1)
    }
}

/// Line `k` of `b`, counting from the line that starts at `from`; lines end
/// at a newline, and the text after the last newline is a line too.
pub open spec fn line_at(b: Seq<u8>, k: nat, from: nat) -> Option<Seq<u8>>
    decreases k,
{
    let e = line_end(b, from);
    if k == 0 {
        Some(b.subrange(from as int, e as int))
    } else if e < b.len() {
        line_at(b, (k - 1) as nat, e + 1)
    } else {
        None
    }
}

/// Number of newlines in `b` from index `from` on.
pub open spec fn newlines_from(b: Seq<u8>, from: nat) -> nat
    decreases b.len() - from,
{
    if from >= b.len() {
        0
    } else if b[from as int] == 10u8 {
        1 + newlines_from(b, from + 1)
    } else {
        newlines_from(b, from + 1)
    }
}

/// Number of lines of a body: one more than its newlines.
pub open spec fn line_count(b: Seq<u8>) -> nat {
    newlines_from(b, 0) + 1
}

pub proof fn lemma_line_end(b: Seq<u8>, from: nat)
    requires
        from <= b.len(),
    ensures
        from <= line_end(b, from) <= b.len(),
        line_end(b, from) < b.len() ==> b[line_end(b, from) as int] == 10u8,
        forall|i: int| from <= i < line_end(b, from) ==> b[i] != 10u8,
        newlines_from(b, from) == newlines_from(b, line_end(b, from)),
    decreases b.len() - from,
{
    if from < b.len() && b[from as int] != 10u8 {
        lemma_line_end(b, from + 1);
    }
}

pub proof fn lemma_line_at_none(b: Seq<u8>, k: nat, from: nat)
    requires
        from <= b.len(),
    ensures
        line_at(b, k, from) is None <==> newlines_from(b, from) < k,
    decreases k,
{
    lemma_line_end(b, from);
    let e = line_end(b, from);
    if k > 0 && e < b.len() {
        lemma_line_at_none(b, (k - 1) as nat, e + 1);
    }
}

/// Index of the end of the line that starts at `from`.
fn find_line_end(b: &[u8], from: usize) -> (e: usize)
    requires
        from <= b@.len(),
    ensures
        e == line_end(b@, from as nat),
{
    let mut e: usize = from;
    while e < b.len() && b[e] != 10u8
        invariant
            from <= e <= b@.len(),
            line_end(b@, e as nat) == line_end(b@, from as nat),
        decreases b@.len() - e,
    {
        e = e + 1;
    }
    e
}

/// Line `k` of the body, or none where the body has `k` lines or fewer.
pub fn nth_line(b: &[u8], k: usize) -> (r: Option<&[u8]>)
    ensures
        r is Some <==> line_at(b@, k as nat, 0) is Some,
        r is Some ==> line_at(b@, k as nat, 0) == Some(r->Some_0@),
{
    let mut from: usize = 0;
    let mut left: usize = k;
    while left > 0
        invariant
            from <= b@.len(),
            line_at(b@, k as nat, 0) == line_at(b@, left as nat, from as nat),
        decreases left,
    {
        let e = find_line_end(b, from);
        if e >= b.len() {
            return None;
        }
        from = e + 1;
        left = left - 1;
    }
    let e = find_line_end(b, from);
    proof {
        lemma_line_end(b@, from as nat);
    }
    Some(&b[from..e])
}

} // verus!
