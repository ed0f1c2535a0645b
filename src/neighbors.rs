use vstd::prelude::*;

verus! {

/// The indices `j < k`, other than `i`, whose flag is set, in increasing order.
pub open spec fn picks(i: int, flags: Seq<bool>, k: int) -> Seq<usize>
    decreases k,
{
    if k <= 0 {
        Seq::empty()
    } else {
        let prev = picks(i, flags, k - 1);
        if k - 1 != i && flags[k - 1] {
            prev.push((k - 1) as usize)
        } else {
            prev
        }
    }
}

/// `s` lists, in strictly increasing order, exactly the indices of `flags` other
/// than `i` whose flag is set.
pub open spec fn selects(i: int, flags: Seq<bool>, s: Seq<usize>) -> bool {
    &&& forall|a: int|
        0 <= a < s.len() ==> {
            let j = #[trigger] s[a];
            j < flags.len() && j != i && flags[j as int]
        }
    &&& forall|j: usize| j < flags.len() && j != i && #[trigger] flags[j as int] ==> s.contains(j)
    &&& forall|a: int, b: int| 0 <= a < b < s.len() ==> s[a] < s[b]
}

/// Every picked index is below `k`, is not `i`, and is flagged; every such index
/// is picked; the picked indices are strictly increasing.
pub proof fn lemma_picks(i: int, flags: Seq<bool>, k: int)
    requires
        0 <= k <= flags.len(),
        k <= usize::MAX,
    ensures
        forall|a: int|
            0 <= a < picks(i, flags, k).len() ==> {
                let j = #[trigger] picks(i, flags, k)[a];
                j < k && j != i && flags[j as int]
            },
        forall|j: usize|
            j < k && j != i && #[trigger] flags[j as int] ==> picks(i, flags, k).contains(j),
        forall|a: int, b: int|
            0 <= a < b < picks(i, flags, k).len() ==> picks(i, flags, k)[a]
                < picks(i, flags, k)[b],
    decreases k,
{
    if k > 0 {
        lemma_picks(i, flags, k - 1);
        let prev = picks(i, flags, k - 1);
        let cur = picks(i, flags, k);
        if k - 1 != i && flags[k - 1] {
            assert(cur == prev.push((k - 1) as usize));
            assert forall|j: usize| j < k && j != i && #[trigger] flags[j as int] implies cur.contains(
                j,
            ) by {
                if j == k - 1 {
                    assert(cur[prev.len() as int] == j);
                } else {
                    assert(prev.contains(j));
                    let a = choose|a: int| 0 <= a < prev.len() && prev[a] == j;
                    assert(cur[a] == j);
                }
            }
        } else {
            assert(cur == prev);
        }
    }
}

/// The agents that one agent reacts to in a step: those within its visual range
/// (cohesion and alignment) and those within its protected range (separation).
#[derive(Debug)]
pub struct Neighborhood {
    pub visual: Vec<usize>,
    pub close: Vec<usize>,
}

impl Neighborhood {
    /// Number of visual neighbours, the divisor of both averages.
    pub fn neighbor_count(&self) -> (r: usize)
        ensures
            r == self.visual@.len(),
    {
        self.visual.len()
    }

    /// Whether cohesion and alignment apply: at least one visual neighbour.
    pub fn has_group(&self) -> (r: bool)
        ensures
            r == (self.visual@.len() > 0),
    {
        self.visual.len() > 0
    }
}

/// The indices other than `i`, in increasing order, whose flag is set.
fn pick(i: usize, flags: &Vec<bool>) -> (r: Vec<usize>)
    ensures
        r@ == picks(i as int, flags@, flags@.len() as int),
{
    let mut r: Vec<usize> = Vec::new();
    let mut j: usize = 0;
    while j < flags.len()
        invariant
            j <= flags@.len(),
            r@ == picks(i as int, flags@, j as int),
        decreases flags@.len() - j,
    {
        if j != i && flags[j] {
            r.push(j);
        }
        j = j + 1;
    }
    r
}

/// The neighbourhood of agent `i` in a flock of `n`, from the range tests of `i`
/// against every agent: `in_visual[j]` when agent `j` lies within `i`'s visual
/// range, `in_protected[j]` when within its protected range. Both tests are
/// taken on the positions before the step. An agent is never its own neighbour.
pub fn neighborhood(i: usize, in_visual: &Vec<bool>, in_protected: &Vec<bool>) -> (r:
    Neighborhood)
    requires
        i < in_visual@.len(),
        in_protected@.len() == in_visual@.len(),
    ensures
        r.visual@ == picks(i as int, in_visual@, in_visual@.len() as int),
        r.close@ == picks(i as int, in_protected@, in_protected@.len() as int),
        selects(i as int, in_visual@, r.visual@),
        selects(i as int, in_protected@, r.close@),
{
    let n: usize = in_visual.len();
    proof {
        lemma_picks(i as int, in_visual@, n as int);
        lemma_picks(i as int, in_protected@, n as int);
    }
    Neighborhood { visual: pick(i, in_visual), close: pick(i, in_protected) }
}

/// The neighbourhoods of the whole flock for one step, all taken from the same
/// pre-step range tests: row `i` of each table holds agent `i`'s tests against
/// every agent, so no agent sees another's update of the same step.
pub fn flock_neighborhoods(in_visual: &Vec<Vec<bool>>, in_protected: &Vec<Vec<bool>>) -> (r: Vec<
    Neighborhood,
>)
    requires
        in_protected@.len() == in_visual@.len(),
        forall|i: int|
            0 <= i < in_visual@.len() ==> (#[trigger] in_visual@[i])@.len() == in_visual@.len()
                && in_protected@[i]@.len() == in_visual@.len(),
    ensures
        r@.len() == in_visual@.len(),
        forall|i: int|
            0 <= i < r@.len() ==> (#[trigger] r@[i]).visual@ == picks(
                i,
                in_visual@[i]@,
                in_visual@.len() as int,
            ) && r@[i].close@ == picks(i, in_protected@[i]@, in_visual@.len() as int),
{
    let mut r: Vec<Neighborhood> = Vec::new();
    let mut i: usize = 0;
    while i < in_visual.len()
        invariant
            i <= in_visual@.len(),
            r@.len() == i,
            in_protected@.len() == in_visual@.len(),
            forall|k: int|
                0 <= k < in_visual@.len() ==> (#[trigger] in_visual@[k])@.len()
                    == in_visual@.len() && in_protected@[k]@.len() == in_visual@.len(),
            forall|k: int|
                0 <= k < i ==> (#[trigger] r@[k]).visual@ == picks(
                    k,
                    in_visual@[k]@,
                    in_visual@.len() as int,
                ) && r@[k].close@ == picks(k, in_protected@[k]@, in_visual@.len() as int),
        decreases in_visual@.len() - i,
    {
        let nb = neighborhood(i, &in_visual[i], &in_protected[i]);
        r.push(nb);
        i = i + 1;
    }
    r
}

} // verus!
