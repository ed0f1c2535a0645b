use vstd::prelude::*;
use crate::bounds::axis_pull;
use crate::governance::{rescale_spec, Rescale};
use crate::neighbors::{picks, lemma_picks};

verus! {

/// Two distinct agents that lie within each other's visual range each count the
/// other as a visual neighbour in the same step.
pub proof fn lemma_neighbor_symmetry(in_visual: Seq<Seq<bool>>, a: int, b: int)
    requires
        in_visual.len() <= usize::MAX,
        0 <= a < in_visual.len(),
        0 <= b < in_visual.len(),
        a != b,
        in_visual[a].len() == in_visual.len(),
        in_visual[b].len() == in_visual.len(),
        in_visual[a][b],
        in_visual[b][a],
    ensures
        picks(a, in_visual[a], in_visual.len() as int).contains(b as usize),
        picks(b, in_visual[b], in_visual.len() as int).contains(a as usize),
{
    let n = in_visual.len() as int;
    lemma_picks(a, in_visual[a], n);
    lemma_picks(b, in_visual[b], n);
    assert(in_visual[a][(b as usize) as int]);
    assert(in_visual[b][(a as usize) as int]);
}

/// An agent with no other agent in range has no neighbours at all, so cohesion
/// and alignment contribute nothing to its velocity.
pub proof fn lemma_isolated_agent(i: int, flags: Seq<bool>)
    requires
        flags.len() <= usize::MAX,
        forall|j: int| 0 <= j < flags.len() && j != i ==> !flags[j],
    ensures
        picks(i, flags, flags.len() as int).len() == 0,
{
    let n = flags.len() as int;
    lemma_picks(i, flags, n);
    if picks(i, flags, n).len() > 0 {
        let j = picks(i, flags, n)[0];
        assert(flags[j as int]);
    }
}

/// An agent left of the margin is pulled towards +x, whatever holds on the y axis,
/// unless the domain is so narrow that it is also past the right inner edge.
pub proof fn lemma_left_edge_pull(left: bool, right: bool)
    requires
        left,
        !right,
    ensures
        axis_pull(left, right) > 0,
{
}

/// After the speed correction, a positive step leaves no speed under the minimum
/// untouched, and no speed over the maximum untouched unless it was raised to the
/// minimum instead.
pub proof fn lemma_speed_governed(dt_positive: bool, below_min: bool, above_max: bool)
    ensures
        dt_positive && below_min ==> rescale_spec(dt_positive, below_min, above_max)
            == Rescale::ToMin,
        !(dt_positive && below_min) && above_max ==> rescale_spec(
            dt_positive,
            below_min,
            above_max,
        ) == Rescale::ToMax,
        rescale_spec(dt_positive, below_min, above_max) == Rescale::Keep <==> !(dt_positive
            && below_min) && !above_max,
{
}

/// An agent at rest (moving, neither under the minimum nor over the maximum
/// speed, with no other agent in range, inside the margin on both axes) gets the
/// same inert treatment in every step: no neighbours, no close agents, no speed
/// correction and no boundary pull.
pub proof fn lemma_rest_state(
    i: int,
    in_visual: Seq<bool>,
    in_protected: Seq<bool>,
    dt_positive: bool,
)
    requires
        in_visual.len() <= usize::MAX,
        in_protected.len() == in_visual.len(),
        forall|j: int| 0 <= j < in_visual.len() && j != i ==> !in_visual[j] && !in_protected[j],
    ensures
        picks(i, in_visual, in_visual.len() as int).len() == 0,
        picks(i, in_protected, in_protected.len() as int).len() == 0,
        rescale_spec(dt_positive, false, false) == Rescale::Keep,
        axis_pull(false, false) == 0,
{
    lemma_isolated_agent(i, in_visual);
    lemma_isolated_agent(i, in_protected);
}

} // verus!
