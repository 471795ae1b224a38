//! The fractal kinds and the escape-time loop that they share.

use vstd::prelude::*;

verus! {

/// The recurrence families that the viewer can show.
#[derive(Clone, Copy, Debug, PartialEq, Eq, Structural)]
pub enum Fractal {
    Mandelbrot,
    Julia,
    BurningShip,
}

/// `orbit` holds the points `z_0 ..= z_index` of the orbit that starts at
/// `seed`: each point follows from the one before it by `step`, and the escape
/// test was evaluated on every point before `z_index` and failed there.
pub open spec fn runs_without_escape<Z, S: Fn(Z) -> Z, E: Fn(Z) -> bool>(
    step: &S,
    escaped: &E,
    seed: Z,
    orbit: Seq<Z>,
    index: int,
) -> bool {
    &&& 0 <= index
    &&& orbit.len() == index + 1
    &&& orbit[0] == seed
    &&& forall|i: int|
        #![trigger orbit[i]]
        0 <= i < index ==> escaped.ensures((orbit[i],), false) && step.ensures(
            (orbit[i],),
            orbit[i + 1],
        )
}

/// `used` is what the escape-time loop may return for an orbit from `seed`
/// under a budget of `max_iterations`: the index of the first point at which
/// the escape test fires, the test being evaluated before each update, or the
/// whole budget if it fires at none of the first `max_iterations` points.
/// A budget that is not positive is returned as it is.
pub open spec fn is_escape_time<Z, S: Fn(Z) -> Z, E: Fn(Z) -> bool>(
    step: &S,
    escaped: &E,
    seed: Z,
    max_iterations: int,
    used: int,
) -> bool {
    if max_iterations <= 0 {
        used == max_iterations
    } else {
        &&& 0 <= used <= max_iterations
        &&& exists|orbit: Seq<Z>|
            {
                &&& #[trigger] runs_without_escape(step, escaped, seed, orbit, used)
                &&& used < max_iterations ==> escaped.ensures((orbit[used],), true)
            }
    }
}

/// Iterates `step` from `seed` and returns the number of iterations after which
/// `escaped` first held, or `max_iterations` if the budget ran out before.
///
/// The test is made before each update, so a seed that has already escaped
/// gives 0.
pub fn escape_time<Z: Copy, S: Fn(Z) -> Z, E: Fn(Z) -> bool>(
    seed: Z,
    step: &S,
    escaped: &E,
    max_iterations: i32,
) -> (used: i32)
    requires
        forall|z: Z| #[trigger] step.requires((z,)),
        forall|z: Z| #[trigger] escaped.requires((z,)),
    ensures
        is_escape_time(step, escaped, seed, max_iterations as int, used as int),
        max_iterations >= 0 ==> 0 <= used <= max_iterations,
{
    let mut z = seed;
    let mut i: i32 = 0;
    let ghost mut orbit: Seq<Z> = seq![seed];
    while i < max_iterations
        invariant
            0 <= i,
            i <= max_iterations || max_iterations <= 0,
            orbit[i as int] == z,
            runs_without_escape(step, escaped, seed, orbit, i as int),
            forall|z: Z| #[trigger] step.requires((z,)),
            forall|z: Z| #[trigger] escaped.requires((z,)),
        decreases max_iterations - i,
    {
        if escaped(z) {
            return i;
        }
        let next = step(z);
        proof {
            let longer = orbit.push(next);
            assert forall|k: int| 0 <= k < i + 1 implies escaped.ensures(
                (#[trigger] longer[k],),
                false,
            ) && step.ensures((longer[k],), longer[k + 1]) by {
                if k < i {
                    assert(longer[k] == orbit[k]);
                    assert(longer[k + 1] == orbit[k + 1]);
                }
            }
            orbit = longer;
        }
        z = next;
        i = i + 1;
    }
    max_iterations
}

/// `step` and `escaped` are functions: on every point each has at most one
/// result.
pub open spec fn rule_is_function<Z, S: Fn(Z) -> Z, E: Fn(Z) -> bool>(
    step: &S,
    escaped: &E,
) -> bool {
    &&& forall|z: Z, a: Z, b: Z|
        #![trigger step.ensures((z,), a), step.ensures((z,), b)]
        step.ensures((z,), a) && step.ensures((z,), b) ==> a == b
    &&& forall|z: Z, a: bool, b: bool|
        #![trigger escaped.ensures((z,), a), escaped.ensures((z,), b)]
        escaped.ensures((z,), a) && escaped.ensures((z,), b) ==> a == b
}

/// Two orbits from one seed under a rule that is a function pass through the
/// same points.
proof fn lemma_orbits_agree<Z, S: Fn(Z) -> Z, E: Fn(Z) -> bool>(
    step: &S,
    escaped: &E,
    seed: Z,
    a: Seq<Z>,
    a_index: int,
    b: Seq<Z>,
    b_index: int,
    k: int,
)
    requires
        rule_is_function(step, escaped),
        runs_without_escape(step, escaped, seed, a, a_index),
        runs_without_escape(step, escaped, seed, b, b_index),
        0 <= k <= a_index,
        k <= b_index,
    ensures
        a[k] == b[k],
    decreases k,
{
    if k > 0 {
        lemma_orbits_agree(step, escaped, seed, a, a_index, b, b_index, k - 1);
        assert(step.ensures((a[k - 1],), a[k - 1 + 1]));
        assert(step.ensures((b[k - 1],), b[k - 1 + 1]));
    }
}

/// An orbit from a seed that the rule maps to itself never leaves the seed.
proof fn lemma_orbit_rests<Z, S: Fn(Z) -> Z, E: Fn(Z) -> bool>(
    step: &S,
    escaped: &E,
    seed: Z,
    orbit: Seq<Z>,
    index: int,
    k: int,
)
    requires
        runs_without_escape(step, escaped, seed, orbit, index),
        forall|next: Z| #[trigger] step.ensures((seed,), next) ==> next == seed,
        0 <= k <= index,
    ensures
        orbit[k] == seed,
    decreases k,
{
    if k > 0 {
        lemma_orbit_rests(step, escaped, seed, orbit, index, k - 1);
        assert(step.ensures((orbit[k - 1],), orbit[k - 1 + 1]));
    }
}

/// The escape time is determined by its inputs: under a rule that is a
/// function, any two results for the same seed and budget are equal.
pub proof fn lemma_escape_time_is_determined<Z, S: Fn(Z) -> Z, E: Fn(Z) -> bool>(
    step: &S,
    escaped: &E,
    seed: Z,
    max_iterations: int,
    a: int,
    b: int,
)
    requires
        rule_is_function(step, escaped),
        is_escape_time(step, escaped, seed, max_iterations, a),
        is_escape_time(step, escaped, seed, max_iterations, b),
    ensures
        a == b,
{
    if max_iterations > 0 {
        let orbit_a = choose|orbit: Seq<Z>|
            {
                &&& #[trigger] runs_without_escape(step, escaped, seed, orbit, a)
                &&& a < max_iterations ==> escaped.ensures((orbit[a],), true)
            };
        let orbit_b = choose|orbit: Seq<Z>|
            {
                &&& #[trigger] runs_without_escape(step, escaped, seed, orbit, b)
                &&& b < max_iterations ==> escaped.ensures((orbit[b],), true)
            };
        if a < b {
            lemma_orbits_agree(step, escaped, seed, orbit_a, a, orbit_b, b, a);
            assert(escaped.ensures((orbit_b[a],), false));
        } else if b < a {
            lemma_orbits_agree(step, escaped, seed, orbit_a, a, orbit_b, b, b);
            assert(escaped.ensures((orbit_a[b],), false));
        }
    }
}

/// A seed that the rule maps to itself, and on which the escape test fails,
/// never escapes: its escape time is the whole budget.
pub proof fn lemma_resting_seed_uses_the_budget<Z, S: Fn(Z) -> Z, E: Fn(Z) -> bool>(
    step: &S,
    escaped: &E,
    seed: Z,
    max_iterations: int,
    used: int,
)
    requires
        is_escape_time(step, escaped, seed, max_iterations, used),
        forall|next: Z| #[trigger] step.ensures((seed,), next) ==> next == seed,
        forall|out: bool| #[trigger] escaped.ensures((seed,), out) ==> !out,
    ensures
        used == max_iterations,
{
    if max_iterations > 0 && used < max_iterations {
        let orbit = choose|orbit: Seq<Z>|
            {
                &&& #[trigger] runs_without_escape(step, escaped, seed, orbit, used)
                &&& used < max_iterations ==> escaped.ensures((orbit[used],), true)
            };
        lemma_orbit_rests(step, escaped, seed, orbit, used, used);
    }
}

/// A seed whose first update lands on a point where the escape test fires
/// escapes after at most one iteration, whatever the budget of at least one.
pub proof fn lemma_escape_after_the_first_update<Z, S: Fn(Z) -> Z, E: Fn(Z) -> bool>(
    step: &S,
    escaped: &E,
    seed: Z,
    max_iterations: int,
    used: int,
)
    requires
        1 <= max_iterations,
        is_escape_time(step, escaped, seed, max_iterations, used),
        forall|next: Z, out: bool|
            #![trigger step.ensures((seed,), next), escaped.ensures((next,), out)]
            step.ensures((seed,), next) && escaped.ensures((next,), out) ==> out,
    ensures
        0 <= used <= 1,
{
    if used >= 2 {
        let orbit = choose|orbit: Seq<Z>|
            {
                &&& #[trigger] runs_without_escape(step, escaped, seed, orbit, used)
                &&& used < max_iterations ==> escaped.ensures((orbit[used],), true)
            };
        assert(step.ensures((orbit[0],), orbit[0int + 1]));
        assert(escaped.ensures((orbit[1],), false));
    }
}

} // verus!
