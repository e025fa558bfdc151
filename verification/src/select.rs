//! Weighted selection: one candidate out of an ordered list, each with a
//! chance proportional to its weight.

use crate::error::BotError;
use vstd::prelude::*;
use vstd::set_lib::*;

verus! {

/// A content identifier with the weight it is selected by.
#[derive(Clone, Copy, Debug, PartialEq, Eq, Structural)]
pub struct Candidate {
    pub id: u64,
    pub weight: u32,
}

/// The sum of all weights of `s`.
pub open spec fn total_weight(s: Seq<Candidate>) -> nat
    decreases s.len(),
{
    if s.len() == 0 {
        0
    } else {
        total_weight(s.drop_last()) + s.last().weight as nat
    }
}

/// The sum of the weights of the first `n` candidates of `s`.
pub open spec fn cumulative(s: Seq<Candidate>, n: int) -> nat {
    total_weight(s.take(n))
}

/// A list to select from: not empty, and every weight positive.
pub open spec fn valid_candidates(s: Seq<Candidate>) -> bool {
    &&& s.len() > 0
    &&& forall|i: int| 0 <= i < s.len() ==> (#[trigger] s[i]).weight > 0
}

/// Candidate `i` owns the draw `r`: `r` is at least the sum of the weights
/// before `i`, and less than that sum with the weight of `i` added.
pub open spec fn owns(s: Seq<Candidate>, i: int, r: int) -> bool {
    &&& 0 <= i < s.len()
    &&& cumulative(s, i) <= r < cumulative(s, i + 1)
}

/// The index of the candidate that owns the draw `r`.
pub open spec fn owner(s: Seq<Candidate>, r: int) -> int {
    choose|i: int| owns(s, i, r)
}

/// The sum of all weights. It is kept in 128 bits, which no list's weights
/// exceed.
pub fn total_weight_of(candidates: &Vec<Candidate>) -> (total: u128)
    ensures
        total == total_weight(candidates@),
{
    let mut total: u128 = 0;
    let mut i: usize = 0;
    while i < candidates.len()
        invariant
            i <= candidates.len(),
            total == cumulative(candidates@, i as int),
            total <= i * 0xffff_ffff,
        decreases candidates.len() - i,
    {
        proof {
            lemma_cumulative_step(candidates@, i as int);
        }
        total = total + candidates[i].weight as u128;
        i = i + 1;
    }
    proof {
        assert(candidates@.take(candidates@.len() as int) =~= candidates@);
    }
    total
}

/// Taking one more candidate adds its weight to the running sum.
pub proof fn lemma_cumulative_step(s: Seq<Candidate>, i: int)
    requires
        0 <= i < s.len(),
    ensures
        cumulative(s, i + 1) == cumulative(s, i) + s[i].weight,
{
    assert(s.take(i + 1).drop_last() =~= s.take(i));
}

/// The sum of the weights of the first `i` candidates never exceeds that of
/// the first `j`, for `i <= j`.
pub proof fn lemma_cumulative_monotone(s: Seq<Candidate>, i: int, j: int)
    requires
        0 <= i <= j <= s.len(),
    ensures
        cumulative(s, i) <= cumulative(s, j),
    decreases j - i,
{
    if i < j {
        lemma_cumulative_monotone(s, i, j - 1);
        lemma_cumulative_step(s, j - 1);
    }
}

/// No draw has two owners.
pub proof fn lemma_owner_unique(s: Seq<Candidate>, i: int, j: int, r: int)
    requires
        owns(s, i, r),
        owns(s, j, r),
    ensures
        i == j,
{
    if i < j {
        lemma_cumulative_monotone(s, i + 1, j);
    }
    if j < i {
        lemma_cumulative_monotone(s, j + 1, i);
    }
}

/// Every draw below the total has an owner.
pub proof fn lemma_owner_exists(s: Seq<Candidate>, r: int)
    requires
        0 <= r < total_weight(s),
    ensures
        owns(s, owner(s, r), r),
    decreases s.len(),
{
    let n = s.len() as int;
    assert(s.take(n) =~= s);
    if r < cumulative(s, n - 1) {
        let p = s.drop_last();
        assert(p =~= s.take(n - 1));
        lemma_owner_exists(p, r);
        let i = owner(p, r);
        assert(p.take(i) =~= s.take(i));
        assert(p.take(i + 1) =~= s.take(i + 1));
        assert(owns(s, i, r));
    } else {
        assert(owns(s, n - 1, r));
    }
}

/// The draws that candidate `i` owns.
pub open spec fn draws_of(s: Seq<Candidate>, i: int) -> Set<int> {
    Set::new(|r: int| owns(s, i, r))
}

/// Walks the list until the running sum of weights exceeds `draw`.
fn find_owner(candidates: &Vec<Candidate>, draw: u128) -> (i: usize)
    requires
        draw < total_weight(candidates@),
    ensures
        owns(candidates@, i as int, draw as int),
        i == owner(candidates@, draw as int),
{
    let mut bound: u128 = 0;
    let mut i: usize = 0;
    proof {
        assert(candidates@.take(candidates@.len() as int) =~= candidates@);
    }
    loop
        invariant
            i < candidates.len(),
            bound == cumulative(candidates@, i as int),
            bound <= i * 0xffff_ffff,
            bound <= draw,
            draw < total_weight(candidates@),
            total_weight(candidates@) == cumulative(candidates@, candidates@.len() as int),
        decreases candidates.len() - i,
    {
        proof {
            lemma_cumulative_step(candidates@, i as int);
        }
        bound = bound + candidates[i].weight as u128;
        if draw < bound {
            proof {
                lemma_owner_exists(candidates@, draw as int);
                lemma_owner_unique(
                    candidates@,
                    i as int,
                    owner(candidates@, draw as int),
                    draw as int,
                );
            }
            return i;
        }
        i = i + 1;
    }
}

/// The candidate that owns `draw`, by its index. A candidate of weight `w`
/// owns `w` successive draws, and the candidates own them in list order.
/// The draw of a valid list lies below its total weight.
pub fn select_index_with_draw(candidates: &Vec<Candidate>, draw: u128) -> (result: Result<
    usize,
    BotError,
>)
    requires
        valid_candidates(candidates@) ==> draw < total_weight(candidates@),
    ensures
        result is Ok <==> valid_candidates(candidates@),
        result matches Err(e) ==> e == BotError::InvalidCandidateSet,
        result matches Ok(i) ==> owns(candidates@, i as int, draw as int) && i == owner(
            candidates@,
            draw as int,
        ),
{
    if !is_valid_candidate_set(candidates) {
        return Err(BotError::InvalidCandidateSet);
    }
    Ok(find_owner(candidates, draw))
}

/// Whether the list can be selected from.
pub fn is_valid_candidate_set(candidates: &Vec<Candidate>) -> (valid: bool)
    ensures
        valid == valid_candidates(candidates@),
{
    if candidates.len() == 0 {
        return false;
    }
    let mut i: usize = 0;
    while i < candidates.len()
        invariant
            i <= candidates.len(),
            forall|k: int| 0 <= k < i ==> (#[trigger] candidates@[k]).weight > 0,
        decreases candidates.len() - i,
    {
        if candidates[i].weight == 0 {
            return false;
        }
        i = i + 1;
    }
    true
}

/// The identifier of the candidate that owns `draw`. The draw of a valid
/// list lies below its total weight.
pub fn select_with_draw(candidates: &Vec<Candidate>, draw: u128) -> (result: Result<u64, BotError>)
    requires
        valid_candidates(candidates@) ==> draw < total_weight(candidates@),
    ensures
        result is Ok <==> valid_candidates(candidates@),
        result matches Err(e) ==> e == BotError::InvalidCandidateSet,
        result matches Ok(id) ==> id == candidates@[owner(candidates@, draw as int)].id,
{
    match select_index_with_draw(candidates, draw) {
        Ok(i) => Ok(candidates[i].id),
        Err(e) => Err(e),
    }
}

/// A uniformly distributed draw below `bound`, from the thread's generator of
/// the `rand` crate (`Rng::gen_range` on `thread_rng()`, with the range from
/// zero up to and excluding `bound`). Claimed of it: the draw lies in that
/// range. `gen_range` panics on an empty range, which `requires` leaves out.
#[verifier::external_body]
fn uniform_below(bound: u128) -> (draw: u128)
    requires
        bound > 0,
    ensures
        draw < bound,
{
    rand::Rng::gen_range(&mut rand::thread_rng(), 0..bound)
}

/// Selects one candidate at random, each with a chance proportional to its
/// weight: makes one uniform draw below the total weight and returns the
/// identifier of the candidate that owns it.
pub fn select(candidates: &Vec<Candidate>) -> (result: Result<u64, BotError>)
    ensures
        result is Ok <==> valid_candidates(candidates@),
        result matches Err(e) ==> e == BotError::InvalidCandidateSet,
        result matches Ok(id) ==> exists|r: int|
            0 <= r < total_weight(candidates@) && id == candidates@[#[trigger] owner(
                candidates@,
                r,
            )].id,
        result matches Ok(id) ==> candidates@.len() == 1 ==> id == candidates@[0].id,
{
    if !is_valid_candidate_set(candidates) {
        return Err(BotError::InvalidCandidateSet);
    }
    let total = total_weight_of(candidates);
    proof {
        lemma_valid_total_positive(candidates@);
    }
    let draw = uniform_below(total);
    let i = find_owner(candidates, draw);
    Ok(candidates[i].id)
}

/// The running sums of the weights, in list order: entry `i` is the sum of
/// the weights up to and including candidate `i`.
pub fn cumulative_weights(candidates: &Vec<Candidate>) -> (sums: Vec<u128>)
    ensures
        sums@.len() == candidates@.len(),
        forall|i: int| 0 <= i < sums@.len() ==> #[trigger] sums@[i] == cumulative(candidates@, i + 1),
        candidates@.len() > 0 ==> sums@[sums@.len() - 1] == total_weight(candidates@),
        valid_candidates(candidates@) ==> forall|i: int, j: int|
            0 <= i < j < sums@.len() ==> #[trigger] sums@[i] < #[trigger] sums@[j],
{
    let mut sums: Vec<u128> = Vec::new();
    let mut running: u128 = 0;
    let mut i: usize = 0;
    while i < candidates.len()
        invariant
            i <= candidates.len(),
            sums@.len() == i,
            running == cumulative(candidates@, i as int),
            running <= i * 0xffff_ffff,
            forall|k: int| 0 <= k < i ==> #[trigger] sums@[k] == cumulative(candidates@, k + 1),
        decreases candidates.len() - i,
    {
        proof {
            lemma_cumulative_step(candidates@, i as int);
        }
        running = running + candidates[i].weight as u128;
        sums.push(running);
        i = i + 1;
    }
    proof {
        assert(candidates@.take(candidates@.len() as int) =~= candidates@);
        if valid_candidates(candidates@) {
            assert forall|a: int, b: int| 0 <= a < b < sums@.len() implies #[trigger] sums@[a]
                < #[trigger] sums@[b] by {
                lemma_cumulative_increasing(candidates@, a + 1, b + 1);
            }
        }
    }
    sums
}

/// With positive weights the running sums grow strictly.
pub proof fn lemma_cumulative_increasing(s: Seq<Candidate>, i: int, j: int)
    requires
        valid_candidates(s),
        0 <= i < j <= s.len(),
    ensures
        cumulative(s, i) < cumulative(s, j),
{
    lemma_cumulative_monotone(s, i, j - 1);
    lemma_cumulative_step(s, j - 1);
}

/// A valid list has a positive total weight.
pub proof fn lemma_valid_total_positive(s: Seq<Candidate>)
    requires
        valid_candidates(s),
    ensures
        total_weight(s) > 0,
{
    assert(s.take(s.len() as int) =~= s);
    lemma_cumulative_increasing(s, 0, s.len() as int);
}

/// For weights that sum to `T`, the candidate selected for a draw `r` below
/// `T` is the one and only `i` for which the sum of the weights before `i`
/// is at most `r`, and `r` is less than that sum with the weight of `i`.
pub proof fn law_selected_is_the_unique_owner(s: Seq<Candidate>, r: int, i: int)
    requires
        valid_candidates(s),
        0 <= r < total_weight(s),
    ensures
        0 <= owner(s, r) < s.len(),
        owns(s, i, r) <==> i == owner(s, r),
{
    lemma_owner_exists(s, r);
    if owns(s, i, r) {
        lemma_owner_unique(s, i, owner(s, r), r);
    }
}

/// The selected candidate is the first, in list order, whose running sum
/// exceeds the draw.
pub proof fn law_selected_is_the_first_above_the_draw(s: Seq<Candidate>, r: int)
    requires
        valid_candidates(s),
        0 <= r < total_weight(s),
    ensures
        r < cumulative(s, owner(s, r) + 1),
        forall|j: int| 0 <= j < owner(s, r) ==> #[trigger] cumulative(s, j + 1) <= r,
{
    lemma_owner_exists(s, r);
    assert forall|j: int| 0 <= j < owner(s, r) implies #[trigger] cumulative(s, j + 1) <= r by {
        lemma_cumulative_monotone(s, j + 1, owner(s, r));
    }
}

/// A list of one candidate, of any positive weight, yields that candidate
/// whatever the draw.
pub proof fn law_single_candidate_always_selected(s: Seq<Candidate>, r: int)
    requires
        s.len() == 1,
        s[0].weight > 0,
        0 <= r < total_weight(s),
    ensures
        owner(s, r) == 0,
{
    lemma_owner_exists(s, r);
}

/// Of the draws below the total weight, candidate `i` is selected for
/// exactly as many as its weight: under a uniform draw its chance is its
/// weight divided by the total.
pub proof fn law_share_of_draws(s: Seq<Candidate>, i: int)
    requires
        valid_candidates(s),
        0 <= i < s.len(),
    ensures
        draws_of(s, i).finite(),
        draws_of(s, i).len() == s[i].weight,
        forall|r: int| #[trigger]
            draws_of(s, i).contains(r) ==> 0 <= r < total_weight(s) && owner(s, r) == i,
        forall|r: int| 0 <= r < total_weight(s) && #[trigger] owner(s, r) == i ==> draws_of(
            s,
            i,
        ).contains(r),
{
    let lo = cumulative(s, i) as int;
    let hi = cumulative(s, i + 1) as int;
    lemma_cumulative_step(s, i);
    lemma_int_range(lo, hi);
    assert(draws_of(s, i) =~= set_int_range(lo, hi));
    assert(s.take(s.len() as int) =~= s);
    lemma_cumulative_monotone(s, i + 1, s.len() as int);
    assert forall|r: int| #[trigger] draws_of(s, i).contains(r) implies 0 <= r < total_weight(s)
        && owner(s, r) == i by {
        law_selected_is_the_unique_owner(s, r, i);
    }
    assert forall|r: int| 0 <= r < total_weight(s) && #[trigger] owner(s, r) == i implies draws_of(
        s,
        i,
    ).contains(r) by {
        law_selected_is_the_unique_owner(s, r, i);
    }
}

} // verus!
