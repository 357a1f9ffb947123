//! Mathematical model of the arithmetic-progression-sum circuit.
//!
//! A trace is a pair of columns `a` (the progression terms) and `sum` (the
//! running totals), one value per row, each value a canonical residue of the
//! Pallas base field.  Row 0 is seeded from the public first term; every later
//! row is constrained by the row algebra to follow the two recurrences
//! `a_r = a_{r-1} + step` and `sum_r = a_r + sum_{r-1}` (field arithmetic).
//! This module states what those constraints force of a trace, and proves the
//! laws the circuit is designed around: the row algebra is vacuous at row 0, a
//! satisfying trace is unique, and its last running sum is exactly the
//! progression total, so a wrong claimed total is unsatisfiable.

use vstd::prelude::*;
use vstd::arithmetic::div_mod::*;

verus! {

/// The prime modulus of the Pallas base field, over which every cell value of
/// the circuit lives.
pub open spec fn field_modulus() -> nat {
    0x40000000000000000000000000000000224698fc094cf91b992d30ed00000001nat
}

/// A canonical field residue.
pub open spec fn reduced(x: nat) -> bool {
    x < field_modulus()
}

/// Field addition on canonical residues.
pub open spec fn fadd(a: nat, b: nat) -> nat {
    (a + b) % field_modulus()
}

/// Field subtraction on canonical residues.
pub open spec fn fsub(a: nat, b: nat) -> nat {
    ((a + field_modulus() - b) % (field_modulus() as int)) as nat
}

/// Field multiplication on canonical residues.
pub open spec fn fmul(a: nat, b: nat) -> nat {
    (a * b) % field_modulus()
}

/// A polynomial with the activation flag as a factor evaluates to zero on any
/// row whose flag is unset, whatever the row holds.
pub proof fn lemma_flag_factor_vacuous(x: nat)
    ensures
        fmul(0, x) == 0,
{
    assert(0nat * x == 0) by (nonlinear_arith);
    lemma_small_mod(0, field_modulus());
}

/// One row's view of everything a registered polynomial can query: the flag
/// values by selector index, and the cell values by value-column index and
/// rotation offset (0 the current row, -1 the row before).
pub struct GateEnv {
    pub flags: Map<nat, nat>,
    pub cells: Map<(nat, int), nat>,
}

/// Field addition lifted to lazy values: unknown operands make an unknown
/// result.
pub open spec fn opt_fadd(a: Option<nat>, b: Option<nat>) -> Option<nat> {
    match (a, b) {
        (Some(x), Some(y)) => Some(fadd(x, y)),
        _ => None,
    }
}

/// The term cell of row `r`, as the recurrence computes it from the seed `a0`
/// and the step residue `sp`.
pub open spec fn a_row(a0: nat, sp: nat, r: nat) -> nat
    decreases r,
{
    if r == 0 {
        a0
    } else {
        fadd(a_row(a0, sp, (r - 1) as nat), sp)
    }
}

/// The running-sum cell of row `r`, computed from the seeds `a0` and `s0`.
pub open spec fn sum_row(a0: nat, s0: nat, sp: nat, r: nat) -> nat
    decreases r,
{
    if r == 0 {
        s0
    } else {
        fadd(a_row(a0, sp, r), sum_row(a0, s0, sp, (r - 1) as nat))
    }
}

/// The term recurrence lifted to lazy values seeded with `a0`.
pub open spec fn opt_a_row(a0: Option<nat>, sp: nat, r: nat) -> Option<nat> {
    match a0 {
        Some(x) => Some(a_row(x, sp, r)),
        None => None,
    }
}

/// The running-sum recurrence lifted to lazy values seeded with `a0` and
/// `s0`: row 0 holds the seed itself; every later row adds the term cell, and
/// an unknown operand makes the row unknown.
pub open spec fn opt_sum_row(a0: Option<nat>, s0: Option<nat>, sp: nat, r: nat) -> Option<nat>
    decreases r,
{
    if r == 0 {
        s0
    } else {
        opt_fadd(opt_a_row(a0, sp, r), opt_sum_row(a0, s0, sp, (r - 1) as nat))
    }
}

/// With both seeds known, the lazy running sum is the concrete one.
pub proof fn lemma_opt_sum_row_known(a0: nat, s0: nat, sp: nat, r: nat)
    ensures
        opt_sum_row(Some(a0), Some(s0), sp, r) == Some(sum_row(a0, s0, sp, r)),
    decreases r,
{
    if r > 0 {
        lemma_opt_sum_row_known(a0, s0, sp, (r - 1) as nat);
    }
}

/// The activation flags of a circuit of `count` rows: unset at row 0, set at
/// every later row.
pub open spec fn circuit_flags(count: nat) -> Seq<bool> {
    Seq::new(count, |r: int| r >= 1)
}

/// The two polynomial identities of the row algebra, read at row `r`.
pub open spec fn gate_body_ok(av: Seq<nat>, sv: Seq<nat>, sp: nat, r: int) -> bool {
    &&& av[r] == fadd(av[r - 1], sp)
    &&& sv[r] == fadd(av[r], sv[r - 1])
}

/// The row algebra as the circuit applies it at row `r`: each identity is
/// multiplied by the activation flag, so it is vacuous wherever the flag is
/// unset.
pub open spec fn gate_ok(flags: Seq<bool>, av: Seq<nat>, sv: Seq<nat>, sp: nat, r: int) -> bool {
    flags[r] ==> gate_body_ok(av, sv, sp, r)
}

/// Everything the proving framework checks of a trace `(av, sv)` against the
/// public inputs `[first, claimed]`: the row count, the copy constraints that
/// seed row 0 and expose the last running sum, and the row algebra at every
/// row.
pub open spec fn trace_satisfies(
    av: Seq<nat>,
    sv: Seq<nat>,
    sp: nat,
    count: nat,
    first: nat,
    claimed: nat,
) -> bool {
    &&& count >= 1
    &&& av.len() == count
    &&& sv.len() == count
    &&& av[0] == first
    &&& sv[0] == first
    &&& sv[count - 1] == claimed
    &&& forall|r: int| 0 <= r < count ==> gate_ok(circuit_flags(count), av, sv, sp, r)
}

/// The `r`-th term of the progression, in plain (unreduced) arithmetic.
pub open spec fn nth_term(first: nat, sp: nat, r: nat) -> nat {
    first + r * sp
}

/// The sum of the first `c` terms of the progression, in plain arithmetic.
pub open spec fn partial_total(first: nat, sp: nat, c: nat) -> nat
    decreases c,
{
    if c == 0 {
        0
    } else {
        partial_total(first, sp, (c - 1) as nat) + nth_term(first, sp, (c - 1) as nat)
    }
}

/// The closed form of the progression total:
/// `count * first + step * (count * (count - 1) / 2)`.
pub open spec fn progression_total(first: nat, sp: nat, count: nat) -> nat {
    if count == 0 {
        0
    } else {
        count * first + sp * ((count * ((count - 1) as nat)) / 2)
    }
}

/// The term recurrence, iterated in the field, lands on the plain `r`-th term
/// reduced once.
pub proof fn lemma_a_row_closed(a0: nat, sp: nat, r: nat)
    requires
        reduced(a0),
        reduced(sp),
    ensures
        a_row(a0, sp, r) == nth_term(a0, sp, r) % field_modulus(),
    decreases r,
{
    if r == 0 {
        assert(r * sp == 0);
        lemma_small_mod(a0, field_modulus());
    } else {
        lemma_a_row_closed(a0, sp, (r - 1) as nat);
        lemma_small_mod(sp, field_modulus());
        lemma_add_mod_noop(nth_term(a0, sp, (r - 1) as nat) as int, sp as int, field_modulus() as int);
        assert(((r - 1) as nat) * sp + sp == r * sp) by (nonlinear_arith)
            requires r >= 1;
        assert(nth_term(a0, sp, (r - 1) as nat) + sp == nth_term(a0, sp, r));
    }
}

/// The sum recurrence, iterated in the field from a row 0 seeded with `first`
/// in both columns, lands on the plain partial total reduced once.
pub proof fn lemma_sum_row_closed(first: nat, sp: nat, r: nat)
    requires
        reduced(first),
        reduced(sp),
    ensures
        sum_row(first, first, sp, r) == partial_total(first, sp, (r + 1) as nat) % field_modulus(),
    decreases r,
{
    if r == 0 {
        assert(partial_total(first, sp, 0) == 0);
        assert(partial_total(first, sp, 1) == nth_term(first, sp, 0));
        assert(0nat * sp == 0) by (nonlinear_arith);
        assert(nth_term(first, sp, 0) == first);
        lemma_small_mod(first, field_modulus());
    } else {
        lemma_sum_row_closed(first, sp, (r - 1) as nat);
        lemma_a_row_closed(first, sp, r);
        lemma_add_mod_noop(
            nth_term(first, sp, r) as int,
            partial_total(first, sp, r) as int,
            field_modulus() as int,
        );
        assert(partial_total(first, sp, (r + 1) as nat)
            == partial_total(first, sp, r) + nth_term(first, sp, r));
    }
}

/// Twice the partial total, with no division in sight.
proof fn lemma_partial_total_doubled(first: nat, sp: nat, c: nat)
    ensures
        2 * partial_total(first, sp, c) == 2 * c * first + sp * c * (c - 1),
    decreases c,
{
    if c == 0 {
        assert(2 * partial_total(first, sp, c) == 2 * c * first + sp * c * (c - 1)) by (nonlinear_arith)
            requires
                partial_total(first, sp, c) == 0,
                c == 0;
    } else {
        lemma_partial_total_doubled(first, sp, (c - 1) as nat);
        assert(2 * partial_total(first, sp, c) == 2 * c * first + sp * c * (c - 1)) by (nonlinear_arith)
            requires
                2 * partial_total(first, sp, (c - 1) as nat) == 2 * (c - 1) * first + sp * (c - 1) * (c - 2),
                partial_total(first, sp, c) == partial_total(first, sp, (c - 1) as nat) + nth_term(
                    first,
                    sp,
                    (c - 1) as nat,
                ),
                nth_term(first, sp, (c - 1) as nat) == first + (c - 1) * sp,
                c > 0;
    }
}

/// `c * (c - 1)` is even.
proof fn lemma_product_of_neighbours_even(c: nat) -> (t: nat)
    ensures
        c * ((c - 1) as nat) == 2 * t,
    decreases c,
{
    if c == 0 {
        assert(c * ((c - 1) as nat) == 0) by (nonlinear_arith)
            requires c == 0;
        0
    } else {
        let t0 = lemma_product_of_neighbours_even((c - 1) as nat);
        let t = (t0 + c - 1) as nat;
        assert(c * ((c - 1) as nat) == 2 * t) by (nonlinear_arith)
            requires
                ((c - 1) as nat) * ((c - 2) as nat) == 2 * t0,
                t == t0 + c - 1,
                c > 0;
        t
    }
}

/// The recursive partial total equals the closed form.
pub proof fn lemma_partial_total_closed(first: nat, sp: nat, c: nat)
    ensures
        partial_total(first, sp, c) == progression_total(first, sp, c),
{
    if c > 0 {
        let t = lemma_product_of_neighbours_even(c);
        lemma_partial_total_doubled(first, sp, c);
        lemma_div_multiples_vanish(t as int, 2);
        assert((c * ((c - 1) as nat)) / 2 == t);
        assert(partial_total(first, sp, c) == c * first + sp * t) by (nonlinear_arith)
            requires
                2 * partial_total(first, sp, c) == 2 * c * first + sp * c * (c - 1),
                c * ((c - 1) as nat) == 2 * t,
                c > 0;
        assert(progression_total(first, sp, c) == c * first + sp * ((c * ((c - 1) as nat)) / 2));
    }
}

/// The last running sum of a trace seeded with `first` in both columns is the
/// progression total, reduced once into the field.
pub proof fn lemma_seeded_sum_total(first: nat, sp: nat, count: nat)
    requires
        reduced(first),
        reduced(sp),
        count >= 1,
    ensures
        sum_row(first, first, sp, (count - 1) as nat)
            == progression_total(first, sp, count) % field_modulus(),
{
    lemma_sum_row_closed(first, sp, (count - 1) as nat);
    lemma_partial_total_closed(first, sp, count);
}

/// A satisfying trace is forced, row by row, onto the recurrence values.
proof fn lemma_trace_rows_determined(
    av: Seq<nat>,
    sv: Seq<nat>,
    sp: nat,
    count: nat,
    first: nat,
    claimed: nat,
    r: nat,
)
    requires
        trace_satisfies(av, sv, sp, count, first, claimed),
        r < count,
    ensures
        av[r as int] == a_row(first, sp, r),
        sv[r as int] == sum_row(first, first, sp, r),
    decreases r,
{
    if r > 0 {
        lemma_trace_rows_determined(av, sv, sp, count, first, claimed, (r - 1) as nat);
        assert(gate_ok(circuit_flags(count), av, sv, sp, r as int));
        assert(circuit_flags(count)[r as int]);
    }
}

/// Row-0 exemption: whatever values a trace holds, the row algebra holds at
/// row 0, because the activation flag is unset there.
pub proof fn lemma_row_zero_exempt(av: Seq<nat>, sv: Seq<nat>, sp: nat, count: nat)
    requires
        count >= 1,
    ensures
        gate_ok(circuit_flags(count), av, sv, sp, 0),
{
    assert(!circuit_flags(count)[0]);
}

/// Soundness of the constraint design: the copy constraints and the row
/// algebra force the last running sum of every satisfying trace to the
/// progression total.
pub proof fn lemma_trace_total(
    av: Seq<nat>,
    sv: Seq<nat>,
    sp: nat,
    count: nat,
    first: nat,
    claimed: nat,
)
    requires
        reduced(first),
        reduced(sp),
        trace_satisfies(av, sv, sp, count, first, claimed),
    ensures
        claimed == progression_total(first, sp, count) % field_modulus(),
{
    lemma_trace_rows_determined(av, sv, sp, count, first, claimed, (count - 1) as nat);
    lemma_seeded_sum_total(first, sp, count);
}

/// Rejection: a claimed total that is not the progression total leaves the
/// circuit unsatisfiable — no trace at all meets its constraints.
pub proof fn lemma_wrong_claim_unsatisfiable(
    av: Seq<nat>,
    sv: Seq<nat>,
    sp: nat,
    count: nat,
    first: nat,
    claimed: nat,
)
    requires
        reduced(first),
        reduced(sp),
        claimed != progression_total(first, sp, count) % field_modulus(),
    ensures
        !trace_satisfies(av, sv, sp, count, first, claimed),
{
    if trace_satisfies(av, sv, sp, count, first, claimed) {
        lemma_trace_total(av, sv, sp, count, first, claimed);
    }
}

/// The canonical trace of a circuit shape and seed: exactly the cells the
/// witness assigner produces.
pub open spec fn canonical_a(first: nat, sp: nat, count: nat) -> Seq<nat> {
    Seq::new(count, |r: int| a_row(first, sp, r as nat))
}

/// The canonical running-sum column.
pub open spec fn canonical_sum(first: nat, sp: nat, count: nat) -> Seq<nat> {
    Seq::new(count, |r: int| sum_row(first, first, sp, r as nat))
}

/// Completeness: the canonical trace satisfies every constraint when the
/// claimed total is the true progression total.
pub proof fn lemma_canonical_trace_satisfies(first: nat, sp: nat, count: nat)
    requires
        reduced(first),
        reduced(sp),
        count >= 1,
    ensures
        trace_satisfies(
            canonical_a(first, sp, count),
            canonical_sum(first, sp, count),
            sp,
            count,
            first,
            progression_total(first, sp, count) % field_modulus(),
        ),
{
    let av = canonical_a(first, sp, count);
    let sv = canonical_sum(first, sp, count);
    lemma_seeded_sum_total(first, sp, count);
    assert forall|r: int| 0 <= r < count implies gate_ok(circuit_flags(count), av, sv, sp, r) by {
        if r >= 1 {
            assert(av[r] == a_row(first, sp, r as nat));
            assert(av[r - 1] == a_row(first, sp, (r - 1) as nat));
            assert(sv[r - 1] == sum_row(first, first, sp, (r - 1) as nat));
        }
    }
}

/// Idempotence: synthesis with identical parameters and identical public
/// inputs can only produce one trace — any two satisfying traces are equal.
pub proof fn lemma_trace_deterministic(
    av1: Seq<nat>,
    sv1: Seq<nat>,
    av2: Seq<nat>,
    sv2: Seq<nat>,
    sp: nat,
    count: nat,
    first: nat,
    claimed: nat,
)
    requires
        trace_satisfies(av1, sv1, sp, count, first, claimed),
        trace_satisfies(av2, sv2, sp, count, first, claimed),
    ensures
        av1 == av2,
        sv1 == sv2,
{
    assert forall|r: int| 0 <= r < count implies av1[r] == av2[r] && sv1[r] == sv2[r] by {
        lemma_trace_rows_determined(av1, sv1, sp, count, first, claimed, r as nat);
        lemma_trace_rows_determined(av2, sv2, sp, count, first, claimed, r as nat);
    }
    assert(av1 =~= av2);
    assert(sv1 =~= sv2);
}

} // verus!
