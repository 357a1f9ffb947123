//! The arithmetic-progression-sum chip: constraint configuration and witness
//! assignment, verified against the model in `crate::progression`.
//!
//! The step and the term count are fixed when the circuit shape is
//! configured; they are carried in the configuration and treated as immutable
//! for the circuit's lifetime.  Row 0 of the trace is seeded from the public
//! first term by copy constraint; every later row is computed from the row
//! before it, exactly as the row algebra demands.

use vstd::prelude::*;

use halo2_proofs::pasta::Fp;
use halo2_proofs::plonk::{Error, Expression, Selector};

verus! {

use crate::framework::{
    advice_index, cell_clone, cell_column, cell_model, cell_row, cell_value, cs_advice_column,
    cs_create_gate_step_sum, cs_enable_equality_advice, cs_enable_equality_instance,
    cs_instance_column, cs_selector, equality_ok_advice, equality_ok_instance, expr_add,
    expr_clone, expr_constant, expr_eval, expr_mul, expr_sub, fp_from_u128, fp_val, instance_slot,
    region_assign_advice, region_assign_from_instance, region_flag, region_flags_recorded,
    region_witnessed, rotation_cur,
    rotation_prev, selector_enable, selector_index, step_gate_registered, value_add, value_known,
    value_model, vc_query_advice, vc_query_selector, AdviceColumn, GateCells, InstanceColumn,
    SystemBuilder, TraceCell, TraceRegion,
};
use crate::progression::{
    fadd, field_modulus, fmul, fsub, lemma_flag_factor_vacuous, lemma_opt_sum_row_known,
    lemma_seeded_sum_total, opt_a_row, opt_sum_row, progression_total, reduced, GateEnv,
};
use vstd::arithmetic::div_mod::lemma_mod_division_less_than_divisor;

/// The configuration of one circuit shape: the two value columns, the
/// activation flag, the public-input column, and the progression parameters
/// compiled into the shape.  Pure data — nothing more is needed from the
/// constraint-system builder once it is built.
pub struct ApSumConfig {
    pub a_col: AdviceColumn,
    pub sum_col: AdviceColumn,
    pub selector: Selector,
    pub instance: InstanceColumn,
    pub step: u128,
    pub count: usize,
}

/// A well-formed configuration has at least one row and two distinct value
/// columns.
pub open spec fn config_well_formed(config: ApSumConfig) -> bool {
    &&& config.count >= 1
    &&& advice_index(config.a_col) != advice_index(config.sum_col)
}

/// The chip built over a configuration.
pub struct ApSumChip {
    pub config: ApSumConfig,
}

/// The cells of an assigned trace that take part in copy constraints: the two
/// row-0 cells seeded from the public first term, and the last running-sum
/// cell that the public binder ties to the claimed total.
pub struct TraceCells {
    pub first_a: TraceCell,
    pub first_sum: TraceCell,
    pub last_sum: TraceCell,
}

/// The step, reduced into the field.
pub open spec fn step_residue(step: u128) -> nat {
    step as nat % field_modulus()
}

/// What the first registered polynomial evaluates to on one row:
/// `flag * (a_cur + sum_prev - sum_cur)`.
pub open spec fn sum_poly_eval(env: GateEnv, a: nat, sum: nat, sel: nat) -> nat {
    fmul(
        env.flags[sel],
        fsub(fadd(env.cells[(a, 0)], env.cells[(sum, -1)]), env.cells[(sum, 0)]),
    )
}

/// What the second registered polynomial evaluates to on one row:
/// `flag * (a_cur - a_prev - step)`.
pub open spec fn step_poly_eval(env: GateEnv, a: nat, sel: nat, step: nat) -> nat {
    fmul(env.flags[sel], fsub(fsub(env.cells[(a, 0)], env.cells[(a, -1)]), step))
}

/// Row-0 exemption at the registered polynomials: on any row whose
/// activation flag is unset, both polynomials evaluate to zero — their
/// constraints are vacuously satisfied — whatever the row's cells hold.
pub proof fn lemma_polys_vacuous_without_flag(
    env: GateEnv,
    a: nat,
    sum: nat,
    sel: nat,
    step: nat,
)
    requires
        env.flags[sel] == 0,
    ensures
        sum_poly_eval(env, a, sum, sel) == 0,
        step_poly_eval(env, a, sel, step) == 0,
{
    lemma_flag_factor_vacuous(
        fsub(fadd(env.cells[(a, 0)], env.cells[(sum, -1)]), env.cells[(sum, 0)]),
    );
    lemma_flag_factor_vacuous(fsub(fsub(env.cells[(a, 0)], env.cells[(a, -1)]), step));
}

/// The two polynomial constraints of the row algebra, each multiplied by
/// the activation flag so it is vacuous on rows where the flag is unset:
/// `flag * (a_cur + sum_prev - sum_cur)` and
/// `flag * (a_cur - a_prev - step)`.
pub fn step_sum_expressions(
    cells: &mut GateCells<'_, '_>,
    a_col: &AdviceColumn,
    sum_col: &AdviceColumn,
    selector: Selector,
    step_f: Fp,
) -> (constraints: Vec<Expression<Fp>>)
    ensures
        constraints@.len() == 2,
        forall|env: GateEnv|
            #[trigger] expr_eval(constraints@[0], env) == sum_poly_eval(
                env,
                advice_index(*a_col),
                advice_index(*sum_col),
                selector_index(selector),
            ),
        forall|env: GateEnv|
            #[trigger] expr_eval(constraints@[1], env) == step_poly_eval(
                env,
                advice_index(*a_col),
                selector_index(selector),
                fp_val(step_f),
            ),
{
    let a = vc_query_advice(cells, a_col, rotation_cur());
    let sum = vc_query_advice(cells, sum_col, rotation_cur());
    let prev_a = vc_query_advice(cells, a_col, rotation_prev());
    let prev_sum = vc_query_advice(cells, sum_col, rotation_prev());
    let s = vc_query_selector(cells, selector);

    let sum_gate = expr_mul(expr_clone(&s), expr_sub(expr_add(expr_clone(&a), prev_sum), sum));
    let step_gate = expr_mul(s, expr_sub(expr_sub(a, prev_a), expr_constant(step_f)));

    let mut constraints: Vec<Expression<Fp>> = Vec::new();
    constraints.push(sum_gate);
    constraints.push(step_gate);
    constraints
}

impl ApSumChip {
    /// Wraps a finished configuration.
    pub fn construct(config: ApSumConfig) -> (chip: Self)
        ensures
            chip.config == config,
    {
        ApSumChip { config }
    }

    /// Constraint configurator: enables equality on all three columns,
    /// allocates the activation flag, and registers the one gate, with the
    /// step compiled in as a field constant.  The result is pure data: the
    /// given columns, the flag the registered gate queries, and the
    /// progression parameters.
    pub fn configure(
        meta: &mut SystemBuilder<'_>,
        a_col: AdviceColumn,
        sum_col: AdviceColumn,
        instance: InstanceColumn,
        step: u128,
        count: usize,
    ) -> (config: ApSumConfig)
        requires
            count >= 1,
            advice_index(a_col) != advice_index(sum_col),
        ensures
            config.a_col == a_col,
            config.sum_col == sum_col,
            config.instance == instance,
            config.step == step,
            config.count == count,
            config_well_formed(config),
            equality_ok_advice(*final(meta), a_col),
            equality_ok_advice(*final(meta), sum_col),
            equality_ok_instance(*final(meta), instance),
            step_gate_registered(*final(meta), a_col, sum_col, config.selector, step_residue(step)),
    {
        let selector = cs_selector(meta);

        cs_enable_equality_advice(meta, &a_col);
        cs_enable_equality_advice(meta, &sum_col);
        cs_enable_equality_instance(meta, &instance);

        let step_f = fp_from_u128(step);
        cs_create_gate_step_sum(meta, &a_col, &sum_col, selector, step_f);

        ApSumConfig { a_col, sum_col, selector, instance, step, count }
    }

    /// Allocates the circuit's columns from the builder: two fresh — hence
    /// distinct — value columns and one public-input column.
    pub fn columns(
        meta: &mut SystemBuilder<'_>,
    ) -> (cols: (AdviceColumn, AdviceColumn, InstanceColumn))
        ensures
            advice_index(cols.0) != advice_index(cols.1),
    {
        let a_col = cs_advice_column(meta);
        let sum_col = cs_advice_column(meta);
        let instance = cs_instance_column(meta);
        (a_col, sum_col, instance)
    }

    /// Witness assigner: seeds row 0 of both columns from public-input slot 0,
    /// then walks the rows in increasing order, setting each row's flag and
    /// computing each cell from the previous row's assigned values.
    ///
    /// On success, the two returned row-0 cells sit at row 0 of the two value
    /// columns and the returned running-sum cell at row `count - 1` of the
    /// sum column; on a witnessed pass the row-0 cells both hold public-input
    /// slot 0 — the first term — and the last cell holds exactly the value
    /// the recurrences derive from them.  Unknown seeds (a shape-measurement
    /// or keygen pass) propagate as unknown rather than erroring, so the last
    /// cell then never holds a value foreign to the recurrences.
    pub fn assign(&self, region: &mut TraceRegion<'_, '_>) -> (r: Result<TraceCells, Error>)
        requires
            config_well_formed(self.config),
        ensures
            r matches Ok(cells) ==> cell_model(cells.last_sum) == opt_sum_row(
                cell_model(cells.first_a),
                cell_model(cells.first_sum),
                step_residue(self.config.step),
                (self.config.count - 1) as nat,
            ) || cell_model(cells.last_sum) is None,
            r matches Ok(cells) ==> region_witnessed(*old(region)) ==> cell_model(cells.last_sum)
                == opt_sum_row(
                cell_model(cells.first_a),
                cell_model(cells.first_sum),
                step_residue(self.config.step),
                (self.config.count - 1) as nat,
            ),
            r matches Ok(cells) ==> region_witnessed(*old(region)) ==> cell_model(cells.first_a)
                == instance_slot(*old(region), self.config.instance, 0) && cell_model(
                cells.first_sum,
            ) == instance_slot(*old(region), self.config.instance, 0),
            r matches Ok(cells) ==> cell_column(cells.first_a) == advice_index(self.config.a_col)
                && cell_row(cells.first_a) == 0,
            r matches Ok(cells) ==> cell_column(cells.first_sum) == advice_index(
                self.config.sum_col,
            ) && cell_row(cells.first_sum) == 0,
            r matches Ok(cells) ==> cell_column(cells.last_sum) == advice_index(
                self.config.sum_col,
            ) && cell_row(cells.last_sum) == (self.config.count - 1) as nat,
            r matches Ok(cells) ==> region_flags_recorded(*old(region)) ==> forall|n: nat|
                1 <= n < self.config.count ==> #[trigger] region_flag(
                    *final(region),
                    self.config.selector,
                    n,
                ),
            forall|s2: Selector, n: nat|
                selector_index(s2) != selector_index(self.config.selector) || n == 0 || n
                    >= self.config.count ==> #[trigger] region_flag(*final(region), s2, n)
                    == region_flag(*old(region), s2, n),
    {
        let ghost entry: TraceRegion = *region;
        let ghost w: bool = region_witnessed(*region);
        let ghost fr: bool = region_flags_recorded(*region);
        let first_a = match region_assign_from_instance(
            region,
            &self.config.instance,
            0,
            &self.config.a_col,
            0,
        ) {
            Ok(c) => c,
            Err(e) => return Err(e),
        };
        let first_sum = match region_assign_from_instance(
            region,
            &self.config.instance,
            0,
            &self.config.sum_col,
            0,
        ) {
            Ok(c) => c,
            Err(e) => return Err(e),
        };

        let step_f = fp_from_u128(self.config.step);
        let step_val = value_known(step_f);
        let ghost sp: nat = step_residue(self.config.step);
        let ghost am0: Option<nat> = cell_model(first_a);
        let ghost sm0: Option<nat> = cell_model(first_sum);

        let mut a_cell = cell_clone(&first_a);
        let mut sum_cell = cell_clone(&first_sum);
        let mut row: usize = 1;

        while row < self.config.count
            invariant
                1 <= row <= self.config.count,
                entry == *old(region),
                value_model(step_val) == Some(sp),
                region_witnessed(*region) == w,
                region_flags_recorded(*region) == fr,
                fr ==> forall|n: nat|
                    1 <= n < row ==> #[trigger] region_flag(*region, self.config.selector, n),
                forall|s2: Selector, n: nat|
                    selector_index(s2) != selector_index(self.config.selector) || n == 0 || n
                        >= self.config.count ==> #[trigger] region_flag(*region, s2, n)
                        == region_flag(entry, s2, n),
                w ==> cell_model(a_cell) == opt_a_row(am0, sp, (row - 1) as nat),
                w ==> cell_model(sum_cell) == opt_sum_row(am0, sm0, sp, (row - 1) as nat),
                cell_model(a_cell) == opt_a_row(am0, sp, (row - 1) as nat) || cell_model(
                    a_cell,
                ) is None,
                cell_model(sum_cell) == opt_sum_row(am0, sm0, sp, (row - 1) as nat) || cell_model(
                    sum_cell,
                ) is None,
                cell_column(a_cell) == advice_index(self.config.a_col),
                cell_row(a_cell) == (row - 1) as nat,
                cell_column(sum_cell) == advice_index(self.config.sum_col),
                cell_row(sum_cell) == (row - 1) as nat,
            decreases self.config.count - row,
        {
            match selector_enable(&self.config.selector, region, row) {
                Ok(u) => u,
                Err(e) => return Err(e),
            };

            let new_a_val = value_add(&cell_value(&a_cell), &step_val);
            assert(cell_model(a_cell) is Some ==> value_model(new_a_val) == opt_a_row(
                am0,
                sp,
                row as nat,
            ));
            assert(cell_model(a_cell) is None ==> value_model(new_a_val) is None);

            a_cell = match region_assign_advice(region, &self.config.a_col, row, &new_a_val) {
                Ok(c) => c,
                Err(e) => return Err(e),
            };

            let new_sum_val = value_add(&new_a_val, &cell_value(&sum_cell));
            assert(value_model(new_sum_val) == opt_sum_row(am0, sm0, sp, row as nat)
                || value_model(new_sum_val) is None);
            assert(w ==> value_model(new_sum_val) == opt_sum_row(am0, sm0, sp, row as nat));

            sum_cell = match region_assign_advice(region, &self.config.sum_col, row, &new_sum_val) {
                Ok(c) => c,
                Err(e) => return Err(e),
            };

            row = row + 1;
        }

        Ok(TraceCells { first_a, first_sum, last_sum: sum_cell })
    }
}

/// The fixed public-input layout of a proof attempt: slot 0 is the first term
/// of the progression, slot 1 the claimed total sum.
pub fn public_inputs(first: Fp, claimed: Fp) -> (v: Vec<Fp>)
    ensures
        v@.len() == 2,
        v@[0] == first,
        v@[1] == claimed,
{
    let mut v: Vec<Fp> = Vec::new();
    v.push(first);
    v.push(claimed);
    v
}

/// A public-input vector is acceptable exactly when it holds two elements:
/// the first term and the claimed total.  Anything else must be refused
/// before a proof attempt is constructed.
pub fn public_inputs_well_formed(v: &Vec<Fp>) -> (r: bool)
    ensures
        r <==> v@.len() == 2,
{
    v.len() == 2
}

/// The public-input slot the claimed total is bound to; slot 0 holds the
/// first term.
pub fn claimed_sum_slot() -> (r: usize)
    ensures
        r == 1,
{
    1
}

/// The step's residue is a canonical field element.
pub proof fn lemma_step_residue_reduced(step: u128)
    ensures
        reduced(step_residue(step)),
{
    lemma_mod_division_less_than_divisor(step as int, field_modulus() as int);
}

/// The assigned trace carries the progression total: when the two row-0
/// cells hold the public first term — which the copy constraints to
/// public-input slot 0 enforce — the value `assign` leaves in the last
/// running-sum cell is exactly the progression total
/// `count * first + step * (count * (count - 1) / 2)`, reduced into the
/// field.
pub proof fn lemma_assigned_total(first: nat, step: u128, count: nat)
    requires
        reduced(first),
        count >= 1,
    ensures
        opt_sum_row(Some(first), Some(first), step_residue(step), (count - 1) as nat)
            == Some(progression_total(first, step_residue(step), count) % field_modulus()),
{
    let sp = step_residue(step);
    lemma_step_residue_reduced(step);
    lemma_opt_sum_row_known(first, first, sp, (count - 1) as nat);
    lemma_seeded_sum_total(first, sp, count);
}

} // verus!
