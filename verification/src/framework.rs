//! Trusted boundary with the halo2 proving framework.
//!
//! Everything the circuit needs from halo2 passes through this module.  The
//! framework types that Verus can declare directly are declared; the ones
//! whose declarations Verus refuses (their definitions carry bounds on the
//! framework's own traits) are held in opaque wrapper structs instead, with
//! `pub` fields so that the unverified driver code around the library can
//! wrap and unwrap them.  Each call the verified code makes is wrapped in an
//! `external_body` function whose contract states no more than the
//! framework's source shows.
//!
//! Cell values are field elements of the Pallas base field; their canonical
//! residues are named by the uninterpreted functions `fp_val`, `value_model`
//! and `cell_model`, and every claim the library proves about a trace is a
//! claim about these residues.  Further uninterpreted functions name what
//! the contracts must speak of and nothing else: column, flag and rotation
//! indices; what a registered polynomial evaluates to on one row's view of
//! the trace, and whether it carries a simple activation flag (whose misuse
//! makes the framework's expression arithmetic abort); the builder's column
//! count, equality permissions and registered gate; and the region's pass
//! kind, public-input readings and flag table.

use vstd::prelude::*;

use ff::PrimeField;
use halo2_proofs::circuit::{AssignedCell, Region, Value};
use halo2_proofs::pasta::Fp;
use halo2_proofs::plonk::{
    Advice, Column, ConstraintSystem, Error, Expression, Instance, Selector, VirtualCells,
};
use halo2_proofs::poly::Rotation;

verus! {

use crate::progression::{fadd, field_modulus, fmul, fsub, opt_fadd, GateEnv};

#[verifier::external_type_specification]
#[verifier::external_body]
pub struct ExFp(Fp);

#[verifier::external_type_specification]
#[verifier::external_body]
pub struct ExSelector(Selector);

#[verifier::external_type_specification]
#[verifier::external_body]
pub struct ExRotation(Rotation);

#[verifier::external_type_specification]
#[verifier::external_body]
pub struct ExError(Error);

#[verifier::external_type_specification]
#[verifier::external_body]
#[verifier::reject_recursive_types(F)]
pub struct ExExpression<F>(Expression<F>);

#[verifier::external_type_specification]
#[verifier::external_body]
#[verifier::reject_recursive_types(V)]
pub struct ExValue<V>(Value<V>);

/// A value column of the trace.
#[verifier::external_body]
pub struct AdviceColumn {
    pub inner: Column<Advice>,
}

/// The public-input column.
#[verifier::external_body]
pub struct InstanceColumn {
    pub inner: Column<Instance>,
}

/// The constraint-system builder, borrowed for the duration of
/// configuration.
#[verifier::external_body]
pub struct SystemBuilder<'a> {
    pub inner: &'a mut ConstraintSystem<Fp>,
}

/// The region-scoped assignment capability, borrowed for the duration of one
/// witness-assignment pass.
#[verifier::external_body]
pub struct TraceRegion<'a, 'r> {
    pub inner: &'a mut Region<'r, Fp>,
}

/// The query context handed to a gate's constraint builder.
#[verifier::external_body]
pub struct GateCells<'a, 'b> {
    pub inner: &'a mut VirtualCells<'b, Fp>,
}

/// An assigned cell of the trace.
#[verifier::external_body]
pub struct TraceCell {
    pub inner: AssignedCell<Fp, Fp>,
}

/// The canonical residue a field element stands for.
pub uninterp spec fn fp_val(x: Fp) -> nat;

/// The index of a value column among the builder's value columns.
pub uninterp spec fn advice_index(c: AdviceColumn) -> nat;

/// The index of an activation flag among the builder's flags.
pub uninterp spec fn selector_index(s: Selector) -> nat;

/// The row offset a rotation stands for: 0 the current row, -1 the row
/// before.
pub uninterp spec fn rotation_offset(r: Rotation) -> int;

/// What a registered polynomial evaluates to on one row's view of the trace.
pub uninterp spec fn expr_eval(e: Expression<Fp>, env: GateEnv) -> nat;

/// Whether a polynomial contains a simple activation flag.  The framework's
/// expression arithmetic aborts on such operands (sums and differences
/// always; products when both sides carry one), so the operator wrappers
/// admit only operands this predicate clears.
pub uninterp spec fn expr_has_flag(e: Expression<Fp>) -> bool;

/// How many value columns the builder has allocated.
pub uninterp spec fn advice_count(b: SystemBuilder) -> nat;

/// Whether the builder lets cells of the value column take part in copy
/// constraints.
pub uninterp spec fn equality_ok_advice(b: SystemBuilder, c: AdviceColumn) -> bool;

/// Whether the builder lets cells of the public-input column take part in
/// copy constraints.
pub uninterp spec fn equality_ok_instance(b: SystemBuilder, c: InstanceColumn) -> bool;

/// Whether the builder carries the step-and-sum gate over the given columns,
/// flag and step residue.
pub uninterp spec fn step_gate_registered(
    b: SystemBuilder,
    a_col: AdviceColumn,
    sum_col: AdviceColumn,
    selector: Selector,
    step: nat,
) -> bool;

/// Whether the region belongs to a witnessed assignment pass — one whose
/// backing table records assigned values and serves public-input readings —
/// rather than a shape-measurement or keygen pass, which records no values.
pub uninterp spec fn region_witnessed(r: TraceRegion) -> bool;

/// The public-input value at a slot of an instance column, as the region's
/// backing pass serves it.
pub uninterp spec fn instance_slot(r: TraceRegion, c: InstanceColumn, row: nat) -> Option<nat>;

/// Whether the region belongs to a pass that records activation flags — the
/// mock prover and the keygen pass do; a shape-measurement pass and the real
/// prover's witness pass leave them to the keys already made.
pub uninterp spec fn region_flags_recorded(r: TraceRegion) -> bool;

/// Whether the activation flag is set at a row of the region's table.
pub uninterp spec fn region_flag(r: TraceRegion, s: Selector, row: nat) -> bool;

/// The value-column index an assigned cell sits in.
pub uninterp spec fn cell_column(c: TraceCell) -> nat;

/// The row offset (within its region) an assigned cell sits at.
pub uninterp spec fn cell_row(c: TraceCell) -> nat;

/// What a lazy circuit value holds: its residue when it is known, `None` when
/// it is the unwitnessed placeholder of a shape-only synthesis pass.
pub uninterp spec fn value_model(v: Value<Fp>) -> Option<nat>;

/// What an assigned cell holds: the (possibly unwitnessed) value it was
/// created with.
pub uninterp spec fn cell_model(c: TraceCell) -> Option<nat>;

/// Relies on `Fp::from_u128` (pasta_curves, through `ff::PrimeField`): the
/// argument is reduced into the field.
#[verifier::external_body]
pub fn fp_from_u128(x: u128) -> (r: Fp)
    ensures
        fp_val(r) == x as nat % field_modulus(),
{
    Fp::from_u128(x)
}

/// Relies on `Value::known` (halo2_proofs): wraps a concrete field element.
#[verifier::external_body]
pub fn value_known(x: Fp) -> (r: Value<Fp>)
    ensures
        value_model(r) == Some(fp_val(x)),
{
    Value::known(x)
}

/// Relies on the `Add` impl of `Value` (halo2_proofs), which adds two known
/// values with pasta's `Fp` addition — addition of residues mod the field
/// modulus — and propagates the unwitnessed placeholder otherwise.
#[verifier::external_body]
pub fn value_add(a: &Value<Fp>, b: &Value<Fp>) -> (r: Value<Fp>)
    ensures
        value_model(r) == opt_fadd(value_model(*a), value_model(*b)),
{
    *a + *b
}

/// Relies on `AssignedCell::value` and `Value::copied` (halo2_proofs): reads
/// back the value the cell was created with.
#[verifier::external_body]
pub fn cell_value(c: &TraceCell) -> (r: Value<Fp>)
    ensures
        value_model(r) == cell_model(*c),
{
    c.inner.value().copied()
}

/// Relies on the derived `Clone` of `AssignedCell` (halo2_proofs): the copy
/// holds the same value and position as the original.
#[verifier::external_body]
pub fn cell_clone(c: &TraceCell) -> (r: TraceCell)
    ensures
        cell_model(r) == cell_model(*c),
        cell_column(r) == cell_column(*c),
        cell_row(r) == cell_row(*c),
{
    TraceCell { inner: c.inner.clone() }
}

/// Relies on `ConstraintSystem::selector` (halo2_proofs): allocates a fresh
/// activation flag ("selector").
#[verifier::external_body]
pub fn cs_selector(meta: &mut SystemBuilder<'_>) -> (r: Selector) {
    meta.inner.selector()
}

/// Relies on `ConstraintSystem::advice_column` (halo2_proofs): returns the
/// column at the next free index and moves the count past it, so successive
/// allocations are distinct.
#[verifier::external_body]
pub fn cs_advice_column(meta: &mut SystemBuilder<'_>) -> (r: AdviceColumn)
    ensures
        advice_index(r) == advice_count(*old(meta)),
        advice_count(*final(meta)) == advice_count(*old(meta)) + 1,
{
    AdviceColumn { inner: meta.inner.advice_column() }
}

/// Relies on `ConstraintSystem::instance_column` (halo2_proofs): allocates a
/// fresh public-input column.
#[verifier::external_body]
pub fn cs_instance_column(meta: &mut SystemBuilder<'_>) -> (r: InstanceColumn) {
    InstanceColumn { inner: meta.inner.instance_column() }
}

/// Relies on `ConstraintSystem::enable_equality` (halo2_proofs): lets cells
/// of the column take part in copy constraints, and takes nothing already
/// enabled away.
#[verifier::external_body]
pub fn cs_enable_equality_advice(meta: &mut SystemBuilder<'_>, column: &AdviceColumn)
    ensures
        equality_ok_advice(*final(meta), *column),
        forall|c: AdviceColumn|
            equality_ok_advice(*old(meta), c) ==> #[trigger] equality_ok_advice(*final(meta), c),
        forall|c: InstanceColumn|
            equality_ok_instance(*old(meta), c) ==> #[trigger] equality_ok_instance(
                *final(meta),
                c,
            ),
{
    meta.inner.enable_equality(column.inner);
}

/// Relies on `ConstraintSystem::enable_equality` (halo2_proofs): lets cells
/// of the public-input column take part in copy constraints, and takes
/// nothing already enabled away.
#[verifier::external_body]
pub fn cs_enable_equality_instance(meta: &mut SystemBuilder<'_>, column: &InstanceColumn)
    ensures
        equality_ok_instance(*final(meta), *column),
        forall|c: AdviceColumn|
            equality_ok_advice(*old(meta), c) ==> #[trigger] equality_ok_advice(*final(meta), c),
        forall|c: InstanceColumn|
            equality_ok_instance(*old(meta), c) ==> #[trigger] equality_ok_instance(
                *final(meta),
                c,
            ),
{
    meta.inner.enable_equality(column.inner);
}

/// Relies on `ConstraintSystem::create_gate` (halo2_proofs): registers the
/// one named gate of this circuit, whose polynomial constraints are built by
/// the verified `crate::chip::step_sum_expressions`, and takes no enabled
/// equality away.
#[verifier::external_body]
pub fn cs_create_gate_step_sum(
    meta: &mut SystemBuilder<'_>,
    a_col: &AdviceColumn,
    sum_col: &AdviceColumn,
    selector: Selector,
    step_f: Fp,
)
    ensures
        step_gate_registered(*final(meta), *a_col, *sum_col, selector, fp_val(step_f)),
        forall|c: AdviceColumn|
            equality_ok_advice(*old(meta), c) ==> #[trigger] equality_ok_advice(*final(meta), c),
        forall|c: InstanceColumn|
            equality_ok_instance(*old(meta), c) ==> #[trigger] equality_ok_instance(
                *final(meta),
                c,
            ),
{
    let a_col = AdviceColumn { inner: a_col.inner };
    let sum_col = AdviceColumn { inner: sum_col.inner };
    meta.inner.create_gate("step and sum", move |cells| {
        crate::chip::step_sum_expressions(
            &mut GateCells { inner: cells },
            &a_col,
            &sum_col,
            selector,
            step_f,
        )
    });
}

/// Relies on `VirtualCells::query_advice` (halo2_proofs): the polynomial
/// variable standing for the column at the given rotation — it evaluates on
/// any row to that cell of the trace, and holds no activation flag.
#[verifier::external_body]
pub fn vc_query_advice(
    cells: &mut GateCells<'_, '_>,
    column: &AdviceColumn,
    at: Rotation,
) -> (r: Expression<Fp>)
    ensures
        !expr_has_flag(r),
        forall|env: GateEnv|
            #[trigger] expr_eval(r, env) == env.cells[(advice_index(*column), rotation_offset(at))],
{
    cells.inner.query_advice(column.inner, at)
}

/// Relies on `VirtualCells::query_selector` (halo2_proofs): the polynomial
/// variable standing for the activation flag — it evaluates on any row to
/// the flag's value there.
#[verifier::external_body]
pub fn vc_query_selector(cells: &mut GateCells<'_, '_>, s: Selector) -> (r: Expression<Fp>)
    ensures
        expr_has_flag(r),
        forall|env: GateEnv| #[trigger] expr_eval(r, env) == env.flags[selector_index(s)],
{
    cells.inner.query_selector(s)
}

/// Relies on `Rotation::cur` (halo2_proofs): the current row.
#[verifier::external_body]
pub fn rotation_cur() -> (r: Rotation)
    ensures
        rotation_offset(r) == 0,
{
    Rotation::cur()
}

/// Relies on `Rotation::prev` (halo2_proofs): the immediately preceding row.
#[verifier::external_body]
pub fn rotation_prev() -> (r: Rotation)
    ensures
        rotation_offset(r) == -1,
{
    Rotation::prev()
}

/// Relies on the `Add` impl of `Expression` (halo2_proofs): the formal sum,
/// which evaluates to field addition.  The impl aborts when either operand
/// carries a simple activation flag, so such operands are excluded.
#[verifier::external_body]
pub fn expr_add(a: Expression<Fp>, b: Expression<Fp>) -> (r: Expression<Fp>)
    requires
        !expr_has_flag(a),
        !expr_has_flag(b),
    ensures
        !expr_has_flag(r),
        forall|env: GateEnv|
            #[trigger] expr_eval(r, env) == fadd(expr_eval(a, env), expr_eval(b, env)),
{
    a + b
}

/// Relies on the `Sub` impl of `Expression` (halo2_proofs): the formal
/// difference, which evaluates to field subtraction.  The impl aborts when
/// either operand carries a simple activation flag, so such operands are
/// excluded.
#[verifier::external_body]
pub fn expr_sub(a: Expression<Fp>, b: Expression<Fp>) -> (r: Expression<Fp>)
    requires
        !expr_has_flag(a),
        !expr_has_flag(b),
    ensures
        !expr_has_flag(r),
        forall|env: GateEnv|
            #[trigger] expr_eval(r, env) == fsub(expr_eval(a, env), expr_eval(b, env)),
{
    a - b
}

/// Relies on the `Mul` impl of `Expression` (halo2_proofs): the formal
/// product, which evaluates to field multiplication.  The impl aborts when
/// both operands carry a simple activation flag, so that pair is excluded.
#[verifier::external_body]
pub fn expr_mul(a: Expression<Fp>, b: Expression<Fp>) -> (r: Expression<Fp>)
    requires
        !(expr_has_flag(a) && expr_has_flag(b)),
    ensures
        expr_has_flag(r) == (expr_has_flag(a) || expr_has_flag(b)),
        forall|env: GateEnv|
            #[trigger] expr_eval(r, env) == fmul(expr_eval(a, env), expr_eval(b, env)),
{
    a * b
}

/// Relies on `Expression::Constant` (halo2_proofs): the constant polynomial,
/// which evaluates to the constant on every row.
#[verifier::external_body]
pub fn expr_constant(f: Fp) -> (r: Expression<Fp>)
    ensures
        !expr_has_flag(r),
        forall|env: GateEnv| #[trigger] expr_eval(r, env) == fp_val(f),
{
    Expression::Constant(f)
}

/// Relies on the derived `Clone` of `Expression` (halo2_proofs): the copy is
/// the same polynomial.
#[verifier::external_body]
pub fn expr_clone(e: &Expression<Fp>) -> (r: Expression<Fp>)
    ensures
        expr_has_flag(r) == expr_has_flag(*e),
        forall|env: GateEnv| #[trigger] expr_eval(r, env) == expr_eval(*e, env),
{
    e.clone()
}

/// Relies on `Selector::enable` (halo2_proofs): sets the activation flag at
/// the given row of a flag-recording region and touches no other flag; the
/// pass kind and the public inputs it serves stay as they were.
#[verifier::external_body]
pub fn selector_enable(
    s: &Selector,
    region: &mut TraceRegion<'_, '_>,
    offset: usize,
) -> (r: Result<(), Error>)
    ensures
        r is Ok && region_flags_recorded(*old(region)) ==> region_flag(
            *final(region),
            *s,
            offset as nat,
        ),
        forall|s2: Selector, n: nat|
            selector_index(s2) != selector_index(*s) || n != offset as nat
                ==> #[trigger] region_flag(*final(region), s2, n) == region_flag(
                *old(region),
                s2,
                n,
            ),
        region_flags_recorded(*final(region)) == region_flags_recorded(*old(region)),
        region_witnessed(*final(region)) == region_witnessed(*old(region)),
        forall|c: InstanceColumn, n: nat|
            #[trigger] instance_slot(*final(region), c, n) == instance_slot(*old(region), c, n),
{
    s.enable(region.inner, offset)
}

/// Relies on `Region::assign_advice` (halo2_proofs): on success the returned
/// cell sits at the given column and offset and was created holding either
/// exactly the supplied value — always so on a witnessed pass — or the
/// unwitnessed placeholder, which a shape-measurement or keygen pass records
/// in its stead.  The pass kind and the public inputs stay as they were.
#[verifier::external_body]
pub fn region_assign_advice(
    region: &mut TraceRegion<'_, '_>,
    column: &AdviceColumn,
    offset: usize,
    v: &Value<Fp>,
) -> (r: Result<TraceCell, Error>)
    ensures
        r matches Ok(c) ==> cell_model(c) == value_model(*v) || cell_model(c) is None,
        r matches Ok(c) ==> region_witnessed(*old(region)) ==> cell_model(c) == value_model(*v),
        r matches Ok(c) ==> cell_column(c) == advice_index(*column) && cell_row(c) == offset as nat,
        region_witnessed(*final(region)) == region_witnessed(*old(region)),
        region_flags_recorded(*final(region)) == region_flags_recorded(*old(region)),
        forall|s2: Selector, n: nat|
            #[trigger] region_flag(*final(region), s2, n) == region_flag(*old(region), s2, n),
        forall|c: InstanceColumn, n: nat|
            #[trigger] instance_slot(*final(region), c, n) == instance_slot(*old(region), c, n),
{
    region
        .inner
        .assign_advice(|| "cell", column.inner, offset, || *v)
        .map(|c| TraceCell { inner: c })
}

/// Relies on `Region::assign_advice_from_instance` (halo2_proofs): copies the
/// public-input value at `row` of the instance column into a fresh advice
/// cell at the given column and offset, equality-constrained to that slot.
/// On a witnessed pass the cell holds that public value; the value itself is
/// the prover's input, so nothing more is claimed of it.  The pass kind and
/// the public inputs stay as they were.
#[verifier::external_body]
pub fn region_assign_from_instance(
    region: &mut TraceRegion<'_, '_>,
    instance: &InstanceColumn,
    row: usize,
    column: &AdviceColumn,
    offset: usize,
) -> (r: Result<TraceCell, Error>)
    ensures
        r matches Ok(c) ==> cell_column(c) == advice_index(*column) && cell_row(c) == offset as nat,
        r matches Ok(c) ==> region_witnessed(*old(region)) ==> cell_model(c) == instance_slot(
            *old(region),
            *instance,
            row as nat,
        ),
        region_witnessed(*final(region)) == region_witnessed(*old(region)),
        region_flags_recorded(*final(region)) == region_flags_recorded(*old(region)),
        forall|s2: Selector, n: nat|
            #[trigger] region_flag(*final(region), s2, n) == region_flag(*old(region), s2, n),
        forall|c: InstanceColumn, n: nat|
            #[trigger] instance_slot(*final(region), c, n) == instance_slot(*old(region), c, n),
{
    region
        .inner
        .assign_advice_from_instance(|| "public", instance.inner, row, column.inner, offset)
        .map(|c| TraceCell { inner: c })
}

} // verus!
