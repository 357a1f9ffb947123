//! End-to-end tests: the verified chip drives halo2's mock prover.

use ap_sum_circuit::chip::{
    claimed_sum_slot, public_inputs, public_inputs_well_formed, ApSumChip, ApSumConfig,
};
use ap_sum_circuit::framework::{AdviceColumn, InstanceColumn, SystemBuilder, TraceRegion};
use ff::PrimeField;
use halo2_proofs::circuit::{Layouter, SimpleFloorPlanner};
use halo2_proofs::dev::MockProver;
use halo2_proofs::pasta::Fp;
use halo2_proofs::plonk::{
    Advice, Circuit, Column, ConstraintSystem, Error, Instance, Selector,
};

/// The circuit's configuration with the framework's own column handles, so it
/// can be the `Clone` config type halo2 asks of a circuit.
#[derive(Clone)]
struct ShapeConfig {
    a_col: Column<Advice>,
    sum_col: Column<Advice>,
    selector: Selector,
    instance: Column<Instance>,
    step: u128,
    count: usize,
}

impl ShapeConfig {
    fn to_chip_config(&self) -> ApSumConfig {
        ApSumConfig {
            a_col: AdviceColumn { inner: self.a_col },
            sum_col: AdviceColumn { inner: self.sum_col },
            selector: self.selector,
            instance: InstanceColumn { inner: self.instance },
            step: self.step,
            count: self.count,
        }
    }
}

/// The progression-sum circuit with its step and term count fixed at
/// compile time, as the constraint configurator demands.
#[derive(Default)]
struct ApSumCircuit<const STEP: u128, const COUNT: usize>;

impl<const STEP: u128, const COUNT: usize> Circuit<Fp> for ApSumCircuit<STEP, COUNT> {
    type Config = ShapeConfig;
    type FloorPlanner = SimpleFloorPlanner;

    fn without_witnesses(&self) -> Self {
        Self::default()
    }

    fn configure(meta: &mut ConstraintSystem<Fp>) -> Self::Config {
        let mut builder = SystemBuilder { inner: meta };
        let (a_col, sum_col, instance) = ApSumChip::columns(&mut builder);
        // the configurator asks for at least one row and two distinct value
        // columns; `columns` allocated the latter fresh
        assert!(COUNT >= 1);
        let config = ApSumChip::configure(&mut builder, a_col, sum_col, instance, STEP, COUNT);
        ShapeConfig {
            a_col: config.a_col.inner,
            sum_col: config.sum_col.inner,
            selector: config.selector,
            instance: config.instance.inner,
            step: config.step,
            count: config.count,
        }
    }

    fn synthesize(
        &self,
        config: Self::Config,
        mut layouter: impl Layouter<Fp>,
    ) -> Result<(), Error> {
        let chip = ApSumChip::construct(config.to_chip_config());
        if chip.config.count < 1 {
            return Err(Error::Synthesis);
        }
        let cells = layouter.assign_region(
            || "AP sum table",
            |mut region| chip.assign(&mut TraceRegion { inner: &mut region }),
        )?;
        layouter.constrain_instance(cells.last_sum.inner.cell(), config.instance, claimed_sum_slot())
    }
}

#[test]
fn ap_sum_step_one_count_five_works() {
    let k = 5;
    let circuit = ApSumCircuit::<1, 5>;
    // 1 + 2 + 3 + 4 + 5 = 15
    let prover = MockProver::run(k, &circuit, vec![vec![Fp::from(1), Fp::from(15)]]).unwrap();
    prover.assert_satisfied();
}

#[test]
fn ap_sum_step_three_count_four_works() {
    let k = 4;
    let circuit = ApSumCircuit::<3, 4>;
    // 1 + 4 + 7 + 10 = 22
    let prover = MockProver::run(k, &circuit, vec![vec![Fp::from(1), Fp::from(22)]]).unwrap();
    prover.assert_satisfied();
}

#[test]
fn off_by_one_claim_is_rejected() {
    let k = 5;
    let circuit = ApSumCircuit::<1, 5>;
    // 1 + 2 + 3 + 4 + 5 = 15, so a claimed total of 16 must not satisfy
    let prover = MockProver::run(k, &circuit, vec![public_inputs(Fp::from(1), Fp::from(16))])
        .unwrap();
    assert!(prover.verify().is_err());
}

#[test]
fn single_term_progression_works() {
    let k = 4;
    let circuit = ApSumCircuit::<0, 1>;
    // one term, no row flag is ever set: the sum is the first term itself
    let prover = MockProver::run(k, &circuit, vec![public_inputs(Fp::from(7), Fp::from(7))])
        .unwrap();
    prover.assert_satisfied();
}

#[test]
fn zero_first_term_works_and_wrong_claim_fails() {
    let k = 4;
    let circuit = ApSumCircuit::<2, 3>;
    // 0 + 2 + 4 = 6
    let prover = MockProver::run(k, &circuit, vec![public_inputs(Fp::from(0), Fp::from(6))])
        .unwrap();
    prover.assert_satisfied();

    let prover = MockProver::run(k, &circuit, vec![public_inputs(Fp::from(0), Fp::from(5))])
        .unwrap();
    assert!(prover.verify().is_err());
}

#[test]
fn public_input_layout_is_two_slots() {
    let v = public_inputs(Fp::from(3), Fp::from(9));
    assert_eq!(v.len(), 2);
    assert_eq!(v[0], Fp::from(3));
    assert_eq!(v[1], Fp::from(9));
    assert!(public_inputs_well_formed(&v));

    let too_short = vec![Fp::from(3)];
    assert!(!public_inputs_well_formed(&too_short));

    let too_long = vec![Fp::from(3), Fp::from(9), Fp::from(1)];
    assert!(!public_inputs_well_formed(&too_long));
}

#[test]
fn short_public_input_vector_is_a_fatal_error() {
    let k = 5;
    let circuit = ApSumCircuit::<1, 5>;
    // only one public slot: the binder cannot tie the total to slot 1
    let result = MockProver::run(k, &circuit, vec![vec![Fp::from(1)]]);
    match result {
        Err(_) => {}
        Ok(prover) => assert!(prover.verify().is_err()),
    }
}

#[test]
fn synthesis_is_repeatable() {
    // the model proof shows any two satisfying traces of one shape and one
    // public input are equal; here the same synthesis simply runs twice
    let k = 5;
    let circuit = ApSumCircuit::<1, 5>;
    let inputs = public_inputs(Fp::from(1), Fp::from(15));
    let first = MockProver::run(k, &circuit, vec![inputs.clone()]).unwrap();
    first.assert_satisfied();
    let second = MockProver::run(k, &circuit, vec![inputs]).unwrap();
    second.assert_satisfied();
}

#[test]
fn large_step_wraps_into_the_field() {
    let k = 4;
    // a step that only fits in u128 still configures and proves
    let circuit = ApSumCircuit::<{ 1u128 << 100 }, 2>;
    let step = Fp::from_u128(1u128 << 100);
    let first = Fp::from(1);
    let total = first + first + step;
    let prover = MockProver::run(k, &circuit, vec![public_inputs(first, total)]).unwrap();
    prover.assert_satisfied();
}
