//! Tests of the fixed-point scalar and the two neuron models.

use spiking_column_net::fixed::{
    fx_add, fx_clamp, fx_div, fx_div_int, fx_is_saturated, fx_mul, fx_sub,
};
use spiking_column_net::hindmarsh_rose::{
    hindmarsh_rose_step, HindmarshRoseModel, HindmarshRoseMorphology,
};
use spiking_column_net::izhikevich::{
    izhikevich_tick, thalamic_input, IzhikevichModel, IzhikevichMorphology, THALAMIC_INPUT_LIMIT,
};
use spiking_column_net::errors::ConfigError;
use spiking_column_net::neuron::{advance_neuron, Neuron, NeuronState};

fn damped_hr_morphology() -> HindmarshRoseMorphology {
    HindmarshRoseMorphology {
        a: 1_000_000,
        b: 3_000_000,
        c: 1_000_000,
        d: 5_000_000,
        beta: 1_000_000,
        r: 1_000,
        s: 4_000_000,
        x_r: -1_600_000,
        t_s: 1_000_000,
        epsp_amp: 100_000,
    }
}

fn inert_hr_morphology() -> HindmarshRoseMorphology {
    HindmarshRoseMorphology {
        a: 0,
        b: 0,
        c: 0,
        d: 0,
        beta: 0,
        r: 0,
        s: 0,
        x_r: 0,
        t_s: 1_000_000,
        epsp_amp: 0,
    }
}

#[test]
fn fixed_point_addition_saturates() {
    assert_eq!(fx_add(2_000_000, 3_000_000), 5_000_000);
    assert_eq!(fx_add(i64::MAX, 1), i64::MAX);
    assert_eq!(fx_add(i64::MIN, -1), i64::MIN);
    assert_eq!(fx_sub(i64::MIN, 1), i64::MIN);
}

#[test]
fn fixed_point_multiplication_rescales() {
    assert_eq!(fx_mul(2_000_000, 3_000_000), 6_000_000);
    assert_eq!(fx_mul(-1_500_000, 2_000_000), -3_000_000);
    // a product below one raw unit truncates toward zero
    assert_eq!(fx_mul(1, 1), 0);
    assert_eq!(fx_mul(-1, 1), 0);
}

#[test]
fn fixed_point_division_truncates_toward_zero() {
    assert_eq!(fx_div(1_000_000, 3_000_000), 333_333);
    assert_eq!(fx_div(-1_000_000, 3_000_000), -333_333);
    assert_eq!(fx_div_int(-6_000_000, 2000), -3_000);
    assert_eq!(fx_div_int(1_999, 2000), 0);
}

#[test]
fn fixed_point_clamp_is_symmetric() {
    assert_eq!(fx_clamp(5_000_000, 4_000_000), 4_000_000);
    assert_eq!(fx_clamp(-5_000_000, 4_000_000), -4_000_000);
    assert_eq!(fx_clamp(1_000_000, 4_000_000), 1_000_000);
}

#[test]
fn saturation_is_detectable() {
    assert!(fx_is_saturated(i64::MAX));
    assert!(fx_is_saturated(i64::MIN));
    assert!(!fx_is_saturated(0));
}

#[test]
fn izhikevich_resting_tick_is_exact() {
    let morphology = IzhikevichMorphology::regular_spiking();
    let model = IzhikevichModel::resting();
    let (next, fired) = izhikevich_tick(&model, &morphology, 0, 0);
    assert_eq!(next.v, -77_884_550);
    assert_eq!(next.u, -1_585_538);
    assert!(!fired);
}

#[test]
fn izhikevich_reset_above_threshold() {
    // A membrane started above the spike threshold fires this tick: the
    // potential is reset to c and, with a zero recovery time scale, the
    // recovery variable gains exactly d.
    let morphology = IzhikevichMorphology { a: 0, b: 200_000, c: -65_000_000, d: 2_000_000 };
    let model = IzhikevichModel { v: 31_000_000, u: 0 };
    let (next, fired) = izhikevich_tick(&model, &morphology, 0, 0);
    assert_eq!(next.v, -65_000_000);
    assert_eq!(next.u, 2_000_000);
    assert!(fired);
}

#[test]
fn izhikevich_below_threshold_raises_no_marker() {
    let morphology = IzhikevichMorphology::regular_spiking();
    let model = IzhikevichModel::resting();
    let (_, fired) = izhikevich_tick(&model, &morphology, 0, 0);
    assert!(!fired);
}

#[test]
fn thalamic_input_draw_is_bounded() {
    for _ in 0..200 {
        let noise = thalamic_input();
        assert!(0 <= noise && noise < THALAMIC_INPUT_LIMIT);
    }
}

#[test]
fn hindmarsh_rose_damped_step_is_exact() {
    let morphology = damped_hr_morphology();
    let model = HindmarshRoseModel { x: 1_000_000, y: 2_000_000, z: 0, i: 0 };
    let next = hindmarsh_rose_step(&model, &morphology, 0);
    assert_eq!(next.x, 1_004_000);
    assert_eq!(next.y, 1_994_000);
    assert_eq!(next.z, 10);
    assert_eq!(next.i, 0);
}

#[test]
fn hindmarsh_rose_y_strictly_decreases_when_damped() {
    let morphology = damped_hr_morphology();
    let mut model = HindmarshRoseModel { x: 1_000_000, y: 2_000_000, z: 0, i: 0 };
    for _ in 0..5 {
        let next = hindmarsh_rose_step(&model, &morphology, 0);
        assert!(next.y < model.y);
        model = next;
    }
}

#[test]
fn hindmarsh_rose_impulse_feeds_input_accumulator() {
    let morphology = inert_hr_morphology();
    let model = HindmarshRoseModel { x: 0, y: 0, z: 0, i: 0 };
    // the impulse is injected undivided by the millisecond scaling
    let next = hindmarsh_rose_step(&model, &morphology, 500_000);
    assert_eq!(next.i, 500_000);
}

#[test]
fn hindmarsh_rose_spike_flag_lifecycle() {
    let morphology = inert_hr_morphology();
    // y above the threshold and inert dynamics: the upward crossing marks
    // an action potential exactly once
    let model = HindmarshRoseModel { x: 0, y: -3_400_000, z: 0, i: 0 };
    let mut neuron = Neuron::hindmarsh_rose(model, morphology, None);
    let first = advance_neuron(&mut neuron, 0, 7);
    assert_eq!(first.id, 7);
    assert!(first.spike_start);
    assert!(!first.spike_end);
    assert!(neuron.spiking);
    assert!(neuron.action_potential);

    // still above threshold: no new spike start
    let second = advance_neuron(&mut neuron, 0, 7);
    assert!(!second.spike_start);
    assert!(!second.spike_end);
    assert!(neuron.spiking);
}

#[test]
fn hindmarsh_rose_falling_edge_clears_spiking_silently() {
    let morphology = inert_hr_morphology();
    let model = HindmarshRoseModel { x: 0, y: -3_600_000, z: 0, i: 0 };
    let mut neuron = Neuron::hindmarsh_rose(model, morphology, None);
    neuron.spiking = true;
    let result = advance_neuron(&mut neuron, 0, 0);
    assert!(result.spike_end);
    assert!(!result.spike_start);
    assert!(!neuron.spiking);
    // the falling edge raises no action potential
    assert!(!neuron.action_potential);
}

#[test]
fn morphology_validation_rejects_bad_timescale() {
    let mut morphology = damped_hr_morphology();
    assert_eq!(morphology.validate(), Ok(()));
    morphology.t_s = 0;
    assert_eq!(morphology.validate(), Err(ConfigError::NonPositiveTimescale));
    morphology.t_s = -1_000_000;
    assert_eq!(morphology.validate(), Err(ConfigError::NonPositiveTimescale));
}

#[test]
fn neuron_variant_is_fixed_and_observable() {
    let neuron = Neuron::izhikevich(
        IzhikevichModel::resting(),
        IzhikevichMorphology::regular_spiking(),
        None,
    );
    assert!(matches!(neuron.state, NeuronState::Izhikevich { .. }));
    assert_eq!(neuron.primary_observable(), -65_000_000);
    assert!(!neuron.has_diverged());

    let diverged = Neuron::izhikevich(
        IzhikevichModel { v: i64::MAX, u: 0 },
        IzhikevichMorphology::regular_spiking(),
        None,
    );
    assert!(diverged.has_diverged());
}
