use sph_synth::dispatch::{step_plan, workgroup_count, ComputePass, Dispatch, WORKGROUP_SIZE};

#[test]
fn workgroups_round_up() {
    assert_eq!(WORKGROUP_SIZE, 64);
    assert_eq!(workgroup_count(0), 0);
    assert_eq!(workgroup_count(1), 1);
    assert_eq!(workgroup_count(64), 1);
    assert_eq!(workgroup_count(65), 2);
    assert_eq!(workgroup_count(1296), 21);
    assert_eq!(workgroup_count(u32::MAX), 67_108_864);
}

#[test]
fn workgroups_cover_every_particle_without_an_idle_group() {
    for n in 0..1000u32 {
        let g = workgroup_count(n);
        assert!(g * 64 >= n);
        assert!(g * 64 < n + 64);
    }
}

#[test]
fn step_runs_density_pressure_force() {
    let plan = step_plan(1296);
    assert_eq!(
        plan,
        vec![
            Dispatch { pass: ComputePass::Density, workgroups: 21 },
            Dispatch { pass: ComputePass::Pressure, workgroups: 21 },
            Dispatch { pass: ComputePass::Force, workgroups: 21 },
        ]
    );
}
