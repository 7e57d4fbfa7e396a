//! How one physics step is dispatched on the GPU: which compute passes run,
//! in which order, and over how many workgroups.

use vstd::prelude::*;

verus! {

/// Number of particles one compute workgroup handles (the shader's
/// `@workgroup_size`).
pub const WORKGROUP_SIZE: u32 = 64;

/// The smallest number of workgroups of `WORKGROUP_SIZE` threads that
/// together cover `particle_count` particles.
pub open spec fn spec_workgroup_count(particle_count: nat) -> nat {
    (particle_count + WORKGROUP_SIZE - 1) as nat / (WORKGROUP_SIZE as nat)
}

/// Workgroups needed to give every particle its own invocation
/// (`particle_count.div_ceil(WORKGROUP_SIZE)`).
pub fn workgroup_count(particle_count: u32) -> (groups: u32)
    ensures
        groups == spec_workgroup_count(particle_count as nat),
{
    let full = particle_count / WORKGROUP_SIZE;
    if particle_count % WORKGROUP_SIZE == 0 {
        full
    } else {
        full + 1
    }
}

/// The three compute passes of one physics step.
#[derive(Clone, Copy, Debug, PartialEq, Eq, Structural)]
pub enum ComputePass {
    /// Sums each particle's density over its neighbours.
    Density,
    /// Turns density into pressure.
    Pressure,
    /// Applies pressure, viscosity, gravity and pointer forces and integrates.
    Force,
}

/// One compute dispatch: a pass run over `workgroups` x 1 x 1 workgroups.
#[derive(Clone, Copy, Debug, PartialEq, Eq, Structural)]
pub struct Dispatch {
    pub pass: ComputePass,
    pub workgroups: u32,
}

/// The passes of a step in the order they must run: each pass reads what
/// the one before it wrote.
pub open spec fn spec_pass_order() -> Seq<ComputePass> {
    seq![ComputePass::Density, ComputePass::Pressure, ComputePass::Force]
}

/// The dispatches of one physics step over `particle_count` particles:
/// density, then pressure, then force, each over enough workgroups to cover
/// every particle.
pub fn step_plan(particle_count: u32) -> (plan: Vec<Dispatch>)
    ensures
        plan@.len() == 3,
        forall|k: int|
            0 <= k < 3 ==> #[trigger] plan@[k] == (Dispatch {
                pass: spec_pass_order()[k],
                workgroups: spec_workgroup_count(particle_count as nat) as u32,
            }),
{
    let groups = workgroup_count(particle_count);
    let mut plan: Vec<Dispatch> = Vec::new();
    plan.push(Dispatch { pass: ComputePass::Density, workgroups: groups });
    plan.push(Dispatch { pass: ComputePass::Pressure, workgroups: groups });
    plan.push(Dispatch { pass: ComputePass::Force, workgroups: groups });
    plan
}

/// A step runs each pass exactly once, density first, then pressure, then
/// force.
pub proof fn lemma_passes_in_dependency_order()
    ensures
        spec_pass_order().len() == 3,
        spec_pass_order()[0] == ComputePass::Density,
        spec_pass_order()[1] == ComputePass::Pressure,
        spec_pass_order()[2] == ComputePass::Force,
{
}

/// Every particle gets an invocation, and no workgroup is wholly idle: the
/// workgroups of a step cover exactly the particles, rounded up to a whole
/// workgroup.
pub proof fn lemma_workgroups_cover_particles(particle_count: nat)
    ensures
        spec_workgroup_count(particle_count) * (WORKGROUP_SIZE as nat) >= particle_count,
        spec_workgroup_count(particle_count) * (WORKGROUP_SIZE as nat) < particle_count
            + WORKGROUP_SIZE,
{
    let g = spec_workgroup_count(particle_count);
    let n = particle_count as int;
    assert(g * 64 <= n + 63 && n + 63 < g * 64 + 64) by (nonlinear_arith)
        requires
            g == (n + 63) / 64,
            n >= 0,
    ;
}

} // verus!
