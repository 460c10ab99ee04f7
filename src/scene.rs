use vstd::prelude::*;

verus! {

#[verifier::external_type_specification]
#[verifier::external_body]
pub struct ExBindGroup(wgpu::BindGroup);

/// The splats of a scene and the GPU bindings built from them.
pub struct Scene {
    /// Number of active splats
    pub splat_count: usize,
    /// Raw splat attribute data
    pub splat_data: Vec<u8>,
    /// World positions, three `f32` bit patterns per splat
    pub splat_positions: Vec<u32>,
    /// Bindings of the radix sort passes, indexed by pass
    pub compute_bind_groups: Vec<wgpu::BindGroup>,
    /// Binding of the draw pass, absent until set up
    pub render_bind_group: Option<wgpu::BindGroup>,
}

impl Scene {
    /// An empty scene without GPU bindings.
    pub fn new() -> (r: Scene)
        ensures
            r.splat_count == 0,
            r.splat_data@.len() == 0,
            r.splat_positions@.len() == 0,
            r.compute_bind_groups@.len() == 0,
            r.render_bind_group is None,
    {
        Scene {
            splat_count: 0,
            splat_data: Vec::new(),
            splat_positions: Vec::new(),
            compute_bind_groups: Vec::new(),
            render_bind_group: None,
        }
    }
}

impl Default for Scene {
    fn default() -> (r: Scene)
        ensures
            r.splat_count == 0,
            r.splat_data@.len() == 0,
            r.splat_positions@.len() == 0,
            r.compute_bind_groups@.len() == 0,
            r.render_bind_group is None,
    {
        Scene::new()
    }
}

} // verus!
