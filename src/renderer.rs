use vstd::prelude::*;
use crate::config::{
    ceil_div, configuration_error, layout_of, validate_configuration, Configuration,
    ConfigurationError, DepthSorting, SortLayout,
};
use crate::scene::Scene;
use crate::sort::{cpu_depth_sort, is_retained_entry, strictly_sorted, ClipPosition, SortEntry};

verus! {

/// Vertices of the quad drawn for each splat instance.
pub const QUAD_VERTICES: u32 = 4;

/// Index of the compute binding used by the histogram and prefix-sum kernels.
pub const HISTOGRAM_BIND_GROUP: u64 = 1;

/// The three kernels of the GPU radix sort.
#[derive(Clone, Copy, Debug, PartialEq, Eq, Structural)]
pub enum SortKernel {
    /// Per-workgroup digit histogram
    Histogram,
    /// Global prefix sum over the digit histograms
    PrefixSum,
    /// Per-digit scatter
    Scatter,
}

/// One step of the work recorded and submitted for a frame, in order.
#[derive(Clone, Copy, Debug, PartialEq, Eq, Structural)]
pub enum FrameCommand {
    /// Write `count` CPU-sorted entries into the entry buffer
    UploadEntries { count: u64 },
    /// Write the uniform block
    UploadUniforms,
    /// Zero the sorting buffer from offset 0: `size` bytes, or all of it for `None`
    ClearSortingBuffer { size: Option<u64> },
    /// Dispatch a sort kernel with the compute binding at index `bind_group`
    Dispatch { kernel: SortKernel, bind_group: u64, x: u32, y: u32, z: u32 },
    /// Begin the render pass that clears the target to black and binds the pipeline,
    /// and the scene's render binding when `bind_render_group` holds
    BeginRenderPass { bind_render_group: bool },
    /// Instanced draw of `instance_count` splats
    Draw { vertex_count: u32, instance_count: u32 },
    /// Indirect draw with its arguments at `offset` in the sorting buffer
    DrawIndirect { offset: u64 },
    /// Submit the recorded commands to the queue
    Submit,
}

/// Why a frame was not rendered.
#[derive(Clone, Copy, Debug, PartialEq, Eq, Structural)]
pub enum FrameError {
    /// The scene holds more splats than the configuration allocates for
    CapacityExceeded,
    /// A GPU sort was asked for and the scene lacks a compute binding it needs
    MissingBindGroups,
}

/// What a frame does, as decided on the CPU.
pub struct FramePlan {
    /// The render pipeline has yet to be built and must be built first
    pub build_pipeline: bool,
    /// The culled and sorted entries of a CPU sort; empty otherwise
    pub entries: Vec<SortEntry>,
    /// The commands to record and submit, in order
    pub commands: Vec<FrameCommand>,
}

pub open spec fn is_gpu_sorting(s: DepthSorting) -> bool {
    s == DepthSorting::Gpu || s == DepthSorting::GpuIndirectDraw
}

/// Number of compute bindings that the GPU sort of layout `l` reads.
pub open spec fn needed_bind_groups(l: SortLayout) -> nat {
    if l.radix_digit_places > HISTOGRAM_BIND_GROUP {
        l.radix_digit_places as nat
    } else {
        (HISTOGRAM_BIND_GROUP + 1) as nat
    }
}

/// The error of a frame of `count` splats with `bind_groups` compute bindings, if any.
pub open spec fn frame_error(c: &Configuration, l: SortLayout, count: nat, bind_groups: nat) -> Option<FrameError> {
    if count > c.max_splat_count {
        Some(FrameError::CapacityExceeded)
    } else if is_gpu_sorting(c.depth_sorting) && bind_groups < needed_bind_groups(l) {
        Some(FrameError::MissingBindGroups)
    } else {
        None
    }
}

/// The scatter passes `0..k` of the GPU sort over `n` splats.
pub open spec fn scatter_passes(l: SortLayout, n: nat, k: nat) -> Seq<FrameCommand>
    decreases k,
{
    if k == 0 {
        seq![]
    } else {
        let pass = (k - 1) as nat;
        let clear = if pass > 0 && l.digit_count_size > 0 {
            seq![FrameCommand::ClearSortingBuffer { size: Some(l.digit_count_size) }]
        } else {
            seq![]
        };
        scatter_passes(l, n, pass) + clear + seq![
            FrameCommand::Dispatch {
                kernel: SortKernel::Scatter,
                bind_group: pass as u64,
                x: 1,
                y: ceil_div(n as int, l.workgroup_entries_c as int) as u32,
                z: 1,
            },
        ]
    }
}

/// The compute work of the GPU sort over `n` splats.
pub open spec fn compute_commands(l: SortLayout, n: nat) -> Seq<FrameCommand> {
    seq![
        FrameCommand::ClearSortingBuffer { size: None },
        FrameCommand::Dispatch {
            kernel: SortKernel::Histogram,
            bind_group: HISTOGRAM_BIND_GROUP,
            x: ceil_div(n as int, l.workgroup_entries_a as int) as u32,
            y: 1,
            z: 1,
        },
        FrameCommand::Dispatch {
            kernel: SortKernel::PrefixSum,
            bind_group: HISTOGRAM_BIND_GROUP,
            x: 1,
            y: l.radix_digit_places as u32,
            z: 1,
        },
    ] + scatter_passes(l, n, l.radix_digit_places as nat)
}

/// The commands of a frame of `n` splats of which `drawn` are drawn.
pub open spec fn frame_commands(
    s: DepthSorting,
    l: SortLayout,
    n: nat,
    drawn: nat,
    bind_render_group: bool,
) -> Seq<FrameCommand> {
    let upload = if s == DepthSorting::Cpu {
        seq![FrameCommand::UploadEntries { count: drawn as u64 }]
    } else {
        seq![]
    };
    let compute = if is_gpu_sorting(s) {
        compute_commands(l, n)
    } else {
        seq![]
    };
    let draw = if s == DepthSorting::GpuIndirectDraw {
        FrameCommand::DrawIndirect { offset: l.indirect_args_offset_spec() as u64 }
    } else {
        FrameCommand::Draw { vertex_count: QUAD_VERTICES, instance_count: drawn as u32 }
    };
    upload + seq![FrameCommand::UploadUniforms] + compute + seq![
        FrameCommand::BeginRenderPass { bind_render_group },
        draw,
        FrameCommand::Submit,
    ]
}

/// A frame builds the pipeline when it succeeds before the pipeline is ready.
pub open spec fn builds_pipeline(ready: bool, succeeded: bool) -> bool {
    succeeded && !ready
}

/// Whether the pipeline is ready after a frame.
pub open spec fn ready_after(ready: bool, succeeded: bool) -> bool {
    ready || succeeded
}

/// Number of pipeline builds over frames with the given outcomes, from readiness `ready`.
pub open spec fn pipeline_builds(ready: bool, outcomes: Seq<bool>) -> nat
    decreases outcomes.len(),
{
    if outcomes.len() == 0 {
        0
    } else {
        (if builds_pipeline(ready, outcomes[0]) { 1nat } else { 0nat }) + pipeline_builds(
            ready_after(ready, outcomes[0]),
            outcomes.drop_first(),
        )
    }
}

/// However many frames are rendered and whichever of them fail, the pipeline is built
/// at most once, and never once it is ready.
pub proof fn lemma_pipeline_built_once(ready: bool, outcomes: Seq<bool>)
    ensures
        pipeline_builds(ready, outcomes) <= 1,
        ready ==> pipeline_builds(ready, outcomes) == 0,
    decreases outcomes.len(),
{
    if outcomes.len() > 0 {
        lemma_pipeline_built_once(ready_after(ready, outcomes[0]), outcomes.drop_first());
    }
}

/// Appends the compute work of the GPU sort over `n` splats.
fn push_compute_commands(l: &SortLayout, n: u64, cmds: &mut Vec<FrameCommand>)
    requires
        l.well_formed(),
        n <= u32::MAX,
    ensures
        final(cmds)@ == old(cmds)@ + compute_commands(*l, n as nat),
{
    let ghost start = cmds@;
    cmds.push(FrameCommand::ClearSortingBuffer { size: None });
    let x = ((n + l.workgroup_entries_a - 1) / l.workgroup_entries_a) as u32;
    cmds.push(
        FrameCommand::Dispatch {
            kernel: SortKernel::Histogram,
            bind_group: HISTOGRAM_BIND_GROUP,
            x,
            y: 1,
            z: 1,
        },
    );
    cmds.push(
        FrameCommand::Dispatch {
            kernel: SortKernel::PrefixSum,
            bind_group: HISTOGRAM_BIND_GROUP,
            x: 1,
            y: l.radix_digit_places as u32,
            z: 1,
        },
    );
    let ghost head = cmds@;
    assert(head =~= start + compute_commands(*l, n as nat).subrange(0, 3));
    let y = ((n + l.workgroup_entries_c - 1) / l.workgroup_entries_c) as u32;
    let mut pass: u64 = 0;
    assert(scatter_passes(*l, n as nat, 0) =~= Seq::<FrameCommand>::empty());
    assert(cmds@ =~= head + scatter_passes(*l, n as nat, 0));
    while pass < l.radix_digit_places
        invariant
            l.well_formed(),
            n <= u32::MAX,
            pass <= l.radix_digit_places,
            y == ceil_div(n as int, l.workgroup_entries_c as int) as u32,
            cmds@ == head + scatter_passes(*l, n as nat, pass as nat),
        decreases l.radix_digit_places - pass,
    {
        let ghost prev = cmds@;
        if pass > 0 && l.digit_count_size > 0 {
            cmds.push(FrameCommand::ClearSortingBuffer { size: Some(l.digit_count_size) });
        }
        cmds.push(
            FrameCommand::Dispatch { kernel: SortKernel::Scatter, bind_group: pass, x: 1, y, z: 1 },
        );
        proof {
            let clear = if pass > 0 && l.digit_count_size > 0 {
                seq![FrameCommand::ClearSortingBuffer { size: Some(l.digit_count_size) }]
            } else {
                seq![]
            };
            let d = seq![
                FrameCommand::Dispatch { kernel: SortKernel::Scatter, bind_group: pass, x: 1, y, z: 1 },
            ];
            assert(scatter_passes(*l, n as nat, (pass + 1) as nat) == scatter_passes(
                *l,
                n as nat,
                pass as nat,
            ) + clear + d);
            assert(cmds@ =~= prev + clear + d);
        }
        pass = pass + 1;
    }
    assert(cmds@ =~= start + compute_commands(*l, n as nat));
}

/// A scene filled to capacity is accepted, and one more splat is refused as over
/// capacity, whatever else the frame holds.
pub proof fn lemma_capacity_boundary(c: &Configuration, l: SortLayout, bind_groups: nat)
    ensures
        frame_error(c, l, c.max_splat_count as nat, bind_groups) != Some(FrameError::CapacityExceeded),
        frame_error(c, l, c.max_splat_count as nat + 1, bind_groups) == Some(FrameError::CapacityExceeded),
{
}

/// The commands of a frame of `splat_count` splats under `sorting`, of which `drawn`
/// are drawn.
pub fn plan_commands(
    sorting: DepthSorting,
    layout: &SortLayout,
    splat_count: usize,
    drawn: usize,
    bind_render_group: bool,
) -> (r: Vec<FrameCommand>)
    requires
        layout.well_formed(),
        splat_count <= u32::MAX,
    ensures
        r@ == frame_commands(sorting, *layout, splat_count as nat, drawn as nat, bind_render_group),
{
    let cpu = sorting == DepthSorting::Cpu;
    let mut commands: Vec<FrameCommand> = Vec::new();
    if cpu {
        commands.push(FrameCommand::UploadEntries { count: drawn as u64 });
    }
    commands.push(FrameCommand::UploadUniforms);
    let ghost before_compute = commands@;
    if sorting == DepthSorting::Gpu || sorting == DepthSorting::GpuIndirectDraw {
        push_compute_commands(layout, splat_count as u64, &mut commands);
    }
    commands.push(FrameCommand::BeginRenderPass { bind_render_group });
    if sorting == DepthSorting::GpuIndirectDraw {
        commands.push(FrameCommand::DrawIndirect { offset: layout.indirect_args_offset() });
    } else {
        commands.push(
            FrameCommand::Draw { vertex_count: QUAD_VERTICES, instance_count: drawn as u32 },
        );
    }
    commands.push(FrameCommand::Submit);
    proof {
        let upload = if cpu {
            seq![FrameCommand::UploadEntries { count: drawn as u64 }]
        } else {
            seq![]
        };
        assert(before_compute =~= upload + seq![FrameCommand::UploadUniforms]);
        assert(commands@ =~= frame_commands(
            sorting,
            *layout,
            splat_count as nat,
            drawn as nat,
            bind_render_group,
        ));
    }
    commands
}

/// Splats forward renderer: the configuration, its sort layout, and whether the
/// render pipeline has been built.
pub struct Renderer {
    config: Configuration,
    layout: SortLayout,
    pipeline_ready: bool,
}

impl Renderer {
    pub closed spec fn configuration(&self) -> Configuration {
        self.config
    }

    pub closed spec fn layout_spec(&self) -> SortLayout {
        self.layout
    }

    pub closed spec fn pipeline_ready_spec(&self) -> bool {
        self.pipeline_ready
    }

    pub closed spec fn well_formed(&self) -> bool {
        &&& configuration_error(&self.config) is None
        &&& self.layout == layout_of(
            self.config.radix_bits_per_digit as nat,
            self.config.max_splat_count as nat,
        )
        &&& self.layout.well_formed()
    }

    /// Constructs a renderer for a valid `config`; the pipeline is built by the first frame.
    pub fn new(config: Configuration) -> (r: Result<Renderer, ConfigurationError>)
        ensures
            match r {
                Ok(renderer) => configuration_error(&config) is None && renderer.well_formed()
                    && renderer.configuration() == config && renderer.layout_spec() == layout_of(
                    config.radix_bits_per_digit as nat,
                    config.max_splat_count as nat,
                ) && !renderer.pipeline_ready_spec(),
                Err(e) => configuration_error(&config) == Some(e),
            },
    {
        match validate_configuration(&config) {
            Ok(layout) => Ok(Renderer { config, layout, pipeline_ready: false }),
            Err(e) => Err(e),
        }
    }

    /// Decides the work of one frame over `scene`. Under CPU sorting `clips` holds the
    /// clip-space position of each splat; otherwise it is not read.
    pub fn render_frame(&mut self, scene: &Scene, clips: &Vec<ClipPosition>) -> (r: Result<
        FramePlan,
        FrameError,
    >)
        requires
            old(self).well_formed(),
            old(self).configuration().depth_sorting == DepthSorting::Cpu ==> clips.len()
                == scene.splat_count,
        ensures
            final(self).well_formed(),
            final(self).configuration() == old(self).configuration(),
            final(self).layout_spec() == old(self).layout_spec(),
            final(self).pipeline_ready_spec() == ready_after(old(self).pipeline_ready_spec(), r is Ok),
            match r {
                Ok(plan) => {
                    let c = old(self).configuration();
                    let cpu = c.depth_sorting == DepthSorting::Cpu;
                    let drawn = if cpu { plan.entries.len() as nat } else { scene.splat_count as nat };
                    &&& frame_error(
                        &c,
                        old(self).layout_spec(),
                        scene.splat_count as nat,
                        scene.compute_bind_groups.len() as nat,
                    ) is None
                    &&& plan.build_pipeline == builds_pipeline(old(self).pipeline_ready_spec(), true)
                    &&& cpu ==> (forall|e: SortEntry| #[trigger] plan.entries@.contains(e)
                        <==> is_retained_entry(clips@, c.frustum_culling_tolerance, e))
                    &&& cpu ==> strictly_sorted(plan.entries@)
                    &&& !cpu ==> plan.entries@.len() == 0
                    &&& drawn <= scene.splat_count
                    &&& plan.commands@ == frame_commands(
                        c.depth_sorting,
                        old(self).layout_spec(),
                        scene.splat_count as nat,
                        drawn,
                        scene.render_bind_group is Some,
                    )
                },
                Err(e) => frame_error(
                    &old(self).configuration(),
                    old(self).layout_spec(),
                    scene.splat_count as nat,
                    scene.compute_bind_groups.len() as nat,
                ) == Some(e) && final(self).pipeline_ready_spec() == old(self).pipeline_ready_spec(),
            },
    {
        let count = scene.splat_count;
        if count > self.config.max_splat_count {
            return Err(FrameError::CapacityExceeded);
        }
        let sorting = self.config.depth_sorting;
        let gpu = sorting == DepthSorting::Gpu || sorting == DepthSorting::GpuIndirectDraw;
        let needed: u64 = if self.layout.radix_digit_places > HISTOGRAM_BIND_GROUP {
            self.layout.radix_digit_places
        } else {
            HISTOGRAM_BIND_GROUP + 1
        };
        if gpu && (scene.compute_bind_groups.len() as u64) < needed {
            return Err(FrameError::MissingBindGroups);
        }
        let build_pipeline = !self.pipeline_ready;
        self.pipeline_ready = true;
        let cpu = sorting == DepthSorting::Cpu;
        let mut entries: Vec<SortEntry> = Vec::new();
        let mut drawn: usize = count;
        if cpu {
            entries = cpu_depth_sort(clips, self.config.frustum_culling_tolerance);
            drawn = entries.len();
        }
        let commands = plan_commands(
            sorting,
            &self.layout,
            count,
            drawn,
            scene.render_bind_group.is_some(),
        );
        Ok(FramePlan { build_pipeline, entries, commands })
    }

    pub fn config(&self) -> (r: &Configuration)
        ensures
            *r == self.configuration(),
    {
        &self.config
    }

    pub fn layout(&self) -> (r: SortLayout)
        ensures
            r == self.layout_spec(),
    {
        self.layout
    }

    pub fn pipeline_ready(&self) -> (r: bool)
        ensures
            r == self.pipeline_ready_spec(),
    {
        self.pipeline_ready
    }
}

} // verus!
