use vstd::prelude::*;

verus! {

/// Whether the surface can be presented to.
#[derive(Clone, Copy, Debug, PartialEq, Eq, Structural)]
pub enum Phase {
    /// The surface is configured with the current size.
    Configured,
    /// The size is degenerate: nothing is presented until a valid resize.
    Unconfigured,
}

/// Where the renderer stands inside one frame.
#[derive(Clone, Copy, Debug, PartialEq, Eq, Structural)]
pub enum Stage {
    /// Between frames.
    Idle,
    /// The first acquisition of a texture was asked for.
    AwaitingTexture,
    /// The surface was reconfigured and the acquisition asked for once more.
    AwaitingRetry,
}

/// Presentation mode of the surface.
#[derive(Clone, Copy, Debug, PartialEq, Eq, Structural)]
pub enum PresentMode {
    /// Frames wait for the display's vertical blank.
    Fifo,
}

/// A size in physical pixels.
#[derive(Clone, Copy, Debug, PartialEq, Eq, Structural)]
pub struct Extent {
    pub width: u32,
    pub height: u32,
}

/// How the surface is configured.
#[derive(Clone, Copy, Debug, PartialEq, Eq, Structural)]
pub struct SurfaceConfig {
    pub width: u32,
    pub height: u32,
    /// Index of the pixel format among the adapter's surface formats.
    pub format: usize,
    pub present_mode: PresentMode,
    /// Index of the alpha mode among the adapter's alpha modes.
    pub alpha_mode: usize,
    pub max_frame_latency: u32,
}

/// Most frames that may be queued for presentation.
pub const MAX_FRAME_LATENCY: u32 = 2;

/// Number of vertices of the mesh.
pub const MESH_VERTICES: u32 = 3;

/// A color given in tenths of full intensity for each channel.
#[derive(Clone, Copy, Debug, PartialEq, Eq, Structural)]
pub struct ClearColor {
    pub r_tenths: u32,
    pub g_tenths: u32,
    pub b_tenths: u32,
    pub a_tenths: u32,
}

/// One non-indexed draw call.
#[derive(Clone, Copy, Debug, PartialEq, Eq, Structural)]
pub struct DrawCall {
    pub first_vertex: u32,
    pub vertex_count: u32,
    pub first_instance: u32,
    pub instance_count: u32,
}

/// The commands of one frame: one render pass that clears the texture to
/// `clear` and stores the result, binds the pipeline and the geometry buffer
/// at `vertex_slot`, and issues `draw`; then one submission and the present.
#[derive(Clone, Copy, Debug, PartialEq, Eq, Structural)]
pub struct FramePlan {
    pub clear: ClearColor,
    pub vertex_slot: u32,
    pub draw: DrawCall,
}

/// What a texture acquisition reported.
#[derive(Clone, Copy, Debug, PartialEq, Eq, Structural)]
pub enum AcquireOutcome {
    Acquired,
    Timeout,
    Outdated,
    Lost,
    OutOfMemory,
}

/// What the caller is to do next.
#[derive(Clone, Copy, Debug, PartialEq, Eq, Structural)]
pub enum FrameAction {
    /// Nothing this frame; report success.
    Skip,
    /// Acquire the next texture of the surface and report the outcome.
    Acquire,
    /// Configure the surface with this configuration, acquire again and report
    /// the outcome.
    Reconfigure(SurfaceConfig),
    /// Record, submit and present the acquired texture with this plan; report
    /// success.
    Draw(FramePlan),
    /// Drop this frame and report a recoverable error; the next frame tries again.
    DropFrame,
    /// The device cannot go on: report an unrecoverable error.
    Fatal,
}

/// The state of the frame lifecycle of one window's surface.
#[derive(Clone, Copy, Debug, PartialEq, Eq, Structural)]
pub struct Renderer {
    pub phase: Phase,
    pub stage: Stage,
    pub size: Extent,
    pub config: SurfaceConfig,
    pub num_vertices: u32,
}

/// The background color: r = 0.1, g = 0.2, b = 0.3, a = 1.0.
pub open spec fn clear_color_spec() -> ClearColor {
    ClearColor { r_tenths: 1, g_tenths: 2, b_tenths: 3, a_tenths: 10 }
}

/// The plan of every frame: clear to the background color, bind the geometry
/// at slot 0, draw all vertices as one instance.
pub open spec fn frame_plan_spec(num_vertices: u32) -> FramePlan {
    FramePlan {
        clear: clear_color_spec(),
        vertex_slot: 0,
        draw: DrawCall { first_vertex: 0, vertex_count: num_vertices, first_instance: 0, instance_count: 1 },
    }
}

pub open spec fn is_valid_size(width: u32, height: u32) -> bool {
    width > 0 && height > 0
}

pub open spec fn is_transient(o: AcquireOutcome) -> bool {
    o == AcquireOutcome::Timeout || o == AcquireOutcome::Outdated || o == AcquireOutcome::Lost
}

impl Renderer {
    /// The configuration always matches the stored size, the surface is
    /// configured only with a valid size, and the mesh has its three vertices.
    pub open spec fn wf(self) -> bool {
        &&& self.config.width == self.size.width
        &&& self.config.height == self.size.height
        &&& self.phase == Phase::Configured ==> is_valid_size(self.size.width, self.size.height)
        &&& self.config.present_mode == PresentMode::Fifo
        &&& self.config.max_frame_latency == MAX_FRAME_LATENCY
        &&& self.num_vertices == MESH_VERTICES
    }

    pub open spec fn new_spec(width: u32, height: u32, format: usize, alpha_mode: usize) -> Renderer {
        Renderer {
            phase: if is_valid_size(width, height) {
                Phase::Configured
            } else {
                Phase::Unconfigured
            },
            stage: Stage::Idle,
            size: Extent { width, height },
            config: SurfaceConfig {
                width,
                height,
                format,
                present_mode: PresentMode::Fifo,
                alpha_mode,
                max_frame_latency: MAX_FRAME_LATENCY,
            },
            num_vertices: MESH_VERTICES,
        }
    }

    /// A valid size is stored and configured; a degenerate one leaves the
    /// configuration as it was and makes the renderer skip frames.
    pub open spec fn resize_spec(self, width: u32, height: u32) -> Renderer {
        if is_valid_size(width, height) {
            Renderer {
                phase: Phase::Configured,
                size: Extent { width, height },
                config: SurfaceConfig { width, height, ..self.config },
                ..self
            }
        } else {
            Renderer { phase: Phase::Unconfigured, ..self }
        }
    }

    /// A frame starts by acquiring a texture, unless the surface is unconfigured.
    pub open spec fn begin_frame_spec(self) -> (Renderer, FrameAction) {
        match self.phase {
            Phase::Unconfigured => (Renderer { stage: Stage::Idle, ..self }, FrameAction::Skip),
            Phase::Configured => (Renderer { stage: Stage::AwaitingTexture, ..self }, FrameAction::Acquire),
        }
    }

    /// A texture is drawn to; a transient failure is answered by one
    /// reconfigure-and-retry and, the second time, by dropping the frame; an
    /// out-of-memory is fatal. Outside a frame the outcome is ignored.
    pub open spec fn on_acquire_spec(self, o: AcquireOutcome) -> (Renderer, FrameAction) {
        let idle = Renderer { stage: Stage::Idle, ..self };
        match self.stage {
            Stage::Idle => (self, FrameAction::Skip),
            Stage::AwaitingTexture => match o {
                AcquireOutcome::Acquired => (idle, FrameAction::Draw(frame_plan_spec(self.num_vertices))),
                AcquireOutcome::OutOfMemory => (idle, FrameAction::Fatal),
                _ => (Renderer { stage: Stage::AwaitingRetry, ..self }, FrameAction::Reconfigure(self.config)),
            },
            Stage::AwaitingRetry => match o {
                AcquireOutcome::Acquired => (idle, FrameAction::Draw(frame_plan_spec(self.num_vertices))),
                AcquireOutcome::OutOfMemory => (idle, FrameAction::Fatal),
                _ => (idle, FrameAction::DropFrame),
            },
        }
    }

    /// A renderer for a surface of `width` by `height` pixels, in the adapter's
    /// surface format at index `format` and its alpha mode at index `alpha_mode`.
    /// It is configured when both dimensions are positive.
    pub fn new(width: u32, height: u32, format: usize, alpha_mode: usize) -> (r: Renderer)
        ensures
            r == Renderer::new_spec(width, height, format, alpha_mode),
            r.wf(),
    {
        let phase = if width > 0 && height > 0 {
            Phase::Configured
        } else {
            Phase::Unconfigured
        };
        Renderer {
            phase,
            stage: Stage::Idle,
            size: Extent { width, height },
            config: SurfaceConfig {
                width,
                height,
                format,
                present_mode: PresentMode::Fifo,
                alpha_mode,
                max_frame_latency: MAX_FRAME_LATENCY,
            },
            num_vertices: MESH_VERTICES,
        }
    }

    /// The configuration to apply to the surface now, if it is configured.
    pub fn surface_config(&self) -> (r: Option<SurfaceConfig>)
        ensures
            r == (if self.phase == Phase::Configured {
                Some(self.config)
            } else {
                None
            }),
    {
        match self.phase {
            Phase::Configured => Some(self.config),
            Phase::Unconfigured => None,
        }
    }

    /// Takes a new window size. Returns the configuration that the surface must
    /// now be configured with, or `None` when the size is degenerate and the
    /// surface is left alone.
    pub fn resize(&mut self, width: u32, height: u32) -> (r: Option<SurfaceConfig>)
        ensures
            *final(self) == old(self).resize_spec(width, height),
            r == (if is_valid_size(width, height) {
                Some(final(self).config)
            } else {
                None
            }),
            old(self).wf() ==> final(self).wf(),
    {
        if width > 0 && height > 0 {
            self.phase = Phase::Configured;
            self.size = Extent { width, height };
            self.config.width = width;
            self.config.height = height;
            Some(self.config)
        } else {
            self.phase = Phase::Unconfigured;
            None
        }
    }

    /// Starts a frame.
    pub fn begin_frame(&mut self) -> (r: FrameAction)
        ensures
            (*final(self), r) == old(self).begin_frame_spec(),
            old(self).wf() ==> final(self).wf(),
    {
        match self.phase {
            Phase::Unconfigured => {
                self.stage = Stage::Idle;
                FrameAction::Skip
            },
            Phase::Configured => {
                self.stage = Stage::AwaitingTexture;
                FrameAction::Acquire
            },
        }
    }

    /// Takes the outcome of a texture acquisition.
    pub fn on_acquire(&mut self, o: AcquireOutcome) -> (r: FrameAction)
        ensures
            (*final(self), r) == old(self).on_acquire_spec(o),
            old(self).wf() ==> final(self).wf(),
    {
        match self.stage {
            Stage::Idle => FrameAction::Skip,
            Stage::AwaitingTexture => match o {
                AcquireOutcome::Acquired => {
                    self.stage = Stage::Idle;
                    FrameAction::Draw(frame_plan(self.num_vertices))
                },
                AcquireOutcome::OutOfMemory => {
                    self.stage = Stage::Idle;
                    FrameAction::Fatal
                },
                _ => {
                    self.stage = Stage::AwaitingRetry;
                    FrameAction::Reconfigure(self.config)
                },
            },
            Stage::AwaitingRetry => {
                self.stage = Stage::Idle;
                match o {
                    AcquireOutcome::Acquired => FrameAction::Draw(frame_plan(self.num_vertices)),
                    AcquireOutcome::OutOfMemory => FrameAction::Fatal,
                    _ => FrameAction::DropFrame,
                }
            },
        }
    }
}

/// The background color that every frame is cleared to.
pub fn clear_color() -> (r: ClearColor)
    ensures
        r == clear_color_spec(),
{
    ClearColor { r_tenths: 1, g_tenths: 2, b_tenths: 3, a_tenths: 10 }
}

/// The commands of a frame that draws `num_vertices` vertices.
pub fn frame_plan(num_vertices: u32) -> (r: FramePlan)
    ensures
        r == frame_plan_spec(num_vertices),
{
    FramePlan {
        clear: clear_color(),
        vertex_slot: 0,
        draw: DrawCall { first_vertex: 0, vertex_count: num_vertices, first_instance: 0, instance_count: 1 },
    }
}

/// The renderer after the resizes `sizes`, taken in order.
pub open spec fn resize_all(r: Renderer, sizes: Seq<Extent>) -> Renderer
    decreases sizes.len(),
{
    if sizes.len() == 0 {
        r
    } else {
        resize_all(r, sizes.drop_last()).resize_spec(sizes.last().width, sizes.last().height)
    }
}

/// The renderer and the actions after the acquisition outcomes `os`, taken in order.
pub open spec fn feed(r: Renderer, os: Seq<AcquireOutcome>) -> (Renderer, Seq<FrameAction>)
    decreases os.len(),
{
    if os.len() == 0 {
        (r, Seq::empty())
    } else {
        let (r1, a) = r.on_acquire_spec(os[0]);
        let (r2, rest) = feed(r1, os.drop_first());
        (r2, seq![a] + rest)
    }
}

/// A whole call of the frame: its start, then the acquisition outcomes `os`.
pub open spec fn run_frame(r: Renderer, os: Seq<AcquireOutcome>) -> (Renderer, Seq<FrameAction>) {
    let (r1, a) = r.begin_frame_spec();
    let (r2, rest) = feed(r1, os);
    (r2, seq![a] + rest)
}

pub open spec fn is_draw(a: FrameAction) -> bool {
    a is Draw
}

/// How many of `acts` are draws.
pub open spec fn count_draws(acts: Seq<FrameAction>) -> nat
    decreases acts.len(),
{
    if acts.len() == 0 {
        0
    } else {
        (if is_draw(acts[0]) {
            1nat
        } else {
            0nat
        }) + count_draws(acts.drop_first())
    }
}

/// Whatever sizes arrive, all valid, the stored size and the surface
/// configuration end equal to the last of them, the surface is configured, and
/// everything else about the configuration is kept.
pub proof fn lemma_resizes_store_last_size(r: Renderer, sizes: Seq<Extent>)
    requires
        r.wf(),
        sizes.len() > 0,
        forall|i: int| 0 <= i < sizes.len() ==> is_valid_size(#[trigger] sizes[i].width, sizes[i].height),
    ensures
        resize_all(r, sizes).config.width == sizes.last().width,
        resize_all(r, sizes).config.height == sizes.last().height,
        resize_all(r, sizes).size == sizes.last(),
        resize_all(r, sizes).phase == Phase::Configured,
        resize_all(r, sizes).config == (SurfaceConfig {
            width: sizes.last().width,
            height: sizes.last().height,
            ..r.config
        }),
        resize_all(r, sizes).wf(),
    decreases sizes.len(),
{
    if sizes.len() > 1 {
        let init = sizes.drop_last();
        assert forall|i: int| 0 <= i < init.len() implies is_valid_size(#[trigger] init[i].width, init[i].height) by {
            assert(init[i] == sizes[i]);
        }
        lemma_resizes_store_last_size(r, init);
    } else {
        assert(resize_all(r, sizes.drop_last()) == r);
    }
    let prev = resize_all(r, sizes.drop_last());
    assert(is_valid_size(sizes[sizes.len() - 1].width, sizes[sizes.len() - 1].height));
    assert(prev.config == (SurfaceConfig { width: prev.config.width, height: prev.config.height, ..r.config }));
}

/// A resize to a zero width or height keeps the previous size and
/// configuration and puts the renderer in the skip state: the next frame
/// issues no GPU work and reports success.
pub proof fn lemma_degenerate_resize_skips(r: Renderer, width: u32, height: u32)
    requires
        r.wf(),
        width == 0 || height == 0,
    ensures
        r.resize_spec(width, height).size == r.size,
        r.resize_spec(width, height).config == r.config,
        r.resize_spec(width, height).phase == Phase::Unconfigured,
        r.resize_spec(width, height).wf(),
        r.resize_spec(width, height).begin_frame_spec().1 == FrameAction::Skip,
        forall|os: Seq<AcquireOutcome>|
            #![trigger run_frame(r.resize_spec(width, height), os)]
            (forall|i: int| 0 <= i < run_frame(r.resize_spec(width, height), os).1.len()
                ==> run_frame(r.resize_spec(width, height), os).1[i] == FrameAction::Skip),
{
    let d = r.resize_spec(width, height);
    let idle = d.begin_frame_spec().0;
    assert forall|os: Seq<AcquireOutcome>| #![trigger run_frame(d, os)]
        (forall|i: int| 0 <= i < run_frame(d, os).1.len() ==> run_frame(d, os).1[i] == FrameAction::Skip) by {
        lemma_feed_idle(idle, os);
        let acts = run_frame(d, os).1;
        assert forall|i: int| 0 <= i < acts.len() implies acts[i] == FrameAction::Skip by {
            if i > 0 {
                assert(acts[i] == feed(idle, os).1[i - 1]);
            }
        }
    }
}

/// Outside a frame every outcome is ignored.
pub proof fn lemma_feed_idle(r: Renderer, os: Seq<AcquireOutcome>)
    requires
        r.stage == Stage::Idle,
    ensures
        feed(r, os).0 == r,
        feed(r, os).1.len() == os.len(),
        forall|i: int| 0 <= i < os.len() ==> feed(r, os).1[i] == FrameAction::Skip,
        count_draws(feed(r, os).1) == 0,
    decreases os.len(),
{
    if os.len() > 0 {
        lemma_feed_idle(r, os.drop_first());
        let rest = feed(r, os.drop_first()).1;
        assert((seq![FrameAction::Skip] + rest).drop_first() =~= rest);
        assert forall|i: int| 0 <= i < os.len() implies feed(r, os).1[i] == FrameAction::Skip by {
            if i > 0 {
                assert(feed(r, os).1[i] == rest[i - 1]);
            }
        }
    }
}

/// Fed any outcomes, a renderer draws at most once, and every draw is the fixed
/// plan of a well-formed renderer.
proof fn lemma_feed_draws(r: Renderer, os: Seq<AcquireOutcome>)
    requires
        r.wf(),
    ensures
        count_draws(feed(r, os).1) <= 1,
        forall|i: int| 0 <= i < feed(r, os).1.len() && is_draw(#[trigger] feed(r, os).1[i])
            ==> feed(r, os).1[i] == FrameAction::Draw(frame_plan_spec(MESH_VERTICES)),
        feed(r, os).0.wf(),
    decreases os.len(),
{
    if os.len() > 0 {
        let (r1, a) = r.on_acquire_spec(os[0]);
        let rest = feed(r1, os.drop_first()).1;
        lemma_feed_draws(r1, os.drop_first());
        if is_draw(a) {
            lemma_feed_idle(r1, os.drop_first());
        }
        let acts = feed(r, os).1;
        assert(acts == seq![a] + rest);
        assert(acts.drop_first() =~= rest);
        assert forall|i: int| 0 <= i < acts.len() && is_draw(#[trigger] acts[i])
            implies acts[i] == FrameAction::Draw(frame_plan_spec(MESH_VERTICES)) by {
            if i > 0 {
                assert(acts[i] == rest[i - 1]);
            }
        }
    }
}

/// One call of the frame, whatever the acquisitions report, issues at most one
/// draw; every draw covers the 3 vertices as 1 instance, binds the geometry at
/// slot 0 and clears to (0.1, 0.2, 0.3, 1.0); and a frame whose first
/// acquisition succeeds draws exactly once.
pub proof fn lemma_one_draw_per_frame(r: Renderer, os: Seq<AcquireOutcome>)
    requires
        r.wf(),
    ensures
        count_draws(run_frame(r, os).1) <= 1,
        forall|i: int| 0 <= i < run_frame(r, os).1.len() && is_draw(#[trigger] run_frame(r, os).1[i])
            ==> run_frame(r, os).1[i] == FrameAction::Draw(FramePlan {
                clear: ClearColor { r_tenths: 1, g_tenths: 2, b_tenths: 3, a_tenths: 10 },
                vertex_slot: 0,
                draw: DrawCall { first_vertex: 0, vertex_count: 3, first_instance: 0, instance_count: 1 },
            }),
        r.phase == Phase::Configured && os.len() > 0 && os[0] == AcquireOutcome::Acquired
            ==> count_draws(run_frame(r, os).1) == 1,
        run_frame(r, os).0.wf(),
{
    let (r1, a) = r.begin_frame_spec();
    lemma_feed_draws(r1, os);
    let rest = feed(r1, os).1;
    let acts = run_frame(r, os).1;
    assert(acts.drop_first() =~= rest);
    assert forall|i: int| 0 <= i < acts.len() && is_draw(#[trigger] acts[i])
        implies acts[i] == FrameAction::Draw(frame_plan_spec(MESH_VERTICES)) by {
        if i > 0 {
            assert(acts[i] == rest[i - 1]);
        }
    }
    if r.phase == Phase::Configured && os.len() > 0 && os[0] == AcquireOutcome::Acquired {
        let (r2, a2) = r1.on_acquire_spec(os[0]);
        lemma_feed_idle(r2, os.drop_first());
        assert(rest.drop_first() =~= feed(r2, os.drop_first()).1);
    }
}

/// When the surface turns out outdated, lost or timed out, the surface is
/// reconfigured with the current configuration and the acquisition retried
/// exactly once; if the retry fails the same way, the frame is dropped as a
/// recoverable error and the renderer stays configured, ready for the next
/// frame.
pub proof fn lemma_transient_failure_retries_once(r: Renderer, first: AcquireOutcome, second: AcquireOutcome)
    requires
        r.wf(),
        r.phase == Phase::Configured,
        is_transient(first),
        is_transient(second),
    ensures
        run_frame(r, seq![first, second]).1 == seq![
            FrameAction::Acquire,
            FrameAction::Reconfigure(r.config),
            FrameAction::DropFrame,
        ],
        run_frame(r, seq![first, second]).0 == (Renderer { stage: Stage::Idle, ..r }),
        run_frame(r, seq![first, second]).0.phase == Phase::Configured,
        run_frame(r, seq![first, second]).0.begin_frame_spec().1 == FrameAction::Acquire,
{
    let os = seq![first, second];
    let r1 = r.begin_frame_spec().0;
    let r2 = r1.on_acquire_spec(first).0;
    let r3 = r2.on_acquire_spec(second).0;
    assert(os.drop_first() =~= seq![second]);
    assert(os.drop_first().drop_first() =~= Seq::<AcquireOutcome>::empty());
    assert(feed(r3, Seq::<AcquireOutcome>::empty()).1 =~= Seq::<FrameAction>::empty());
    assert(feed(r2, seq![second]).1 =~= seq![FrameAction::DropFrame]);
    assert(feed(r1, os).1 =~= seq![FrameAction::Reconfigure(r.config), FrameAction::DropFrame]);
    assert(run_frame(r, os).1 =~= seq![
        FrameAction::Acquire,
        FrameAction::Reconfigure(r.config),
        FrameAction::DropFrame,
    ]);
}

} // verus!
