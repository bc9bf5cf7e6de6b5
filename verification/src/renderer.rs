//! The renderer core: surface configuration, the pool of two render
//! targets, and the per-frame two-pass command stream.

use vstd::prelude::*;
use crate::command::{Command, FrameError, PassDestination};
use crate::uniform::UniformRecord;

verus! {

/// The surface's current configuration: its drawable size in pixels.
#[derive(Clone, Copy, PartialEq, Eq, Structural, Debug)]
pub struct SurfaceConfig {
    /// Drawable width; at least 1 at all times.
    pub width: u32,
    /// Drawable height; at least 1 at all times.
    pub height: u32,
}

/// A dimension as the resize handler stores it: clamped to a minimum of 1.
pub open spec fn clamp_dim(x: u32) -> u32 {
    if x == 0 { 1 } else { x }
}

impl SurfaceConfig {
    /// Both dimensions are at least 1, and one target's zero-fill
    /// payload of `width * height * 4` bytes has a byte count that fits
    /// in a `u32`.
    pub open spec fn wf(self) -> bool {
        &&& 1 <= self.width
        &&& 1 <= self.height
        &&& self.width * self.height * 4 <= u32::MAX
    }

    /// The resolution scalar the shader receives: `max(width, height)`.
    pub open spec fn resolution(self) -> u32 {
        if self.width >= self.height { self.width } else { self.height }
    }

    /// The configuration a request for `width` by `height` pixels
    /// produces: each dimension clamped to a minimum of 1.
    pub open spec fn clamped(width: u32, height: u32) -> SurfaceConfig {
        SurfaceConfig { width: clamp_dim(width), height: clamp_dim(height) }
    }
}

/// One off-screen render target as the core tracks it: the dimensions
/// of its backing texture, and the generation of the allocation. Every
/// construction of a target uses a fresh generation, so two targets
/// with different generations are distinct allocations.
#[derive(Clone, Copy, PartialEq, Eq, Structural, Debug)]
pub struct RenderTarget {
    /// Width of the backing texture.
    pub width: u32,
    /// Height of the backing texture.
    pub height: u32,
    /// Allocation generation; unique among all targets ever built by
    /// the same renderer.
    pub generation: u64,
}

/// The renderer's state as the contracts speak of it.
pub struct RendererModel {
    /// The surface configuration in force.
    pub config: SurfaceConfig,
    /// Frames presented so far.
    pub frame: u64,
    /// The two off-screen targets, indexed 0 and 1.
    pub targets: Seq<RenderTarget>,
    /// The generation the next target construction will use; greater
    /// than the generation of every target built so far.
    pub next_generation: u64,
}

impl RendererModel {
    /// The pool invariant: exactly two targets, both sized exactly to
    /// the current surface configuration, with distinct generations,
    /// all below the next free generation.
    pub open spec fn wf(self) -> bool {
        &&& self.config.wf()
        &&& self.targets.len() == 2
        &&& self.targets[0].width == self.config.width
        &&& self.targets[0].height == self.config.height
        &&& self.targets[1].width == self.config.width
        &&& self.targets[1].height == self.config.height
        &&& self.targets[0].generation < self.next_generation
        &&& self.targets[1].generation < self.next_generation
        &&& self.targets[0].generation != self.targets[1].generation
    }
}

/// The state a new renderer starts in: the requested size clamped,
/// no frames presented, and the two targets freshly built.
pub open spec fn spec_new(width: u32, height: u32) -> RendererModel {
    let config = SurfaceConfig::clamped(width, height);
    RendererModel {
        config,
        frame: 0,
        targets: seq![
            RenderTarget { width: config.width, height: config.height, generation: 0 },
            RenderTarget { width: config.width, height: config.height, generation: 1 },
        ],
        next_generation: 2,
    }
}

/// The state after a resize: the requested size clamped and stored,
/// and both targets unconditionally rebuilt at the new size with fresh
/// generations, whether or not the size changed.
pub open spec fn spec_resize(m: RendererModel, width: u32, height: u32) -> RendererModel {
    let config = SurfaceConfig::clamped(width, height);
    RendererModel {
        config,
        frame: m.frame,
        targets: seq![
            RenderTarget { width: config.width, height: config.height, generation: m.next_generation },
            RenderTarget {
                width: config.width,
                height: config.height,
                generation: (m.next_generation + 1) as u64,
            },
        ],
        next_generation: (m.next_generation + 2) as u64,
    }
}

/// The state after a successfully presented frame: only the frame
/// counter moves.
pub open spec fn spec_render(m: RendererModel) -> RendererModel {
    RendererModel { frame: (m.frame + 1) as u64, ..m }
}

/// The ordered command stream of one frame under `config`: zero-fill
/// target 0; write the pass-0 uniform record; pass 0 reads target 0
/// and writes target 1; write the pass-1 uniform record; pass 1 reads
/// target 1 and writes the surface; submit; present. Each pass clears
/// its destination to black first and draws one full-screen triangle
/// (3 vertices, 1 instance).
pub open spec fn frame_commands(config: SurfaceConfig) -> Seq<Command> {
    seq![
        Command::InitTargetZero {
            width: config.width,
            height: config.height,
            bytes_per_row: (config.width * 4) as u32,
        },
        Command::WriteUniform(UniformRecord { pass_index: 0, resolution: config.resolution() }),
        Command::DrawPass {
            source_target: 0,
            destination: PassDestination::Target(1),
            vertices: 3,
            instances: 1,
        },
        Command::WriteUniform(UniformRecord { pass_index: 1, resolution: config.resolution() }),
        Command::DrawPass {
            source_target: 1,
            destination: PassDestination::Surface,
            vertices: 3,
            instances: 1,
        },
        Command::Submit,
        Command::Present,
    ]
}

/// The renderer core. It owns no GPU handle: it tracks the surface
/// configuration, the two-target pool and the frame counter, and
/// produces each frame's command stream for the host to execute.
pub struct Renderer {
    /// The surface configuration in force.
    pub config: SurfaceConfig,
    /// Frames presented so far.
    pub frame: u64,
    /// The two off-screen targets, indexed 0 and 1.
    pub targets: Vec<RenderTarget>,
    /// The generation the next target construction will use.
    pub next_generation: u64,
}

impl View for Renderer {
    type V = RendererModel;

    open spec fn view(&self) -> RendererModel {
        RendererModel {
            config: self.config,
            frame: self.frame,
            targets: self.targets@,
            next_generation: self.next_generation,
        }
    }
}

impl Renderer {
    /// The pool invariant, stated of the model.
    pub open spec fn wf(self) -> bool {
        self@.wf()
    }

    /// Builds one render target at the current surface dimensions,
    /// consuming a fresh generation. Called exactly twice at
    /// construction and exactly twice on every resize.
    fn build_target(&mut self) -> (t: RenderTarget)
        requires
            old(self).next_generation < u64::MAX,
        ensures
            t.width == old(self).config.width,
            t.height == old(self).config.height,
            t.generation == old(self).next_generation,
            final(self).config == old(self).config,
            final(self).frame == old(self).frame,
            final(self).targets@ == old(self).targets@,
            final(self).next_generation == old(self).next_generation + 1,
    {
        let t = RenderTarget {
            width: self.config.width,
            height: self.config.height,
            generation: self.next_generation,
        };
        self.next_generation = self.next_generation + 1;
        t
    }

    /// Constructs a renderer for a surface whose reported size is
    /// `width` by `height`, clamping each dimension to a minimum of 1.
    pub fn new(width: u32, height: u32) -> (r: Renderer)
        requires
            SurfaceConfig::clamped(width, height).wf(),
        ensures
            r.wf(),
            r@ == spec_new(width, height),
    {
        let w: u32 = if width == 0 { 1 } else { width };
        let h: u32 = if height == 0 { 1 } else { height };
        let mut r = Renderer {
            config: SurfaceConfig { width: w, height: h },
            frame: 0,
            targets: Vec::new(),
            next_generation: 0,
        };
        let t0 = r.build_target();
        r.targets.push(t0);
        let t1 = r.build_target();
        r.targets.push(t1);
        proof {
            assert(r@.targets =~= spec_new(width, height).targets);
        }
        r
    }

    /// Clamps the requested size to a minimum of 1 in each dimension,
    /// stores it as the surface configuration, and unconditionally
    /// rebuilds both render targets at that size — also when the size
    /// is unchanged. The frame counter is untouched.
    pub fn resize(&mut self, width: u32, height: u32)
        requires
            old(self).wf(),
            SurfaceConfig::clamped(width, height).wf(),
            old(self).next_generation + 2 <= u64::MAX,
        ensures
            final(self).wf(),
            final(self)@ == spec_resize(old(self)@, width, height),
            final(self).config == SurfaceConfig::clamped(width, height),
            final(self).targets@[0].width == clamp_dim(width),
            final(self).targets@[0].height == clamp_dim(height),
            final(self).targets@[1].width == clamp_dim(width),
            final(self).targets@[1].height == clamp_dim(height),
            final(self).targets@[0].generation >= old(self).next_generation,
            final(self).targets@[1].generation >= old(self).next_generation,
            final(self).frame == old(self).frame,
    {
        let w: u32 = if width == 0 { 1 } else { width };
        let h: u32 = if height == 0 { 1 } else { height };
        self.config = SurfaceConfig { width: w, height: h };
        let t0 = self.build_target();
        self.targets.set(0, t0);
        let t1 = self.build_target();
        self.targets.set(1, t1);
        proof {
            assert(self@.targets =~= spec_resize(old(self)@, width, height).targets);
        }
    }

    /// Runs one frame. `acquired` reports whether the surface yielded
    /// a presentable texture. On success the result is the frame's
    /// command stream and the frame counter advances by one; on
    /// failure the frame is skipped: no commands, no state change,
    /// and the error names the failed acquisition.
    pub fn render(&mut self, acquired: bool) -> (r: Result<Vec<Command>, FrameError>)
        requires
            old(self).wf(),
            old(self).frame < u64::MAX,
        ensures
            final(self).wf(),
            acquired ==> (r matches Ok(cmds) && cmds@ == frame_commands(old(self).config)),
            acquired ==> final(self)@ == spec_render(old(self)@),
            !acquired ==> r == Err::<Vec<Command>, FrameError>(FrameError::AcquireFailed),
            !acquired ==> final(self)@ == old(self)@,
    {
        if !acquired {
            return Err(FrameError::AcquireFailed);
        }
        proof {
            assert(self.config.width * 4 <= self.config.width * self.config.height * 4)
                by (nonlinear_arith)
                requires 1 <= self.config.width && 1 <= self.config.height;
        }
        let resolution: u32 = if self.config.width >= self.config.height {
            self.config.width
        } else {
            self.config.height
        };
        let mut cmds: Vec<Command> = Vec::new();
        cmds.push(Command::InitTargetZero {
            width: self.config.width,
            height: self.config.height,
            bytes_per_row: self.config.width * 4,
        });
        cmds.push(Command::WriteUniform(UniformRecord { pass_index: 0, resolution }));
        cmds.push(Command::DrawPass {
            source_target: 0,
            destination: PassDestination::Target(1),
            vertices: 3,
            instances: 1,
        });
        cmds.push(Command::WriteUniform(UniformRecord { pass_index: 1, resolution }));
        cmds.push(Command::DrawPass {
            source_target: 1,
            destination: PassDestination::Surface,
            vertices: 3,
            instances: 1,
        });
        cmds.push(Command::Submit);
        cmds.push(Command::Present);
        self.frame = self.frame + 1;
        proof {
            assert(cmds@ =~= frame_commands(old(self).config));
        }
        Ok(cmds)
    }
}

} // verus!
