//! The core's laws: rebuild-freshness of the target pool, and the
//! ordering discipline of the per-frame command stream.

use vstd::prelude::*;
use crate::command::{Command, PassDestination};
use crate::renderer::{frame_commands, spec_resize, RendererModel, SurfaceConfig};

verus! {

/// Whether the command is a draw pass.
pub open spec fn is_draw(c: Command) -> bool {
    c matches Command::DrawPass { .. }
}

/// Whether the command is a draw pass that reads off-screen target `t`.
pub open spec fn reads_target(c: Command, t: u32) -> bool {
    c matches Command::DrawPass { source_target, .. } && source_target == t
}

/// Whether the command writes off-screen target `t`: either the
/// zero-fill of target 0, or a draw pass whose destination is `t`.
pub open spec fn writes_target(c: Command, t: u32) -> bool {
    ||| (c matches Command::InitTargetZero { .. } && t == 0)
    ||| (c matches Command::DrawPass { destination, .. } && destination == PassDestination::Target(t))
}

/// How many of the commands before position `j` are draw passes: the
/// ordinal of the pass at `j`, if `j` holds one.
pub open spec fn draws_before(cmds: Seq<Command>, j: int) -> int
    decreases j,
{
    if j <= 0 {
        0
    } else {
        draws_before(cmds, j - 1) + if is_draw(cmds[j - 1]) { 1int } else { 0int }
    }
}

/// Resize never reuses an allocation: every target after a resize has
/// a generation that no target of the pool before it had, whatever the
/// requested size — also when it equals the current one.
pub proof fn lemma_resize_rebuilds(m: RendererModel, width: u32, height: u32)
    requires
        m.wf(),
        m.next_generation + 2 <= u64::MAX,
    ensures
        forall|i: int, j: int| 0 <= i < 2 && 0 <= j < 2 ==>
            spec_resize(m, width, height).targets[i].generation != m.targets[j].generation,
{
}

/// Two resizes to the same size leave the dimensions as the first one
/// did, yet the second still builds two fresh targets: no target of
/// the second pool shares a generation with one of the first.
pub proof fn lemma_repeated_resize_is_fresh(m: RendererModel, width: u32, height: u32)
    requires
        m.wf(),
        SurfaceConfig::clamped(width, height).wf(),
        m.next_generation + 4 <= u64::MAX,
    ensures
        ({
            let once = spec_resize(m, width, height);
            let twice = spec_resize(once, width, height);
            &&& twice.config == once.config
            &&& twice.wf()
            &&& forall|i: int, j: int| 0 <= i < 2 && 0 <= j < 2 ==>
                twice.targets[i].generation != once.targets[j].generation
        }),
{
}

/// Immediately before each draw pass of a frame stands a uniform write
/// whose pass index is that pass's ordinal — 0 before the first pass,
/// 1 before the second — and whose resolution is `max(width, height)`
/// of the configuration the frame runs under.
pub proof fn lemma_uniform_before_each_pass(config: SurfaceConfig)
    ensures
        ({
            let cmds = frame_commands(config);
            forall|j: int| 0 <= j < cmds.len() && is_draw(#[trigger] cmds[j]) ==>
                1 <= j && (cmds[j - 1] matches Command::WriteUniform(u)
                    && u.pass_index == draws_before(cmds, j)
                    && u.resolution == config.resolution())
        }),
{
    let cmds = frame_commands(config);
    assert(draws_before(cmds, 0) == 0);
    assert(draws_before(cmds, 1) == 0);
    assert(draws_before(cmds, 2) == 0);
    assert(draws_before(cmds, 3) == 1);
    assert(draws_before(cmds, 4) == 1);
    assert forall|j: int| 0 <= j < cmds.len() && is_draw(#[trigger] cmds[j]) implies
        1 <= j && (cmds[j - 1] matches Command::WriteUniform(u)
            && u.pass_index == draws_before(cmds, j)
            && u.resolution == config.resolution()) by {
        assert(j == 2 || j == 4);
    }
}

/// A pass never reads a target that nothing wrote earlier in the same
/// frame: before the pass reading target 0 stands the zero-fill of
/// target 0, and before the pass reading target 1 stands the pass that
/// writes target 1. In particular, pass 1 never observes target 1 in
/// its pre-pass-0 state.
pub proof fn lemma_pass_reads_follow_writes(config: SurfaceConfig)
    ensures
        ({
            let cmds = frame_commands(config);
            forall|j: int, s: u32| 0 <= j < cmds.len() && #[trigger] reads_target(cmds[j], s) ==>
                exists|i: int| 0 <= i < j && #[trigger] writes_target(cmds[i], s)
        }),
{
    let cmds = frame_commands(config);
    assert forall|j: int, s: u32| 0 <= j < cmds.len() && #[trigger] reads_target(cmds[j], s) implies
        exists|i: int| 0 <= i < j && #[trigger] writes_target(cmds[i], s) by {
        if j == 2 {
            assert(writes_target(cmds[0], 0));
        } else {
            assert(j == 4);
            assert(writes_target(cmds[2], 1));
        }
    }
}

/// The frame's first command zero-fills a buffer of exactly the
/// surface dimensions, with a row pitch of `width * 4` bytes and no
/// truncation: under a well-formed configuration the pitch equals the
/// mathematical product.
pub proof fn lemma_init_layout(config: SurfaceConfig)
    requires
        config.wf(),
    ensures
        frame_commands(config)[0] matches Command::InitTargetZero { width, height, bytes_per_row }
            && width == config.width
            && height == config.height
            && bytes_per_row == config.width * 4,
{
    assert(config.width * 4 <= config.width * config.height * 4) by (nonlinear_arith)
        requires 1 <= config.width && 1 <= config.height;
}

} // verus!
