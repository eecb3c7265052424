//! The commands that draw a mesh into a render pass.

use vstd::prelude::*;
use crate::mesh::Mesh;

verus! {

/// What a bind group slot of a draw is filled with.
#[derive(Clone, Copy, Debug, PartialEq, Eq, Structural)]
pub enum BindSource {
    /// The bind group of the resource collection with this index.
    Resources { group: u32 },
    /// The history texture that the frame reads.
    History,
    /// The history texture that the frame has drawn to.
    Target,
}

/// One command of a render pass.
#[derive(Clone, Copy, Debug, PartialEq, Eq, Structural)]
pub enum DrawCommand {
    /// Use the pipeline of this pass of the mesh.
    SetPipeline { pass: usize },
    SetBindGroup { index: u32, source: BindSource },
    /// Read vertices from the mesh's vertex buffer, bound at this slot.
    SetVertexBuffer { slot: u32 },
    /// Read 16-bit indices from the mesh's index buffer.
    SetIndexBuffer,
    /// Draw one instance of the first `index_count` indices.
    DrawIndexed { index_count: u32 },
    /// Draw what the mesh's indirect buffer says at this offset.
    DrawIndexedIndirect { offset: u64 },
}

/// The commands that bind the first `groups` bind groups of the resource
/// collection, each at its own index.
pub open spec fn spec_bind_resources(groups: nat) -> Seq<DrawCommand> {
    Seq::new(
        groups,
        |k: int| DrawCommand::SetBindGroup { index: k as u32, source: BindSource::Resources { group: k as u32 } },
    )
}

/// The commands of one pass of a mesh: its pipeline, the resource groups,
/// the history group after them, the buffers, and the draw.
pub open spec fn spec_pass_commands(pass: int, groups: nat, draw: DrawCommand) -> Seq<DrawCommand> {
    seq![DrawCommand::SetPipeline { pass: pass as usize }] + spec_bind_resources(groups) + seq![
        DrawCommand::SetBindGroup { index: groups as u32, source: BindSource::History },
        DrawCommand::SetVertexBuffer { slot: 0 },
        DrawCommand::SetIndexBuffer,
        draw,
    ]
}

/// The commands of the first `passes` passes of a mesh, in pass order.
pub open spec fn spec_draw_commands(passes: nat, groups: nat, draw: DrawCommand) -> Seq<DrawCommand>
    decreases passes,
{
    if passes == 0 {
        Seq::empty()
    } else {
        spec_draw_commands((passes - 1) as nat, groups, draw) + spec_pass_commands(
            passes - 1,
            groups,
            draw,
        )
    }
}

/// Every pass takes five commands and one for each resource group.
pub proof fn lemma_draw_command_count(passes: nat, groups: nat, draw: DrawCommand)
    ensures
        spec_draw_commands(passes, groups, draw).len() == passes * (groups + 5),
    decreases passes,
{
    if passes > 0 {
        lemma_draw_command_count((passes - 1) as nat, groups, draw);
        assert(spec_pass_commands(passes - 1, groups, draw).len() == groups + 5);
        assert(passes * (groups + 5) == (passes - 1) * (groups + 5) + (groups + 5))
            by (nonlinear_arith);
    } else {
        assert(passes * (groups + 5) == 0) by (nonlinear_arith)
            requires
                passes == 0,
        ;
    }
}

fn push_pass(commands: &mut Vec<DrawCommand>, pass: usize, bind_group_count: u32, draw: DrawCommand)
    ensures
        final(commands)@ == old(commands)@ + spec_pass_commands(
            pass as int,
            bind_group_count as nat,
            draw,
        ),
{
    let ghost start = commands@;
    commands.push(DrawCommand::SetPipeline { pass });
    let mut bind_group_index: u32 = 0;
    while bind_group_index < bind_group_count
        invariant
            bind_group_index <= bind_group_count,
            commands@ == start + seq![DrawCommand::SetPipeline { pass }] + spec_bind_resources(
                bind_group_index as nat,
            ),
        decreases bind_group_count - bind_group_index,
    {
        commands.push(
            DrawCommand::SetBindGroup {
                index: bind_group_index,
                source: BindSource::Resources { group: bind_group_index },
            },
        );
        assert(spec_bind_resources((bind_group_index + 1) as nat) =~= spec_bind_resources(
            bind_group_index as nat,
        ).push(
            DrawCommand::SetBindGroup {
                index: bind_group_index,
                source: BindSource::Resources { group: bind_group_index },
            },
        ));
        assert(commands@ =~= start + seq![DrawCommand::SetPipeline { pass }] + spec_bind_resources(
            (bind_group_index + 1) as nat,
        ));
        bind_group_index += 1;
    }
    commands.push(DrawCommand::SetBindGroup { index: bind_group_index, source: BindSource::History });
    commands.push(DrawCommand::SetVertexBuffer { slot: 0 });
    commands.push(DrawCommand::SetIndexBuffer);
    commands.push(draw);
    assert(commands@ =~= start + spec_pass_commands(pass as int, bind_group_count as nat, draw));
}

fn draw_mesh(passes: usize, bind_group_count: u32, draw: DrawCommand) -> (commands: Vec<DrawCommand>)
    ensures
        commands@ == spec_draw_commands(passes as nat, bind_group_count as nat, draw),
{
    let mut commands: Vec<DrawCommand> = Vec::new();
    let mut pass: usize = 0;
    while pass < passes
        invariant
            pass <= passes,
            commands@ == spec_draw_commands(pass as nat, bind_group_count as nat, draw),
        decreases passes - pass,
    {
        push_pass(&mut commands, pass, bind_group_count, draw);
        pass += 1;
    }
    commands
}

impl<P> Mesh<P> {
    /// The commands that draw every pass of the mesh from its index
    /// buffer, with `bind_group_count` bind groups of the resource
    /// collection and the history group bound.
    pub fn draw_mesh_indexed(&self, bind_group_count: u32) -> (commands: Vec<DrawCommand>)
        ensures
            commands@ == spec_draw_commands(
                self.pipelines().len(),
                bind_group_count as nat,
                DrawCommand::DrawIndexed { index_count: self.index_count() },
            ),
    {
        draw_mesh(
            self.get_render_pipelines().len(),
            bind_group_count,
            DrawCommand::DrawIndexed { index_count: self.get_buffers().index_count },
        )
    }

    /// The commands that draw every pass of the mesh from its indirect
    /// buffer.
    pub fn draw_mesh_indirect(&self, bind_group_count: u32) -> (commands: Vec<DrawCommand>)
        ensures
            commands@ == spec_draw_commands(
                self.pipelines().len(),
                bind_group_count as nat,
                DrawCommand::DrawIndexedIndirect { offset: 0 },
            ),
    {
        draw_mesh(
            self.get_render_pipelines().len(),
            bind_group_count,
            DrawCommand::DrawIndexedIndirect { offset: 0 },
        )
    }
}

} // verus!
