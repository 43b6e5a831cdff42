//! Command buffer recording.
//!
//! What is recorded for each framebuffer is decided here, as a list of
//! commands; the caller replays each list into a command buffer builder.

use vstd::prelude::*;

verus! {

/// The vertex buffer binding that the geometry is bound at.
pub const VERTEX_BINDING: u32 = 0;

/// The offset at which push constants are written.
pub const PUSH_CONSTANTS_OFFSET: u32 = 0;

/// One recorded command.
#[derive(Clone, Copy, Debug, PartialEq, Eq, Structural)]
pub enum Command {
    /// Begin the render pass on framebuffer `framebuffer_i` with one clear
    /// value, its contents recorded inline.
    BeginRenderPass { framebuffer_i: usize },
    /// Bind the graphics pipeline.
    BindPipeline,
    /// Bind the vertex buffer at `first_binding`.
    BindVertexBuffers { first_binding: u32 },
    /// Push the per-draw constants at `offset`.
    PushConstants { offset: u32 },
    /// One non-indexed draw.
    Draw { vertex_count: u32, instance_count: u32, first_vertex: u32, first_instance: u32 },
    /// End the render pass.
    EndRenderPass,
}

/// Why nothing can be recorded.
#[derive(Clone, Copy, Debug, PartialEq, Eq, Structural)]
pub enum CommandError {
    /// The vertex buffer holds more elements than one draw can name.
    VertexCountOverflow,
}

/// The commands for framebuffer `framebuffer_i`: the render pass is begun,
/// pipeline and vertex buffer are bound, the constants are pushed if there
/// are any, all `vertex_count` vertices are drawn once, and the pass ends.
pub open spec fn spec_commands(framebuffer_i: usize, vertex_count: u32, push_constants: bool) -> Seq<
    Command,
> {
    let head = seq![
        Command::BeginRenderPass { framebuffer_i },
        Command::BindPipeline,
        Command::BindVertexBuffers { first_binding: VERTEX_BINDING },
    ];
    let push = if push_constants {
        seq![Command::PushConstants { offset: PUSH_CONSTANTS_OFFSET }]
    } else {
        Seq::<Command>::empty()
    };
    let tail = seq![
        Command::Draw { vertex_count, instance_count: 1, first_vertex: 0, first_instance: 0 },
        Command::EndRenderPass,
    ];
    head + push + tail
}

/// The commands recorded for one framebuffer.
pub fn record_commands(framebuffer_i: usize, vertex_count: u32, push_constants: bool) -> (r: Vec<
    Command,
>)
    ensures
        r@ == spec_commands(framebuffer_i, vertex_count, push_constants),
{
    let mut commands: Vec<Command> = Vec::new();
    commands.push(Command::BeginRenderPass { framebuffer_i });
    commands.push(Command::BindPipeline);
    commands.push(Command::BindVertexBuffers { first_binding: VERTEX_BINDING });
    if push_constants {
        commands.push(Command::PushConstants { offset: PUSH_CONSTANTS_OFFSET });
    }
    commands.push(
        Command::Draw { vertex_count, instance_count: 1, first_vertex: 0, first_instance: 0 },
    );
    commands.push(Command::EndRenderPass);
    commands
}

/// The command lists for `framebuffer_count` framebuffers and a vertex
/// buffer of `vertex_buffer_len` elements.
pub open spec fn spec_get_command_buffers(
    framebuffer_count: usize,
    vertex_buffer_len: u64,
    push_constants: bool,
) -> Result<Seq<Seq<Command>>, CommandError> {
    if vertex_buffer_len > u32::MAX {
        Err(CommandError::VertexCountOverflow)
    } else {
        Ok(
            Seq::new(
                framebuffer_count as nat,
                |i: int| spec_commands(i as usize, vertex_buffer_len as u32, push_constants),
            ),
        )
    }
}

/// Decides what is recorded: one command list per framebuffer, in the
/// framebuffers' order, each drawing every element of the vertex buffer
/// once. Fails when the buffer's element count does not fit in a draw's
/// vertex count.
pub fn get_command_buffers(
    framebuffer_count: usize,
    vertex_buffer_len: u64,
    push_constants: bool,
) -> (r: Result<Vec<Vec<Command>>, CommandError>)
    ensures
        match (r, spec_get_command_buffers(framebuffer_count, vertex_buffer_len, push_constants)) {
            (Ok(lists), Ok(expected)) => {
                &&& lists.len() == expected.len()
                &&& forall|i: int| 0 <= i < lists.len() ==> (#[trigger] lists@[i])@ == expected[i]
            },
            (Err(e), Err(expected)) => e == expected,
            _ => false,
        },
{
    if vertex_buffer_len > 0xffff_ffff {
        return Err(CommandError::VertexCountOverflow);
    }
    let vertex_count: u32 = vertex_buffer_len as u32;
    let mut lists: Vec<Vec<Command>> = Vec::new();
    let mut i: usize = 0;
    while i < framebuffer_count
        invariant
            i <= framebuffer_count,
            lists.len() == i,
            vertex_count == vertex_buffer_len,
            forall|j: int|
                0 <= j < i ==> (#[trigger] lists@[j])@ == spec_commands(
                    j as usize,
                    vertex_count,
                    push_constants,
                ),
        decreases framebuffer_count - i,
    {
        lists.push(record_commands(i, vertex_count, push_constants));
        i = i + 1;
    }
    Ok(lists)
}

/// Each framebuffer gets a command list of its own, which begins the render
/// pass on that framebuffer and draws the whole vertex buffer.
pub proof fn lemma_one_list_per_framebuffer(
    framebuffer_count: usize,
    vertex_buffer_len: u64,
    push_constants: bool,
    i: int,
)
    requires
        vertex_buffer_len <= u32::MAX,
        0 <= i < framebuffer_count,
    ensures
        spec_get_command_buffers(framebuffer_count, vertex_buffer_len, push_constants) is Ok,
        ({
            let lists = spec_get_command_buffers(
                framebuffer_count,
                vertex_buffer_len,
                push_constants,
            )->Ok_0;
            &&& lists.len() == framebuffer_count
            &&& lists[i].first() == (Command::BeginRenderPass { framebuffer_i: i as usize })
            &&& lists[i].last() == Command::EndRenderPass
            &&& lists[i].contains(
                Command::Draw {
                    vertex_count: vertex_buffer_len as u32,
                    instance_count: 1,
                    first_vertex: 0,
                    first_instance: 0,
                },
            )
        }),
{
    let list = spec_commands(i as usize, vertex_buffer_len as u32, push_constants);
    assert(list[list.len() - 2] == Command::Draw {
        vertex_count: vertex_buffer_len as u32,
        instance_count: 1,
        first_vertex: 0,
        first_instance: 0,
    });
}

} // verus!
