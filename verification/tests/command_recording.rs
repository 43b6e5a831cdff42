use vulkan_renderer::commands::{get_command_buffers, record_commands, Command, CommandError};

fn draw(vertex_count: u32) -> Command {
    Command::Draw {
        vertex_count,
        instance_count: 1,
        first_vertex: 0,
        first_instance: 0,
    }
}

#[test]
fn commands_without_push_constants() {
    assert_eq!(
        record_commands(2, 6, false),
        vec![
            Command::BeginRenderPass { framebuffer_i: 2 },
            Command::BindPipeline,
            Command::BindVertexBuffers { first_binding: 0 },
            draw(6),
            Command::EndRenderPass,
        ]
    );
}

#[test]
fn commands_with_push_constants() {
    assert_eq!(
        record_commands(0, 3, true),
        vec![
            Command::BeginRenderPass { framebuffer_i: 0 },
            Command::BindPipeline,
            Command::BindVertexBuffers { first_binding: 0 },
            Command::PushConstants { offset: 0 },
            draw(3),
            Command::EndRenderPass,
        ]
    );
}

#[test]
fn one_command_list_per_framebuffer() {
    let lists = get_command_buffers(3, 6, true).unwrap();
    assert_eq!(lists.len(), 3);
    for (i, list) in lists.iter().enumerate() {
        assert_eq!(list, &record_commands(i, 6, true));
        assert_eq!(list[0], Command::BeginRenderPass { framebuffer_i: i });
        assert_eq!(list[4], draw(6));
    }
}

#[test]
fn no_framebuffers_no_command_lists() {
    assert_eq!(get_command_buffers(0, 6, false), Ok(Vec::new()));
}

#[test]
fn vertex_count_is_the_buffer_length() {
    let lists = get_command_buffers(1, u32::MAX as u64, false).unwrap();
    assert_eq!(lists[0][3], draw(u32::MAX));
    let lists = get_command_buffers(1, 0, false).unwrap();
    assert_eq!(lists[0][3], draw(0));
}

#[test]
fn too_many_vertices_is_an_error() {
    assert_eq!(
        get_command_buffers(2, u32::MAX as u64 + 1, false),
        Err(CommandError::VertexCountOverflow)
    );
    assert_eq!(
        get_command_buffers(0, u64::MAX, true),
        Err(CommandError::VertexCountOverflow)
    );
}
