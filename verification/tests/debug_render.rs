use swerve_sim_3d::util::debug_render::FrameBuffer;

#[test]
fn a_frame_holds_the_lines_drawn_since_the_last_frame() {
    let mut buffer = FrameBuffer::new();
    buffer.draw_line(1u32);
    buffer.draw_line(2u32);
    assert_eq!(buffer.take_frame().data, vec![1, 2]);
    buffer.draw_line(3u32);
    assert_eq!(buffer.take_frame().data, vec![3]);
    assert!(buffer.take_frame().data.is_empty());
}

use swerve_sim_3d::message::{Message, MessageBuffer};

#[test]
fn a_frame_travels_as_one_transfer() {
    let mut buffer = FrameBuffer::new();
    buffer.draw_line(10u32);
    buffer.draw_line(20u32);
    let messages = buffer.take_frame().to_messages();
    assert_eq!(
        messages,
        vec![
            Message::StartTransfer,
            Message::Line(10),
            Message::Line(20),
            Message::EndTransfer
        ]
    );
}

#[test]
fn a_sent_frame_is_drawn_whatever_was_buffered_before() {
    let mut window: MessageBuffer<u32> = MessageBuffer::new();
    window.push_back(Message::Line(99));
    window.push_back(Message::EndTransfer);
    window.push_back(Message::StartTransfer);
    window.push_back(Message::Line(98));

    let mut frame = FrameBuffer::new();
    frame.draw_line(1u32);
    frame.draw_line(2u32);
    frame.draw_line(3u32);
    for m in frame.take_frame().to_messages() {
        window.push_back(m);
    }
    assert!(window.is_drawable());
    assert_eq!(window.get_most_up_to_date_lines_to_draw(), vec![1, 2, 3]);
    assert_eq!(window.len(), 5);
}

#[test]
fn an_empty_frame_travels_as_two_markers() {
    let mut buffer: FrameBuffer<u32> = FrameBuffer::new();
    let messages = buffer.take_frame().to_messages();
    assert_eq!(messages, vec![Message::StartTransfer, Message::EndTransfer]);
}
