//! The simulator's side of the debug window: the lines drawn while the
//! physics world is rendered are collected, then sent as one frame.
use crate::message::{lemma_transfer_is_start_lines_end, transfer, Message};
use vstd::prelude::*;

verus! {

/// One frame of debug lines, as sent to the window.
#[derive(Clone, Debug, PartialEq)]
pub struct Frame<L> {
    pub data: Vec<L>,
}

impl<L: Copy> Frame<L> {
    /// The messages that carry this frame to the window: a start marker,
    /// one line message per line in order, and an end marker. Whatever the
    /// window buffered before, it draws exactly these lines next
    /// (`lemma_complete_transfer_is_drawn`).
    pub fn to_messages(&self) -> (messages: Vec<Message<L>>)
        ensures
            messages@ == transfer(self.data@),
            messages@.len() == self.data@.len() + 2,
            messages@[0] == Message::<L>::StartTransfer,
            messages@.last() == Message::<L>::EndTransfer,
            forall|i: int|
                0 <= i < self.data@.len() ==> #[trigger] messages@[i + 1] == Message::Line(
                    self.data@[i],
                ),
    {
        let mut messages: Vec<Message<L>> = Vec::new();
        messages.push(Message::StartTransfer);
        let mut i: usize = 0;
        while i < self.data.len()
            invariant
                i <= self.data@.len(),
                messages@ == seq![Message::<L>::StartTransfer].add(
                    self.data@.take(i as int).map_values(|l: L| Message::Line(l)),
                ),
            decreases self.data@.len() - i,
        {
            messages.push(Message::Line(self.data[i]));
            assert(self.data@.take(i + 1) =~= self.data@.take(i as int).push(self.data@[i as int]));
            assert(seq![Message::<L>::StartTransfer].add(
                self.data@.take(i + 1).map_values(|l: L| Message::Line(l)),
            ) =~= seq![Message::<L>::StartTransfer].add(
                self.data@.take(i as int).map_values(|l: L| Message::Line(l)),
            ).push(Message::Line(self.data@[i as int])));
            i = i + 1;
        }
        assert(self.data@.take(self.data@.len() as int) =~= self.data@);
        messages.push(Message::EndTransfer);
        proof {
            lemma_transfer_is_start_lines_end(self.data@);
        }
        messages
    }
}

/// The lines collected for the frame being rendered.
pub struct FrameBuffer<L> {
    lines: Vec<L>,
}

impl<L> View for FrameBuffer<L> {
    type V = Seq<L>;

    closed spec fn view(&self) -> Seq<L> {
        self.lines@
    }
}

impl<L> FrameBuffer<L> {
    /// An empty buffer.
    pub fn new() -> (buffer: Self)
        ensures
            buffer@ == Seq::<L>::empty(),
    {
        FrameBuffer { lines: Vec::new() }
    }

    /// Adds a line to the frame being rendered.
    pub fn draw_line(&mut self, line: L)
        ensures
            final(self)@ == old(self)@.push(line),
    {
        self.lines.push(line);
    }

    /// Ends the frame: returns the lines collected since the last frame, in
    /// the order they were drawn, and starts the next frame empty.
    pub fn take_frame(&mut self) -> (frame: Frame<L>)
        ensures
            frame.data@ == old(self)@,
            final(self)@ == Seq::<L>::empty(),
    {
        let mut data: Vec<L> = Vec::new();
        std::mem::swap(&mut data, &mut self.lines);
        Frame { data }
    }
}

} // verus!
