//! The two ends of the row hand-off. The render thread publishes each
//! finished row and appends it to the image file; the preview, once per
//! refresh tick, takes the latest row and places it in its frame. The
//! producer never waits for the preview, so the preview may miss rows, but it
//! never sees one out of turn.
use vstd::prelude::*;
use crate::frame::{Frame, FrameView};
use crate::handoff::{current_row, fetch_update, held_row, send_status, try_receive, write_row};
use crate::ppm::{row_text, write_color_row};
use crate::status::{RenderStatus, RunningMode};

verus! {

/// What the preview found when it looked for news from the render thread.
pub enum Signal {
    /// A row was announced and the buffer held one that was not shown yet.
    Row(Vec<u32>),
    /// A row was announced, but the buffer held nothing new.
    Stale,
    /// The render thread has produced every row.
    Done,
    /// No message was waiting.
    Quiet,
}

/// What the preview window has to do after a tick.
#[derive(Clone, Copy, Debug, PartialEq, Eq, Structural)]
pub enum Refresh {
    /// Show the frame's pixels again: they have changed.
    Redraw,
    /// Keep showing what is there and handle window events.
    Idle,
    /// Nothing at all.
    Skip,
}

/// The frame after the preview found `signal`: a fresh row that fits goes
/// into the next free row, anything else changes nothing.
pub open spec fn frame_after(frame: FrameView, signal: Signal) -> FrameView {
    match signal {
        Signal::Row(row) => if frame.accepts(row@) {
            frame.with_row(row@)
        } else {
            frame
        },
        _ => frame,
    }
}

/// What the window has to do after the preview found `signal`.
pub open spec fn refresh_after(frame: FrameView, signal: Signal) -> Refresh {
    match signal {
        Signal::Row(row) => if frame.accepts(row@) {
            Refresh::Redraw
        } else {
            Refresh::Skip
        },
        Signal::Stale => Refresh::Skip,
        Signal::Done => Refresh::Idle,
        Signal::Quiet => Refresh::Idle,
    }
}

/// Applies what the preview found to its frame and says what the window has
/// to do.
pub fn show(frame: &mut Frame, signal: &Signal) -> (refresh: Refresh)
    requires
        old(frame)@.wf(),
    ensures
        final(frame)@.wf(),
        final(frame)@ == frame_after(old(frame)@, *signal),
        refresh == refresh_after(old(frame)@, *signal),
{
    match signal {
        Signal::Row(row) => {
            if frame.place_row(row.as_slice()) {
                Refresh::Redraw
            } else {
                Refresh::Skip
            }
        },
        Signal::Stale => Refresh::Skip,
        Signal::Done => Refresh::Idle,
        Signal::Quiet => Refresh::Idle,
    }
}

/// The preview's end of the hand-off.
pub struct Render {
    buffer_output: triple_buffer::Output<Vec<u32>>,
    receiver: std::sync::mpsc::Receiver<RenderStatus>,
}

impl Render {
    /// The buffer end that this preview reads rows from.
    pub closed spec fn output(&self) -> triple_buffer::Output<Vec<u32>> {
        self.buffer_output
    }

    /// The channel end through which this preview is told of rows.
    pub closed spec fn inbox(&self) -> std::sync::mpsc::Receiver<RenderStatus> {
        self.receiver
    }

    /// The row that this preview's end of the buffer holds: the last one it
    /// took over.
    pub open spec fn held(&self) -> Seq<u32> {
        held_row(self.output())
    }

    /// A preview that reads rows from `buffer_output` and is told of them
    /// through `receiver`.
    pub fn new(
        buffer_output: triple_buffer::Output<Vec<u32>>,
        receiver: std::sync::mpsc::Receiver<RenderStatus>,
    ) -> (render: Render)
        ensures
            render.output() == buffer_output,
            render.inbox() == receiver,
    {
        Render { buffer_output, receiver }
    }

    /// Looks for news without waiting: takes at most one status message and,
    /// if it announces a row, the latest row from the buffer. Whether there
    /// is news depends on the render thread. A row that is found is the row
    /// that the buffer end holds from then on; without one, the buffer end
    /// holds what it held.
    pub fn poll(&mut self) -> (signal: Signal)
        ensures
            final(self).inbox() == old(self).inbox(),
            match signal {
                Signal::Row(row) => row@ == final(self).held(),
                _ => final(self).held() == old(self).held(),
            },
    {
        match try_receive(&self.receiver) {
            Some(RenderStatus::Processing) => {
                if fetch_update(&mut self.buffer_output) {
                    Signal::Row(current_row(&mut self.buffer_output))
                } else {
                    Signal::Stale
                }
            },
            Some(RenderStatus::Done) => Signal::Done,
            None => Signal::Quiet,
        }
    }

    /// One refresh tick: polls once and applies what was found to `frame`.
    /// The frame is redrawn exactly when a row was placed; it is then the old
    /// frame with the row that the buffer end now holds in its next free row.
    /// Otherwise the frame is unchanged: the window idles when no row was
    /// announced, and nothing happens when the announced row was taken
    /// before or does not fit.
    pub fn render(&mut self, frame: &mut Frame) -> (refresh: Refresh)
        requires
            old(frame)@.wf(),
        ensures
            final(frame)@.wf(),
            final(self).inbox() == old(self).inbox(),
            refresh == Refresh::Redraw ==> old(frame)@.accepts(final(self).held())
                && final(frame)@ == old(frame)@.with_row(final(self).held()),
            refresh != Refresh::Redraw ==> final(frame)@ == old(frame)@,
            refresh == Refresh::Idle ==> final(self).held() == old(self).held(),
            refresh == Refresh::Skip ==> final(self).held() == old(self).held()
                || !old(frame)@.accepts(final(self).held()),
    {
        let signal = self.poll();
        show(frame, &signal)
    }
}

/// The render thread's end of the hand-off.
pub struct Producer {
    buffer_input: triple_buffer::Input<Vec<u32>>,
    sender: std::sync::mpsc::Sender<RenderStatus>,
    mode: RunningMode,
}

impl Producer {
    /// A producer that publishes rows through `buffer_input`, announces them
    /// through `sender`, and does either only in the mode `Render`.
    pub fn new(
        buffer_input: triple_buffer::Input<Vec<u32>>,
        sender: std::sync::mpsc::Sender<RenderStatus>,
        mode: RunningMode,
    ) -> (producer: Producer)
        ensures
            producer.mode() == mode,
    {
        Producer { buffer_input, sender, mode }
    }

    /// The mode this producer runs in.
    pub closed spec fn mode(&self) -> RunningMode {
        self.mode
    }

    /// The mode this producer runs in.
    pub fn running_mode(&self) -> (mode: RunningMode)
        ensures
            mode == self.mode(),
    {
        self.mode
    }

    /// Hands on one finished row: appends its lines to the image file's
    /// bytes and, with a live preview, publishes it and announces it. Returns
    /// whether the preview could still be told; in file-only mode that is
    /// always so.
    pub fn emit_row(&mut self, file: &mut Vec<u8>, row: &[u32]) -> (told: bool)
        ensures
            final(file)@ == old(file)@ + row_text(row@),
            final(self).mode() == old(self).mode(),
            old(self).mode() == RunningMode::File ==> told,
    {
        write_color_row(file, row);
        match self.mode {
            RunningMode::File => true,
            RunningMode::Render => {
                write_row(&mut self.buffer_input, row);
                send_status(&self.sender, RenderStatus::Processing)
            },
        }
    }

    /// Announces that every row has been produced. Returns whether the
    /// preview could still be told.
    pub fn finish(&self) -> (told: bool) {
        send_status(&self.sender, RenderStatus::Done)
    }
}

} // verus!
