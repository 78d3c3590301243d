//! The two channels between the render thread and the preview: a triple
//! buffer that carries the latest finished row, and a queue of status
//! messages. Both are shared with another thread, so their calls are taken on
//! trust and promise nothing about what the other thread has done.
use vstd::prelude::*;
use crate::status::RenderStatus;

verus! {

/// The producer's end of `triple_buffer`'s buffer, opaque to the verifier.
#[verifier::external_type_specification]
#[verifier::external_body]
#[verifier::reject_recursive_types(T)]
pub struct ExInput<T: Send>(triple_buffer::Input<T>);

/// The consumer's end of `triple_buffer`'s buffer, opaque to the verifier.
#[verifier::external_type_specification]
#[verifier::external_body]
#[verifier::reject_recursive_types(T)]
pub struct ExOutput<T: Send>(triple_buffer::Output<T>);

/// The sending end of a `std::sync::mpsc` channel, opaque to the verifier.
#[verifier::external_type_specification]
#[verifier::external_body]
#[verifier::reject_recursive_types(T)]
pub struct ExSender<T>(std::sync::mpsc::Sender<T>);

/// The receiving end of a `std::sync::mpsc` channel, opaque to the verifier.
#[verifier::external_type_specification]
#[verifier::external_body]
#[verifier::reject_recursive_types(T)]
pub struct ExReceiver<T>(std::sync::mpsc::Receiver<T>);

/// The row in the consumer's own buffer of `output`: the value that
/// `triple_buffer::Output::output_buffer` refers to. Only the consumer can
/// reach that buffer, so it changes only when an update takes over a newer
/// row.
pub uninterp spec fn held_row(output: triple_buffer::Output<Vec<u32>>) -> Seq<u32>;

/// Calls `triple_buffer::Input::write` with a copy of `row`: the copy becomes
/// the buffer's latest value, replacing one that the consumer has not taken
/// yet. Nothing is claimed of it here.
#[verifier::external_body]
pub(crate) fn write_row(input: &mut triple_buffer::Input<Vec<u32>>, row: &[u32]) {
    input.write(row.to_vec())
}

/// Calls `triple_buffer::Output::update`, which takes over the latest
/// published value if there is one that was not taken yet and says whether it
/// did. Whether it does depends on the producer; claimed is only that the
/// consumer's buffer holds what it held when nothing was taken over.
#[verifier::external_body]
pub(crate) fn fetch_update(output: &mut triple_buffer::Output<Vec<u32>>) -> (fresh: bool)
    ensures
        !fresh ==> held_row(*final(output)) == held_row(*old(output)),
{
    output.update()
}

/// Copies what `triple_buffer::Output::output_buffer` refers to. Claimed is
/// that the copy is the row in the consumer's buffer, and that the buffer
/// holds it as before.
#[verifier::external_body]
pub(crate) fn current_row(output: &mut triple_buffer::Output<Vec<u32>>) -> (row: Vec<u32>)
    ensures
        row@ == held_row(*old(output)),
        held_row(*final(output)) == held_row(*old(output)),
{
    output.output_buffer().clone()
}

/// Calls `std::sync::mpsc::Receiver::try_recv` without blocking: the oldest
/// pending message, or `None` when the queue is empty or the sender is gone.
/// Which of these happens depends on the other thread.
#[verifier::external_body]
pub(crate) fn try_receive(receiver: &std::sync::mpsc::Receiver<RenderStatus>) -> (status: Option<
    RenderStatus,
>) {
    receiver.try_recv().ok()
}

/// Calls `std::sync::mpsc::Sender::send` and says whether the message was
/// queued; it is not when the receiver has been dropped.
#[verifier::external_body]
pub(crate) fn send_status(
    sender: &std::sync::mpsc::Sender<RenderStatus>,
    status: RenderStatus,
) -> (queued: bool) {
    sender.send(status).is_ok()
}

} // verus!
