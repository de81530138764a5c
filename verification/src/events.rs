//! Message vocabularies of the tailing worker.
//!
//! Three closed variant sets travel over three unidirectional channels:
//! control-to-worker (`FromMainEvent`), worker-to-control (`ToMainEvent`)
//! and worker-to-consumer (`FileEvent`).

use vstd::prelude::*;

verus! {

/// Events received by the worker from the supervising context.
pub enum FromMainEvent {
    Shutdown,
}

/// What one non-blocking poll of the control channel observed: a message,
/// nothing pending, or a control side that has gone away.
pub enum ControlPoll {
    Message(FromMainEvent),
    Empty,
    Disconnected,
}

/// Events sent by the worker back to the supervising context.
/// `AllOk` signals that every file is opened and watch-registered.
pub enum ToMainEvent {
    AllOk,
}

/// A batch of newly read lines attributed to one file.
///
/// `lines` holds the raw bytes of each line, in file order, with the line
/// terminator (and a terminating carriage return, if any) removed. Decoding
/// the bytes into text is the consumer's concern.
pub struct FileLines {
    pub filename: String,
    pub lines: Vec<Vec<u8>>,
}

/// Events sent by the worker to the downstream consumer.
pub enum FileEvent {
    Lines(FileLines),
}

} // verus!
