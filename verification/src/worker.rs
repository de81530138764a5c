//! The tailing worker: the file registry and the event-loop decisions.
//!
//! One dedicated execution context owns every [`WatchedFile`] and runs an
//! event loop. The loop's I/O — spawning the context, registering paths with
//! the filesystem watcher, draining its notification channel, polling the
//! control channel, reading file bytes, sending batches — happens outside
//! the library. Every decision the loop takes stands here, verified:
//! resolving a notification path to its registered file, turning newly read
//! bytes into a line batch for exactly that file, reacting to a control
//! poll, and the startup hand-off that releases the readiness message.
//!
//! The worker is an explicit state machine: `Starting` until every file is
//! opened and watch-registered, then `Running` until a shutdown is observed,
//! then `Stopped`.

use vstd::prelude::*;

use crate::events::{ControlPoll, FileLines, FromMainEvent, ToMainEvent};
use crate::watched::{split_lines, terminated_len, WatchedFile};

verus! {

/// The phases of the tailing worker's life.
pub enum WorkerPhase {
    /// Files are being opened and registered with the change watcher.
    Starting,
    /// The event loop runs: notifications trigger reads, control is polled.
    Running,
    /// A shutdown was observed; the loop has returned.
    Stopped,
}

/// The tailing worker's state: the registry of watched files and the phase
/// of its state machine. The registry is built once, before the worker
/// starts, and never grows or shrinks afterwards.
pub struct FilesProcessor {
    files: Vec<WatchedFile>,
    phase: WorkerPhase,
}

impl FilesProcessor {
    /// The registry: one entry per watched file.
    pub closed spec fn spec_files(self) -> Seq<WatchedFile> {
        self.files@
    }

    /// Where the worker's state machine stands.
    pub closed spec fn spec_phase(self) -> WorkerPhase {
        self.phase
    }

    /// Every file's bookkeeping is sound and no two files share a path.
    pub open spec fn wf(self) -> bool {
        &&& forall|i: int|
            0 <= i < self.spec_files().len() ==> (#[trigger] self.spec_files()[i]).wf()
        &&& forall|i: int, j: int|
            0 <= i < j < self.spec_files().len()
                ==> self.spec_files()[i].spec_filename() != self.spec_files()[j].spec_filename()
    }

    /// Build the registry from a deduplicated path list, the current length
    /// of each file, and the "only tail" flag: each file's cursor starts at
    /// end-of-file when only tailing, at offset 0 otherwise. Opening the
    /// files (and aborting on any failure — a partial registry is never
    /// built) is the caller's task; `file_lens` are the lengths of the
    /// successfully opened files.
    pub fn new(filenames: &Vec<String>, file_lens: &Vec<u64>, only_tail_files: bool) -> (r:
        FilesProcessor)
        requires
            filenames@.len() == file_lens@.len(),
            forall|i: int, j: int|
                0 <= i < j < filenames@.len() ==> filenames@[i]@ != filenames@[j]@,
        ensures
            r.wf(),
            r.spec_phase() is Starting,
            r.spec_files().len() == filenames@.len(),
            forall|i: int|
                0 <= i < filenames@.len() ==> {
                    &&& (#[trigger] r.spec_files()[i]).spec_filename() == filenames@[i]@
                    &&& r.spec_files()[i].spec_cursor() == if only_tail_files {
                        file_lens@[i]
                    } else {
                        0u64
                    }
                    &&& r.spec_files()[i].consumed() == Seq::<u8>::empty()
                },
    {
        let n = filenames.len();
        let mut files: Vec<WatchedFile> = Vec::new();
        let mut i: usize = 0;
        while i < n
            invariant
                i <= n,
                n == filenames@.len(),
                n == file_lens@.len(),
                files@.len() == i,
                forall|k: int|
                    0 <= k < i ==> {
                        &&& (#[trigger] files@[k]).spec_filename() == filenames@[k]@
                        &&& files@[k].spec_cursor() == if only_tail_files {
                            file_lens@[k]
                        } else {
                            0u64
                        }
                        &&& files@[k].consumed() == Seq::<u8>::empty()
                        &&& files@[k].wf()
                    },
            decreases n - i,
        {
            let file = WatchedFile::new(filenames[i].clone(), file_lens[i], only_tail_files);
            files.push(file);
            i = i + 1;
        }
        FilesProcessor { files, phase: WorkerPhase::Starting }
    }

    /// How many files the registry holds.
    pub fn file_count(&self) -> (n: usize)
        ensures
            n == self.spec_files().len(),
    {
        self.files.len()
    }

    /// The path of the file at `i`, for registering it with the watcher and
    /// for opening it.
    pub fn filename_at(&self, i: usize) -> (r: &str)
        requires
            i < self.spec_files().len(),
        ensures
            r@ == self.spec_files()[i as int].spec_filename(),
    {
        self.files[i].get_filename()
    }

    /// The cursor of the file at `i`: the byte offset the next read of that
    /// file must start from.
    pub fn cursor_at(&self, i: usize) -> (c: u64)
        requires
            i < self.spec_files().len(),
        ensures
            c == self.spec_files()[i as int].spec_cursor(),
    {
        self.files[i].cursor()
    }

    /// Resolve a change-notification path to its registered file. `None`
    /// means the notification names a file the worker never registered — an
    /// invariant violation the caller must treat as fatal.
    pub fn find_index(&self, path: &String) -> (r: Option<usize>)
        ensures
            match r {
                Some(i) => i < self.spec_files().len() && self.spec_files()[i as int].spec_filename()
                    == path@,
                None => forall|i: int|
                    0 <= i < self.spec_files().len()
                        ==> (#[trigger] self.spec_files()[i]).spec_filename() != path@,
            },
    {
        let n = self.files.len();
        let mut i: usize = 0;
        while i < n
            invariant
                i <= n,
                n == self.spec_files().len(),
                forall|k: int|
                    0 <= k < i ==> (#[trigger] self.spec_files()[k]).spec_filename() != path@,
            decreases n - i,
        {
            if self.files[i].has_filename(path) {
                return Some(i);
            }
            i = i + 1;
        }
        None
    }

    /// Mark startup complete and release the readiness acknowledgement.
    /// The caller sends the returned message to the supervising context only
    /// after every file has been opened and registered with the watcher: the
    /// message exists in no other way, so readiness is never signalled for a
    /// partial registry.
    pub fn finish_startup(&mut self) -> (msg: ToMainEvent)
        requires
            old(self).spec_phase() is Starting,
        ensures
            final(self).spec_phase() is Running,
            final(self).spec_files() == old(self).spec_files(),
            msg is AllOk,
    {
        self.phase = WorkerPhase::Running;
        ToMainEvent::AllOk
    }

    /// Consume the bytes newly read from the file at `i` (from its cursor to
    /// end-of-file) and build the line batch to emit: `Some` exactly when
    /// the bytes hold at least one complete line, tagged with that file's
    /// own name. No other file's state is touched, so a notification for one
    /// file can never move another file's cursor or emit a batch under
    /// another file's name.
    pub fn read_file(&mut self, i: usize, new_bytes: &[u8]) -> (r: Option<FileLines>)
        requires
            old(self).wf(),
            old(self).spec_phase() is Running,
            i < old(self).spec_files().len(),
            old(self).spec_files()[i as int].spec_cursor() + new_bytes@.len() <= u64::MAX,
        ensures
            final(self).wf(),
            final(self).spec_phase() is Running,
            final(self).spec_files().len() == old(self).spec_files().len(),
            forall|j: int|
                0 <= j < old(self).spec_files().len() && j != i
                    ==> final(self).spec_files()[j] == old(self).spec_files()[j],
            final(self).spec_files()[i as int].spec_filename()
                == old(self).spec_files()[i as int].spec_filename(),
            final(self).spec_files()[i as int].spec_cursor()
                == old(self).spec_files()[i as int].spec_cursor() + terminated_len(new_bytes@),
            old(self).spec_files()[i as int].spec_cursor()
                <= final(self).spec_files()[i as int].spec_cursor(),
            final(self).spec_files()[i as int].consumed()
                == old(self).spec_files()[i as int].consumed()
                + new_bytes@.take(terminated_len(new_bytes@)),
            match r {
                Some(batch) => {
                    &&& batch.filename@ == old(self).spec_files()[i as int].spec_filename()
                    &&& batch.lines.deep_view() == split_lines(new_bytes@)
                    &&& split_lines(new_bytes@).len() > 0
                },
                None => split_lines(new_bytes@).len() == 0,
            },
    {
        let file = &mut self.files[i];
        let lines = file.read_to_end(new_bytes);
        if lines.len() == 0 {
            None
        } else {
            let filename = file.get_filename().to_owned();
            Some(FileLines { filename, lines })
        }
    }

    /// React to one non-blocking poll of the control channel: stop on a
    /// shutdown message, and treat a disconnected control side as an
    /// implicit shutdown; an empty poll keeps the loop running. Stopping is
    /// decided by nothing else, so the worker terminates at the first poll
    /// that observes a shutdown, and never before one.
    pub fn step_control(&mut self, poll: ControlPoll) -> (stop: bool)
        requires
            old(self).spec_phase() is Running,
        ensures
            final(self).spec_files() == old(self).spec_files(),
            stop == !(poll is Empty),
            stop ==> final(self).spec_phase() is Stopped,
            !stop ==> final(self).spec_phase() is Running,
    {
        match poll {
            ControlPoll::Message(event) => {
                match event {
                    FromMainEvent::Shutdown => {
                        self.phase = WorkerPhase::Stopped;
                        true
                    },
                }
            },
            ControlPoll::Disconnected => {
                self.phase = WorkerPhase::Stopped;
                true
            },
            ControlPoll::Empty => false,
        }
    }
}

} // verus!
