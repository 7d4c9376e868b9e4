//! The body of a response, read as it streams in.
use vstd::prelude::*;

verus! {

/// A streaming body with one owner. Reading it is optional. The endpoint closes it
/// after `end_request`, also where a handler keeps it.
pub struct ResponseBody {
    reading: bool,
    closed: bool,
    waiting: bool,
    content_length: Option<usize>,
}

/// What a read comes to before the transport is asked.
#[derive(Clone, Copy, Debug, PartialEq, Eq, Structural)]
pub enum ReadStep {
    /// Nothing is read: there is no room, or the body has ended.
    Ready,
    /// The body was closed: the read fails as a broken pipe.
    Closed,
    /// The transport is asked for bytes.
    ReadSource,
}

/// What the transport answered.
#[derive(Clone, Copy, Debug, PartialEq, Eq, Structural)]
pub enum ReadOutcome {
    /// That many bytes were read. None means the end of the body.
    Bytes(usize),
    /// The read failed.
    Failed,
    /// Nothing has come yet; the reader wants to be woken.
    Pending,
}

/// What closing a body asks of the driver.
#[derive(Clone, Copy, Debug, PartialEq, Eq, Structural)]
pub struct CloseBody {
    /// The transport's reader is to be dropped.
    pub drop_reader: bool,
    /// A reader that waits is to be woken.
    pub wake: bool,
}

/// The text of the error that a read of a closed body fails with.
pub const CLOSED_TEXT: &'static str = "HTTP response body is closed";

impl ResponseBody {
    /// Whether the transport can still be read.
    pub closed spec fn spec_reading(&self) -> bool {
        self.reading
    }

    pub closed spec fn spec_closed(&self) -> bool {
        self.closed
    }

    /// Whether a reader waits to be woken.
    pub closed spec fn spec_waiting(&self) -> bool {
        self.waiting
    }

    pub closed spec fn spec_content_length(&self) -> Option<usize> {
        self.content_length
    }

    /// A closed body neither reads nor waits.
    pub open spec fn wf(&self) -> bool {
        self.spec_closed() ==> !self.spec_reading() && !self.spec_waiting()
    }

    /// A body that has yet to be read.
    pub fn new(content_length: Option<usize>) -> (body: ResponseBody)
        ensures
            body.wf(),
            body.spec_reading(),
            !body.spec_closed(),
            !body.spec_waiting(),
            body.spec_content_length() == content_length,
    {
        ResponseBody { reading: true, closed: false, waiting: false, content_length }
    }

    /// The length that the transport announced.
    pub fn content_length(&self) -> (length: Option<usize>)
        ensures
            length == self.spec_content_length(),
    {
        self.content_length
    }

    /// Begins a read into a buffer with room for `room` bytes. A read without room
    /// succeeds even on a closed body.
    pub fn begin_read(&self, room: usize) -> (step: ReadStep)
        ensures
            step == (if room == 0 {
                ReadStep::Ready
            } else if self.spec_closed() {
                ReadStep::Closed
            } else if self.spec_reading() {
                ReadStep::ReadSource
            } else {
                ReadStep::Ready
            }),
    {
        if room == 0 {
            return ReadStep::Ready;
        }
        if self.closed {
            return ReadStep::Closed;
        }
        if self.reading {
            ReadStep::ReadSource
        } else {
            ReadStep::Ready
        }
    }

    /// Takes the transport's answer to a read. After an error or the end of the body
    /// the transport is not read again and its reader is dropped.
    pub fn end_read(&mut self, outcome: ReadOutcome) -> (drop_reader: bool)
        requires
            old(self).wf(),
            old(self).spec_reading(),
        ensures
            final(self).wf(),
            final(self).spec_closed() == old(self).spec_closed(),
            final(self).spec_content_length() == old(self).spec_content_length(),
            drop_reader == (outcome == ReadOutcome::Failed || outcome == ReadOutcome::Bytes(0)),
            final(self).spec_reading() == !drop_reader,
            final(self).spec_waiting() == (outcome == ReadOutcome::Pending),
    {
        match outcome {
            ReadOutcome::Pending => {
                self.waiting = true;
                false
            },
            ReadOutcome::Failed => {
                self.waiting = false;
                self.reading = false;
                true
            },
            ReadOutcome::Bytes(count) => {
                self.waiting = false;
                if count == 0 {
                    self.reading = false;
                    true
                } else {
                    false
                }
            },
        }
    }

    /// Closes the body without reading the rest of it.
    pub fn close(&mut self) -> (request: CloseBody)
        ensures
            final(self).wf(),
            final(self).spec_closed(),
            !final(self).spec_reading(),
            !final(self).spec_waiting(),
            final(self).spec_content_length() == old(self).spec_content_length(),
            request == (CloseBody {
                drop_reader: old(self).spec_reading(),
                wake: old(self).spec_waiting(),
            }),
    {
        let request = CloseBody { drop_reader: self.reading, wake: self.waiting };
        self.closed = true;
        self.reading = false;
        self.waiting = false;
        request
    }
}

} // verus!
