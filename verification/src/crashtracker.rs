//! The crash-tracker receiver reads a crash report sent as an ordered
//! series of datagrams: this turns them back into one byte stream.
use vstd::prelude::*;

verus! {

/// Why a receive on the crash-tracker connection failed.
#[derive(Debug, Clone, Copy, PartialEq, Eq, Structural)]
pub enum RecvErrorKind {
    BrokenPipe,
    UnexpectedEof,
    ConnectionReset,
    /// The receive would block: wait for the connection to be readable.
    WouldBlock,
    Other,
}

/// What a read of the stream does next.
#[derive(Debug, PartialEq, Eq)]
pub enum ReadStep {
    /// These bytes are read (what was left of the last datagram).
    Data(Vec<u8>),
    /// The stream has ended: the read gives no bytes.
    Eof,
    /// Nothing is buffered: receive the next datagram and pass it to
    /// [`DatagramStream::receive`].
    Receive,
}

/// What a failed receive means for the read.
#[derive(Debug, Clone, Copy, PartialEq, Eq, Structural)]
pub enum RecvOutcome {
    /// The peer closed the connection: the stream has ended.
    Eof,
    /// Try the receive again once the connection is readable.
    Retry,
    /// The read fails with this error.
    Fail,
}

/// A stream of bytes made of datagrams: a zero-length datagram ends it, and
/// a datagram larger than a read is kept and handed out by later reads, so
/// no boundary cuts data.
pub struct DatagramStream {
    buf: Vec<u8>,
    pos: usize,
    eof: bool,
}

impl DatagramStream {
    /// The bytes received and not yet read.
    pub closed spec fn pending(&self) -> Seq<u8> {
        self.buf@.skip(self.pos as int)
    }

    /// Whether the stream has ended.
    pub closed spec fn ended(&self) -> bool {
        self.eof
    }

    /// The invariant: the read position is within the last datagram.
    pub closed spec fn wf(&self) -> bool {
        self.pos <= self.buf@.len()
    }

    /// A stream that has received nothing yet.
    pub fn new() -> (res: Self)
        ensures
            res.wf(),
            res.pending() == Seq::<u8>::empty(),
            !res.ended(),
    {
        let res = DatagramStream { buf: Vec::new(), pos: 0, eof: false };
        assert(res.pending() =~= Seq::<u8>::empty());
        res
    }

    /// A read with room for `room` bytes: buffered bytes first (as many as
    /// fit); with none buffered, the end of the stream once it has ended, or
    /// else the instruction to receive a datagram.
    pub fn read(&mut self, room: usize) -> (res: ReadStep)
        requires
            old(self).wf(),
        ensures
            final(self).wf(),
            final(self).ended() == old(self).ended(),
            old(self).pending().len() > 0 ==> (res matches ReadStep::Data(d) && {
                let n = if room < old(self).pending().len() { room as int } else { old(self).pending().len() as int };
                &&& d@ == old(self).pending().take(n)
                &&& final(self).pending() == old(self).pending().skip(n)
            }),
            old(self).pending().len() == 0 && old(self).ended() ==> res == ReadStep::Eof
                && final(self).pending() == old(self).pending(),
            old(self).pending().len() == 0 && !old(self).ended() ==> res == ReadStep::Receive
                && final(self).pending() == old(self).pending(),
    {
        if self.pos < self.buf.len() {
            let left = self.buf.len() - self.pos;
            let n = if room < left { room } else { left };
            let mut out: Vec<u8> = Vec::new();
            let mut i: usize = 0;
            while i < n
                invariant
                    self.wf(),
                    self.pos + n <= self.buf.len(),
                    i <= n,
                    out@ == self.buf@.subrange(self.pos as int, self.pos + i),
                decreases n - i,
            {
                out.push(self.buf[self.pos + i]);
                assert(self.buf@.subrange(self.pos as int, self.pos + i + 1) =~= self.buf@.subrange(
                    self.pos as int,
                    self.pos + i,
                ).push(self.buf@[self.pos + i]));
                i = i + 1;
            }
            let ghost p0 = self.pending();
            assert(out@ =~= p0.take(n as int));
            self.pos = self.pos + n;
            assert(self.pending() =~= p0.skip(n as int));
            ReadStep::Data(out)
        } else if self.eof {
            ReadStep::Eof
        } else {
            ReadStep::Receive
        }
    }

    /// The next datagram arrived for a read with room for `room` bytes: an
    /// empty one ends the stream; otherwise the read gets as much of it as
    /// fits, and the rest is kept for later reads.
    pub fn receive(&mut self, datagram: Vec<u8>, room: usize) -> (res: Vec<u8>)
        requires
            old(self).wf(),
        ensures
            final(self).wf(),
            datagram@.len() == 0 ==> final(self).ended() && res@.len() == 0
                && final(self).pending() == old(self).pending(),
            datagram@.len() > 0 ==> {
                let n = if room < datagram@.len() { room as int } else { datagram@.len() as int };
                &&& res@ == datagram@.take(n)
                &&& final(self).pending() == datagram@.skip(n)
                &&& final(self).ended() == old(self).ended()
            },
    {
        if datagram.len() == 0 {
            self.eof = true;
            return Vec::new();
        }
        let n = if room < datagram.len() { room } else { datagram.len() };
        let mut out: Vec<u8> = Vec::new();
        let mut i: usize = 0;
        while i < n
            invariant
                n <= datagram@.len(),
                i <= n,
                out@ == datagram@.take(i as int),
            decreases n - i,
        {
            out.push(datagram[i]);
            assert(datagram@.take(i + 1) =~= datagram@.take(i as int).push(datagram@[i as int]));
            i = i + 1;
        }
        self.buf = datagram;
        self.pos = n;
        out
    }

    /// A receive failed with `kind`: a closed peer ends the stream, a
    /// receive that would block is tried again, anything else fails the read.
    pub fn receive_failed(&mut self, kind: RecvErrorKind) -> (res: RecvOutcome)
        requires
            old(self).wf(),
        ensures
            final(self).wf(),
            final(self).pending() == old(self).pending(),
            res == (match kind {
                RecvErrorKind::BrokenPipe | RecvErrorKind::UnexpectedEof | RecvErrorKind::ConnectionReset => RecvOutcome::Eof,
                RecvErrorKind::WouldBlock => RecvOutcome::Retry,
                RecvErrorKind::Other => RecvOutcome::Fail,
            }),
            final(self).ended() == (old(self).ended() || res == RecvOutcome::Eof),
    {
        match kind {
            RecvErrorKind::BrokenPipe | RecvErrorKind::UnexpectedEof | RecvErrorKind::ConnectionReset => {
                self.eof = true;
                RecvOutcome::Eof
            },
            RecvErrorKind::WouldBlock => RecvOutcome::Retry,
            RecvErrorKind::Other => RecvOutcome::Fail,
        }
    }
}

/// No boundary cuts data: what a read hands out, followed by what stays
/// buffered, is exactly what was buffered (or, after a receive, the whole
/// datagram).
pub proof fn lemma_reads_keep_every_byte(pending: Seq<u8>, n: int)
    requires
        0 <= n <= pending.len(),
    ensures
        pending.take(n) + pending.skip(n) == pending,
{
    assert(pending.take(n) + pending.skip(n) =~= pending);
}

} // verus!
