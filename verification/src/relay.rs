use vstd::prelude::*;

verus! {

/// What one read from a relay direction's source reports.
pub enum ReadEvent {
    /// Bytes read into the copy buffer.
    Data(Vec<u8>),
    /// A read error on the source.
    Failed,
}

/// The pump's reaction to one read.
pub enum PumpAction {
    /// Write these bytes, whole and in order, to the destination.
    Forward(Vec<u8>),
    /// The source is done: shut down the destination's write side.
    ShutdownDest,
    /// A failure: abort the whole relay, both directions.
    Abort,
}

/// One step of a relay direction: read bytes are forwarded unchanged, a
/// read of length zero is end-of-stream and shuts the destination down,
/// and an error aborts the relay.
pub fn pump_step(e: ReadEvent) -> (a: PumpAction)
    ensures
        match e {
            ReadEvent::Data(d) => if d@.len() == 0 {
                a matches PumpAction::ShutdownDest
            } else {
                a matches PumpAction::Forward(f) && f@ == d@
            },
            ReadEvent::Failed => a matches PumpAction::Abort,
        },
{
    match e {
        ReadEvent::Data(d) => if d.len() == 0 {
            PumpAction::ShutdownDest
        } else {
            PumpAction::Forward(d)
        },
        ReadEvent::Failed => PumpAction::Abort,
    }
}

/// One relay direction over an in-memory source: reads the source
/// through a copy buffer of `bufsize` bytes at a time and writes each
/// chunk to the destination. The destination receives exactly the
/// source's bytes, unmodified and in order, and the reported total is
/// the source's length.
pub fn relay_direction(source: &Vec<u8>, bufsize: usize) -> (r: (Vec<u8>, usize))
    requires
        bufsize >= 1,
    ensures
        r.0@ == source@,
        r.1 == source@.len(),
{
    let n = source.len();
    let mut dest: Vec<u8> = Vec::new();
    let mut i: usize = 0;
    proof {
        assert(dest@ =~= source@.take(0));
    }
    while i < n
        invariant
            0 <= i <= n,
            n == source@.len(),
            bufsize >= 1,
            dest@ == source@.take(i as int),
        decreases n - i,
    {
        // one read: at most `bufsize` bytes from the source
        let end: usize = if n - i < bufsize {
            n
        } else {
            i + bufsize
        };
        let mut j: usize = i;
        while j < end
            invariant
                i <= j <= end <= n,
                n == source@.len(),
                dest@ == source@.take(j as int),
            decreases end - j,
        {
            // one write: the chunk goes through unchanged
            dest.push(source[j]);
            proof {
                assert(source@.take(j + 1) =~= source@.take(j as int).push(source@[j as int]));
            }
            j = j + 1;
        }
        i = end;
    }
    proof {
        assert(source@.take(n as int) =~= source@);
    }
    let total = dest.len();
    (dest, total)
}

/// A whole relay pair over in-memory endpoints: what the left endpoint
/// wrote arrives at the right endpoint unmodified and in order, and the
/// other way round. The relay is over only when both directions are,
/// and each direction's byte total is reported.
pub fn relay_pair(left_out: &Vec<u8>, right_out: &Vec<u8>, bufsize: usize) -> (r: (
    (Vec<u8>, usize),
    (Vec<u8>, usize),
))
    requires
        bufsize >= 1,
    ensures
        r.0.0@ == left_out@ && r.0.1 == left_out@.len(),
        r.1.0@ == right_out@ && r.1.1 == right_out@.len(),
{
    let to_right = relay_direction(left_out, bufsize);
    let to_left = relay_direction(right_out, bufsize);
    (to_right, to_left)
}

} // verus!
