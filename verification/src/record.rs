//! Recording session state machine.
//!
//! A session runs `Idle -> CountingDown(3, 2, 1) -> Recording -> Finalizing
//! -> Idle`.  While recording, every data-available notification appends one
//! binary chunk to an ordered buffer; finalization concatenates the buffered
//! chunks, in arrival order, into the finished artifact.
//!
//! The asynchronous work around the machine — waiting out each countdown
//! second, acquiring the microphone, starting and stopping the sink — is the
//! caller's: the machine only decides, and says through its results what the
//! caller should do next.

use vstd::prelude::*;

verus! {

/// The recording states.  `CountingDown { n }` with `n` of 3, 2 or 1 shows
/// the digit `n`; `n == 0` means the countdown has elapsed and the recording
/// setup (microphone and sink) is in flight.
#[derive(Clone, Copy, PartialEq, Eq, Structural, Debug)]
pub enum RecState {
    Idle,
    CountingDown { n: u8 },
    Recording,
    Finalizing,
}

/// A recording session: the state and the ordered chunk buffer.
pub struct RecordingSession {
    pub state: RecState,
    pub chunks: Vec<Vec<u8>>,
}

impl RecordingSession {
    /// The countdown never shows a digit above 3.
    pub open spec fn wf(self) -> bool {
        match self.state {
            RecState::CountingDown { n } => n <= 3,
            _ => true,
        }
    }

    /// The buffered chunks as a sequence of byte strings, oldest first.
    pub open spec fn buffered(self) -> Seq<Seq<u8>> {
        self.chunks.deep_view()
    }

    /// The digit to display, if a countdown is running.
    pub open spec fn countdown_digit(self) -> Option<u8> {
        match self.state {
            RecState::CountingDown { n } => if n >= 1 {
                Some(n)
            } else {
                None
            },
            _ => None,
        }
    }

    /// A fresh session: idle, nothing buffered.
    pub fn new() -> (r: RecordingSession)
        ensures
            r.state == RecState::Idle,
            r.buffered() == Seq::<Seq<u8>>::empty(),
            r.wf(),
    {
        let r = RecordingSession { state: RecState::Idle, chunks: Vec::new() };
        proof {
            assert(r.buffered() =~= Seq::<Seq<u8>>::empty());
        }
        r
    }

    /// Ask to start a recording.  Accepted only from `Idle` — the machine has
    /// no re-entrant path — and begins the countdown at 3; rejected in every
    /// other state, which it leaves untouched.
    pub fn request_start(&mut self) -> (accepted: bool)
        requires
            old(self).wf(),
        ensures
            accepted == (old(self).state == RecState::Idle),
            accepted ==> final(self).state == (RecState::CountingDown { n: 3 }),
            !accepted ==> final(self).state == old(self).state,
            final(self).chunks == old(self).chunks,
            final(self).wf(),
    {
        match self.state {
            RecState::Idle => {
                self.state = RecState::CountingDown { n: 3 };
                true
            },
            _ => false,
        }
    }

    /// One countdown second has elapsed.  A running countdown decrements;
    /// when it reaches zero the caller must begin the recording setup
    /// (acquire the microphone, combine it with the surface stream, start the
    /// sink) and report through `finish_setup`.  In any other state the tick
    /// is ignored.
    pub fn tick_second(&mut self) -> (begin_setup: bool)
        requires
            old(self).wf(),
        ensures
            ({
                let s = *old(self);
                match s.state {
                    RecState::CountingDown { n } => if n >= 1 {
                        final(self).state == (RecState::CountingDown { n: (n - 1) as u8 })
                            && begin_setup == (n == 1)
                    } else {
                        final(self).state == s.state && !begin_setup
                    },
                    _ => final(self).state == s.state && !begin_setup,
                }
            }),
            final(self).chunks == old(self).chunks,
            final(self).wf(),
    {
        match self.state {
            RecState::CountingDown { n } => {
                if n >= 1 {
                    self.state = RecState::CountingDown { n: n - 1 };
                    n == 1
                } else {
                    false
                }
            },
            _ => false,
        }
    }

    /// The recording setup finished.  Only an elapsed countdown (digit 0) is
    /// waiting for it: success clears the buffer and starts recording;
    /// failure aborts back to `Idle`.  A result arriving in any other state —
    /// the setup was superseded — is discarded.
    pub fn finish_setup(&mut self, ok: bool)
        requires
            old(self).wf(),
        ensures
            ({
                let s = *old(self);
                if s.state == (RecState::CountingDown { n: 0 }) {
                    if ok {
                        final(self).state == RecState::Recording && final(self).buffered()
                            =~= Seq::<Seq<u8>>::empty()
                    } else {
                        final(self).state == RecState::Idle && final(self).chunks == s.chunks
                    }
                } else {
                    final(self).state == s.state && final(self).chunks == s.chunks
                }
            }),
            final(self).wf(),
    {
        match self.state {
            RecState::CountingDown { n } => {
                if n == 0 {
                    if ok {
                        self.state = RecState::Recording;
                        self.chunks = Vec::new();
                        proof {
                            assert(self.buffered() =~= Seq::<Seq<u8>>::empty());
                        }
                    } else {
                        self.state = RecState::Idle;
                    }
                }
            },
            _ => {},
        }
    }

    /// A data-available notification: append one chunk, preserving arrival
    /// order.  Chunks are accepted while recording and while the sink
    /// flushes during finalization; in any other state the data is dropped.
    pub fn push_chunk(&mut self, data: Vec<u8>)
        requires
            old(self).wf(),
        ensures
            final(self).state == old(self).state,
            (old(self).state == RecState::Recording || old(self).state == RecState::Finalizing)
                ==> final(self).buffered() == old(self).buffered().push(data@),
            !(old(self).state == RecState::Recording || old(self).state == RecState::Finalizing)
                ==> final(self).chunks == old(self).chunks,
            final(self).wf(),
    {
        match self.state {
            RecState::Recording | RecState::Finalizing => {
                self.chunks.push(data);
                proof {
                    assert(self.buffered() =~~= old(self).buffered().push(data@));
                }
            },
            _ => {},
        }
    }

    /// Ask to stop — the explicit stop control, or the implicit stop when an
    /// associated picture-in-picture window closes.  Accepted only while
    /// recording: the session starts finalizing and the caller must tell the
    /// sink to stop, reporting back through `finish_stop`.
    pub fn request_stop(&mut self) -> (accepted: bool)
        requires
            old(self).wf(),
        ensures
            accepted == (old(self).state == RecState::Recording),
            accepted ==> final(self).state == RecState::Finalizing,
            !accepted ==> final(self).state == old(self).state,
            final(self).chunks == old(self).chunks,
            final(self).wf(),
    {
        match self.state {
            RecState::Recording => {
                self.state = RecState::Finalizing;
                true
            },
            _ => false,
        }
    }

    /// The sink's stop notification fired.  If the session was finalizing,
    /// the buffered chunks are concatenated, in arrival order, into one
    /// artifact, the buffer is cleared and the session returns to `Idle`; an
    /// empty buffer yields no artifact.  In any other state nothing happens.
    pub fn finish_stop(&mut self) -> (artifact: Option<Vec<u8>>)
        requires
            old(self).wf(),
        ensures
            old(self).state == RecState::Finalizing ==> final(self).state == RecState::Idle
                && final(self).buffered() =~= Seq::<Seq<u8>>::empty() && (artifact is Some
                <==> old(self).buffered().len() > 0) && (artifact matches Some(bytes)
                ==> bytes@ == old(self).buffered().flatten()),
            old(self).state != RecState::Finalizing ==> final(self).state == old(self).state
                && final(self).chunks == old(self).chunks && artifact is None,
            final(self).wf(),
    {
        match self.state {
            RecState::Finalizing => {
                self.state = RecState::Idle;
                let joined = concat_chunks(&self.chunks);
                let had_data = self.chunks.len() > 0;
                self.chunks = Vec::new();
                proof {
                    assert(self.buffered() =~= Seq::<Seq<u8>>::empty());
                    if old(self).buffered().len() == 0 {
                        assert(old(self).buffered().flatten() =~= Seq::<u8>::empty());
                    }
                }
                if had_data {
                    Some(joined)
                } else {
                    None
                }
            },
            _ => None,
        }
    }
}

/// The ASCII digits of `n` written with two places, zero padded.
pub open spec fn two_digits(n: int) -> Seq<u8> {
    seq![(0x30 + n / 10) as u8, (0x30 + n % 10) as u8]
}

/// The ASCII digits of a year written with four places, zero padded.
pub open spec fn four_digits(n: int) -> Seq<u8> {
    two_digits(n / 100) + two_digits(n % 100)
}

/// The suggested artifact filename for a recording finished at the given
/// local time: `demo YYYY-MM-DD HH:MM.webm`, as ASCII bytes.
pub open spec fn filename_bytes(
    year: int,
    month: int,
    day: int,
    hour: int,
    minute: int,
) -> Seq<u8> {
    seq![0x64u8, 0x65u8, 0x6du8, 0x6fu8, 0x20u8]  // "demo "
     + four_digits(year) + seq![0x2du8] + two_digits(month) + seq![0x2du8] + two_digits(day)
        + seq![0x20u8] + two_digits(hour) + seq![0x3au8] + two_digits(minute) + seq![
        0x2eu8,
        0x77u8,
        0x65u8,
        0x62u8,
        0x6du8,
    ]  // ".webm"
}

/// Push the two zero-padded ASCII digits of `n` onto `out`.
fn push_two_digits(out: &mut Vec<u8>, n: u16)
    requires
        n < 100,
    ensures
        final(out)@ == old(out)@ + two_digits(n as int),
{
    out.push(0x30 + (n / 10) as u8);
    out.push(0x30 + (n % 10) as u8);
    proof {
        assert(final(out)@ =~= old(out)@ + two_digits(n as int));
    }
}

/// Build the suggested filename, `demo YYYY-MM-DD HH:MM.webm`, for the
/// file-output collaborator, from a human-readable local timestamp.
pub fn suggest_filename(year: u16, month: u16, day: u16, hour: u16, minute: u16) -> (r: Vec<u8>)
    requires
        year <= 9999,
        1 <= month <= 12,
        1 <= day <= 31,
        hour <= 23,
        minute <= 59,
    ensures
        r@ == filename_bytes(year as int, month as int, day as int, hour as int, minute as int),
{
    let mut out: Vec<u8> = Vec::new();
    out.push(0x64);
    out.push(0x65);
    out.push(0x6d);
    out.push(0x6f);
    out.push(0x20);
    let ghost prefix = out@;
    push_two_digits(&mut out, year / 100);
    push_two_digits(&mut out, year % 100);
    proof {
        assert(out@ =~= prefix + four_digits(year as int));
    }
    out.push(0x2d);
    push_two_digits(&mut out, month);
    out.push(0x2d);
    push_two_digits(&mut out, day);
    out.push(0x20);
    push_two_digits(&mut out, hour);
    out.push(0x3a);
    push_two_digits(&mut out, minute);
    out.push(0x2e);
    out.push(0x77);
    out.push(0x65);
    out.push(0x62);
    out.push(0x6d);
    proof {
        assert(out@ =~= filename_bytes(
            year as int,
            month as int,
            day as int,
            hour as int,
            minute as int,
        ));
    }
    out
}

/// Concatenate an ordered list of binary chunks into one byte string.
pub fn concat_chunks(chunks: &Vec<Vec<u8>>) -> (r: Vec<u8>)
    ensures
        r@ == chunks.deep_view().flatten(),
{
    let mut r: Vec<u8> = Vec::new();
    let mut i: usize = 0;
    proof {
        assert(r@ =~= chunks.deep_view().take(0).flatten());
    }
    while i < chunks.len()
        invariant
            0 <= i <= chunks.len(),
            r@ == chunks.deep_view().take(i as int).flatten(),
        decreases chunks.len() - i,
    {
        let ghost pre = r@;
        r.extend_from_slice(chunks[i].as_slice());
        proof {
            assert(r@ =~= pre + chunks.deep_view()[i as int]);
            chunks.deep_view().take(i as int).lemma_flatten_push(chunks.deep_view()[i as int]);
            assert(chunks.deep_view().take(i as int).push(chunks.deep_view()[i as int])
                =~= chunks.deep_view().take(i + 1));
        }
        i = i + 1;
    }
    proof {
        assert(chunks.deep_view().take(chunks.len() as int) =~= chunks.deep_view());
    }
    r
}

} // verus!
