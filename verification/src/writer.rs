//! The verified handle lifecycle around one streaming zstd compressor.

use vstd::prelude::*;

use crate::codec;

verus! {

/// One live streaming compressor, bound to an in-memory sink.
///
/// The view of a writer is the sequence of raw bytes fed to it so far.
/// `close` consumes the writer and hands back the finished compressed frame,
/// pinned by contract to `codec::frame_bytes` of the level and that view.
pub struct ZstdWriter {
    enc: codec::RawEncoder,
    level: i32,
    fed: Ghost<Seq<u8>>,
    intact: Ghost<bool>,
}

impl View for ZstdWriter {
    type V = Seq<u8>;

    closed spec fn view(&self) -> Seq<u8> {
        self.fed@
    }
}

impl ZstdWriter {
    /// The compression level this writer was opened with.
    pub closed spec fn level(&self) -> int {
        self.level as int
    }

    /// Whether every write so far has succeeded. After a failed write the
    /// codec's internal state is unspecified and nothing more is promised of
    /// the frame.
    pub closed spec fn intact(&self) -> bool {
        self.intact@
    }

    /// The writer's internal invariant: while intact, the codec has been fed
    /// exactly the bytes of the view, at the level recorded.
    pub closed spec fn wf(&self) -> bool {
        self.intact@ ==> codec::fed_bytes(self.enc) == self.fed@ && codec::fed_level(self.enc)
            == self.level as int
    }

    /// Opens a fresh writer at the requested compression level, with nothing
    /// fed yet. Returns `None` when the codec cannot be initialised, leaving
    /// no resource behind.
    pub fn open(level: i32) -> (r: Option<ZstdWriter>)
        ensures
            r matches Some(w) ==> w.wf() && w.intact() && w@ == Seq::<u8>::empty() && w.level()
                == level as int,
    {
        match codec::encoder_new(level) {
            Ok(enc) => Some(
                ZstdWriter {
                    enc,
                    level,
                    fed: Ghost(Seq::empty()),
                    intact: Ghost(true),
                },
            ),
            Err(_) => None,
        }
    }

    /// Feeds one borrowed buffer to the compressor. A zero-length buffer is
    /// a valid no-op. Returns `0` on success, `-1` on failure; after a
    /// failure the writer is no longer intact and callers should proceed
    /// directly to `close`.
    pub fn write(&mut self, buf: &[u8]) -> (r: i32)
        requires
            old(self).wf(),
        ensures
            final(self).wf(),
            final(self).level() == old(self).level(),
            r == 0 || r == -1,
            r == 0 ==> final(self)@ == old(self)@ + buf@ && (final(self).intact()
                <==> old(self).intact()),
            r == 0 && buf@.len() == 0 ==> final(self)@ == old(self)@,
            r == -1 ==> final(self)@ == old(self)@ && !final(self).intact(),
    {
        let outcome = codec::encoder_write(&mut self.enc, buf);
        let status = io_status(&outcome);
        if status == 0 {
            proof {
                self.fed@ = self.fed@ + buf@;
            }
        } else {
            proof {
                self.intact@ = false;
            }
        }
        status
    }

    /// Feeds a sequence of buffers in order, stopping at the first failure.
    /// On success the bytes fed grow by the concatenation of all the
    /// buffers, in call order: many writes are equivalent to one write of
    /// their concatenation.
    pub fn write_many(&mut self, bufs: &Vec<Vec<u8>>) -> (r: i32)
        requires
            old(self).wf(),
        ensures
            final(self).wf(),
            final(self).level() == old(self).level(),
            r == 0 || r == -1,
            r == 0 ==> final(self)@ == old(self)@ + concat_of(
                bufs@.map_values(|b: Vec<u8>| b@),
            ) && (final(self).intact() <==> old(self).intact()),
            r == -1 ==> !final(self).intact(),
    {
        let ghost views = bufs@.map_values(|b: Vec<u8>| b@);
        proof {
            assert(views.take(0) =~= Seq::<Seq<u8>>::empty());
            assert(old(self)@ + concat_of(views.take(0)) =~= old(self)@);
        }
        let mut i: usize = 0;
        while i < bufs.len()
            invariant
                i <= bufs.len(),
                views == bufs@.map_values(|b: Vec<u8>| b@),
                self.wf(),
                self.level() == old(self).level(),
                self@ == old(self)@ + concat_of(views.take(i as int)),
                self.intact() <==> old(self).intact(),
            decreases bufs.len() - i,
        {
            let status = self.write(bufs[i].as_slice());
            if status != 0 {
                return -1;
            }
            proof {
                lemma_concat_of_take_step(views, i as int);
                assert(views[i as int] == bufs@[i as int]@);
                assert(self@ =~= old(self)@ + concat_of(views.take(i as int + 1)));
            }
            i = i + 1;
        }
        proof {
            assert(views.take(bufs@.len() as int) =~= views);
        }
        0
    }

    /// Ends the stream and consumes the writer unconditionally. On success
    /// the result holds the finished compressed frame; while the writer was
    /// intact, that frame is exactly the codec's frame for the level and the
    /// concatenation, in call order, of every buffer written.
    pub fn close(self) -> (r: Option<Vec<u8>>)
        requires
            self.wf(),
        ensures
            self.intact() ==> (r matches Some(out) ==> out@ == codec::frame_bytes(
                self.level(),
                self@,
            )),
    {
        match codec::encoder_finish(self.enc) {
            Ok(out) => Some(out),
            Err(_) => None,
        }
    }
}

/// Translates a rich outcome into the boundary's status sentinel: `0` for
/// success, `-1` for failure, and nothing else.
pub fn io_status<T>(r: &Result<T, std::io::Error>) -> (s: i32)
    ensures
        s == 0 || s == -1,
        s == 0 <==> r is Ok,
{
    match r {
        Ok(_) => 0,
        Err(_) => -1,
    }
}

/// The concatenation, in order, of a sequence of payloads.
pub open spec fn concat_of(bufs: Seq<Seq<u8>>) -> Seq<u8>
    decreases bufs.len(),
{
    if bufs.len() == 0 {
        Seq::empty()
    } else {
        concat_of(bufs.drop_last()) + bufs.last()
    }
}

/// One step of `concat_of` over a growing prefix.
proof fn lemma_concat_of_take_step(bufs: Seq<Seq<u8>>, i: int)
    requires
        0 <= i < bufs.len(),
    ensures
        concat_of(bufs.take(i + 1)) == concat_of(bufs.take(i)) + bufs[i],
{
    assert(bufs.take(i + 1).drop_last() =~= bufs.take(i));
    assert(bufs.take(i + 1).last() == bufs[i]);
}

/// A zero-length write is a no-op: it leaves the bytes fed unchanged, and so
/// leaves the frame produced at close unchanged, at every level.
pub proof fn lemma_empty_write_is_noop(level: int, data: Seq<u8>, empty: Seq<u8>)
    requires
        empty.len() == 0,
    ensures
        data + empty == data,
        codec::frame_bytes(level, data + empty) == codec::frame_bytes(level, data),
{
    assert(data + empty =~= data);
}

/// Write boundaries carry no framing significance: feeding a payload in two
/// pieces leads to the same bytes fed, and so to the same frame at close, as
/// feeding it whole, at every level.
pub proof fn lemma_split_write_same_frame(level: int, data: Seq<u8>, a: Seq<u8>, b: Seq<u8>)
    ensures
        (data + a) + b == data + (a + b),
        codec::frame_bytes(level, (data + a) + b) == codec::frame_bytes(level, data + (a + b)),
{
    assert((data + a) + b =~= data + (a + b));
}

} // verus!
