use vstd::prelude::*;

verus! {

/// Where a repositioning of the write cursor is measured from: an absolute
/// offset, the end of the written data, or the current cursor position.
#[derive(Clone, Copy, Debug, PartialEq, Eq, Structural)]
pub enum SeekFrom {
    Start(u64),
    End(i64),
    Current(i64),
}

/// The state a content buffer presents in contracts: its MIME tag, the bytes
/// accumulated so far, and the write cursor.
pub ghost struct ContentView {
    pub mime: Seq<char>,
    pub data: Seq<u8>,
    pub pos: nat,
}

/// An in-memory growable byte sink tagged with a MIME type. A converter
/// fills it with compressed bytes; the emitter then reads it out. Writes go
/// through a cursor that can be repositioned, because an image codec may
/// revisit earlier output to patch it.
#[derive(Debug)]
pub struct EvcxrContent {
    pub(crate) mime_type: String,
    pub(crate) data: Vec<u8>,
    pub(crate) pos: u64,
}

impl View for EvcxrContent {
    type V = ContentView;

    closed spec fn view(&self) -> ContentView {
        ContentView { mime: self.mime_type@, data: self.data@, pos: self.pos as nat }
    }
}

/// The bytes after writing `bytes` into `data` at offset `pos`: existing
/// bytes are overwritten in place, the store grows when the write runs past
/// its end, and any gap between the old end and `pos` is filled with zeros.
/// Nothing is ever truncated.
pub open spec fn write_at(data: Seq<u8>, pos: nat, bytes: Seq<u8>) -> Seq<u8> {
    Seq::new(
        if pos + bytes.len() > data.len() {
            pos + bytes.len()
        } else {
            data.len()
        },
        |i: int|
            if pos <= i < pos + bytes.len() {
                bytes[i - pos]
            } else if i < data.len() {
                data[i]
            } else {
                0u8
            },
    )
}

/// The cursor position a seek lands on, or `None` when the request resolves
/// to a negative offset or one beyond the cursor's range.
pub open spec fn seek_target(data_len: nat, pos: nat, from: SeekFrom) -> Option<int> {
    match from {
        SeekFrom::Start(n) => Some(n as int),
        SeekFrom::End(off) => if 0 <= data_len + off <= u64::MAX {
            Some(data_len + off)
        } else {
            None
        },
        SeekFrom::Current(off) => if 0 <= pos + off <= u64::MAX {
            Some(pos + off)
        } else {
            None
        },
    }
}

impl EvcxrContent {
    /// How the fields make up the view, for the crate's other modules.
    pub(crate) proof fn lemma_view(&self)
        ensures
            self@.mime == self.mime_type@,
            self@.data == self.data@,
            self@.pos == self.pos as nat,
    {
    }

    /// An empty buffer tagged with the given MIME type, cursor at the start.
    /// The tag is not validated: callers are trusted to pick one consistent
    /// with the bytes they will write.
    pub fn new(mime_type: &str) -> (r: Self)
        ensures
            r@.mime == mime_type@,
            r@.data == Seq::<u8>::empty(),
            r@.pos == 0,
    {
        EvcxrContent { mime_type: mime_type.to_owned(), data: Vec::new(), pos: 0 }
    }

    /// A buffer holding already-produced bytes under the given MIME type,
    /// cursor at the start.
    pub fn from_parts(mime_type: &str, data: Vec<u8>) -> (r: Self)
        ensures
            r@.mime == mime_type@,
            r@.data == data@,
            r@.pos == 0,
    {
        EvcxrContent { mime_type: mime_type.to_owned(), data, pos: 0 }
    }

    /// The MIME type this buffer was constructed with.
    pub fn mime_type(&self) -> (r: &str)
        ensures
            r@ == self@.mime,
    {
        self.mime_type.as_str()
    }

    /// The bytes written so far.
    pub fn bytes(&self) -> (r: &[u8])
        ensures
            r@ == self@.data,
    {
        self.data.as_slice()
    }

    /// The current cursor position.
    pub fn position(&self) -> (r: u64)
        ensures
            r == self@.pos,
    {
        self.pos
    }

    /// Writes all of `buf` at the cursor and advances it. In-memory writes
    /// never come up short, so the count returned is always the full length.
    pub fn write(&mut self, buf: &[u8]) -> (r: Result<usize, crate::ContentError>)
        requires
            old(self)@.pos + buf@.len() <= usize::MAX,
        ensures
            r == Ok::<usize, crate::ContentError>(buf@.len() as usize),
            final(self)@.mime == old(self)@.mime,
            final(self)@.data == write_at(old(self)@.data, old(self)@.pos, buf@),
            final(self)@.pos == old(self)@.pos + buf@.len(),
    {
        let start: usize = self.pos as usize;
        while self.data.len() < start
            invariant
                start + buf@.len() <= usize::MAX,
                self.data@.len() >= old(self)@.data.len(),
                self.data@.len() <= start || self.data@.len() == old(self)@.data.len(),
                self.mime_type@ == old(self)@.mime,
                self.pos == old(self)@.pos,
                forall|i: int|
                    0 <= i < self.data@.len() ==> self.data@[i] == (
                    if i < old(self)@.data.len() {
                        old(self)@.data[i]
                    } else {
                        0u8
                    }),
            decreases start - self.data.len(),
        {
            self.data.push(0u8);
        }
        let ghost padded: Seq<u8> = self.data@;
        let mut k: usize = 0;
        while k < buf.len()
            invariant
                start + buf@.len() <= usize::MAX,
                k <= buf@.len(),
                padded.len() >= start,
                self.mime_type@ == old(self)@.mime,
                self.pos == old(self)@.pos,
                self.data@.len() == if start + k > padded.len() {
                    start + k
                } else {
                    padded.len() as int
                },
                forall|i: int|
                    0 <= i < self.data@.len() ==> self.data@[i] == (
                    if start <= i < start + k {
                        buf@[i - start]
                    } else {
                        padded[i]
                    }),
            decreases buf@.len() - k,
        {
            if start + k < self.data.len() {
                let idx: usize = start + k;
                self.data[idx] = buf[k];
            } else {
                self.data.push(buf[k]);
            }
            k = k + 1;
        }
        assert(self.data@ =~= write_at(old(self)@.data, old(self)@.pos, buf@));
        self.pos = (start + buf.len()) as u64;
        Ok(buf.len())
    }

    /// Repositions the cursor; the data is untouched. A request that lands
    /// before the start or past the cursor's range is refused.
    pub fn seek(&mut self, from: SeekFrom) -> (r: Result<u64, crate::ContentError>)
        ensures
            final(self)@.mime == old(self)@.mime,
            final(self)@.data == old(self)@.data,
            match seek_target(old(self)@.data.len(), old(self)@.pos, from) {
                Some(p) => r == Ok::<u64, crate::ContentError>(p as u64) && final(self)@.pos == p,
                None => r == Err::<u64, crate::ContentError>(crate::ContentError::SinkFailure)
                    && final(self)@.pos == old(self)@.pos,
            },
    {
        match from {
            SeekFrom::Start(n) => {
                self.pos = n;
                Ok(n)
            },
            SeekFrom::End(off) => {
                let base: u64 = self.data.len() as u64;
                self.seek_relative(base, off)
            },
            SeekFrom::Current(off) => {
                let base: u64 = self.pos;
                self.seek_relative(base, off)
            },
        }
    }

    /// Moves the cursor to `base + off` when that stays within the cursor's
    /// range, and refuses the request otherwise.
    fn seek_relative(&mut self, base: u64, off: i64) -> (r: Result<u64, crate::ContentError>)
        ensures
            final(self)@.mime == old(self)@.mime,
            final(self)@.data == old(self)@.data,
            if 0 <= base + off <= u64::MAX {
                r == Ok::<u64, crate::ContentError>((base + off) as u64)
                    && final(self)@.pos == base + off
            } else {
                r == Err::<u64, crate::ContentError>(crate::ContentError::SinkFailure)
                    && final(self)@.pos == old(self)@.pos
            },
    {
        if off >= 0 {
            let step: u64 = off as u64;
            if base <= u64::MAX - step {
                self.pos = base + step;
                Ok(self.pos)
            } else {
                Err(crate::ContentError::SinkFailure)
            }
        } else {
            let step: u64 = ((-(off + 1)) as u64) + 1;
            if base >= step {
                self.pos = base - step;
                Ok(self.pos)
            } else {
                Err(crate::ContentError::SinkFailure)
            }
        }
    }

    /// Nothing is buffered beyond the in-memory store itself, so there is
    /// nothing to drain.
    pub fn flush(&mut self) -> (r: Result<(), crate::ContentError>)
        ensures
            final(self)@ == old(self)@,
            r == Ok::<(), crate::ContentError>(()),
    {
        Ok(())
    }
}

} // verus!
