//! Random access to the bytes of a file: the operations a program performs on
//! an open read-write file, and an in-memory file that gives them meaning.
use vstd::prelude::*;
use vstd::string::StringSliceAdditionalSpecFns;

verus! {

/// One operation on an open file.
#[derive(Debug, Clone, PartialEq, Eq)]
pub enum FileOp {
    /// Write all the bytes at the cursor, which then moves past them.
    Write(Vec<u8>),
    /// Move the cursor to an absolute offset from the start.
    SeekStart(u64),
    /// Read everything from the cursor to the end.
    ReadToEnd,
}

/// `n` zero bytes.
pub open spec fn zeros(n: nat) -> Seq<u8> {
    Seq::new(n, |i: int| 0u8)
}

/// The contents after writing `bytes` at offset `pos`: writing nothing
/// changes nothing; otherwise a gap between the old end and `pos` reads as
/// zeros, the written range holds `bytes`, and all other bytes are kept.
pub open spec fn write_at(content: Seq<u8>, pos: nat, bytes: Seq<u8>) -> Seq<u8> {
    if bytes.len() == 0 {
        content
    } else {
        write_nonempty_at(content, pos, bytes)
    }
}

/// The contents after writing a non-empty `bytes` at offset `pos`.
pub open spec fn write_nonempty_at(content: Seq<u8>, pos: nat, bytes: Seq<u8>) -> Seq<u8> {
    let padded = if pos > content.len() {
        content + zeros((pos - content.len()) as nat)
    } else {
        content
    };
    let end = pos + bytes.len();
    padded.subrange(0, pos as int) + bytes + if end < padded.len() {
        padded.subrange(end as int, padded.len() as int)
    } else {
        Seq::<u8>::empty()
    }
}

/// What a read from offset `pos` to the end returns.
pub open spec fn read_from(content: Seq<u8>, pos: nat) -> Seq<u8> {
    if pos < content.len() {
        content.subrange(pos as int, content.len() as int)
    } else {
        Seq::<u8>::empty()
    }
}

/// Where the cursor stands after reading to the end from `pos`.
pub open spec fn cursor_after_read(content: Seq<u8>, pos: nat) -> nat {
    if pos < content.len() {
        content.len()
    } else {
        pos
    }
}

/// A file held in memory: its bytes and the cursor.
pub struct ByteFile {
    data: Vec<u8>,
    pos: u64,
}

impl View for ByteFile {
    type V = (Seq<u8>, nat);

    closed spec fn view(&self) -> (Seq<u8>, nat) {
        (self.data@, self.pos as nat)
    }
}

impl ByteFile {
    /// A new, empty file with the cursor at the start.
    pub fn new() -> (f: ByteFile)
        ensures
            f@.0 == Seq::<u8>::empty(),
            f@.1 == 0,
    {
        ByteFile { data: Vec::new(), pos: 0 }
    }

    /// The bytes of the file.
    pub fn contents(&self) -> (c: &Vec<u8>)
        ensures
            c@ == self@.0,
    {
        &self.data
    }

    /// The cursor's offset from the start.
    pub fn position(&self) -> (p: u64)
        ensures
            p == self@.1,
    {
        self.pos
    }

    /// Moves the cursor to `pos` bytes from the start; the contents are kept.
    /// Seeking past the end is allowed.
    pub fn seek_start(&mut self, pos: u64)
        ensures
            final(self)@.0 == old(self)@.0,
            final(self)@.1 == pos,
    {
        self.pos = pos;
    }

    /// Writes all of `bytes` at the cursor and moves the cursor past them.
    /// The written range must fit in memory.
    pub fn write_all(&mut self, bytes: &[u8])
        requires
            old(self)@.1 + bytes@.len() <= usize::MAX,
        ensures
            final(self)@.0 == write_at(old(self)@.0, old(self)@.1, bytes@),
            final(self)@.1 == old(self)@.1 + bytes@.len(),
    {
        if bytes.len() == 0 {
            // An empty write touches neither the contents nor the cursor.
            return;
        }
        let pos: usize = self.pos as usize;
        let old_data = Ghost(self.data@);
        // Fill a gap between the end and the cursor with zeros.
        while self.data.len() < pos
            invariant
                pos == old(self)@.1,
                self.pos == old(self).pos,
                old_data@ == old(self)@.0,
                self.data@.len() <= pos || self.data@.len() == old_data@.len(),
                self.data@ == old_data@ + zeros((self.data@.len() - old_data@.len()) as nat),
                self.data@.len() >= old_data@.len(),
            decreases pos - self.data@.len(),
        {
            self.data.push(0u8);
            assert(self.data@ =~= old_data@ + zeros((self.data@.len() - old_data@.len()) as nat));
        }
        let ghost padded = self.data@;
        assert(padded =~= if pos > old_data@.len() {
            old_data@ + zeros((pos - old_data@.len()) as nat)
        } else {
            old_data@
        });
        let n = bytes.len();
        let mut i: usize = 0;
        while i < n
            invariant
                n == bytes@.len(),
                pos + n <= usize::MAX,
                i <= n,
                padded.len() >= pos,
                self.data@.len() == if pos + i > padded.len() { (pos + i) as nat } else { padded.len() },
                forall|k: int| 0 <= k < pos ==> self.data@[k] == padded[k],
                forall|k: int| 0 <= k < i ==> self.data@[pos + k] == bytes@[k],
                forall|k: int| pos + i <= k < self.data@.len() ==> self.data@[k] == padded[k],
                self.pos == old(self).pos,
            decreases n - i,
        {
            if pos + i < self.data.len() {
                self.data.set(pos + i, bytes[i]);
            } else {
                self.data.push(bytes[i]);
            }
            i = i + 1;
        }
        proof {
            let expect = write_at(old(self)@.0, old(self)@.1, bytes@);
            assert(self.data@ =~= expect);
        }
        self.pos = (pos + n) as u64;
    }

    /// Reads from the cursor to the end and moves the cursor to the end.
    /// From a cursor past the end nothing is read and the cursor stays.
    pub fn read_to_end(&mut self) -> (out: Vec<u8>)
        ensures
            out@ == read_from(old(self)@.0, old(self)@.1),
            final(self)@.0 == old(self)@.0,
            final(self)@.1 == cursor_after_read(old(self)@.0, old(self)@.1),
    {
        let mut out: Vec<u8> = Vec::new();
        let len = self.data.len();
        if (self.pos as u128) < (len as u128) {
            let start: usize = self.pos as usize;
            let mut i: usize = start;
            while i < len
                invariant
                    start <= i <= len,
                    len == self.data@.len(),
                    out@ == self.data@.subrange(start as int, i as int),
                decreases len - i,
            {
                out.push(self.data[i]);
                i = i + 1;
                assert(out@ =~= self.data@.subrange(start as int, i as int));
            }
            self.pos = len as u64;
        }
        out
    }

    /// Performs one operation; a read gives back what it read.
    pub fn apply(&mut self, op: &FileOp) -> (read: Option<Vec<u8>>)
        requires
            op is Write ==> old(self)@.1 + op->Write_0@.len() <= usize::MAX,
        ensures
            match op {
                FileOp::Write(bytes) => {
                    &&& read is None
                    &&& final(self)@.0 == write_at(old(self)@.0, old(self)@.1, bytes@)
                    &&& final(self)@.1 == old(self)@.1 + bytes@.len()
                },
                FileOp::SeekStart(p) => {
                    &&& read is None
                    &&& final(self)@ == (old(self)@.0, *p as nat)
                },
                FileOp::ReadToEnd => {
                    &&& read is Some
                    &&& read->0@ == read_from(old(self)@.0, old(self)@.1)
                    &&& final(self)@ == (old(self)@.0, cursor_after_read(old(self)@.0, old(self)@.1))
                },
            },
    {
        match op {
            FileOp::Write(bytes) => {
                self.write_all(bytes.as_slice());
                None
            },
            FileOp::SeekStart(p) => {
                self.seek_start(*p);
                None
            },
            FileOp::ReadToEnd => Some(self.read_to_end()),
        }
    }
}

/// The text first written by the random-access demonstration.
pub open spec fn demo_text() -> Seq<u8> {
    "Hello, Rust  random access!".spec_bytes()
}

/// The text then written over the middle of it.
pub open spec fn demo_patch() -> Seq<u8> {
    "world".spec_bytes()
}

/// Where the patch is written: just after "Hello, ".
pub const DEMO_OFFSET: u64 = 7;

/// The operations of the random-access demonstration, in order: write the
/// text, seek to just after "Hello, ", write "world" there, seek back to the
/// start and read the whole file.
pub fn random_access_script() -> (ops: Vec<FileOp>)
    ensures
        ops@.len() == 5,
        ops@[0] matches FileOp::Write(b) && b@ == demo_text(),
        ops@[1] == FileOp::SeekStart(DEMO_OFFSET),
        ops@[2] matches FileOp::Write(b) && b@ == demo_patch(),
        ops@[3] == FileOp::SeekStart(0),
        ops@[4] == FileOp::ReadToEnd,
{
    let text = vstd::slice::slice_to_vec("Hello, Rust  random access!".as_bytes());
    let patch = vstd::slice::slice_to_vec("world".as_bytes());
    let mut ops: Vec<FileOp> = Vec::new();
    ops.push(FileOp::Write(text));
    ops.push(FileOp::SeekStart(DEMO_OFFSET));
    ops.push(FileOp::Write(patch));
    ops.push(FileOp::SeekStart(0));
    ops.push(FileOp::ReadToEnd);
    ops
}

/// A read from the offset of a write gives back the written bytes first, and
/// the bytes before the offset are those that were there (zeros in a gap).
/// A non-empty write makes the file end at the later of its old end and the
/// end of the write; an empty write leaves it as it was.
pub proof fn lemma_read_back_write(content: Seq<u8>, pos: nat, bytes: Seq<u8>)
    ensures
        read_from(write_at(content, pos, bytes), pos).subrange(0, bytes.len() as int) == bytes,
        write_at(content, pos, bytes).len() == if bytes.len() > 0 && pos + bytes.len()
            > content.len() {
            pos + bytes.len()
        } else {
            content.len()
        },
        forall|k: int|
            0 <= k < pos && k < write_at(content, pos, bytes).len() ==> write_at(content, pos, bytes)[k]
                == if k < content.len() {
            content[k]
        } else {
            0u8
        },
        forall|k: int| pos + bytes.len() <= k < content.len() ==> write_at(content, pos, bytes)[k]
            == content[k],
{
    let w = write_at(content, pos, bytes);
    if bytes.len() > 0 {
        assert(read_from(w, pos).subrange(0, bytes.len() as int) =~= bytes);
    } else {
        assert(read_from(w, pos).subrange(0, 0) =~= bytes);
    }
}

/// The text the demonstration reads back at the end.
pub open spec fn demo_result() -> Seq<u8> {
    "Hello, world random access!".spec_bytes()
}

/// Running the demonstration on an empty file: after writing the text at the
/// start and "world" just after "Hello, ", reading from the start gives
/// "Hello, world random access!".
pub proof fn lemma_demo_reads_patched_text()
    ensures
        read_from(
            write_at(write_at(Seq::<u8>::empty(), 0, demo_text()), DEMO_OFFSET as nat, demo_patch()),
            0,
        ) == demo_result(),
{
    reveal_strlit("Hello, Rust  random access!");
    reveal_strlit("world");
    reveal_strlit("Hello, world random access!");
    let t = "Hello, Rust  random access!"@;
    let p = "world"@;
    let r = "Hello, world random access!"@;
    assert(vstd::utf8::is_ascii_chars(t));
    assert(vstd::utf8::is_ascii_chars(p));
    assert(vstd::utf8::is_ascii_chars(r));
    vstd::utf8::is_ascii_chars_encode_utf8(t);
    vstd::utf8::is_ascii_chars_encode_utf8(p);
    vstd::utf8::is_ascii_chars_encode_utf8(r);
    let w0 = write_at(Seq::<u8>::empty(), 0, demo_text());
    assert(w0 =~= demo_text());
    let w1 = write_at(w0, DEMO_OFFSET as nat, demo_patch());
    assert(read_from(w1, 0) =~= w1);
    assert(w1 =~= demo_result());
}

/// Reading to the end from `pos` returns the bytes from `pos` on, one for one,
/// and leaves the cursor at the end of the file whenever it started inside
/// it: the cursor moves by exactly the number of bytes read, and a second read
/// straight after returns nothing. From a cursor at or past the end nothing is
/// read and the cursor stays.
pub proof fn lemma_read_to_end(content: Seq<u8>, pos: nat)
    ensures
        pos <= content.len() ==> read_from(content, pos).len() == content.len() - pos,
        pos > content.len() ==> read_from(content, pos).len() == 0,
        forall|k: int|
            0 <= k < read_from(content, pos).len() ==> #[trigger] read_from(content, pos)[k]
                == content[pos + k],
        pos < content.len() ==> cursor_after_read(content, pos) == content.len(),
        cursor_after_read(content, pos) == pos + read_from(content, pos).len(),
        read_from(content, cursor_after_read(content, pos)).len() == 0,
        pos >= content.len() ==> cursor_after_read(content, pos) == pos,
{
}

/// Seeking changes only the cursor; writing moves the cursor by exactly the
/// number of bytes written and never shortens the file.
pub proof fn lemma_write_moves_cursor_and_keeps_length(content: Seq<u8>, pos: nat, bytes: Seq<u8>)
    ensures
        write_at(content, pos, bytes).len() >= content.len(),
        bytes.len() > 0 ==> write_at(content, pos, bytes).len() >= pos + bytes.len(),
        forall|k: int|
            0 <= k < bytes.len() ==> #[trigger] write_at(content, pos, bytes)[pos + k] == bytes[k],
{
    if bytes.len() > 0 {
        let w = write_at(content, pos, bytes);
        assert forall|k: int| 0 <= k < bytes.len() implies #[trigger] w[pos + k] == bytes[k] by {
        }
    }
}

} // verus!
