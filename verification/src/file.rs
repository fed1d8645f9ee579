use vstd::prelude::*;

use crate::bps::{bps_patch_try, bps_result_matches, spec_bps_patch, BPSError};
use crate::table::NamedTable;

verus! {

/// What std's `str::to_lowercase` makes of a string: each character replaced by its
/// Unicode lowercase mapping.
pub uninterp spec fn spec_lowercase(s: Seq<char>) -> Seq<char>;

/// Calls std's `str::to_lowercase`. Claimed: the result is `spec_lowercase` of the
/// argument, a function of the characters alone (the mapping does not depend on a locale).
#[verifier::external_body]
pub(crate) fn to_lowercase(s: &str) -> (r: String)
    ensures
        r@ == spec_lowercase(s@),
{
    s.to_lowercase()
}

fn copy_bytes(s: &[u8]) -> (r: Vec<u8>)
    ensures
        r@ == s@,
{
    let mut r: Vec<u8> = Vec::new();
    let n = s.len();
    let mut i: usize = 0;
    while i < n
        invariant
            n == s@.len(),
            i <= n,
            r@ == s@.take(i as int),
        decreases n - i,
    {
        r.push(s[i]);
        i = i + 1;
        assert(r@ =~= s@.take(i as int));
    }
    assert(s@.take(n as int) =~= s@);
    r
}

/// The patches to apply to game files as they are opened, by lowercased path.
pub struct FileContext {
    patches: NamedTable<Vec<u8>>,
}

impl FileContext {
    /// The patch bytes stored for each lowercased path.
    pub closed spec fn patches(self) -> Map<Seq<char>, Seq<u8>> {
        self.patches.map().map_values(|v: Vec<u8>| v@)
    }

    pub closed spec fn wf(self) -> bool {
        self.patches.wf()
    }

    pub fn new() -> (r: Self)
        ensures
            r.wf(),
            r.patches() == Map::<Seq<char>, Seq<u8>>::empty(),
    {
        let r = FileContext { patches: NamedTable::new() };
        assert(r.patches() =~= Map::<Seq<char>, Seq<u8>>::empty());
        r
    }

    /// Registers `patch` for the file at `path`; paths are compared lowercased.
    pub fn register_patch(&mut self, path: &str, patch: &[u8])
        requires
            old(self).wf(),
        ensures
            final(self).wf(),
            final(self).patches() == old(self).patches().insert(spec_lowercase(path@), patch@),
    {
        let key = to_lowercase(path);
        let bytes = copy_bytes(patch);
        self.patches.insert(key.as_str(), bytes);
        assert(self.patches() =~= old(self).patches().insert(spec_lowercase(path@), patch@));
    }

    /// The patch registered for `path`, if any.
    pub fn patch_for(&self, path: &str) -> (r: Option<&Vec<u8>>)
        requires
            self.wf(),
        ensures
            r is None <==> !self.patches().contains_key(spec_lowercase(path@)),
            r matches Some(v) ==> v@ == self.patches()[spec_lowercase(path@)],
    {
        let key = to_lowercase(path);
        self.patches.get(key.as_str())
    }

    /// What a file with the contents `contents`, opened at `path`, comes to: unpatched
    /// where no patch is registered for it, else the checked BPS application of the patch,
    /// or `Malformed` where applying it would panic.
    pub fn patch_contents(&self, path: &str, contents: &[u8]) -> (r: FilePatchOutcome)
        requires
            self.wf(),
        ensures
            r is Unpatched <==> !self.patches().contains_key(spec_lowercase(path@)),
            r is Malformed <==> self.patches().contains_key(spec_lowercase(path@)) && spec_bps_patch(
                contents@,
                self.patches()[spec_lowercase(path@)],
                true,
            ) is None,
            r matches FilePatchOutcome::Applied(res) ==> bps_result_matches(
                res,
                spec_bps_patch(contents@, self.patches()[spec_lowercase(path@)], true),
            ),
    {
        match self.patch_for(path) {
            None => FilePatchOutcome::Unpatched,
            Some(p) => match bps_patch_try(contents, p.as_slice(), true) {
                None => FilePatchOutcome::Malformed,
                Some(res) => FilePatchOutcome::Applied(res),
            },
        }
    }
}

/// What a file's contents come to through the patch table.
#[derive(Debug, PartialEq, Eq)]
pub enum FilePatchOutcome {
    /// No patch is registered for the file.
    Unpatched,
    /// The registered patch does not fit the contents: applying it would panic.
    Malformed,
    /// The patched contents, or the error that the patch reports.
    Applied(Result<Vec<u8>, BPSError>),
}

/// A position to seek to, as std's `SeekFrom` gives it.
#[derive(Clone, Copy, Debug, PartialEq, Eq, Structural)]
pub enum SeekPos {
    Start(u64),
    End(i64),
    Current(i64),
}

/// The seek position that the game's (offset, origin) pair names: origin 0 counts from
/// the start, 2 from the end, and anything else from the current position.
pub fn seek_position(offset: i32, origin: i32) -> (r: SeekPos)
    ensures
        r == (if origin == 0 {
            SeekPos::Start(offset as u64)
        } else if origin == 2 {
            SeekPos::End(offset as i64)
        } else {
            SeekPos::Current(offset as i64)
        }),
{
    match origin {
        0 => SeekPos::Start(offset as u64),
        1 => SeekPos::Current(offset as i64),
        2 => SeekPos::End(offset as i64),
        _ => SeekPos::Current(offset as i64),
    }
}

/// How a file is to be opened.
#[derive(Clone, Copy, Debug, PartialEq, Eq, Structural)]
pub struct OpenMode {
    pub read: bool,
    pub write: bool,
    pub create: bool,
    pub append: bool,
}

pub open spec fn has_any(mode: Seq<u8>, a: u8, b: u8) -> bool {
    exists|i: int| 0 <= i < mode.len() && (mode[i] == a || mode[i] == b)
}

/// The open mode of a C mode string: `r` reads, `w` creates and writes, `a` appends and
/// writes, `+` reads and writes, in either case; other characters do nothing.
pub open spec fn spec_open_mode(mode: Seq<u8>) -> OpenMode {
    OpenMode {
        read: has_any(mode, 0x72, 0x52) || has_any(mode, 0x2b, 0x2b),
        write: has_any(mode, 0x77, 0x57) || has_any(mode, 0x61, 0x41) || has_any(mode, 0x2b, 0x2b),
        create: has_any(mode, 0x77, 0x57),
        append: has_any(mode, 0x61, 0x41),
    }
}

pub fn parse_open_mode(mode: &[u8]) -> (r: OpenMode)
    ensures
        r == spec_open_mode(mode@),
{
    let mut o = OpenMode { read: false, write: false, create: false, append: false };
    let n = mode.len();
    let mut i: usize = 0;
    while i < n
        invariant
            n == mode@.len(),
            i <= n,
            o == spec_open_mode(mode@.take(i as int)),
        decreases n - i,
    {
        let c = mode[i];
        if c == 0x72u8 || c == 0x52u8 {
            o.read = true;
        } else if c == 0x77u8 || c == 0x57u8 {
            o.create = true;
            o.write = true;
        } else if c == 0x61u8 || c == 0x41u8 {
            o.append = true;
            o.write = true;
        } else if c == 0x2bu8 {
            o.write = true;
            o.read = true;
        }
        proof {
            let t = mode@.take(i as int);
            let t2 = mode@.take(i + 1);
            assert forall|a: u8, b: u8| has_any(t2, a, b) == (has_any(t, a, b) || c == a || c == b) by {
                if has_any(t2, a, b) {
                    let j = choose|j: int| 0 <= j < t2.len() && (t2[j] == a || t2[j] == b);
                    if j < i {
                        assert(t[j] == t2[j]);
                    }
                }
                if has_any(t, a, b) {
                    let j = choose|j: int| 0 <= j < t.len() && (t[j] == a || t[j] == b);
                    assert(t2[j] == t[j]);
                }
                if c == a || c == b {
                    assert(t2[i as int] == c);
                }
            }
        }
        i = i + 1;
    }
    assert(mode@.take(n as int) =~= mode@);
    o
}

/// A game file served from memory, as patched.
pub struct PatchedFile {
    pub cursor: usize,
    pub buffer: Vec<u8>,
}

impl PatchedFile {
    pub fn new(buffer: Vec<u8>) -> (r: Self)
        ensures
            r.cursor == 0,
            r.buffer@ == buffer@,
    {
        PatchedFile { cursor: 0, buffer }
    }

    /// The bytes that a read of `len` bytes gives: from the cursor on, up to `len` and up
    /// to the end.
    pub open spec fn spec_read_end(self, len: int) -> int {
        if self.cursor + len < self.buffer@.len() {
            self.cursor + len
        } else {
            self.buffer@.len() as int
        }
    }

    /// Reads into `buf` from the cursor on, as many bytes as fit and remain; returns their
    /// count and moves the cursor past them.
    pub fn read(&mut self, buf: &mut [u8]) -> (r: usize)
        requires
            old(self).cursor <= old(self).buffer@.len(),
            old(self).cursor + old(buf)@.len() <= usize::MAX,
        ensures
            r == old(self).spec_read_end(old(buf)@.len() as int) - old(self).cursor,
            final(self).cursor == old(self).cursor + r,
            final(self).buffer == old(self).buffer,
            final(buf)@ == old(self).buffer@.subrange(old(self).cursor as int, old(self).cursor + r)
                + old(buf)@.skip(r as int),
    {
        let start = self.cursor;
        let blen = self.buffer.len();
        let want = start + buf.len();
        let end = if want < blen {
            want
        } else {
            blen
        };
        let n = end - start;
        let ghost b0 = buf@;
        let mut i: usize = 0;
        while i < n
            invariant
                i <= n,
                n == end - start,
                start + n <= self.buffer@.len(),
                n <= b0.len(),
                buf@.len() == b0.len(),
                self.cursor == start,
                forall|j: int|
                    0 <= j < b0.len() ==> #[trigger] buf@[j] == if j < i {
                        self.buffer@[start + j]
                    } else {
                        b0[j]
                    },
            decreases n - i,
        {
            buf[i] = self.buffer[start + i];
            i = i + 1;
        }
        assert(buf@ =~= self.buffer@.subrange(start as int, start + n) + b0.skip(n as int));
        self.cursor = self.cursor + n;
        n
    }

    /// Reads into `buf` like `read`, but stops after the first zero byte; the cursor moves
    /// past what was read.
    pub fn gets(&mut self, buf: &mut [u8])
        requires
            old(self).cursor <= old(self).buffer@.len(),
            old(self).cursor + old(buf)@.len() <= usize::MAX,
        ensures
            ({
                let avail = old(self).spec_read_end(old(buf)@.len() as int) - old(self).cursor;
                let c = old(self).cursor as int;
                let b = old(self).buffer@;
                let k = final(self).cursor - c;
                &&& 0 <= k <= avail
                &&& forall|j: int| 0 <= j < k - 1 ==> #[trigger] b[c + j] != 0
                &&& (k < avail ==> k > 0 && b[c + k - 1] == 0)
                &&& final(buf)@ == b.subrange(c, c + k) + old(buf)@.skip(k)
            }),
            final(self).buffer == old(self).buffer,
    {
        let start = self.cursor;
        let blen = self.buffer.len();
        let want = start + buf.len();
        let end = if want < blen {
            want
        } else {
            blen
        };
        let n = end - start;
        let ghost b0 = buf@;
        let mut i: usize = 0;
        while i < n
            invariant
                i <= n,
                n == end - start,
                start + n <= self.buffer@.len(),
                n <= b0.len(),
                buf@.len() == b0.len(),
                self.cursor == start + i,
                self.buffer == old(self).buffer,
                start == old(self).cursor,
                b0 == old(buf)@,
                end == old(self).spec_read_end(b0.len() as int),
                forall|j: int| 0 <= j < i ==> #[trigger] self.buffer@[start + j] != 0,
                forall|j: int|
                    0 <= j < b0.len() ==> #[trigger] buf@[j] == if j < i {
                        self.buffer@[start + j]
                    } else {
                        b0[j]
                    },
            decreases n - i,
        {
            let c = self.buffer[start + i];
            self.cursor = self.cursor + 1;
            buf[i] = c;
            i = i + 1;
            if c == 0 {
                assert(buf@ =~= self.buffer@.subrange(start as int, start + i) + b0.skip(i as int));
                return;
            }
        }
        assert(buf@ =~= self.buffer@.subrange(start as int, start + n) + b0.skip(n as int));
    }

    /// Whether the cursor is at or past the end.
    pub fn eof(&self) -> (r: bool)
        ensures
            r == (self.cursor >= self.buffer@.len()),
    {
        self.cursor >= self.buffer.len()
    }

    /// Moves the cursor; from the end, the offset counts backwards. Returns `false`, as a
    /// seek in memory does not fail.
    pub fn seek(&mut self, pos: SeekPos) -> (r: bool)
        requires
            pos matches SeekPos::End(v) ==> i64::MIN <= (old(self).buffer.len() as i64) - v
                <= i64::MAX,
            pos matches SeekPos::Current(v) ==> i64::MIN <= (old(self).cursor as i64) + v
                <= i64::MAX,
        ensures
            !r,
            final(self).buffer == old(self).buffer,
            final(self).cursor == match pos {
                SeekPos::Start(v) => v as usize,
                SeekPos::End(v) => (((old(self).buffer.len() as i64) - v) as i64) as usize,
                SeekPos::Current(v) => (((old(self).cursor as i64) + v) as i64) as usize,
            },
    {
        match pos {
            SeekPos::Start(v) => {
                self.cursor = v as usize;
                false
            },
            SeekPos::End(v) => {
                let len = self.buffer.len() as i64;
                self.cursor = (len - v) as usize;
                false
            },
            SeekPos::Current(v) => {
                self.cursor = (self.cursor as i64 + v) as usize;
                false
            },
        }
    }

    /// The cursor.
    pub fn tell(&self) -> (r: u64)
        ensures
            r == self.cursor as u64,
    {
        self.cursor as u64
    }
}

} // verus!
