//! One tailed file: its path, its cursor, and the incremental read.
//!
//! A `WatchedFile` owns a byte-offset cursor marking the boundary up to which
//! the file's content has been delivered downstream. Reading the file itself
//! is I/O and happens outside the library: the caller seeks to the cursor,
//! reads to end-of-file, and hands the bytes to [`WatchedFile::read_to_end`],
//! which splits them into lines and advances the cursor.
//!
//! Line policy: only terminated lines advance the cursor. A final fragment
//! with no line feed is left in place, so a later read (which starts again at
//! the cursor) delivers it exactly once, when its terminator has arrived.
//! Each delivered line has its line feed removed, and a carriage return just
//! before the line feed is removed with it.

use vstd::prelude::*;

verus! {

/// The byte that terminates a line.
pub const LINE_FEED: u8 = 10;

/// A byte just before the line feed that is stripped from a delivered line.
pub const CARRIAGE_RETURN: u8 = 13;

/// Length of the terminated prefix of `s`: everything up to and including
/// the last line feed, or 0 if there is none.
pub open spec fn terminated_len(s: Seq<u8>) -> int
    decreases s.len(),
{
    if s.len() == 0 {
        0
    } else if s.last() == LINE_FEED {
        s.len() as int
    } else {
        terminated_len(s.drop_last())
    }
}

/// The unterminated fragment of `s`: the bytes after its last line feed.
pub open spec fn fragment(s: Seq<u8>) -> Seq<u8> {
    s.skip(terminated_len(s))
}

/// A line with a trailing carriage return removed.
pub open spec fn strip_cr(line: Seq<u8>) -> Seq<u8> {
    if line.len() > 0 && line.last() == CARRIAGE_RETURN {
        line.drop_last()
    } else {
        line
    }
}

/// The complete lines of `s`, in order: one line per line feed, holding the
/// bytes since the previous line feed, with a carriage return just before
/// the line feed stripped. Bytes after the last line feed form no line.
pub open spec fn split_lines(s: Seq<u8>) -> Seq<Seq<u8>>
    decreases s.len(),
{
    if s.len() == 0 {
        Seq::empty()
    } else if s.last() == LINE_FEED {
        split_lines(s.drop_last()).push(strip_cr(fragment(s.drop_last())))
    } else {
        split_lines(s.drop_last())
    }
}

/// The bytes a sequence of lines was read from, each line followed by its
/// line feed.
pub open spec fn join_lines(lines: Seq<Seq<u8>>) -> Seq<u8>
    decreases lines.len(),
{
    if lines.len() == 0 {
        Seq::empty()
    } else {
        join_lines(lines.drop_last()) + lines.last() + seq![LINE_FEED]
    }
}

pub proof fn lemma_terminated_len_bounds(s: Seq<u8>)
    ensures
        0 <= terminated_len(s) <= s.len(),
    decreases s.len(),
{
    if s.len() == 0 {
    } else if s.last() == LINE_FEED {
    } else {
        lemma_terminated_len_bounds(s.drop_last());
    }
}

/// The unterminated fragment holds no line feed.
pub proof fn lemma_fragment_no_line_feed(s: Seq<u8>)
    ensures
        forall|i: int| 0 <= i < fragment(s).len() ==> fragment(s)[i] != LINE_FEED,
    decreases s.len(),
{
    lemma_terminated_len_bounds(s);
    if s.len() == 0 {
    } else if s.last() == LINE_FEED {
        assert(fragment(s) =~= Seq::<u8>::empty());
    } else {
        lemma_terminated_len_bounds(s.drop_last());
        lemma_fragment_no_line_feed(s.drop_last());
        assert(fragment(s) =~= fragment(s.drop_last()).push(s.last()));
    }
}

/// A byte sequence without a line feed splits into no lines and has an empty
/// terminated prefix.
pub proof fn lemma_no_line_feed_no_lines(s: Seq<u8>)
    requires
        forall|i: int| 0 <= i < s.len() ==> s[i] != LINE_FEED,
    ensures
        split_lines(s) =~= Seq::<Seq<u8>>::empty(),
        terminated_len(s) == 0,
    decreases s.len(),
{
    if s.len() == 0 {
    } else {
        assert(s.last() != LINE_FEED);
        assert(forall|i: int| 0 <= i < s.drop_last().len() ==> s.drop_last()[i] != LINE_FEED);
        lemma_no_line_feed_no_lines(s.drop_last());
    }
}

/// Extending a byte sequence by one byte extends its split accordingly: a
/// line feed completes the pending fragment into one more line; any other
/// byte leaves the lines and the terminated prefix unchanged.
pub proof fn lemma_split_step(s: Seq<u8>, b: u8)
    ensures
        b == LINE_FEED ==> split_lines(s.push(b)) == split_lines(s).push(strip_cr(fragment(s)))
            && terminated_len(s.push(b)) == s.len() + 1,
        b != LINE_FEED ==> split_lines(s.push(b)) == split_lines(s)
            && terminated_len(s.push(b)) == terminated_len(s),
{
    assert(s.push(b).drop_last() =~= s);
    assert(s.push(b).last() == b);
}

/// How the unterminated fragment changes when one byte arrives.
pub proof fn lemma_fragment_step(s: Seq<u8>, b: u8)
    ensures
        b == LINE_FEED ==> fragment(s.push(b)) =~= Seq::<u8>::empty(),
        b != LINE_FEED ==> fragment(s.push(b)) =~= fragment(s).push(b),
{
    lemma_terminated_len_bounds(s);
    lemma_split_step(s, b);
    if b == LINE_FEED {
        assert(fragment(s.push(b)) =~= Seq::<u8>::empty());
    } else {
        assert(fragment(s.push(b)) =~= fragment(s).push(b));
    }
}

/// Reading again with no intervening growth yields nothing: the bytes left
/// behind after the terminated prefix hold no line feed, so a second read of
/// them delivers no line and advances the cursor by nothing.
pub proof fn lemma_reread_yields_nothing(s: Seq<u8>)
    ensures
        split_lines(fragment(s)) =~= Seq::<Seq<u8>>::empty(),
        terminated_len(fragment(s)) == 0,
{
    lemma_fragment_no_line_feed(s);
    lemma_no_line_feed_no_lines(fragment(s));
}

/// Joining the delivered lines with line feeds reproduces exactly the
/// terminated prefix of the bytes they were read from — the very bytes the
/// cursor advances over — provided the bytes hold no carriage return (a
/// carriage return before a line feed is stripped and cannot be rebuilt).
pub proof fn lemma_join_split(s: Seq<u8>)
    requires
        forall|i: int| 0 <= i < s.len() ==> s[i] != CARRIAGE_RETURN,
    ensures
        join_lines(split_lines(s)) =~= s.take(terminated_len(s)),
    decreases s.len(),
{
    lemma_terminated_len_bounds(s);
    if s.len() == 0 {
    } else {
        let d = s.drop_last();
        assert(forall|i: int| 0 <= i < d.len() ==> d[i] != CARRIAGE_RETURN);
        lemma_join_split(d);
        lemma_terminated_len_bounds(d);
        if s.last() == LINE_FEED {
            let lines = split_lines(s);
            assert(lines.drop_last() =~= split_lines(d));
            assert(strip_cr(fragment(d)) == fragment(d)) by {
                if fragment(d).len() > 0 {
                    assert(fragment(d).last() != CARRIAGE_RETURN);
                }
            }
            assert(join_lines(lines) == join_lines(split_lines(d)) + fragment(d) + seq![LINE_FEED]);
            assert(d.take(terminated_len(d)) + fragment(d) =~= d);
            assert(join_lines(lines) =~= d + seq![LINE_FEED]);
            assert(d + seq![LINE_FEED] =~= s);
            assert(s.take(terminated_len(s)) =~= s);
        } else {
            assert(split_lines(s) == split_lines(d));
            assert(terminated_len(s) == terminated_len(d));
            assert(s.take(terminated_len(s)) =~= d.take(terminated_len(d)));
        }
    }
}

/// Delivery is always one contiguous prefix: a read that starts at byte `k`
/// of the file's current content `c` is handed `c.skip(k)` and extends the
/// consumed bytes `c.take(k)` to exactly `c.take(k + advance)`, where
/// `advance` is the terminated-prefix length of what it was handed. So at
/// every point in time the union of everything ever delivered equals a
/// prefix of the file's content, and the cursor marks its end.
pub proof fn lemma_delivery_is_a_prefix(c: Seq<u8>, k: int)
    requires
        0 <= k <= c.len(),
    ensures
        k + terminated_len(c.skip(k)) <= c.len(),
        c.take(k) + c.skip(k).take(terminated_len(c.skip(k)))
            =~= c.take(k + terminated_len(c.skip(k))),
{
    lemma_terminated_len_bounds(c.skip(k));
}

/// Split `new_bytes` into its complete lines. Returns the lines and the
/// number of leading bytes they account for (the terminated prefix length).
pub fn split_complete_lines(new_bytes: &[u8]) -> (r: (Vec<Vec<u8>>, usize))
    ensures
        r.0.deep_view() == split_lines(new_bytes@),
        r.1 == terminated_len(new_bytes@),
{
    let n = new_bytes.len();
    let mut out: Vec<Vec<u8>> = Vec::new();
    let mut cur: Vec<u8> = Vec::new();
    let mut advance: usize = 0;
    let mut i: usize = 0;
    while i < n
        invariant
            i <= n,
            n == new_bytes@.len(),
            out.deep_view() == split_lines(new_bytes@.take(i as int)),
            cur@ == fragment(new_bytes@.take(i as int)),
            advance == terminated_len(new_bytes@.take(i as int)),
        decreases n - i,
    {
        let b = new_bytes[i];
        proof {
            let t = new_bytes@.take(i as int);
            assert(new_bytes@.take(i + 1 as int) =~= t.push(new_bytes@[i as int]));
            lemma_split_step(t, b);
            lemma_fragment_step(t, b);
        }
        if b == LINE_FEED {
            if cur.len() > 0 && cur[cur.len() - 1] == CARRIAGE_RETURN {
                cur.pop();
                proof {
                    assert(cur@ =~= strip_cr(fragment(new_bytes@.take(i as int))));
                }
            }
            let ghost prev = out.deep_view();
            let ghost line = cur@;
            out.push(cur);
            cur = Vec::new();
            advance = i + 1;
            proof {
                assert(out.deep_view() =~~= prev.push(line));
                assert(out.deep_view() == split_lines(new_bytes@.take(i + 1 as int)));
            }
        } else {
            cur.push(b);
            proof {
                assert(out.deep_view() =~= split_lines(new_bytes@.take(i + 1 as int)));
            }
        }
        i = i + 1;
    }
    proof {
        assert(new_bytes@.take(n as int) =~= new_bytes@);
    }
    (out, advance)
}

/// One tailed file: a path, and a cursor marking the boundary up to which
/// content has been delivered. The ghost `consumed` records every byte the
/// cursor has advanced over since construction, so contracts can speak of
/// the exact prefix of the file that has been delivered.
pub struct WatchedFile {
    filename: String,
    cursor: u64,
    base: Ghost<int>,
    consumed: Ghost<Seq<u8>>,
}

impl WatchedFile {
    /// The file's path.
    pub closed spec fn spec_filename(self) -> Seq<char> {
        self.filename@
    }

    /// Byte offset of the delivered/undelivered boundary.
    pub closed spec fn spec_cursor(self) -> u64 {
        self.cursor
    }

    /// The cursor position this file started at.
    pub closed spec fn base(self) -> int {
        self.base@
    }

    /// Every byte the cursor has advanced over since construction,
    /// in file order.
    pub closed spec fn consumed(self) -> Seq<u8> {
        self.consumed@
    }

    /// The cursor counts the initial offset plus every consumed byte.
    pub open spec fn wf(self) -> bool {
        &&& 0 <= self.base()
        &&& self.base() + self.consumed().len() == self.spec_cursor()
    }

    /// Create the bookkeeping for one file of current length `file_len`.
    /// The cursor starts at end-of-file when `set_pointer_to_end` is set
    /// (tail only new content) and at offset 0 otherwise (replay existing
    /// content first). Opening the file for reading is the caller's task and
    /// must have succeeded before this bookkeeping is created.
    pub fn new(filename: String, file_len: u64, set_pointer_to_end: bool) -> (r: WatchedFile)
        ensures
            r.wf(),
            r.spec_filename() == filename@,
            r.spec_cursor() == if set_pointer_to_end { file_len } else { 0u64 },
            r.consumed() == Seq::<u8>::empty(),
            r.base() == r.spec_cursor(),
    {
        let cursor: u64 = if set_pointer_to_end { file_len } else { 0 };
        WatchedFile {
            filename,
            cursor,
            base: Ghost(cursor as int),
            consumed: Ghost(Seq::empty()),
        }
    }

    /// The path of this file. The path is kept as a string.
    pub fn get_path(&self) -> (r: &str)
        ensures
            r@ == self.spec_filename(),
    {
        self.filename.as_str()
    }

    /// The filename of this file.
    pub fn get_filename(&self) -> (r: &str)
        ensures
            r@ == self.spec_filename(),
    {
        self.filename.as_str()
    }

    /// True when this file's path is `path`.
    pub fn has_filename(&self, path: &String) -> (r: bool)
        ensures
            r == (self.spec_filename() == path@),
    {
        self.filename == *path
    }

    /// The current cursor: the next read must start at this byte offset.
    pub fn cursor(&self) -> (c: u64)
        ensures
            c == self.spec_cursor(),
    {
        self.cursor
    }

    /// Consume `new_bytes` — the bytes now present in the file from the
    /// cursor to end-of-file, read by the caller — and return the complete
    /// lines among them. The cursor advances over exactly the terminated
    /// prefix; an unterminated final fragment is left for a later read to
    /// deliver once its line feed has arrived, so no byte is delivered twice
    /// and none is skipped. The cursor never decreases.
    pub fn read_to_end(&mut self, new_bytes: &[u8]) -> (lines: Vec<Vec<u8>>)
        requires
            old(self).wf(),
            old(self).spec_cursor() + new_bytes@.len() <= u64::MAX,
        ensures
            final(self).wf(),
            final(self).spec_filename() == old(self).spec_filename(),
            final(self).base() == old(self).base(),
            final(self).spec_cursor()
                == old(self).spec_cursor() + terminated_len(new_bytes@),
            old(self).spec_cursor() <= final(self).spec_cursor(),
            final(self).consumed()
                == old(self).consumed() + new_bytes@.take(terminated_len(new_bytes@)),
            lines.deep_view() == split_lines(new_bytes@),
    {
        proof {
            lemma_terminated_len_bounds(new_bytes@);
        }
        let (lines, advance) = split_complete_lines(new_bytes);
        self.cursor = self.cursor + advance as u64;
        proof {
            self.consumed@ = self.consumed@ + new_bytes@.take(terminated_len(new_bytes@));
        }
        lines
    }
}

} // verus!
