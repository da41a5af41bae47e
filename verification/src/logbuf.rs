//! Bounded, append-only capture of subprocess output lines.
//!
//! A `LogBuffer` keeps at most [`crate::MAX_LOG_ENTRIES`] tagged lines;
//! appending beyond the capacity evicts the oldest line first (strict FIFO).
//! A snapshot concatenates the retained lines in insertion order.
use vstd::prelude::*;

verus! {

/// Which output stream a captured line came from.
#[derive(PartialEq, Eq, Structural, Clone, Copy, Debug)]
pub enum StreamTag {
    Stdout,
    Stderr,
}

/// The tag prefix a stored line carries, mirroring how the transcript is
/// printed live.
pub open spec fn tag_prefix(tag: StreamTag) -> Seq<char> {
    match tag {
        StreamTag::Stdout => "[STDOUT] "@,
        StreamTag::Stderr => "[STDERR] "@,
    }
}

/// A captured line as stored: its tag prefix followed by the raw line (which
/// keeps its original trailing newline, so concatenation reads as a log).
pub open spec fn tagged_line(tag: StreamTag, line: Seq<char>) -> Seq<char> {
    tag_prefix(tag) + line
}

/// One eviction step: drop the oldest line when over capacity.
pub open spec fn evict(s: Seq<Seq<char>>) -> Seq<Seq<char>> {
    if s.len() <= crate::MAX_LOG_ENTRIES {
        s
    } else {
        s.drop_first()
    }
}

/// Buffer contents after appending every line of `all`, in order, to an
/// empty buffer.
pub open spec fn buffer_after(all: Seq<Seq<char>>) -> Seq<Seq<char>>
    decreases all.len(),
{
    if all.len() == 0 {
        Seq::empty()
    } else {
        evict(buffer_after(all.drop_last()).push(all.last()))
    }
}

/// Concatenation of the retained lines in insertion order.
pub open spec fn transcript(s: Seq<Seq<char>>) -> Seq<char>
    decreases s.len(),
{
    if s.len() == 0 {
        Seq::empty()
    } else {
        transcript(s.drop_last()) + s.last()
    }
}

/// One more append is one more step of `buffer_after`: exactly what
/// [`LogBuffer::append`] promises of the stored lines.
pub proof fn lemma_buffer_after_step(all: Seq<Seq<char>>, line: Seq<char>)
    ensures
        buffer_after(all.push(line)) == evict(buffer_after(all).push(line)),
{
    assert(all.push(line).drop_last() =~= all);
    assert(all.push(line).last() == line);
}

/// FIFO eviction law: a buffer fed `all` lines holds exactly the last
/// `min(all.len(), MAX_LOG_ENTRIES)` of them, in their original order.
pub proof fn lemma_ring_buffer_fifo(all: Seq<Seq<char>>)
    ensures
        all.len() <= crate::MAX_LOG_ENTRIES ==> buffer_after(all) =~= all,
        all.len() > crate::MAX_LOG_ENTRIES ==> buffer_after(all) =~= all.skip(
            all.len() - crate::MAX_LOG_ENTRIES,
        ),
        buffer_after(all).len() == if all.len() <= crate::MAX_LOG_ENTRIES {
            all.len()
        } else {
            crate::MAX_LOG_ENTRIES as nat
        },
    decreases all.len(),
{
    let cap = crate::MAX_LOG_ENTRIES as nat;
    if all.len() == 0 {
    } else {
        let head = all.drop_last();
        lemma_ring_buffer_fifo(head);
        if all.len() <= cap {
            assert(buffer_after(head).push(all.last()) =~= all);
        } else if all.len() == cap + 1 {
            assert(buffer_after(head).push(all.last()) =~= all);
            assert(evict(all) =~= all.skip(1));
        } else {
            let k = all.len() - cap - 1;
            assert(buffer_after(head) =~= head.skip(k));
            assert(head.skip(k).push(all.last()) =~= all.skip(k));
            assert(all.skip(k).drop_first() =~= all.skip(k + 1));
        }
    }
}

/// The bounded log: an ordered sequence of tagged lines, oldest first.
pub struct LogBuffer {
    lines: Vec<String>,
}

impl LogBuffer {
    /// The stored lines, oldest first.
    pub closed spec fn view(&self) -> Seq<Seq<char>> {
        self.lines@.map_values(|l: String| l@)
    }

    /// Capacity invariant: never more than `MAX_LOG_ENTRIES` lines.
    pub closed spec fn wf(&self) -> bool {
        self.lines@.len() <= crate::MAX_LOG_ENTRIES
    }

    /// An empty buffer.
    pub fn new() -> (r: LogBuffer)
        ensures
            r@ =~= Seq::<Seq<char>>::empty(),
            r.wf(),
    {
        LogBuffer { lines: Vec::new() }
    }

    /// Number of retained lines.
    pub fn size(&self) -> (r: usize)
        ensures
            r == self@.len(),
    {
        self.lines.len()
    }

    /// Append one tagged line; evict the oldest line if that would exceed
    /// the capacity. No stored line is ever mutated.
    pub fn append(&mut self, tag: StreamTag, line: &str)
        requires
            old(self).wf(),
        ensures
            final(self)@ == evict(old(self)@.push(tagged_line(tag, line@))),
            final(self).wf(),
    {
        let mut stored = String::new();
        match tag {
            StreamTag::Stdout => stored.append("[STDOUT] "),
            StreamTag::Stderr => stored.append("[STDERR] "),
        }
        stored.append(line);
        assert(stored@ == tagged_line(tag, line@));
        let ghost before = self.lines@;
        self.lines.push(stored);
        assert(self.lines@.map_values(|l: String| l@) =~= before.map_values(|l: String| l@).push(
            tagged_line(tag, line@),
        ));
        if self.lines.len() > crate::MAX_LOG_ENTRIES {
            let ghost pushed = self.lines@;
            self.lines.remove(0);
            assert(self.lines@ =~= pushed.drop_first());
            assert(self.lines@.map_values(|l: String| l@) =~= pushed.map_values(
                |l: String| l@,
            ).drop_first());
        }
    }

    /// The concatenation of all retained lines in insertion order.
    pub fn snapshot(&self) -> (r: String)
        ensures
            r@ == transcript(self@),
    {
        let mut out = String::new();
        let mut i: usize = 0;
        let n = self.lines.len();
        while i < n
            invariant
                0 <= i <= n,
                n == self.lines@.len(),
                self@ == self.lines@.map_values(|l: String| l@),
                out@ == transcript(self@.take(i as int)),
            decreases n - i,
        {
            out.append(self.lines[i].as_str());
            i = i + 1;
            assert(self@.take(i as int).drop_last() =~= self@.take(i - 1));
            assert(self@.take(i as int).last() == self@[i - 1]);
        }
        assert(self@.take(n as int) =~= self@);
        out
    }
}

} // verus!
