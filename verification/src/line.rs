//! Line segments and the two kinds of source that hand them to the pass.

use vstd::prelude::*;

verus! {

/// One end of a line segment. Position and colour are single-precision
/// numbers, each kept as its IEEE-754 bit pattern.
#[derive(Clone, Copy, Debug, PartialEq, Eq, Structural)]
pub struct LineVertex {
    pub x: u32,
    pub y: u32,
    pub z: u32,
    pub r: u32,
    pub g: u32,
    pub b: u32,
    pub a: u32,
}

/// A line segment between two coloured points.
#[derive(Clone, Copy, Debug, PartialEq, Eq, Structural)]
pub struct DebugLine {
    pub start: LineVertex,
    pub end: LineVertex,
}

impl DebugLine {
    /// The segment from `start` to `end`.
    pub fn new(start: LineVertex, end: LineVertex) -> (line: DebugLine)
        ensures
            line == (DebugLine { start, end }),
    {
        DebugLine { start, end }
    }
}

/// Appends a copy of every line of `src` to `dst`, in order.
pub fn append_lines(dst: &mut Vec<DebugLine>, src: &Vec<DebugLine>)
    ensures
        final(dst)@ == old(dst)@ + src@,
{
    let n: usize = src.len();
    let mut i: usize = 0;
    while i < n
        invariant
            n == src@.len(),
            i <= n,
            dst@ == old(dst)@ + src@.take(i as int),
        decreases n - i,
    {
        dst.push(src[i]);
        assert(src@.take(i + 1) =~= src@.take(i as int).push(src@[i as int]));
        assert(dst@ =~= old(dst)@ + src@.take(i + 1));
        i += 1;
    }
    assert(src@.take(n as int) =~= src@);
}

/// The lines that belong to one entity, in the order they were added.
#[derive(Debug)]
pub struct DebugLinesComponent {
    lines: Vec<DebugLine>,
}

impl View for DebugLinesComponent {
    type V = Seq<DebugLine>;

    closed spec fn view(&self) -> Seq<DebugLine> {
        self.lines@
    }
}

impl DebugLinesComponent {
    /// A component without lines.
    pub fn new() -> (component: DebugLinesComponent)
        ensures
            component@ == Seq::<DebugLine>::empty(),
    {
        DebugLinesComponent { lines: Vec::new() }
    }

    /// Adds `line` behind the lines already held.
    pub fn add_line(&mut self, line: DebugLine)
        ensures
            final(self)@ == old(self)@.push(line),
    {
        self.lines.push(line);
    }

    /// The lines held, oldest first.
    pub fn lines(&self) -> (lines: &Vec<DebugLine>)
        ensures
            lines@ == self@,
    {
        &self.lines
    }
}

/// What draining leaves of a pool that held `queued`: the lines handed out,
/// then the lines that stay.
pub open spec fn drained(queued: Seq<DebugLine>) -> (Seq<DebugLine>, Seq<DebugLine>) {
    (queued, Seq::empty())
}

/// The shared pool of lines. Anyone may queue a line; the pass takes all of
/// them each frame, so a line that is to stay visible is queued again.
#[derive(Debug)]
pub struct DebugLines {
    lines: Vec<DebugLine>,
}

impl View for DebugLines {
    type V = Seq<DebugLine>;

    closed spec fn view(&self) -> Seq<DebugLine> {
        self.lines@
    }
}

impl DebugLines {
    /// An empty pool.
    pub fn new() -> (pool: DebugLines)
        ensures
            pool@ == Seq::<DebugLine>::empty(),
    {
        DebugLines { lines: Vec::new() }
    }

    /// Queues `line` behind the lines already waiting.
    pub fn add_line(&mut self, line: DebugLine)
        ensures
            final(self)@ == old(self)@.push(line),
    {
        self.lines.push(line);
    }

    /// The number of lines waiting.
    pub fn len(&self) -> (n: usize)
        ensures
            n == self@.len(),
    {
        self.lines.len()
    }

    /// Takes every waiting line out of the pool, oldest first.
    pub fn drain(&mut self) -> (taken: Vec<DebugLine>)
        ensures
            (taken@, final(self)@) == drained(old(self)@),
    {
        let mut taken: Vec<DebugLine> = Vec::new();
        std::mem::swap(&mut self.lines, &mut taken);
        taken
    }
}

/// The lines of all `components`, one component after the other.
pub open spec fn joined_lines(components: Seq<DebugLinesComponent>) -> Seq<DebugLine>
    decreases components.len(),
{
    if components.len() == 0 {
        Seq::empty()
    } else {
        joined_lines(components.drop_last()) + components.last()@
    }
}

/// Draining a pool a second time hands out nothing and leaves it empty.
pub proof fn lemma_second_drain_is_empty(queued: Seq<DebugLine>)
    ensures
        drained(drained(queued).1) == (Seq::<DebugLine>::empty(), Seq::<DebugLine>::empty()),
{
}

} // verus!
