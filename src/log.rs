//! The append-only log of normalized output lines.
use vstd::prelude::*;

verus! {

/// Ordered lines of text; lines are only ever added at the end.
pub struct LogBuffer {
    lines: Vec<String>,
}

/// The lines of `s`, each as its text.
pub open spec fn texts(s: Seq<String>) -> Seq<Seq<char>> {
    s.map_values(|l: String| l@)
}

impl View for LogBuffer {
    type V = Seq<Seq<char>>;

    closed spec fn view(&self) -> Seq<Seq<char>> {
        texts(self.lines@)
    }
}

impl LogBuffer {
    /// An empty log.
    pub fn new() -> (r: LogBuffer)
        ensures
            r@ == Seq::<Seq<char>>::empty(),
    {
        LogBuffer { lines: Vec::new() }
    }

    /// Number of lines held.
    pub fn len(&self) -> (r: usize)
        ensures
            r == self@.len(),
    {
        self.lines.len()
    }

    /// Adds `line` after every line already held.
    pub fn append(&mut self, line: String)
        ensures
            final(self)@ == old(self)@.push(line@),
    {
        self.lines.push(line);
        assert(texts(self.lines@) =~= texts(old(self).lines@).push(line@));
    }

    /// A copy of the lines, oldest first.
    pub fn snapshot(&self) -> (r: Vec<String>)
        ensures
            texts(r@) == self@,
    {
        let mut out: Vec<String> = Vec::new();
        let n = self.lines.len();
        let mut i: usize = 0;
        while i < n
            invariant
                n == self.lines.len(),
                i <= n,
                out@.len() == i,
                forall|k: int| 0 <= k < i ==> out@[k]@ == self.lines@[k]@,
            decreases n - i,
        {
            let line = self.lines[i].clone();
            out.push(line);
            i = i + 1;
        }
        assert(texts(out@) =~= self@);
        out
    }

    /// A copy of the lines, newest first, as the log pane shows them.
    pub fn newest_first(&self) -> (r: Vec<String>)
        ensures
            texts(r@) == self@.reverse(),
    {
        let mut out: Vec<String> = Vec::new();
        let n = self.lines.len();
        let mut i: usize = n;
        while i > 0
            invariant
                n == self.lines.len(),
                i <= n,
                out@.len() == n - i,
                forall|k: int| 0 <= k < n - i ==> out@[k]@ == self.lines@[n - 1 - k]@,
            decreases i,
        {
            i = i - 1;
            let line = self.lines[i].clone();
            out.push(line);
        }
        assert(texts(out@) =~= self@.reverse());
        out
    }
}

/// Lines appended one after another are read back in the order they came,
/// and the newest-first view gives them in the opposite order.
pub proof fn law_arrival_order(l1: Seq<char>, l2: Seq<char>, l3: Seq<char>)
    ensures
        Seq::<Seq<char>>::empty().push(l1).push(l2).push(l3) == seq![l1, l2, l3],
        Seq::<Seq<char>>::empty().push(l1).push(l2).push(l3).reverse() == seq![l3, l2, l1],
{
    assert(Seq::<Seq<char>>::empty().push(l1).push(l2).push(l3) =~= seq![l1, l2, l3]);
    assert(seq![l1, l2, l3].reverse() =~= seq![l3, l2, l1]);
}

} // verus!
