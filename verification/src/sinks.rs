//! The ordered registry of output observers. A sink is a capability that
//! accepts one captured output line at a time; the registry keeps two
//! append-only sequences of sinks, one per stream, and fans a line out to
//! every sink of its stream in registration order. A sink must not block
//! indefinitely: it runs on the critical output path of a run.

use vstd::prelude::*;

verus! {

/// An observer of captured output lines. `received` is the abstract record
/// of every line the sink has accepted so far, oldest first; `invoke` hands
/// the sink one more line.
pub trait Sink: Sized {
    /// Every line this sink has accepted, in the order of acceptance. The
    /// record of an honest sink grows by one line per acceptance, so a
    /// sink kept to its contract overrides this; with the empty default,
    /// `invoke`'s promise cannot be met.
    open spec fn received(&self) -> Seq<Seq<u8>> {
        Seq::empty()
    }

    /// Accept one captured line.
    fn invoke(&mut self, line: &[u8])
        ensures
            final(self).received() == old(self).received().push(line@),
    ;
}

/// A sink that keeps every line it is handed, for later inspection.
pub struct RecordingSink {
    pub lines: Vec<Vec<u8>>,
}

impl RecordingSink {
    /// A sink that has received nothing yet.
    pub fn new() -> (r: RecordingSink)
        ensures
            r.received() == Seq::<Seq<u8>>::empty(),
    {
        RecordingSink { lines: Vec::new() }
    }
}

impl Sink for RecordingSink {
    open spec fn received(&self) -> Seq<Seq<u8>> {
        self.lines@.map_values(|l: Vec<u8>| l@)
    }

    fn invoke(&mut self, line: &[u8]) {
        self.lines.push(vstd::slice::slice_to_vec(line));
    }
}

/// Each sink of `post` has received exactly the lines of `lines`, in order,
/// after everything it had already received in `pre`; no sink was added,
/// dropped or reordered.
pub open spec fn all_pushed<S: Sink>(pre: Seq<S>, post: Seq<S>, lines: Seq<Seq<u8>>) -> bool {
    &&& post.len() == pre.len()
    &&& forall|i: int|
        0 <= i < pre.len() ==> #[trigger] post[i].received() == pre[i].received() + lines
}

/// The two ordered sequences of registered sinks, one for the child's
/// standard output and one for its standard error. Registration appends;
/// delivery walks one sequence in registration order and never touches the
/// other.
pub struct Sinks<S: Sink> {
    out: Vec<S>,
    err: Vec<S>,
}

impl<S: Sink> Sinks<S> {
    /// The registered standard-output sinks, in registration order.
    pub closed spec fn spec_out(&self) -> Seq<S> {
        self.out@
    }

    /// The registered standard-error sinks, in registration order.
    pub closed spec fn spec_err(&self) -> Seq<S> {
        self.err@
    }

    /// The registered standard-output sinks, for inspection.
    pub fn out_sinks(&self) -> (r: &Vec<S>)
        ensures
            r@ == self.spec_out(),
    {
        &self.out
    }

    /// The registered standard-error sinks, for inspection.
    pub fn err_sinks(&self) -> (r: &Vec<S>)
        ensures
            r@ == self.spec_err(),
    {
        &self.err
    }

    /// Append a sink for standard-output lines. It only observes lines
    /// delivered after this point: there is no replay.
    pub fn register_out(&mut self, sink: S)
        ensures
            final(self).spec_out() == old(self).spec_out().push(sink),
            final(self).spec_err() == old(self).spec_err(),
    {
        self.out.push(sink);
    }

    /// Append a sink for standard-error lines. It only observes lines
    /// delivered after this point: there is no replay.
    pub fn register_err(&mut self, sink: S)
        ensures
            final(self).spec_out() == old(self).spec_out(),
            final(self).spec_err() == old(self).spec_err().push(sink),
    {
        self.err.push(sink);
    }

    /// Hand one standard-output line to every standard-output sink, in
    /// registration order. Standard-error sinks observe nothing.
    pub fn deliver_out(&mut self, line: &[u8])
        ensures
            all_pushed(old(self).spec_out(), final(self).spec_out(), seq![line@]),
            final(self).spec_err() == old(self).spec_err(),
    {
        let ghost pre = *self;
        let n = self.out.len();
        let mut i: usize = 0;
        while i < n
            invariant
                i <= n,
                n == self.out.len(),
                self.out@.len() == pre.out@.len(),
                self.err@ == pre.err@,
                forall|j: int|
                    0 <= j < i ==> #[trigger] self.out@[j].received() == pre.out@[j].received()
                        + seq![line@],
                forall|j: int| i <= j < n ==> #[trigger] self.out@[j] == pre.out@[j],
            decreases n - i,
        {
            let mut s = self.out.remove(i);
            s.invoke(line);
            self.out.insert(i, s);
            i = i + 1;
        }
    }

    /// Hand one standard-error line to every standard-error sink, in
    /// registration order. Standard-output sinks observe nothing.
    pub fn deliver_err(&mut self, line: &[u8])
        ensures
            all_pushed(old(self).spec_err(), final(self).spec_err(), seq![line@]),
            final(self).spec_out() == old(self).spec_out(),
    {
        let ghost pre = *self;
        let n = self.err.len();
        let mut i: usize = 0;
        while i < n
            invariant
                i <= n,
                n == self.err.len(),
                self.err@.len() == pre.err@.len(),
                self.out@ == pre.out@,
                forall|j: int|
                    0 <= j < i ==> #[trigger] self.err@[j].received() == pre.err@[j].received()
                        + seq![line@],
                forall|j: int| i <= j < n ==> #[trigger] self.err@[j] == pre.err@[j],
            decreases n - i,
        {
            let mut s = self.err.remove(i);
            s.invoke(line);
            self.err.insert(i, s);
            i = i + 1;
        }
    }
}

impl<S: Sink> Default for Sinks<S> {
    /// An empty registry: no sink of either stream.
    fn default() -> (r: Self)
        ensures
            r.spec_out() == Seq::<S>::empty(),
            r.spec_err() == Seq::<S>::empty(),
    {
        Sinks { out: Vec::new(), err: Vec::new() }
    }
}

} // verus!
