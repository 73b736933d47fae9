//! The per-stream output router. A child's stream is a byte sequence; the
//! router cuts it into lines at each line feed, drops one carriage return
//! directly before a line feed, still delivers a partial final line that
//! ends without a terminator, and hands every line to the sinks of its
//! stream in registration order.

use vstd::prelude::*;

use crate::sinks::{Sink, Sinks, all_pushed};

verus! {

/// One byte line with a trailing carriage return removed; any other content
/// is kept as it is.
pub open spec fn strip_cr(line: Seq<u8>) -> Seq<u8> {
    if line.len() > 0 && line.last() == 13 {
        line.drop_last()
    } else {
        line
    }
}

/// The lines of `data`, given that `cur` holds the bytes of the line in
/// progress when the first byte of `data` is read. Each line feed ends a
/// line; a final line without one is still a line; no bytes produce no
/// line.
pub open spec fn split_from(data: Seq<u8>, cur: Seq<u8>) -> Seq<Seq<u8>>
    decreases data.len(),
{
    if data.len() == 0 {
        if cur.len() == 0 {
            Seq::empty()
        } else {
            seq![strip_cr(cur)]
        }
    } else if data[0] == 10 {
        seq![strip_cr(cur)] + split_from(data.drop_first(), Seq::empty())
    } else {
        split_from(data.drop_first(), cur.push(data[0]))
    }
}

/// The lines of a whole stream, as the router delivers them.
pub open spec fn split_lines_spec(data: Seq<u8>) -> Seq<Seq<u8>> {
    split_from(data, Seq::empty())
}

/// Cut a captured stream into its lines.
pub fn split_lines(data: &[u8]) -> (r: Vec<Vec<u8>>)
    ensures
        r@.map_values(|l: Vec<u8>| l@) == split_lines_spec(data@),
{
    let mut r: Vec<Vec<u8>> = Vec::new();
    let mut cur: Vec<u8> = Vec::new();
    let n = data.len();
    let mut i: usize = 0;
    proof {
        assert(data@.subrange(0, n as int) =~= data@);
        assert(r@.map_values(|l: Vec<u8>| l@) =~= Seq::<Seq<u8>>::empty());
        assert(Seq::<Seq<u8>>::empty() + split_lines_spec(data@) =~= split_lines_spec(data@));
    }
    while i < n
        invariant
            i <= n,
            n == data@.len(),
            split_lines_spec(data@) == r@.map_values(|l: Vec<u8>| l@) + split_from(
                data@.subrange(i as int, n as int),
                cur@,
            ),
        decreases n - i,
    {
        let ghost rest = data@.subrange(i as int, n as int);
        let ghost prev_r = r@;
        let ghost prev_cur = cur@;
        proof {
            assert(rest.drop_first() =~= data@.subrange(i + 1, n as int));
        }
        let b = data[i];
        if b == 10 {
            let line = finish_line(cur);
            cur = Vec::new();
            r.push(line);
            proof {
                let f = |l: Vec<u8>| l@;
                assert(r@.map_values(f) =~= prev_r.map_values(f).push(strip_cr(prev_cur)));
                assert(r@.map_values(f) + split_from(data@.subrange(i + 1, n as int), cur@)
                    =~= prev_r.map_values(f) + split_from(rest, prev_cur));
            }
        } else {
            cur.push(b);
        }
        i = i + 1;
    }
    proof {
        assert(data@.subrange(n as int, n as int) =~= Seq::<u8>::empty());
    }
    if cur.len() > 0 {
        let ghost prev_r = r@;
        let ghost tail = cur@;
        let line = finish_line(cur);
        r.push(line);
        proof {
            let f = |l: Vec<u8>| l@;
            assert(r@.map_values(f) =~= prev_r.map_values(f).push(strip_cr(tail)));
        }
    }
    r
}

/// Close the line in progress: remove one trailing carriage return.
fn finish_line(mut cur: Vec<u8>) -> (r: Vec<u8>)
    ensures
        r@ == strip_cr(cur@),
{
    if cur.len() > 0 && cur[cur.len() - 1] == 13 {
        cur.pop();
    }
    cur
}

/// Drain a captured standard-output stream: deliver each of its lines, in
/// stream order, to every standard-output sink. Standard-error sinks
/// observe nothing.
pub fn drain_stdout<S: Sink>(sinks: &mut Sinks<S>, data: &[u8])
    ensures
        all_pushed(old(sinks).spec_out(), final(sinks).spec_out(), split_lines_spec(data@)),
        final(sinks).spec_err() == old(sinks).spec_err(),
{
    let ghost pre = *sinks;
    let lines = split_lines(data);
    let n = lines.len();
    let mut i: usize = 0;
    while i < n
        invariant
            i <= n,
            n == lines@.len(),
            lines@.map_values(|l: Vec<u8>| l@) == split_lines_spec(data@),
            all_pushed(
                pre.spec_out(),
                sinks.spec_out(),
                lines@.map_values(|l: Vec<u8>| l@).take(i as int),
            ),
            sinks.spec_err() == pre.spec_err(),
        decreases n - i,
    {
        let ghost mid = sinks.spec_out();
        sinks.deliver_out(&lines[i]);
        proof {
            let f = |l: Vec<u8>| l@;
            assert(lines@.map_values(f).take(i + 1) =~= lines@.map_values(f).take(i as int)
                + seq![lines@[i as int]@]);
            assert forall|j: int| 0 <= j < pre.spec_out().len() implies #[trigger] sinks.spec_out()[j].received()
                == pre.spec_out()[j].received() + lines@.map_values(f).take(i + 1) by {
                assert(sinks.spec_out()[j].received() == mid[j].received() + seq![lines@[i as int]@]);
                assert(sinks.spec_out()[j].received() =~= pre.spec_out()[j].received()
                    + lines@.map_values(f).take(i + 1));
            }
        }
        i = i + 1;
    }
    proof {
        assert(lines@.map_values(|l: Vec<u8>| l@).take(n as int) =~= split_lines_spec(data@));
    }
}

/// Drain a captured standard-error stream: deliver each of its lines, in
/// stream order, to every standard-error sink. Standard-output sinks
/// observe nothing.
pub fn drain_stderr<S: Sink>(sinks: &mut Sinks<S>, data: &[u8])
    ensures
        all_pushed(old(sinks).spec_err(), final(sinks).spec_err(), split_lines_spec(data@)),
        final(sinks).spec_out() == old(sinks).spec_out(),
{
    let ghost pre = *sinks;
    let lines = split_lines(data);
    let n = lines.len();
    let mut i: usize = 0;
    while i < n
        invariant
            i <= n,
            n == lines@.len(),
            lines@.map_values(|l: Vec<u8>| l@) == split_lines_spec(data@),
            all_pushed(
                pre.spec_err(),
                sinks.spec_err(),
                lines@.map_values(|l: Vec<u8>| l@).take(i as int),
            ),
            sinks.spec_out() == pre.spec_out(),
        decreases n - i,
    {
        let ghost mid = sinks.spec_err();
        sinks.deliver_err(&lines[i]);
        proof {
            let f = |l: Vec<u8>| l@;
            assert(lines@.map_values(f).take(i + 1) =~= lines@.map_values(f).take(i as int)
                + seq![lines@[i as int]@]);
            assert forall|j: int| 0 <= j < pre.spec_err().len() implies #[trigger] sinks.spec_err()[j].received()
                == pre.spec_err()[j].received() + lines@.map_values(f).take(i + 1) by {
                assert(sinks.spec_err()[j].received() == mid[j].received() + seq![lines@[i as int]@]);
                assert(sinks.spec_err()[j].received() =~= pre.spec_err()[j].received()
                    + lines@.map_values(f).take(i + 1));
            }
        }
        i = i + 1;
    }
    proof {
        assert(lines@.map_values(|l: Vec<u8>| l@).take(n as int) =~= split_lines_spec(data@));
    }
}

} // verus!
