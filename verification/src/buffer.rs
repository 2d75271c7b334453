//! Bounded presentation buffers.
//!
//! The log pane and the received-frame pane each keep the newest
//! `BUFFER_CAPACITY` lines: appending to a full buffer drops the oldest
//! line. A pane renders the last few lines joined with newlines.

use vstd::prelude::*;

verus! {

/// Each presentation log keeps at most this many lines.
pub const BUFFER_CAPACITY: usize = 100;

/// The buffer after appending `m`: oldest entries are dropped so that
/// at most `BUFFER_CAPACITY` remain.
pub open spec fn spec_push_capped<T>(s: Seq<T>, m: T) -> Seq<T> {
    let t = s.push(m);
    if t.len() > BUFFER_CAPACITY {
        t.skip(t.len() - BUFFER_CAPACITY)
    } else {
        t
    }
}

/// Appending keeps the buffer within capacity, keeps the newest entry
/// last, and on a full buffer drops exactly the oldest entry.
pub proof fn lemma_push_capped_cap<T>(s: Seq<T>, m: T)
    ensures
        spec_push_capped(s, m).len() == vstd::math::min(s.len() as int + 1, BUFFER_CAPACITY as int),
        spec_push_capped(s, m).last() == m,
        s.len() <= BUFFER_CAPACITY ==> spec_push_capped(s, m).len() <= BUFFER_CAPACITY,
        s.len() == BUFFER_CAPACITY ==> spec_push_capped(s, m) == s.skip(1).push(m),
{
    let t = s.push(m);
    if t.len() > BUFFER_CAPACITY {
        assert(spec_push_capped(s, m).last() == m);
    }
    if s.len() == BUFFER_CAPACITY {
        assert(t.skip(t.len() - BUFFER_CAPACITY) =~= s.skip(1).push(m));
    }
}

/// Append one line, dropping the oldest lines once the buffer would
/// exceed its capacity.
pub fn push_capped(buf: &mut Vec<String>, msg: String)
    ensures
        final(buf)@ == spec_push_capped(old(buf)@, msg),
{
    buf.push(msg);
    let ghost t: Seq<String> = buf@;
    proof {
        assert(t.skip(0) =~= t);
    }
    while buf.len() > BUFFER_CAPACITY
        invariant
            buf@.len() <= t.len(),
            buf@.len() >= vstd::math::min(t.len() as int, BUFFER_CAPACITY as int),
            buf@ == t.skip(t.len() - buf@.len()),
        decreases buf.len(),
    {
        buf.remove(0);
        proof {
            assert(buf@ =~= t.skip(t.len() - buf@.len()));
        }
    }
    proof {
        if t.len() > BUFFER_CAPACITY {
            assert(buf@ == t.skip(t.len() - BUFFER_CAPACITY));
        }
    }
}

/// The buffer after appending each line of `ms` in turn, capping at
/// each step.
pub open spec fn spec_push_capped_all<T>(s: Seq<T>, ms: Seq<T>) -> Seq<T>
    decreases ms.len(),
{
    if ms.len() == 0 {
        s
    } else {
        spec_push_capped(spec_push_capped_all(s, ms.drop_last()), ms.last())
    }
}

/// Move whatever is queued on `rx` into `buf`, oldest first, capping
/// the buffer at each step; at most `fuel` messages are taken. Returns
/// whether the channel was left with nothing queued. The buffer changes
/// only by capped appends: the new contents are the old with some
/// sequence of lines appended under `spec_push_capped`.
pub fn drain_into(rx: &flume::Receiver<String>, buf: &mut Vec<String>, fuel: usize) -> (emptied:
    bool)
    ensures
        exists|ms: Seq<String>| final(buf)@ == spec_push_capped_all(old(buf)@, ms),
        old(buf)@.len() <= BUFFER_CAPACITY ==> final(buf)@.len() <= BUFFER_CAPACITY,
        final(buf)@.len() <= BUFFER_CAPACITY || final(buf)@ == old(buf)@,
{
    let ghost mut drained: Seq<String> = Seq::empty();
    let mut taken: usize = 0;
    while taken < fuel
        invariant
            buf@.len() <= BUFFER_CAPACITY || buf@ == old(buf)@,
            buf@ == spec_push_capped_all(old(buf)@, drained),
        decreases fuel - taken,
    {
        match crate::channel::try_recv_text(rx) {
            Some(msg) => {
                let ghost prev: Seq<String> = buf@;
                let ghost mv = msg;
                push_capped(buf, msg);
                proof {
                    lemma_push_capped_cap(prev, mv);
                    let prior = drained;
                    drained = drained.push(mv);
                    assert(drained.drop_last() =~= prior);
                }
            },
            None => {
                return true;
            },
        }
        taken = taken + 1;
    }
    false
}

/// The lines of `s` joined with a newline between each pair.
pub open spec fn spec_join_lines(s: Seq<Seq<char>>) -> Seq<char>
    decreases s.len(),
{
    if s.len() == 0 {
        Seq::empty()
    } else if s.len() == 1 {
        s[0]
    } else {
        spec_join_lines(s.drop_last()) + seq!['\n'] + s.last()
    }
}

/// The last `n` lines of `s`, oldest of them first.
pub open spec fn spec_last_lines(s: Seq<Seq<char>>, n: int) -> Seq<Seq<char>> {
    s.skip(if s.len() > n { s.len() - n } else { 0 })
}

/// The last `n` buffered lines joined with newlines, for a pane.
pub fn get_last_lines(texts: &Vec<String>, n: usize) -> (r: String)
    ensures
        r@ == spec_join_lines(spec_last_lines(texts@.map_values(|t: String| t@), n as int)),
{
    let start: usize = if texts.len() > n { texts.len() - n } else { 0 };
    let ghost all: Seq<Seq<char>> = texts@.map_values(|t: String| t@);
    let mut r = String::new();
    let mut i: usize = start;
    proof {
        assert(all.subrange(start as int, start as int).map_values(|t: Seq<char>| t)
            =~= Seq::<Seq<char>>::empty());
        assert(spec_join_lines(all.subrange(start as int, start as int)) =~= Seq::<char>::empty());
    }
    while i < texts.len()
        invariant
            start <= i <= texts@.len(),
            start == (if texts@.len() > n { texts@.len() - n } else { 0 }),
            all == texts@.map_values(|t: String| t@),
            r@ == spec_join_lines(all.subrange(start as int, i as int)),
        decreases texts@.len() - i,
    {
        if i > start {
            proof {
                reveal_strlit("\n");
            }
            r.append("\n");
        }
        r.append(texts[i].as_str());
        proof {
            reveal_strlit("\n");
            let prefix = all.subrange(start as int, i as int + 1);
            assert(prefix.drop_last() =~= all.subrange(start as int, i as int));
            assert(prefix.last() == all[i as int]);
            assert(all[i as int] == texts@[i as int]@);
            if i > start {
                assert(r@ =~= spec_join_lines(prefix));
            } else {
                assert(prefix.len() == 1);
                assert(r@ =~= spec_join_lines(prefix));
            }
        }
        i = i + 1;
    }
    proof {
        assert(all.subrange(start as int, all.len() as int) =~= spec_last_lines(all, n as int));
    }
    r
}

} // verus!
