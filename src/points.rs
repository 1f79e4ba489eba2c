//! A cursor over a borrowed table of points.
use vstd::prelude::*;

verus! {

/// Hands out the points of a table one at a time, in stored order. The table
/// is only read, so any number of cursors may walk it side by side.
pub struct PointsIterator<'a> {
    data: &'a [(i32, i32)],
    pos: usize,
}

impl<'a> PointsIterator<'a> {
    /// The table this cursor walks.
    pub closed spec fn source(&self) -> Seq<(i32, i32)> {
        self.data@
    }

    /// How many points have been handed out so far.
    pub closed spec fn position(&self) -> nat {
        self.pos as nat
    }

    /// The points still to come, in order.
    pub open spec fn remaining(&self) -> Seq<(i32, i32)> {
        self.source().subrange(self.position() as int, self.source().len() as int)
    }

    #[verifier::type_invariant]
    spec fn inv(&self) -> bool {
        self.pos <= self.data@.len()
    }

    /// A cursor at the start of `data`.
    pub fn from(data: &'a [(i32, i32)]) -> (r: PointsIterator<'a>)
        ensures
            r.source() == data@,
            r.position() == 0,
            r.remaining() == data@,
    {
        let r = PointsIterator { data, pos: 0 };
        assert(r.remaining() =~= data@);
        r
    }

    /// The next point, or `None` once the table is exhausted.
    pub fn next(&mut self) -> (r: Option<(i32, i32)>)
        ensures
            final(self).source() == old(self).source(),
            final(self).position() <= final(self).source().len(),
            old(self).position() < old(self).source().len() ==> {
                &&& r == Some(old(self).source()[old(self).position() as int])
                &&& final(self).position() == old(self).position() + 1
            },
            old(self).position() >= old(self).source().len() ==> {
                &&& r is None
                &&& final(self).position() == old(self).position()
            },
            r matches Some(p) ==> old(self).remaining().len() > 0 && p == old(self).remaining()[0]
                && final(self).remaining() == old(self).remaining().drop_first(),
            r is None ==> old(self).remaining().len() == 0 && final(self).remaining() == old(
                self,
            ).remaining(),
    {
        proof {
            use_type_invariant(&*self);
        }
        if self.pos < self.data.len() {
            let p = self.data[self.pos];
            self.pos = self.pos + 1;
            proof {
                assert(self.remaining() =~= old(self).remaining().drop_first());
            }
            Some(p)
        } else {
            None
        }
    }
}

} // verus!
