//! The navigation state: an owned stack of path segments whose join is the
//! current server-relative location. Descending with an absolute segment
//! resets the stack; a relative segment extends it; going back pops it but
//! never below the root segment.

use vstd::prelude::*;
use vstd::string::{StrSliceExecFns, StringExecFns};

verus! {

/// The location a segment stack denotes: the segments joined with `/`
/// between them.
pub open spec fn location_of(segs: Seq<Seq<char>>) -> Seq<char>
    decreases segs.len(),
{
    if segs.len() == 0 {
        Seq::empty()
    } else if segs.len() == 1 {
        segs[0]
    } else {
        location_of(segs.drop_last()) + "/"@ + segs.last()
    }
}

/// The stack a `descend` leaves behind: an absolute segment (leading `/`)
/// replaces the stack, a relative one is pushed onto it.
pub open spec fn descend_model(segs: Seq<Seq<char>>, seg: Seq<char>) -> Seq<Seq<char>> {
    if seg.len() > 0 && seg[0] == '/' {
        seq![seg]
    } else {
        segs.push(seg)
    }
}

/// The stack a `back` leaves behind: one segment popped, unless only the
/// root remains.
pub open spec fn back_model(segs: Seq<Seq<char>>) -> Seq<Seq<char>> {
    if segs.len() > 1 {
        segs.drop_last()
    } else {
        segs
    }
}

/// The path stack. Its view is the sequence of segment views.
#[derive(Debug)]
pub struct NavigationState {
    pub segments: Vec<String>,
}

impl View for NavigationState {
    type V = Seq<Seq<char>>;

    open spec fn view(&self) -> Seq<Seq<char>> {
        Seq::new(self.segments@.len(), |i: int| self.segments@[i]@)
    }
}

impl NavigationState {
    /// Creates an empty stack; the root segment arrives with the initial
    /// load.
    pub fn new() -> (r: NavigationState)
        ensures
            r@ == Seq::<Seq<char>>::empty(),
    {
        let r = NavigationState { segments: Vec::new() };
        proof {
            assert(r@ =~= Seq::<Seq<char>>::empty());
        }
        r
    }

    /// Resets the stack to hold `segment` alone.
    pub fn reset_to(&mut self, segment: &str)
        ensures
            final(self)@ == seq![segment@],
    {
        self.segments = Vec::new();
        self.segments.push(segment.to_owned());
        proof {
            assert(final(self)@ =~= seq![segment@]);
        }
    }

    /// Descends one step: an absolute segment replaces the stack, a relative
    /// one extends it.
    pub fn descend(&mut self, segment: &str)
        ensures
            final(self)@ == descend_model(old(self)@, segment@),
    {
        if segment.unicode_len() > 0 && segment.get_char(0) == '/' {
            self.reset_to(segment);
        } else {
            self.segments.push(segment.to_owned());
            proof {
                assert(final(self)@ =~= old(self)@.push(segment@));
            }
        }
    }

    /// Pops one segment unless only the root remains; back-navigation is
    /// always reported as handled.
    pub fn back(&mut self) -> (r: bool)
        ensures
            r == true,
            final(self)@ == back_model(old(self)@),
    {
        if self.segments.len() > 1 {
            self.segments.pop();
            proof {
                assert(final(self)@ =~= old(self)@.drop_last());
            }
        }
        true
    }

    /// Joins the stack into the literal location handed to the transport.
    pub fn current_location(&self) -> (r: String)
        ensures
            r@ == location_of(self@),
    {
        let mut loc = String::new();
        let mut i: usize = 0;
        let n = self.segments.len();
        while i < n
            invariant
                i <= n,
                n == self@.len(),
                loc@ == location_of(self@.subrange(0, i as int)),
            decreases n - i,
        {
            if i > 0 {
                loc.append("/");
            }
            loc.append(self.segments[i].as_str());
            proof {
                let pre = self@.subrange(0, i as int);
                let cur = self@.subrange(0, i + 1);
                assert(cur.drop_last() =~= pre);
                assert(cur.last() == self@[i as int]);
                if i == 0 {
                    assert(loc@ =~= location_of(cur));
                }
            }
            i += 1;
        }
        proof {
            assert(self@.subrange(0, n as int) =~= self@);
        }
        loc
    }
}

} // verus!
