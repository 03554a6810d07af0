//! The tab strip: a fixed, ordered sequence of tab titles and the index of
//! the active one, advanced circularly.

use vstd::prelude::*;

use crate::cursor::down_from;
use crate::cursor::up_from;

verus! {

/// The tab strip's state. The active index always stays inside the titles.
pub struct TabState {
    pub titles: Vec<String>,
    pub index: usize,
}

impl TabState {
    /// The active index stays inside the (non-empty) title sequence.
    pub open spec fn wf(&self) -> bool {
        self.index < self.titles@.len()
    }

    /// A tab strip over the given titles, starting on the first one.
    pub fn new(titles: Vec<String>) -> (r: TabState)
        requires
            titles@.len() > 0,
        ensures
            r.titles == titles,
            r.index == 0,
            r.wf(),
    {
        TabState { titles, index: 0 }
    }

    /// Advances to the next tab, circularly.
    pub fn next(&mut self)
        requires
            old(self).wf(),
        ensures
            final(self).wf(),
            final(self).titles == old(self).titles,
            final(self).index == down_from(old(self).index as int, old(self).titles@.len() as int),
    {
        let n: usize = self.titles.len();
        proof {
            if self.index + 1 < n {
                vstd::arithmetic::div_mod::lemma_small_mod((self.index + 1) as nat, n as nat);
            } else {
                vstd::arithmetic::div_mod::lemma_mod_self_0(n as int);
            }
        }
        self.index = (self.index + 1) % n;
    }

    /// Retreats to the previous tab, circularly.
    pub fn prev(&mut self)
        requires
            old(self).wf(),
        ensures
            final(self).wf(),
            final(self).titles == old(self).titles,
            final(self).index == up_from(old(self).index as int, old(self).titles@.len() as int),
    {
        if self.index > 0 {
            self.index -= 1;
        } else {
            self.index = self.titles.len() - 1;
        }
    }
}

} // verus!
