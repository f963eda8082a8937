//! The current screen and the history of the screens that led to it.

use crate::view::{View, ViewModel};
use vstd::prelude::*;
use vstd::view::View as _;

verus! {

/// The current screen and the screens left behind, the most recent last.
pub struct NavModel {
    pub current: ViewModel,
    pub stack: Seq<ViewModel>,
}

impl NavModel {
    /// The bank list with no history.
    pub open spec fn root() -> NavModel {
        NavModel { current: ViewModel::Banks, stack: Seq::empty() }
    }

    /// Showing `view`: nothing changes if it is shown already, else the
    /// current screen goes onto the history.
    pub open spec fn switch_to(self, view: ViewModel) -> NavModel {
        if view == self.current {
            self
        } else {
            NavModel { current: view, stack: self.stack.push(self.current) }
        }
    }

    /// Drilling down into a bank: from the bank list to that bank's memories,
    /// and nothing from any other screen.
    pub open spec fn enter(self, bank: Seq<char>) -> NavModel {
        if self.current is Banks {
            self.switch_to(ViewModel::Memories(bank))
        } else {
            self
        }
    }

    /// Going back: the most recent screen of the history becomes current;
    /// with no history nothing changes.
    pub open spec fn go_back(self) -> NavModel {
        if self.stack.len() == 0 {
            self
        } else {
            NavModel { current: self.stack.last(), stack: self.stack.drop_last() }
        }
    }

    /// The history followed by the current screen.
    pub open spec fn trail(self) -> Seq<ViewModel> {
        self.stack.push(self.current)
    }

    /// No screen is directly followed by itself, so every step back shows a
    /// screen other than the one left.
    pub open spec fn wf(self) -> bool {
        forall|i: int|
            0 <= i < self.stack.len() ==> #[trigger] self.trail()[i] != self.trail()[i + 1]
    }
}

/// Switching to another screen and going back restores the state exactly;
/// from an empty history this holds of every switch, the one to the current
/// screen included, and leaves the history empty.
pub proof fn lemma_back_undoes_switch(nav: NavModel, view: ViewModel)
    requires
        view != nav.current || nav.stack.len() == 0,
    ensures
        nav.switch_to(view).go_back() == nav,
        nav.stack.len() == 0 ==> nav.switch_to(view).go_back().stack.len() == 0,
{
    if view != nav.current {
        assert(nav.stack.push(nav.current).drop_last() =~= nav.stack);
    }
}

/// Switching to the screen that is already shown changes neither the screen
/// nor the depth of the history.
pub proof fn lemma_switch_to_current(nav: NavModel)
    ensures
        nav.switch_to(nav.current) == nav,
{
}

/// Every transition keeps the history free of a screen directly followed by itself.
pub proof fn lemma_transitions_keep_wf(nav: NavModel, view: ViewModel, bank: Seq<char>)
    requires
        nav.wf(),
    ensures
        NavModel::root().wf(),
        nav.switch_to(view).wf(),
        nav.enter(bank).wf(),
        nav.go_back().wf(),
{
    let switched = nav.switch_to(view);
    assert(switched.wf()) by {
        if view != nav.current {
            assert forall|i: int| 0 <= i < switched.stack.len() implies #[trigger] switched.trail()[i]
                != switched.trail()[i + 1] by {
                if i < nav.stack.len() {
                    assert(nav.trail()[i] != nav.trail()[i + 1]);
                }
            }
        }
    }
    let entered = nav.enter(bank);
    assert(entered.wf()) by {
        if nav.current is Banks {
            assert forall|i: int| 0 <= i < entered.stack.len() implies #[trigger] entered.trail()[i]
                != entered.trail()[i + 1] by {
                if i < nav.stack.len() {
                    assert(nav.trail()[i] != nav.trail()[i + 1]);
                }
            }
        }
    }
    let back = nav.go_back();
    assert(back.wf()) by {
        if nav.stack.len() > 0 {
            assert forall|i: int| 0 <= i < back.stack.len() implies #[trigger] back.trail()[i]
                != back.trail()[i + 1] by {
                assert(nav.trail()[i] != nav.trail()[i + 1]);
            }
        }
    }
}

/// The current screen and the stack of screens to go back to.
#[derive(Debug)]
pub struct NavigationState {
    pub current: View,
    pub stack: Vec<View>,
}

impl NavigationState {
    pub open spec fn view(&self) -> NavModel {
        NavModel { current: self.current@, stack: self.stack@.map_values(|v: View| v@) }
    }

    /// Starts at the bank list with nothing to go back to.
    pub fn new() -> (nav: NavigationState)
        ensures
            nav@ == NavModel::root(),
            nav@.wf(),
    {
        let nav = NavigationState { current: View::Banks, stack: Vec::new() };
        assert(nav@.stack =~= Seq::empty());
        nav
    }

    pub fn current(&self) -> (v: &View)
        ensures
            *v == self.current,
    {
        &self.current
    }

    /// How many screens there are to go back to.
    pub fn depth(&self) -> (n: usize)
        ensures
            n == self@.stack.len(),
    {
        self.stack.len()
    }

    /// Shows `view`, remembering the screen left behind. Returns whether the
    /// screen changed, in which case the caller has to load its data.
    pub fn switch_to(&mut self, view: View) -> (changed: bool)
        ensures
            final(self)@ == old(self)@.switch_to(view@),
            changed == (view@ != old(self)@.current),
            !changed ==> *final(self) == *old(self),
            changed ==> final(self).current == view,
            old(self)@.wf() ==> final(self)@.wf(),
    {
        proof {
            if self@.wf() {
                lemma_transitions_keep_wf(self@, view@, Seq::empty());
            }
        }
        if self.current == view {
            false
        } else {
            let mut shown = view;
            std::mem::swap(&mut self.current, &mut shown);
            self.stack.push(shown);
            assert(self@.stack =~= old(self)@.stack.push(old(self)@.current));
            true
        }
    }

    /// Drills down from the bank list into the memories of one bank. Returns
    /// whether the screen changed; on any other screen nothing happens.
    pub fn enter(&mut self, bank_id: String) -> (entered: bool)
        ensures
            final(self)@ == old(self)@.enter(bank_id@),
            entered == (old(self)@.current is Banks),
            !entered ==> *final(self) == *old(self),
            entered ==> final(self).current == View::Memories(bank_id),
            old(self)@.wf() ==> final(self)@.wf(),
    {
        proof {
            if self@.wf() {
                lemma_transitions_keep_wf(self@, ViewModel::Banks, bank_id@);
            }
        }
        match self.current {
            View::Banks => {
                let mut shown = View::Memories(bank_id);
                std::mem::swap(&mut self.current, &mut shown);
                self.stack.push(shown);
                assert(self@.stack =~= old(self)@.stack.push(old(self)@.current));
                true
            },
            _ => false,
        }
    }

    /// Returns to the screen shown before. Returns whether there was one, in
    /// which case the caller has to load its data.
    pub fn go_back(&mut self) -> (restored: bool)
        ensures
            final(self)@ == old(self)@.go_back(),
            restored == (old(self)@.stack.len() > 0),
            !restored ==> *final(self) == *old(self),
            old(self)@.wf() ==> final(self)@.wf(),
    {
        proof {
            if self@.wf() {
                lemma_transitions_keep_wf(self@, ViewModel::Banks, Seq::empty());
            }
        }
        if self.stack.len() == 0 {
            return false;
        }
        match self.stack.pop() {
            Some(previous) => {
                self.current = previous;
                assert(self@.stack =~= old(self)@.stack.drop_last());
                true
            },
            None => false,
        }
    }
}

} // verus!
