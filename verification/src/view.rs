//! The screens of the explorer and their identity.

use vstd::prelude::*;
use vstd::view::View as _;

verus! {

/// Which dataset a screen shows.
#[derive(Clone, Copy, Debug, PartialEq, Eq, Structural)]
pub enum ViewKind {
    Banks,
    Memories,
    Entities,
    Documents,
    Recall,
    Reflect,
}

/// The identity of a screen: its kind and, for a bank-scoped screen, the bank's id.
pub enum ViewModel {
    Banks,
    Memories(Seq<char>),
    Entities(Seq<char>),
    Documents(Seq<char>),
    Recall(Seq<char>),
    Reflect(Seq<char>),
}

impl ViewModel {
    pub open spec fn kind(self) -> ViewKind {
        match self {
            ViewModel::Banks => ViewKind::Banks,
            ViewModel::Memories(_) => ViewKind::Memories,
            ViewModel::Entities(_) => ViewKind::Entities,
            ViewModel::Documents(_) => ViewKind::Documents,
            ViewModel::Recall(_) => ViewKind::Recall,
            ViewModel::Reflect(_) => ViewKind::Reflect,
        }
    }

    /// The bank a screen is scoped to; the bank list is scoped to none.
    pub open spec fn bank(self) -> Option<Seq<char>> {
        match self {
            ViewModel::Banks => None,
            ViewModel::Memories(id) => Some(id),
            ViewModel::Entities(id) => Some(id),
            ViewModel::Documents(id) => Some(id),
            ViewModel::Recall(id) => Some(id),
            ViewModel::Reflect(id) => Some(id),
        }
    }

    /// Recall and reflect screens change only when a query is run.
    pub open spec fn is_query_driven(self) -> bool {
        self is Recall || self is Reflect
    }
}

/// The heading of each kind of screen.
pub open spec fn title_text(kind: ViewKind) -> Seq<char> {
    match kind {
        ViewKind::Banks => "Banks"@,
        ViewKind::Memories => "Memories"@,
        ViewKind::Entities => "Entities"@,
        ViewKind::Documents => "Documents"@,
        ViewKind::Recall => "Recall"@,
        ViewKind::Reflect => "Reflect"@,
    }
}

/// A screen of the explorer; every screen but the bank list is scoped to one bank.
#[derive(Debug)]
pub enum View {
    Banks,
    Memories(String),
    Entities(String),
    Documents(String),
    Recall(String),
    Reflect(String),
}

impl View {
    pub open spec fn view(&self) -> ViewModel {
        match *self {
            View::Banks => ViewModel::Banks,
            View::Memories(id) => ViewModel::Memories(id@),
            View::Entities(id) => ViewModel::Entities(id@),
            View::Documents(id) => ViewModel::Documents(id@),
            View::Recall(id) => ViewModel::Recall(id@),
            View::Reflect(id) => ViewModel::Reflect(id@),
        }
    }

    pub fn kind(&self) -> (k: ViewKind)
        ensures
            k == self@.kind(),
    {
        match self {
            View::Banks => ViewKind::Banks,
            View::Memories(_) => ViewKind::Memories,
            View::Entities(_) => ViewKind::Entities,
            View::Documents(_) => ViewKind::Documents,
            View::Recall(_) => ViewKind::Recall,
            View::Reflect(_) => ViewKind::Reflect,
        }
    }

    pub fn title(&self) -> (t: &str)
        ensures
            t@ == title_text(self@.kind()),
    {
        match self {
            View::Banks => "Banks",
            View::Memories(_) => "Memories",
            View::Entities(_) => "Entities",
            View::Documents(_) => "Documents",
            View::Recall(_) => "Recall",
            View::Reflect(_) => "Reflect",
        }
    }

    pub fn bank_id(&self) -> (id: Option<&str>)
        ensures
            match id {
                Some(s) => self@.bank() == Some(s@),
                None => self@.bank() is None,
            },
    {
        match self {
            View::Banks => None,
            View::Memories(id) => Some(id.as_str()),
            View::Entities(id) => Some(id.as_str()),
            View::Documents(id) => Some(id.as_str()),
            View::Recall(id) => Some(id.as_str()),
            View::Reflect(id) => Some(id.as_str()),
        }
    }

    pub fn is_query_driven(&self) -> (b: bool)
        ensures
            b == self@.is_query_driven(),
    {
        match self {
            View::Recall(_) => true,
            View::Reflect(_) => true,
            _ => false,
        }
    }
}

impl Clone for View {
    fn clone(&self) -> (r: Self)
        ensures
            r == *self,
    {
        match self {
            View::Banks => View::Banks,
            View::Memories(id) => View::Memories(id.clone()),
            View::Entities(id) => View::Entities(id.clone()),
            View::Documents(id) => View::Documents(id.clone()),
            View::Recall(id) => View::Recall(id.clone()),
            View::Reflect(id) => View::Reflect(id.clone()),
        }
    }
}

/// Two screens are the same screen when kind and bank id agree.
impl PartialEq for View {
    fn eq(&self, other: &Self) -> (r: bool) {
        match (self, other) {
            (View::Banks, View::Banks) => true,
            (View::Memories(a), View::Memories(b)) => *a == *b,
            (View::Entities(a), View::Entities(b)) => *a == *b,
            (View::Documents(a), View::Documents(b)) => *a == *b,
            (View::Recall(a), View::Recall(b)) => *a == *b,
            (View::Reflect(a), View::Reflect(b)) => *a == *b,
            _ => false,
        }
    }
}

impl vstd::std_specs::cmp::PartialEqSpecImpl for View {
    open spec fn obeys_eq_spec() -> bool {
        true
    }

    open spec fn eq_spec(&self, other: &Self) -> bool {
        self@ == other@
    }
}

} // verus!
