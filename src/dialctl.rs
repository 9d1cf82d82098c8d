//! Decisions of the dial control command: which dial a selection names and
//! what a `set` changes.
use vstd::prelude::*;
use crate::dial::{Backlight, Id, Percent, same_text};

verus! {

/// How dials are printed.
#[derive(Copy, Clone, Debug, PartialEq, Eq, Structural)]
pub enum OutputMode {
    Text,
    Json,
    Ascii,
}

/// A dial chosen by UID, by index or by name.
#[derive(Clone, Debug)]
pub struct DialSelection {
    pub uid: Option<Id>,
    pub index: Option<usize>,
    pub name: Option<String>,
}

/// What a selection searches for.
#[derive(Clone, Debug)]
pub enum Selector {
    ByUid(Id),
    ByIndex(usize),
    ByName(String),
}

impl DialSelection {
    /// A UID wins over everything; otherwise exactly one of index and name
    /// must be given.
    pub fn selector(&self) -> (r: Option<Selector>)
        ensures
            self.uid matches Some(u) ==> (r matches Some(Selector::ByUid(v)) && v@ == u@),
            self.uid is None ==> match (self.index, self.name) {
                (Some(i), None) => r matches Some(Selector::ByIndex(j)) && i == j,
                (None, Some(n)) => r matches Some(Selector::ByName(m)) && m@ == n@,
                _ => r is None,
            },
    {
        if let Some(uid) = &self.uid {
            return Some(Selector::ByUid(Id::new(uid.as_str().to_string())));
        }
        match (self.index, &self.name) {
            (Some(i), None) => Some(Selector::ByIndex(i)),
            (None, Some(n)) => Some(Selector::ByName(n.as_str().to_string())),
            _ => None,
        }
    }
}

impl Selector {
    /// Whether a listed dial with this index and name is the one selected.
    /// A UID selection matches no listed dial: it is used directly.
    pub fn matches(&self, index: usize, name: &str) -> (r: bool)
        ensures
            r == match self {
                Selector::ByUid(_) => false,
                Selector::ByIndex(i) => *i == index,
                Selector::ByName(n) => n@ == name@,
            },
    {
        match self {
            Selector::ByUid(_) => false,
            Selector::ByIndex(i) => *i == index,
            Selector::ByName(n) => same_text(n.as_str(), name),
        }
    }
}

/// The changes a `set` command asks for.
#[derive(Clone, Debug)]
pub struct SetValues {
    pub value: Option<Percent>,
    pub image: Option<String>,
    pub red: Option<Percent>,
    pub green: Option<Percent>,
    pub blue: Option<Percent>,
}

impl SetValues {
    /// Whether any backlight channel is to change.
    pub fn changes_backlight(&self) -> (r: bool)
        ensures
            r == (self.red is Some || self.green is Some || self.blue is Some),
    {
        self.red.is_some() || self.green.is_some() || self.blue.is_some()
    }

    /// The backlight after the change, from the current one.
    pub fn backlight_from(&self, current: &Backlight) -> (r: Backlight)
        ensures
            r.red == (match self.red { Some(p) => p, None => current.red }),
            r.green == (match self.green { Some(p) => p, None => current.green }),
            r.blue == (match self.blue { Some(p) => p, None => current.blue }),
    {
        current.with_channels(self.red, self.green, self.blue)
    }
}

} // verus!
