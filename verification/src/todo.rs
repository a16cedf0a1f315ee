//! The records behind the protected routes: to-do items and the ping count.

use vstd::prelude::*;

verus! {

/// The position of an item that has not been given one.
pub fn idx_default() -> (idx: i64)
    ensures
        idx == -1,
{
    -1
}

/// A to-do item of one user.
#[derive(Debug)]
pub struct Todo {
    pub id: i64,
    pub username: String,
    pub text: String,
    pub idx: i64,
    pub completed: bool,
    pub cleared: bool,
}

/// The changes that a client asks for on one item. An absent field is left
/// as it is.
#[derive(Debug)]
pub struct Update {
    pub text: Option<String>,
    pub completed: Option<bool>,
    pub cleared: Option<bool>,
}

impl Todo {
    /// A new item as the store creates it for `username`: at position zero,
    /// neither completed nor cleared.
    pub fn new(id: i64, username: String, text: String) -> (todo: Self)
        ensures
            todo == (Todo { id, username, text, idx: 0, completed: false, cleared: false }),
    {
        Todo { id, username, text, idx: 0, completed: false, cleared: false }
    }

    /// Whether the item belongs to `username`. Only its owner may change it.
    pub fn owned_by(&self, username: &str) -> (b: bool)
        ensures
            b == (self.username@ == username@),
    {
        let name = username.to_owned();
        self.username == name
    }

    /// Applies the changes that are present in `update`.
    pub fn apply(self, update: Update) -> (next: Self)
        ensures
            next.id == self.id,
            next.username == self.username,
            next.idx == self.idx,
            next.text == (match update.text {
                Some(text) => text,
                None => self.text,
            }),
            next.completed == (match update.completed {
                Some(completed) => completed,
                None => self.completed,
            }),
            next.cleared == (match update.cleared {
                Some(cleared) => cleared,
                None => self.cleared,
            }),
    {
        let text = match update.text {
            Some(text) => text,
            None => self.text,
        };
        let completed = match update.completed {
            Some(completed) => completed,
            None => self.completed,
        };
        let cleared = match update.cleared {
            Some(cleared) => cleared,
            None => self.cleared,
        };
        Todo { id: self.id, username: self.username, text, idx: self.idx, completed, cleared }
    }
}

/// How often the service has been pinged.
#[derive(Debug, Clone, Copy, PartialEq, Eq, Structural)]
pub struct Pings {
    pub pings: i64,
}

impl Pings {
    /// The count after one more ping: one where nothing was recorded yet.
    pub fn record(previous: Option<Pings>) -> (next: Pings)
        requires
            previous matches Some(p) ==> p.pings < i64::MAX,
        ensures
            next.pings == (match previous {
                Some(p) => p.pings + 1,
                None => 1,
            }),
    {
        match previous {
            Some(p) => Pings { pings: p.pings + 1 },
            None => Pings { pings: 1 },
        }
    }
}

} // verus!
