//! The state that the server keeps across restarts: feedback, items and
//! user accounts.
use vstd::prelude::*;
use crate::item::Item;
use crate::shared::{Hashed, Username};
use crate::table::{Table, entry_map, unique_keys};

verus! {

/// User entries as table entries keyed by the user name.
pub open spec fn user_pairs(users: Seq<(Username, Hashed)>) -> Seq<(String, Hashed)> {
    users.map_values(|e: (Username, Hashed)| (e.0.0, e.1))
}

/// State data that is stored on the disk to be still available after the
/// server is restarted.
pub struct StoredData {
    /// List of feedback
    feedback: Vec<String>,
    /// List of current items
    items: Vec<Item>,
    /// Maps username to password hash
    users: Table<Hashed>,
}

impl StoredData {
    /// The feedback entries, oldest first.
    pub closed spec fn feedback(&self) -> Seq<String> {
        self.feedback@
    }

    /// The items, in the order they were added.
    pub closed spec fn items(&self) -> Seq<Item> {
        self.items@
    }

    /// The password hash of each user name.
    pub closed spec fn users(&self) -> Map<Seq<char>, Hashed> {
        self.users@
    }

    /// The user entries, in registration order.
    pub closed spec fn user_list(&self) -> Seq<(String, Hashed)> {
        self.users.entry_seq()
    }

    /// The user table holds each name once.
    pub closed spec fn wf(&self) -> bool {
        self.users.wf()
    }

    /// No feedback, no items, no users.
    pub fn new() -> (d: Self)
        ensures
            d.wf(),
            d.feedback() == Seq::<String>::empty(),
            d.items() == Seq::<Item>::empty(),
            d.users() == Map::<Seq<char>, Hashed>::empty(),
    {
        StoredData { feedback: Vec::new(), items: Vec::new(), users: Table::new() }
    }

    /// Rebuilds stored data from its parts; a user name that occurs twice
    /// keeps its last hash.
    pub fn from_parts(feedback: Vec<String>, items: Vec<Item>, users: Vec<(Username, Hashed)>) -> (d: Self)
        ensures
            d.wf(),
            d.feedback() == feedback@,
            d.items() == items@,
            d.users() == entry_map(user_pairs(users@)),
    {
        let mut table: Table<Hashed> = Table::new();
        let ghost all = users@;
        for e in it: users
            invariant
                it.seq() == all,
                table.wf(),
                table@ == entry_map(user_pairs(it.seq().take(it.index() as int))),
        {
            let ghost before = it.seq().take(it.index() as int);
            table.insert(e.0.0, e.1);
            assert(user_pairs(it.seq().take(it.index() + 1)).drop_last() =~= user_pairs(before));
        }
        assert(all.take(all.len() as int) =~= all);
        StoredData { feedback, items, users: table }
    }

    /// Whether nothing at all is stored.
    pub fn is_empty(&self) -> (b: bool)
        requires
            self.wf(),
        ensures
            b == (self.feedback().len() == 0 && self.items().len() == 0 && self.users() == Map::<Seq<char>, Hashed>::empty()),
    {
        self.feedback.len() == 0 && self.items.len() == 0 && self.users.is_empty()
    }

    /// Adds a new feedback entry.
    pub fn add_feedback(&mut self, feedback: String)
        requires
            old(self).wf(),
        ensures
            final(self).wf(),
            final(self).feedback() == old(self).feedback().push(feedback),
            final(self).items() == old(self).items(),
            final(self).users() == old(self).users(),
    {
        self.feedback.push(feedback);
    }

    /// Adds a new item entry.
    pub fn add_item(&mut self, item: Item)
        requires
            old(self).wf(),
        ensures
            final(self).wf(),
            final(self).items() == old(self).items().push(item),
            final(self).feedback() == old(self).feedback(),
            final(self).users() == old(self).users(),
    {
        self.items.push(item);
    }

    /// Edits an existing item: replaces the item at `index` and returns the
    /// one that was there, or returns `None` and changes nothing when there
    /// is no item at `index`.
    pub fn edit_item(&mut self, index: usize, item: Item) -> (replaced: Option<Item>)
        requires
            old(self).wf(),
        ensures
            final(self).wf(),
            final(self).feedback() == old(self).feedback(),
            final(self).users() == old(self).users(),
            index < old(self).items().len() ==> {
                &&& replaced == Some(old(self).items()[index as int])
                &&& final(self).items() == old(self).items().update(index as int, item)
            },
            index >= old(self).items().len() ==> {
                &&& replaced is None
                &&& final(self).items() == old(self).items()
            },
    {
        if index < self.items.len() {
            self.items.push(item);
            let old_item = self.items.swap_remove(index);
            assert(self.items@ =~= old(self).items@.update(index as int, item));
            Some(old_item)
        } else {
            None
        }
    }

    /// Returns all the feedback.
    pub fn get_feedback(&self) -> (f: &[String])
        ensures
            f@ == self.feedback(),
    {
        self.feedback.as_slice()
    }

    /// Returns every item.
    pub fn get_items(&self) -> (i: &[Item])
        ensures
            i@ == self.items(),
    {
        self.items.as_slice()
    }

    /// The password hash of the user, if the user exists.
    pub fn get_user(&self, username: &Username) -> (h: Option<&Hashed>)
        requires
            self.wf(),
        ensures
            h matches Some(h) ==> self.users().contains_key(username.0@) && *h == self.users()[username.0@],
            h is None ==> !self.users().contains_key(username.0@),
    {
        self.users.get(&username.0)
    }

    /// Registers a new user; refuses, and changes nothing, when the name is
    /// taken.
    pub fn add_user(&mut self, username: Username, hashed: Hashed) -> (added: bool)
        requires
            old(self).wf(),
        ensures
            final(self).wf(),
            added == !old(self).users().contains_key(username.0@),
            added ==> final(self).users() == old(self).users().insert(username.0@, hashed),
            !added ==> final(self).users() == old(self).users(),
            final(self).feedback() == old(self).feedback(),
            final(self).items() == old(self).items(),
    {
        self.users.insert_new(username.0, hashed)
    }

    /// The user entries, in registration order.
    pub fn user_entries(&self) -> (r: &[(String, Hashed)])
        requires
            self.wf(),
        ensures
            r@ == self.user_list(),
            unique_keys(r@),
            entry_map(r@) == self.users(),
    {
        proof {
            self.users.lemma_entries();
        }
        self.users.entries()
    }
}

/// Editing an item and then putting back the item that the edit returned
/// restores the items.
pub proof fn law_edit_undone(items: Seq<Item>, index: int, item: Item)
    requires
        0 <= index < items.len(),
    ensures
        items.update(index, item).update(index, items[index]) == items,
        items.update(index, item).len() == items.len(),
        items.update(index, item)[index] == item,
{
    assert(items.update(index, item).update(index, items[index]) =~= items);
}

/// Stored data taken apart and rebuilt gives back the same users, in
/// whatever order the user entries come back (as from a hash map): user
/// entries holding the same pairs, each name once, stand for the users of
/// the data they were taken from.
pub proof fn law_users_rebuilt(d: StoredData, users: Seq<(Username, Hashed)>)
    requires
        d.wf(),
        unique_keys(user_pairs(users)),
        user_pairs(users).to_set() == d.user_list().to_set(),
    ensures
        entry_map(user_pairs(users)) == d.users(),
{
    d.users.lemma_entries();
    crate::table::law_entry_order_irrelevant(user_pairs(users), d.user_list());
}

} // verus!
