//! The records that the service stores and returns.

use vstd::prelude::*;
use vstd::string::StringExecFns;

verus! {

/// Each text of `src`, as an owned string, in order.
pub fn owned_strings(src: &Vec<&str>) -> (r: Vec<String>)
    ensures
        r@.len() == src@.len(),
        forall|i: int| 0 <= i < src@.len() ==> #[trigger] r@[i]@ == src@[i]@,
{
    let mut r: Vec<String> = Vec::new();
    let mut i: usize = 0;
    while i < src.len()
        invariant
            i <= src@.len(),
            r@.len() == i,
            forall|k: int| 0 <= k < i ==> #[trigger] r@[k]@ == src@[k]@,
        decreases src@.len() - i,
    {
        r.push(String::from_str(src[i]));
        i = i + 1;
    }
    r
}

/// A user: its identifier, its labels and a free comment.
#[derive(Debug, PartialEq, Eq)]
pub struct User {
    pub user_id: String,
    pub labels: Vec<String>,
    pub comment: String,
}

impl User {
    /// A user with the given identifier and labels, and an empty comment.
    pub fn new(user_id: &str, labels: Vec<&str>) -> (r: Self)
        ensures
            r.user_id@ == user_id@,
            r.labels@.len() == labels@.len(),
            forall|i: int| 0 <= i < labels@.len() ==> #[trigger] r.labels@[i]@ == labels@[i]@,
            r.comment@ == Seq::<char>::empty(),
    {
        User {
            user_id: String::from_str(user_id),
            labels: owned_strings(&labels),
            comment: String::new(),
        }
    }
}

/// An item: its identifier, whether it is hidden, its labels, the
/// categories it belongs to, when it was published, and a free comment.
#[derive(Debug, PartialEq, Eq)]
pub struct Item {
    pub item_id: String,
    pub is_hidden: bool,
    pub labels: Vec<String>,
    pub categories: Vec<String>,
    pub timestamp: String,
    pub comment: String,
}

impl Item {
    /// A visible item with the given identifier, labels, categories and
    /// timestamp, and an empty comment.
    pub fn new(item_id: &str, labels: Vec<&str>, categories: Vec<&str>, timestamp: &str) -> (r:
        Self)
        ensures
            r.item_id@ == item_id@,
            !r.is_hidden,
            r.labels@.len() == labels@.len(),
            forall|i: int| 0 <= i < labels@.len() ==> #[trigger] r.labels@[i]@ == labels@[i]@,
            r.categories@.len() == categories@.len(),
            forall|i: int|
                0 <= i < categories@.len() ==> #[trigger] r.categories@[i]@ == categories@[i]@,
            r.timestamp@ == timestamp@,
            r.comment@ == Seq::<char>::empty(),
    {
        Item {
            item_id: String::from_str(item_id),
            is_hidden: false,
            labels: owned_strings(&labels),
            categories: owned_strings(&categories),
            timestamp: String::from_str(timestamp),
            comment: String::new(),
        }
    }

    /// Sets the comment.
    pub fn comment(self, comment: &str) -> (r: Self)
        ensures
            r.item_id == self.item_id,
            r.is_hidden == self.is_hidden,
            r.labels == self.labels,
            r.categories == self.categories,
            r.timestamp == self.timestamp,
            r.comment@ == comment@,
    {
        Item { comment: String::from_str(comment), ..self }
    }
}

/// One event: a user gave feedback of some type on an item, at a time.
#[derive(Debug, Clone, PartialEq, Eq)]
pub struct Feedback {
    pub feedback_type: String,
    pub user_id: String,
    pub item_id: String,
    pub timestamp: String,
}

impl Feedback {
    /// The feedback of the given type, user, item and time.
    pub fn new(feedback_type: &str, user_id: &str, item_id: &str, timestamp: &str) -> (r: Self)
        ensures
            r.feedback_type@ == feedback_type@,
            r.user_id@ == user_id@,
            r.item_id@ == item_id@,
            r.timestamp@ == timestamp@,
    {
        Feedback {
            feedback_type: String::from_str(feedback_type),
            user_id: String::from_str(user_id),
            item_id: String::from_str(item_id),
            timestamp: String::from_str(timestamp),
        }
    }
}

/// How many records a write changed.
#[derive(Debug, Clone, Copy, PartialEq, Eq)]
pub struct RowAffected {
    pub row_affected: i32,
}

/// The state of the service and of its two stores.
#[derive(Debug, Clone, PartialEq, Eq)]
pub struct Health {
    pub cache_store_connected: bool,
    pub cache_store_error: Option<String>,
    pub data_store_connected: bool,
    pub data_store_error: Option<String>,
    pub ready: bool,
}

} // verus!
