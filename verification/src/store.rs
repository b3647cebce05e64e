//! The novelty store as the polling cycle sees it: the two statements that
//! are run against it, and a model of what it holds and how it answers.

use vstd::multiset::Multiset;
use vstd::prelude::*;

verus! {

/// The statement that counts the records of one link.
pub const COUNT_STATEMENT: &'static str = "SELECT COUNT(*) FROM seen_posts WHERE link = $1";

/// The statement that records one link.
pub const INSERT_STATEMENT: &'static str = "INSERT INTO seen_posts (link) VALUES ($1)";

/// A model of the store: the links recorded so far, each as often as it was
/// inserted, and whether the store refuses a link that it holds already.
pub struct StoreModel {
    pub records: Multiset<Seq<char>>,
    pub unique: bool,
}

impl StoreModel {
    /// Whether a record of `link` exists.
    pub open spec fn holds(self, link: Seq<char>) -> bool {
        self.records.count(link) > 0
    }

    /// The number that a count of the records of `link` reports.
    pub open spec fn reported_count(self, link: Seq<char>) -> i64 {
        if self.records.count(link) <= i64::MAX {
            self.records.count(link) as i64
        } else {
            i64::MAX
        }
    }

    /// Whether an insertion of `link` succeeds: always without a uniqueness
    /// constraint, and with one only while the link is not recorded.
    pub open spec fn accepts(self, link: Seq<char>) -> bool {
        !(self.unique && self.holds(link))
    }

    /// The store after a successful insertion of `link`.
    pub open spec fn inserted(self, link: Seq<char>) -> StoreModel {
        StoreModel { records: self.records.insert(link), unique: self.unique }
    }
}

} // verus!
