//! Topics: tagged vocabulary entries (tags, categories, skills).

use vstd::prelude::*;

use crate::filter::Filter;
use crate::sort_direction::SortDirection;
use crate::sorter::{sort_entries, EntryOrder, Sorter};
use crate::text::{eq_str, lower_of};

verus! {

/// The vocabulary a topic belongs to.
#[derive(Clone, Copy, Debug, PartialEq, Eq, Structural)]
pub enum TopicKind {
    Tag,
    Category,
    Skill,
}

/// The kind rendered as text.
pub open spec fn topic_kind_text(k: TopicKind) -> Seq<char> {
    match k {
        TopicKind::Tag => "Tag"@,
        TopicKind::Category => "Category"@,
        TopicKind::Skill => "Skill"@,
    }
}

impl TopicKind {
    /// The kind rendered as text.
    pub fn to_text(&self) -> (r: String)
        ensures
            r@ == topic_kind_text(*self),
    {
        match self {
            TopicKind::Tag => String::from_str("Tag"),
            TopicKind::Category => String::from_str("Category"),
            TopicKind::Skill => String::from_str("Skill"),
        }
    }
}

/// One vocabulary entry.
#[derive(Clone, Debug)]
pub struct Topic {
    pub kind: TopicKind,
    pub value: String,
}

impl Topic {
    /// A topic of the given kind and text.
    pub fn new(kind: TopicKind, value: String) -> (r: Self)
        ensures
            r == (Topic { kind, value }),
    {
        Topic { kind, value }
    }
}

/// Order over topics: by key, ascending or descending.
#[derive(Clone, Debug)]
pub enum TopicSort {
    ID(SortDirection),
}

impl Default for TopicSort {
    /// The default order is by key, ascending.
    fn default() -> (r: Self)
        ensures
            r == TopicSort::ID(SortDirection::Asc),
    {
        TopicSort::ID(SortDirection::Asc)
    }
}

impl EntryOrder<u64, Topic> for TopicSort {
    open spec fn le_spec(&self, a: &(u64, Topic), b: &(u64, Topic)) -> bool {
        match self {
            TopicSort::ID(SortDirection::Asc) => a.0 <= b.0,
            TopicSort::ID(SortDirection::Desc) => b.0 <= a.0,
        }
    }

    proof fn le_total(&self, a: &(u64, Topic), b: &(u64, Topic)) {
    }

    proof fn le_trans(&self, a: &(u64, Topic), b: &(u64, Topic), c: &(u64, Topic)) {
    }

    fn le(&self, a: &(u64, Topic), b: &(u64, Topic)) -> (r: bool) {
        match self {
            TopicSort::ID(SortDirection::Asc) => a.0 <= b.0,
            TopicSort::ID(SortDirection::Desc) => b.0 <= a.0,
        }
    }

}

impl Sorter<u64, Topic> for TopicSort {
    fn sort(&self, entries: Vec<(u64, Topic)>) -> (r: Vec<(u64, Topic)>) {
        sort_entries(self, entries)
    }
}

/// Predicates over topics.
#[derive(Clone, Debug)]
pub enum TopicFilter {
    Kind(TopicKind),
    Value(String),
}

impl Filter<u64, Topic> for TopicFilter {
    open spec fn matches_spec(&self, key: &u64, topic: &Topic) -> bool {
        match self {
            TopicFilter::Kind(kind) => topic.kind == *kind,
            TopicFilter::Value(value) => lower_of(topic.value@) == lower_of(value@),
        }
    }

    fn matches(&self, key: &u64, topic: &Topic) -> (r: bool) {
        match self {
            TopicFilter::Kind(kind) => topic.kind == *kind,
            TopicFilter::Value(value) => eq_str(topic.value.as_str(), value.as_str()),
        }
    }
}

} // verus!
