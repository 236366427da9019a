//! The tag record, the creation request, and the queries that may be run
//! against the tag table.

use vstd::prelude::*;

verus! {

/// A persisted tag: a storage-assigned id and a label no other tag shares.
#[derive(Debug)]
pub struct Tag {
    pub id: i32,
    pub label: String,
}

/// What a [`Tag`] is, mathematically.
pub struct TagView {
    pub id: i32,
    pub label: Seq<char>,
}

impl View for Tag {
    type V = TagView;

    open spec fn view(&self) -> TagView {
        TagView { id: self.id, label: self.label@ }
    }
}

impl DeepView for Tag {
    type V = TagView;

    open spec fn deep_view(&self) -> TagView {
        self@
    }
}

impl Clone for Tag {
    fn clone(&self) -> (copy: Self)
        ensures
            copy == *self,
    {
        Tag { id: self.id, label: self.label.clone() }
    }
}

/// A request to create a tag. It has no identity until it is inserted.
#[derive(Debug)]
pub struct NewTag {
    pub label: String,
}

impl View for NewTag {
    type V = Seq<char>;

    open spec fn view(&self) -> Seq<char> {
        self.label@
    }
}

/// The predicate "the label equals this text" on tags.
#[derive(Debug)]
pub struct WithLabel {
    pub label: String,
}

impl View for WithLabel {
    type V = Seq<char>;

    open spec fn view(&self) -> Seq<char> {
        self.label@
    }
}

impl WithLabel {
    /// Whether the tag `tag` satisfies the predicate.
    pub open spec fn holds(self, tag: TagView) -> bool {
        tag.label == self@
    }

    pub fn matches(&self, tag: &Tag) -> (hit: bool)
        ensures
            hit == self.holds(tag@),
    {
        tag.label == self.label
    }
}

/// A query against the tag table. Only the functions of this module build one.
#[derive(Debug)]
pub enum Query {
    /// Every tag.
    All,
    /// The tag with this id.
    ById(i32),
    /// The tags that satisfy the predicate.
    ByLabel(WithLabel),
    /// Remove the tag with this id.
    DeleteById(i32),
    /// Store a tag with this label under a fresh id.
    Insert(NewTag),
}

/// What a [`Query`] is, mathematically.
pub enum QueryView {
    All,
    ById(i32),
    ByLabel(Seq<char>),
    DeleteById(i32),
    Insert(Seq<char>),
}

impl View for Query {
    type V = QueryView;

    open spec fn view(&self) -> QueryView {
        match self {
            Query::All => QueryView::All,
            Query::ById(id) => QueryView::ById(*id),
            Query::ByLabel(filter) => QueryView::ByLabel(filter@),
            Query::DeleteById(id) => QueryView::DeleteById(*id),
            Query::Insert(new_tag) => QueryView::Insert(new_tag@),
        }
    }
}

impl Tag {
    pub fn new(id: i32, label: &str) -> (tag: Tag)
        ensures
            tag@ == (TagView { id, label: label@ }),
    {
        Tag { id, label: label.to_owned() }
    }

    /// The query for every tag.
    pub fn all() -> (query: Query)
        ensures
            query@ == QueryView::All,
    {
        Query::All
    }

    /// The query for the tag with the id `id`.
    pub fn by_id(id: i32) -> (query: Query)
        ensures
            query@ == QueryView::ById(id),
    {
        Query::ById(id)
    }

    /// The predicate that holds of the tags labelled `label`.
    pub fn with_label(label: &str) -> (filter: WithLabel)
        ensures
            filter@ == label@,
    {
        WithLabel { label: label.to_owned() }
    }

    /// The query for the tag labelled `label`.
    pub fn by_label(label: &str) -> (query: Query)
        ensures
            query@ == QueryView::ByLabel(label@),
    {
        Query::ByLabel(Self::with_label(label))
    }

    /// The statement that removes the tag with the id `id`.
    pub fn delete_by_id(id: i32) -> (query: Query)
        ensures
            query@ == QueryView::DeleteById(id),
    {
        Query::DeleteById(id)
    }
}

impl NewTag {
    pub fn new(label: &str) -> (new_tag: NewTag)
        ensures
            new_tag@ == label@,
    {
        NewTag { label: label.to_owned() }
    }

    /// A label is valid when it is not empty.
    pub open spec fn spec_is_valid(&self) -> bool {
        self@.len() > 0
    }

    #[verifier::when_used_as_spec(spec_is_valid)]
    pub fn is_valid(&self) -> (valid: bool)
        ensures
            valid == self.spec_is_valid(),
    {
        !self.label.as_str().is_empty()
    }

    /// The statement that stores this tag.
    pub fn insert(self) -> (query: Query)
        ensures
            query@ == QueryView::Insert(self@),
    {
        Query::Insert(self)
    }
}

} // verus!
