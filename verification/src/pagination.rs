//! Cutting result lists into pages, and ActivityStreams collections.
use vstd::prelude::*;

verus! {

/// One page of results, and the link to the next page if there is one.
#[derive(Debug)]
pub struct PaginatedResponse<T> {
    pub result: Vec<T>,
    pub next: Option<String>,
}

/// An item that carries the key by which the next page is found.
pub trait PaginatableItem {
    type Key;

    spec fn spec_pkey(&self) -> Self::Key;

    fn pkey(&self) -> (r: Self::Key)
        ensures
            r == self.spec_pkey(),
    ;
}

/// A value paired with its paging key.
#[derive(Debug)]
pub struct PaginatableWrapper<V, K> {
    pub value: V,
    pub key: K,
}

impl<V, K> PaginatableWrapper<V, K> {
    pub fn new(value: V, key: K) -> (r: Self)
        ensures
            r.value == value,
            r.key == key,
    {
        Self { value, key }
    }
}

impl<V, K: Copy> PaginatableItem for PaginatableWrapper<V, K> {
    type Key = K;

    open spec fn spec_pkey(&self) -> K {
        self.key
    }

    fn pkey(&self) -> (r: K) {
        self.key
    }
}

impl<T: PaginatableItem> PaginatedResponse<T> {
    /// A page of at most `page_size` results. The caller fetches one result
    /// more than a page; when it is there, the page stops before it and
    /// `next_gen` makes the link to the page that starts with it.
    pub fn from_result<G: FnOnce(&T::Key) -> String>(
        result: Vec<T>,
        page_size: usize,
        next_gen: G,
    ) -> (r: Self)
        requires
            result@.len() > page_size ==> next_gen.requires((&result@[page_size as int].spec_pkey(),)),
        ensures
            result@.len() <= page_size ==> r.result@ == result@ && r.next is None,
            result@.len() > page_size ==> {
                &&& r.result@ == result@.subrange(0, page_size as int)
                &&& r.next matches Some(link) && next_gen.ensures(
                    (&result@[page_size as int].spec_pkey(),),
                    link,
                )
            },
    {
        if result.len() <= page_size {
            return Self { result, next: None };
        }
        let key = result[page_size].pkey();
        let next = Some(next_gen(&key));
        let mut result = result;
        result.truncate(page_size);
        Self { result, next }
    }
}

/// The kinds of collection.
#[derive(Debug, Clone, Copy, PartialEq, Eq, Structural)]
pub enum CollectionType {
    Collection,
    OrderedCollection,
}

/// The kinds of collection page.
#[derive(Debug, Clone, Copy, PartialEq, Eq, Structural)]
pub enum CollectionPageType {
    CollectionPage,
    OrderedCollectionPage,
}

/// A collection that links to its first page.
#[derive(Debug, Clone)]
pub struct CollectionResponse {
    pub collection_type: CollectionType,
    pub total_items: Option<usize>,
    pub first: Option<String>,
}

impl CollectionResponse {
    pub fn from_first(
        collection_type: CollectionType,
        first_link: String,
        total_items: Option<usize>,
    ) -> (r: Self)
        ensures
            r.collection_type == collection_type,
            r.first == Some(first_link),
            r.total_items == total_items,
    {
        CollectionResponse { collection_type, total_items, first: Some(first_link) }
    }
}

/// One page of a collection.
#[derive(Debug)]
pub struct CollectionPageResponse<T> {
    pub collection_type: CollectionPageType,
    pub next: Option<String>,
    pub part_of: String,
    pub total_items: Option<usize>,
    pub items: Vec<T>,
}

impl<T> CollectionPageResponse<T> {
    /// The collection page that shows a page of results.
    pub fn from_paginated_response(
        collection_type: CollectionPageType,
        paginated_response: PaginatedResponse<T>,
        part_of: String,
        total_items: Option<usize>,
    ) -> (r: Self)
        ensures
            r.collection_type == collection_type,
            r.next == paginated_response.next,
            r.part_of == part_of,
            r.total_items == total_items,
            r.items == paginated_response.result,
    {
        CollectionPageResponse {
            collection_type,
            next: paginated_response.next,
            part_of,
            total_items,
            items: paginated_response.result,
        }
    }
}

} // verus!
