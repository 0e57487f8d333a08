//! Turning the HTML of received posts into the plain text that is stored.
use crate::ext::{html_fragment_nodes, html_fragment_texts, opt_texts};
use vstd::prelude::*;

verus! {

/// The text nodes joined in order.
pub open spec fn joined_texts(nodes: Seq<Option<Seq<char>>>) -> Seq<char>
    decreases nodes.len(),
{
    if nodes.len() == 0 {
        Seq::empty()
    } else {
        let prefix = joined_texts(nodes.drop_last());
        match nodes.last() {
            Some(t) => prefix + t,
            None => prefix,
        }
    }
}

/// Converts post content from HTML.
#[derive(Debug, Clone, Copy)]
pub struct PostContentService {}

impl PostContentService {
    pub fn new() -> (r: Self) {
        Self {}
    }

    /// The plain text of an HTML fragment: every tag stripped, the text
    /// nodes kept in document order.
    pub fn html_to_internal(&self, html: &str) -> (r: String)
        ensures
            r@ == joined_texts(html_fragment_texts(html@)),
    {
        let nodes = html_fragment_nodes(html);
        let mut text = String::new();
        let mut i: usize = 0;
        while i < nodes.len()
            invariant
                i <= nodes@.len(),
                opt_texts(nodes@) == html_fragment_texts(html@),
                text@ == joined_texts(opt_texts(nodes@).subrange(0, i as int)),
            decreases nodes.len() - i,
        {
            let ghost pre = opt_texts(nodes@).subrange(0, i as int);
            let ghost post = opt_texts(nodes@).subrange(0, i + 1);
            assert(post.drop_last() =~= pre);
            match &nodes[i] {
                Some(t) => {
                    text.append(t.as_str());
                },
                None => {},
            }
            i = i + 1;
        }
        assert(opt_texts(nodes@).subrange(0, nodes@.len() as int) =~= opt_texts(nodes@));
        text
    }
}

/// The service that converts post content.
pub fn new_post_content_service() -> (r: PostContentService) {
    PostContentService::new()
}

} // verus!
