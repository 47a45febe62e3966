//! Bundle endpoints: request paths.
use crate::text::{encode_segment, segment};
use vstd::prelude::*;

verus! {

/// Path of the list of a blog's bundles.
pub open spec fn bundles_path_spec(blog_name: Seq<char>) -> Seq<char> {
    "blog/"@ + segment(blog_name) + "/bundle/"@
}

/// Path of the list of a blog's bundles (`blog/{blog}/bundle/`).
pub fn bundles_path(blog_name: &str) -> (path: String)
    ensures
        path@ == bundles_path_spec(blog_name@),
{
    let mut path = "blog/".to_owned();
    path.append(encode_segment(blog_name).as_str());
    path.append("/bundle/");
    path
}

/// Path of the posts within a bundle.
pub open spec fn bundle_posts_path_spec(blog_name: Seq<char>, bundle_id: Seq<char>, query: Seq<char>) -> Seq<char> {
    "blog/"@ + segment(blog_name) + "/bundle/"@ + segment(bundle_id) + "/post/?"@ + query
}

/// Path of the posts within a bundle (`blog/{blog}/bundle/{id}/post/?{query}`).
/// `query` is already url-encoded, so it is taken as it is.
pub fn bundle_posts_path(blog_name: &str, bundle_id: &str, query: &str) -> (path: String)
    ensures
        path@ == bundle_posts_path_spec(blog_name@, bundle_id@, query@),
{
    let mut path = "blog/".to_owned();
    path.append(encode_segment(blog_name).as_str());
    path.append("/bundle/");
    path.append(encode_segment(bundle_id).as_str());
    path.append("/post/?");
    path.append(query);
    path
}

} // verus!
