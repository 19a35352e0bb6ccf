//! The node endpoints that a named deployment consists of.

use vstd::prelude::*;

verus! {

/// Address of the first local node.
pub const URL_1: &'static str = "http://localhost:9501";

/// Address of the second local node.
pub const URL_2: &'static str = "http://localhost:9601";

/// The endpoints that the deployment called `num` stands for.
pub open spec fn end_points_of(num: Seq<char>) -> Seq<Seq<char>> {
    if num == "one"@ {
        seq![URL_1@]
    } else if num == "two"@ {
        seq![URL_1@, URL_2@]
    } else {
        Seq::empty()
    }
}

/// The views of a list of string slices.
pub open spec fn views_of(list: Seq<&'static str>) -> Seq<Seq<char>> {
    Seq::new(list.len(), |i: int| list[i]@)
}

/// Returns the endpoints of the deployment `"one"` (a single node) or `"two"`
/// (both nodes), and no endpoint for any other name.
pub fn get_end_points(num: &str) -> (urls: Vec<&'static str>)
    ensures
        views_of(urls@) == end_points_of(num@),
{
    let name = String::from_str(num);
    let mut urls: Vec<&'static str> = Vec::new();
    if name == String::from_str("one") {
        urls.push(URL_1);
    } else if name == String::from_str("two") {
        urls.push(URL_1);
        urls.push(URL_2);
    }
    assert(views_of(urls@) =~= end_points_of(num@));
    urls
}

} // verus!
