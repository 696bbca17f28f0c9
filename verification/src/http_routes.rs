//! The HTTP routes of a node.
use vstd::prelude::*;
use crate::router::{method_name, route_key, Methods, Router};
use crate::text::{decimal, push_decimal};

verus! {

/// The pages a node serves over HTTP.
#[derive(Debug, Clone, Copy, PartialEq, Eq, Structural)]
pub enum HttpRoute {
    /// `GET /`: the static greeting page.
    Index,
    /// `GET /task`: submits a task to the peers.
    Task,
}

/// The file that the index page is read from.
pub const INDEX_PAGE_PATH: &'static str = "./static/hello.html";

/// The key of the index page.
pub open spec fn index_key() -> Seq<char> {
    method_name(Methods::GET) + "/"@
}

/// The key of the task page.
pub open spec fn task_key() -> Seq<char> {
    method_name(Methods::GET) + "/task"@
}

/// Registers the node's pages: `GET /` and `GET /task`.
pub fn configure(router: &mut Router<HttpRoute>)
    ensures
        final(router)@ == old(router)@.insert(index_key(), HttpRoute::Index).insert(
            task_key(),
            HttpRoute::Task,
        ),
{
    let get = Methods::GET.to_string();
    router.add_handler(route_key(get.as_str(), "/"), HttpRoute::Index);
    router.add_handler(route_key(get.as_str(), "/task"), HttpRoute::Task);
}

/// The answer to a task submission that was given the id `id`.
pub fn task_submitted(id: u32) -> (s: String)
    ensures
        s@ == "Task submitted with ID "@ + decimal(id as nat),
{
    let mut s = "Task submitted with ID ".to_owned();
    push_decimal(&mut s, id as u64);
    s
}

} // verus!
