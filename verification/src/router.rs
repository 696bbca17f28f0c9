//! Request methods, route keys and the table from keys to handlers.
use vstd::prelude::*;

verus! {

/// HTTP request methods that routes are registered under.
#[derive(Debug, Clone, Copy, PartialEq, Eq, Structural)]
pub enum Methods {
    GET,
    POST,
}

/// The name of a method as it appears in a request line.
pub open spec fn method_name(m: Methods) -> Seq<char> {
    match m {
        Methods::GET => "GET"@,
        Methods::POST => "POST"@,
    }
}

impl Methods {
    /// The name of the method: "GET" or "POST".
    pub fn to_string(&self) -> (s: String)
        ensures
            s@ == method_name(*self),
    {
        match self {
            Methods::GET => "GET".to_owned(),
            Methods::POST => "POST".to_owned(),
        }
    }
}

/// The key a route is registered and looked up under: the method name
/// followed directly by the path.
pub fn route_key(method: &str, path: &str) -> (key: String)
    ensures
        key@ == method@ + path@,
{
    let mut key = method.to_owned();
    key.append(path);
    key
}

/// The table that a sequence of registrations builds: a later registration
/// under a key replaces an earlier one.
pub open spec fn route_map<H>(entries: Seq<(String, H)>) -> Map<Seq<char>, H>
    decreases entries.len(),
{
    if entries.len() == 0 {
        Map::empty()
    } else {
        route_map(entries.drop_last()).insert(entries.last().0@, entries.last().1)
    }
}

/// A table from route keys to handlers.
pub struct Router<H> {
    handlers: Vec<(String, H)>,
}

impl<H> View for Router<H> {
    type V = Map<Seq<char>, H>;

    closed spec fn view(&self) -> Map<Seq<char>, H> {
        route_map(self.handlers@)
    }
}

impl<H: Copy> Router<H> {
    /// An empty table.
    pub fn new() -> (r: Router<H>)
        ensures
            r@ == Map::<Seq<char>, H>::empty(),
    {
        Router { handlers: Vec::new() }
    }

    /// Registers `handler` under `key`, replacing any handler registered
    /// under it before.
    pub fn add_handler(&mut self, key: String, handler: H)
        ensures
            final(self)@ == old(self)@.insert(key@, handler),
    {
        let ghost old_entries = self.handlers@;
        self.handlers.push((key, handler));
        assert(self.handlers@.drop_last() =~= old_entries);
    }

    /// The handler registered under `key`, if any.
    pub fn handler_for(&self, key: &String) -> (h: Option<H>)
        ensures
            h == (if self@.contains_key(key@) {
                Some(self@[key@])
            } else {
                None::<H>
            }),
    {
        let ghost all = self.handlers@;
        let mut i: usize = self.handlers.len();
        assert(all.take(i as int) =~= all);
        while i > 0
            invariant
                i <= all.len(),
                all == self.handlers@,
                route_map(all.take(i as int)).contains_key(key@) == route_map(all).contains_key(key@),
                route_map(all).contains_key(key@) ==> route_map(all.take(i as int))[key@] == route_map(
                    all,
                )[key@],
            decreases i,
        {
            let entry = &self.handlers[i - 1];
            assert(all.take(i as int).drop_last() =~= all.take(i - 1));
            if entry.0 == *key {
                return Some(entry.1);
            }
            i = i - 1;
        }
        None
    }
}

} // verus!
