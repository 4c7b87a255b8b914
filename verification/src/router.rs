//! The table from command names to handlers.

use vstd::prelude::*;

verus! {

/// The handlers that a command name can select.
#[derive(Clone, Copy, Debug, PartialEq, Eq, Structural)]
pub enum Handler {
    Ping,
    Reading,
}

/// One entry of the table.
struct Route {
    name: String,
    handler: Handler,
}

/// Maps command names to handlers. A name has at most one handler: to
/// register a name again replaces the handler it had.
pub struct CommandRouter {
    routes: Vec<Route>,
}

/// Whether one of the first `upto` of `routes` is named `name`.
spec fn names(routes: Seq<Route>, upto: int, name: Seq<char>) -> bool {
    exists|i: int| 0 <= i < upto && #[trigger] routes[i].name@ == name
}

/// No two of `routes` share a name.
spec fn distinct_names(routes: Seq<Route>) -> bool {
    forall|i: int, j: int|
        0 <= i < j < routes.len() ==> #[trigger] routes[i].name@ != #[trigger] routes[j].name@
}

/// Some position at which `routes` has a route named `name`.
spec fn position_of(routes: Seq<Route>, name: Seq<char>) -> int {
    choose|i: int| 0 <= i < routes.len() && #[trigger] routes[i].name@ == name
}

/// The table that `routes` stand for.
spec fn table_of(routes: Seq<Route>) -> Map<Seq<char>, Handler> {
    Map::new(
        |name: Seq<char>| names(routes, routes.len() as int, name),
        |name: Seq<char>| routes[position_of(routes, name)].handler,
    )
}

/// Among routes without repeated names, a route is the entry of its own name.
proof fn lemma_route_is_entry(routes: Seq<Route>, i: int)
    requires
        distinct_names(routes),
        0 <= i < routes.len(),
    ensures
        table_of(routes).contains_key(routes[i].name@),
        table_of(routes)[routes[i].name@] == routes[i].handler,
{
    let name = routes[i].name@;
    let p = position_of(routes, name);
    assert(0 <= p < routes.len() && routes[p].name@ == name);
    if p < i {
        assert(routes[p].name@ != routes[i].name@);
    } else if i < p {
        assert(routes[i].name@ != routes[p].name@);
    }
}

/// Writing the route `name` at `at` changes the table at `name` and nowhere
/// else, where `at` is the place that `name` had, or the end if it had none.
proof fn lemma_written_table(
    before: Seq<Route>,
    after: Seq<Route>,
    at: int,
    name: Seq<char>,
    handler: Handler,
)
    requires
        distinct_names(before),
        0 <= at < after.len(),
        before.len() <= after.len() <= before.len() + 1,
        at < before.len() ==> before[at].name@ == name && after.len() == before.len(),
        at == before.len() ==> !names(before, before.len() as int, name),
        after[at].name@ == name,
        after[at].handler == handler,
        forall|k: int| 0 <= k < before.len() && k != at ==> after[k] == before[k],
    ensures
        distinct_names(after),
        table_of(after) == table_of(before).insert(name, handler),
{
    assert forall|a: int, b: int| 0 <= a < b < after.len() implies #[trigger] after[a].name@
        != #[trigger] after[b].name@ by {
        if a != at && b != at {
            assert(before[a].name@ != before[b].name@);
        } else if at < before.len() {
            assert(before[a].name@ != before[b].name@);
        } else {
            assert(before[a].name@ != name);
        }
    }
    let wanted = table_of(before).insert(name, handler);
    assert forall|key: Seq<char>| table_of(after).contains_key(key) implies wanted.contains_key(
        key,
    ) by {
        let p = position_of(after, key);
        assert(0 <= p < after.len() && after[p].name@ == key);
        if p != at {
            assert(before[p].name@ == key);
        }
    }
    assert forall|key: Seq<char>| wanted.contains_key(key) implies table_of(after).contains_key(key)
        && table_of(after)[key] == wanted[key] by {
        if key == name {
            lemma_route_is_entry(after, at);
        } else {
            let p = position_of(before, key);
            assert(0 <= p < before.len() && before[p].name@ == key);
            lemma_route_is_entry(before, p);
            lemma_route_is_entry(after, p);
        }
    }
    assert(table_of(after) =~= wanted);
}

impl CommandRouter {
    #[verifier::type_invariant]
    spec fn well_formed(&self) -> bool {
        distinct_names(self.routes@)
    }

    /// The table: each registered name with its handler.
    pub closed spec fn view(&self) -> Map<Seq<char>, Handler> {
        table_of(self.routes@)
    }

    /// A router without entries.
    pub fn new() -> (router: CommandRouter)
        ensures
            router@ == Map::<Seq<char>, Handler>::empty(),
    {
        let router = CommandRouter { routes: Vec::new() };
        assert(router@ =~= Map::<Seq<char>, Handler>::empty());
        router
    }

    /// Where `name` stands among the routes, if it is registered.
    fn find(&self, name: &String) -> (at: Option<usize>)
        ensures
            match at {
                Some(i) => i < self.routes@.len() && self.routes@[i as int].name@ == name@,
                None => !names(self.routes@, self.routes@.len() as int, name@),
            },
    {
        let mut i: usize = 0;
        while i < self.routes.len()
            invariant
                i <= self.routes@.len(),
                !names(self.routes@, i as int, name@),
            decreases self.routes@.len() - i,
        {
            if self.routes[i].name == *name {
                return Some(i);
            }
            i = i + 1;
        }
        None
    }

    /// Adds the entry `name` to the table, in place of the one that `name`
    /// had, if it had one. Every other entry stays as it was.
    pub fn register(&mut self, name: String, handler: Handler)
        ensures
            final(self)@ == old(self)@.insert(name@, handler),
    {
        proof {
            use_type_invariant(&*self);
        }
        let ghost before = self.routes@;
        let place = self.find(&name);
        let mut routes: Vec<Route> = Vec::new();
        core::mem::swap(&mut self.routes, &mut routes);
        let ghost at: int;
        match place {
            Some(i) => {
                proof {
                    at = i as int;
                }
                routes.set(i, Route { name, handler });
            },
            None => {
                proof {
                    at = before.len() as int;
                }
                routes.push(Route { name, handler });
            },
        }
        proof {
            lemma_written_table(before, routes@, at, name@, handler);
        }
        self.routes = routes;
    }

    /// The handler registered under `name`, if there is one.
    pub fn lookup(&self, name: &String) -> (found: Option<Handler>)
        ensures
            found == (if self@.contains_key(name@) {
                Some(self@[name@])
            } else {
                None
            }),
    {
        proof {
            use_type_invariant(self);
        }
        match self.find(name) {
            Some(i) => {
                proof {
                    lemma_route_is_entry(self.routes@, i as int);
                }
                Some(self.routes[i].handler)
            },
            None => None,
        }
    }
}

} // verus!
