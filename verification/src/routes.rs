//! Route tables with nested mounting, and the documentation schemas derived
//! from them.
//!
//! A route table is a flat list of paths, each dispatching to a handler by
//! that path. Nesting mounts a whole sub-table under a path prefix. The
//! mounting convention is explicit: a sub-path of `""` or `"/"` mounts at the
//! prefix itself, with no trailing slash; any other sub-path is appended to
//! the prefix.

use vstd::prelude::*;

verus! {

broadcast use vstd::seq::Seq::lemma_push_map_commute;

/// One route: a path dispatching to a handler. All routes in this library
/// answer GET.
#[derive(Debug, Clone, PartialEq, Eq)]
pub struct Route {
    pub path: String,
}

impl View for Route {
    type V = Seq<char>;

    open spec fn view(&self) -> Seq<char> {
        self.path@
    }
}

/// The path a nested route is mounted at: a sub-path of `""` or `"/"` mounts
/// at the prefix itself, any other sub-path is appended to the prefix.
pub open spec fn spec_join(prefix: Seq<char>, sub: Seq<char>) -> Seq<char> {
    if sub.len() == 0 || sub == seq!['/'] {
        prefix
    } else {
        prefix + sub
    }
}

/// Joins a mount prefix and a sub-path under the explicit mounting
/// convention.
pub fn join(prefix: &String, sub: &String) -> (r: String)
    ensures
        r@ == spec_join(prefix@, sub@),
{
    let empty = String::new();
    let slash = String::from_str("/");
    proof {
        reveal_strlit("/");
        assert("/"@ =~= seq!['/']);
    }
    if *sub == empty || *sub == slash {
        prefix.clone()
    } else {
        prefix.clone().concat(sub.as_str())
    }
}

/// A dispatch table: the list of mounted paths, in registration order.
#[derive(Debug, Clone, PartialEq, Eq)]
pub struct RouteTable {
    pub routes: Vec<Route>,
}

impl RouteTable {
    /// The paths of all routes, in registration order.
    pub open spec fn paths(&self) -> Seq<Seq<char>> {
        self.routes@.map_values(|r: Route| r.path@)
    }

    /// No path is registered twice: each request dispatches to one handler.
    pub open spec fn wf(&self) -> bool {
        forall|i: int, j: int|
            0 <= i < j < self.paths().len() ==> self.paths()[i] != self.paths()[j]
    }

    /// An empty table.
    pub fn new() -> (r: RouteTable)
        ensures
            r.paths() == Seq::<Seq<char>>::empty(),
    {
        let r = RouteTable { routes: Vec::new() };
        proof {
            assert(r.paths() =~= Seq::<Seq<char>>::empty());
        }
        r
    }

    /// Registers one more path.
    pub fn route(self, path: String) -> (r: RouteTable)
        ensures
            r.paths() == self.paths().push(path@),
    {
        let mut routes = self.routes;
        let ghost pre = routes@;
        routes.push(Route { path });
        let r = RouteTable { routes };
        proof {
            assert(r.paths() =~= self.paths().push(r.routes@[pre.len() as int].path@));
        }
        r
    }

    /// Appends every route of `other`, keeping both registration orders.
    pub fn merge(self, other: RouteTable) -> (r: RouteTable)
        ensures
            r.paths() == self.paths() + other.paths(),
    {
        let mut routes = self.routes;
        let mut rest = other.routes;
        let ghost pre = routes@;
        let ghost restv = rest@;
        let mut i: usize = 0;
        while i < rest.len()
            invariant
                i <= rest.len(),
                restv == rest@,
                routes@.len() == pre.len() + i,
                routes@ =~= pre + restv.take(i as int),
            decreases rest.len() - i,
        {
            routes.push(Route { path: rest[i].path.clone() });
            proof {
                assert(rest@[i as int].path == routes@[routes@.len() - 1].path);
                assert(routes@ =~= pre + restv.take(i as int + 1));
            }
            i = i + 1;
        }
        let r = RouteTable { routes };
        proof {
            assert(restv.take(restv.len() as int) =~= restv);
            assert(r.paths() =~= self.paths() + other.paths());
        }
        r
    }

    /// Mounts a whole sub-table under a path prefix: a request to the joined
    /// path dispatches to the sub-table's handler for the sub-path.
    pub fn nest(self, prefix: &String, sub: RouteTable) -> (r: RouteTable)
        ensures
            r.paths() == self.paths() + sub.paths().map_values(
                |p: Seq<char>| spec_join(prefix@, p),
            ),
    {
        let mut routes = self.routes;
        let subroutes = sub.routes;
        let ghost pre = routes@;
        let ghost subv = subroutes@;
        let ghost target = sub.paths().map_values(|p: Seq<char>| spec_join(prefix@, p));
        let mut i: usize = 0;
        while i < subroutes.len()
            invariant
                i <= subroutes.len(),
                subv == subroutes@,
                target == subv.map_values(|r: Route| r.path@).map_values(
                    |p: Seq<char>| spec_join(prefix@, p),
                ),
                routes@.len() == pre.len() + i,
                forall|k: int| 0 <= k < pre.len() ==> routes@[k] == pre[k],
                forall|k: int| 0 <= k < i ==> routes@[pre.len() + k].path@ == target[k],
            decreases subroutes.len() - i,
        {
            let ghost prev = routes@;
            routes.push(Route { path: join(prefix, &subroutes[i].path) });
            proof {
                assert(routes@[prev.len() as int].path@ == spec_join(
                    prefix@,
                    subv[i as int].path@,
                ));
                assert(target[i as int] == spec_join(
                    prefix@,
                    subv.map_values(|r: Route| r.path@)[i as int],
                ));
                assert(subv.map_values(|r: Route| r.path@)[i as int] == subv[i as int].path@);
            }
            i = i + 1;
        }
        let r = RouteTable { routes };
        proof {
            assert(r.paths().len() == self.paths().len() + target.len());
            assert forall|k: int| 0 <= k < r.paths().len() implies r.paths()[k] == (self.paths()
                + target)[k] by {
                if k < pre.len() {
                    assert(r.routes@[k] == pre[k]);
                } else {
                    assert(r.routes@[k].path@ == target[k - pre.len()]);
                }
            }
            assert(r.paths() =~= self.paths() + target);
        }
        r
    }
}

} // verus!
