//! Documentation schemas: a machine-readable description of the endpoints a
//! route table serves, generated so that schema and table cannot drift apart.
//!
//! Two generation strategies are offered, and either keeps the schema
//! consistent with the routes. [`DocSchema::from_routes`] derives the schema
//! from a finished table; [`DocRouter`] registers each route in the table and
//! the schema in the same step, so consistency is an invariant.

use vstd::prelude::*;
use crate::routes::RouteTable;
use crate::routes::join;
use crate::routes::spec_join;

verus! {

broadcast use vstd::seq::Seq::lemma_push_map_commute;

/// A documentation schema: a title, a description, and the documented
/// endpoint paths in declaration order.
#[derive(Debug, Clone, PartialEq, Eq)]
pub struct DocSchema {
    pub title: String,
    pub description: String,
    pub paths: Vec<String>,
}

impl DocSchema {
    /// The documented paths.
    pub open spec fn paths_view(&self) -> Seq<Seq<char>> {
        self.paths@.map_values(|p: String| p@)
    }

    /// No endpoint is documented twice.
    pub open spec fn wf(&self) -> bool {
        forall|i: int, j: int|
            0 <= i < j < self.paths_view().len() ==> self.paths_view()[i] != self.paths_view()[j]
    }

    /// A schema documenting no endpoints yet.
    pub fn new(title: String, description: String) -> (r: DocSchema)
        ensures
            r.title@ == title@,
            r.description@ == description@,
            r.paths_view() == Seq::<Seq<char>>::empty(),
    {
        let r = DocSchema { title, description, paths: Vec::new() };
        proof {
            assert(r.paths_view() =~= Seq::<Seq<char>>::empty());
        }
        r
    }

    /// Declares one more documented endpoint.
    pub fn path(self, path: String) -> (r: DocSchema)
        ensures
            r.title@ == self.title@,
            r.description@ == self.description@,
            r.paths_view() == self.paths_view().push(path@),
    {
        let mut paths = self.paths;
        let ghost pre = paths@;
        paths.push(path);
        let r = DocSchema { title: self.title, description: self.description, paths };
        proof {
            assert(r.paths_view() =~= self.paths_view().push(r.paths@[pre.len() as int]@));
        }
        r
    }

    /// Mounts a whole sub-schema under a path prefix, as route nesting does
    /// with a sub-table.
    pub fn nest(self, prefix: &String, sub: DocSchema) -> (r: DocSchema)
        ensures
            r.title@ == self.title@,
            r.description@ == self.description@,
            r.paths_view() == self.paths_view() + sub.paths_view().map_values(
                |p: Seq<char>| spec_join(prefix@, p),
            ),
    {
        let mut paths = self.paths;
        let subpaths = sub.paths;
        let ghost pre = paths@;
        let ghost subv = subpaths@;
        let ghost target = sub.paths_view().map_values(|p: Seq<char>| spec_join(prefix@, p));
        let mut i: usize = 0;
        while i < subpaths.len()
            invariant
                i <= subpaths.len(),
                subv == subpaths@,
                target == subv.map_values(|p: String| p@).map_values(
                    |p: Seq<char>| spec_join(prefix@, p),
                ),
                paths@.len() == pre.len() + i,
                forall|k: int| 0 <= k < pre.len() ==> paths@[k] == pre[k],
                forall|k: int| 0 <= k < i ==> paths@[pre.len() + k]@ == target[k],
            decreases subpaths.len() - i,
        {
            let ghost prev = paths@;
            paths.push(join(prefix, &subpaths[i]));
            proof {
                assert(paths@[prev.len() as int]@ == spec_join(prefix@, subv[i as int]@));
                assert(target[i as int] == spec_join(
                    prefix@,
                    subv.map_values(|p: String| p@)[i as int],
                ));
                assert(subv.map_values(|p: String| p@)[i as int] == subv[i as int]@);
            }
            i = i + 1;
        }
        let r = DocSchema { title: self.title, description: self.description, paths };
        proof {
            assert(r.paths_view().len() == self.paths_view().len() + target.len());
            assert forall|k: int| 0 <= k < r.paths_view().len() implies r.paths_view()[k] == (
            self.paths_view() + target)[k] by {
                if k < pre.len() {
                    assert(r.paths@[k] == pre[k]);
                } else {
                    assert(r.paths@[k]@ == target[k - pre.len()]);
                }
            }
            assert(r.paths_view() =~= self.paths_view() + target);
        }
        r
    }

    /// Derives the schema from a finished route table: one documented
    /// endpoint per route, in registration order.
    pub fn from_routes(title: String, description: String, table: &RouteTable) -> (r: DocSchema)
        ensures
            r.title@ == title@,
            r.description@ == description@,
            r.paths_view() == table.paths(),
    {
        let mut paths: Vec<String> = Vec::new();
        let mut i: usize = 0;
        while i < table.routes.len()
            invariant
                i <= table.routes.len(),
                paths@.len() == i,
                forall|k: int| 0 <= k < i ==> paths@[k]@ == table.paths()[k],
            decreases table.routes.len() - i,
        {
            let ghost prev = paths@;
            paths.push(table.routes[i].path.clone());
            proof {
                assert(paths@[prev.len() as int]@ == table.routes@[i as int].path@);
                assert(table.paths()[i as int] == table.routes@[i as int].path@);
            }
            i = i + 1;
        }
        let r = DocSchema { title, description, paths };
        proof {
            assert(r.paths_view().len() == table.paths().len());
            assert forall|k: int| 0 <= k < r.paths_view().len() implies r.paths_view()[k]
                == table.paths()[k] by {
                assert(r.paths@[k]@ == table.paths()[k]);
            }
            assert(r.paths_view() =~= table.paths());
        }
        r
    }
}

/// A schema that lists exactly a well-formed table's paths documents every
/// registered route exactly once, and documents nothing else: no orphan
/// schema entries, no duplicates from double-declaration.
pub proof fn lemma_docs_match_routes(s: DocSchema, t: RouteTable)
    requires
        s.paths_view() == t.paths(),
        t.wf(),
    ensures
        s.wf(),
        forall|p: Seq<char>| s.paths_view().contains(p) <==> t.paths().contains(p),
        forall|p: Seq<char>| #[trigger]
            t.paths().contains(p) ==> s.paths_view().to_multiset().count(p) == 1,
{
    let paths = s.paths_view();
    assert(paths.no_duplicates());
    paths.lemma_multiset_has_no_duplicates();
    paths.to_multiset_ensures();
    assert forall|p: Seq<char>| #[trigger] t.paths().contains(p) implies paths.to_multiset().count(
        p,
    ) == 1 by {
        assert(paths.contains(p));
        assert(paths.to_multiset().count(p) > 0);
        assert(paths.to_multiset().contains(p));
    }
}

/// Registers each route in the dispatch table and in the documentation
/// schema in one step, so the two cannot drift apart.
#[derive(Debug, Clone, PartialEq, Eq)]
pub struct DocRouter {
    pub table: RouteTable,
    pub schema: DocSchema,
}

impl DocRouter {
    /// The schema documents exactly the registered paths, in order.
    pub open spec fn consistent(&self) -> bool {
        self.schema.paths_view() == self.table.paths()
    }

    /// An empty router with titled documentation.
    pub fn with_docs(title: String, description: String) -> (r: DocRouter)
        ensures
            r.consistent(),
            r.table.paths() == Seq::<Seq<char>>::empty(),
            r.schema.title@ == title@,
            r.schema.description@ == description@,
    {
        DocRouter { table: RouteTable::new(), schema: DocSchema::new(title, description) }
    }

    /// Registers a path in the table and documents it, in one step.
    pub fn route(self, path: String) -> (r: DocRouter)
        ensures
            self.consistent() ==> r.consistent(),
            r.table.paths() == self.table.paths().push(path@),
            r.schema.title@ == self.schema.title@,
            r.schema.description@ == self.schema.description@,
    {
        let doc = path.clone();
        DocRouter { table: self.table.route(path), schema: self.schema.path(doc) }
    }

    /// Mounts a sub-router under a prefix, nesting routes and documentation
    /// alike.
    pub fn nest(self, prefix: &String, sub: DocRouter) -> (r: DocRouter)
        ensures
            self.consistent() && sub.consistent() ==> r.consistent(),
            r.table.paths() == self.table.paths() + sub.table.paths().map_values(
                |p: Seq<char>| spec_join(prefix@, p),
            ),
            r.schema.title@ == self.schema.title@,
            r.schema.description@ == self.schema.description@,
    {
        let r = DocRouter {
            table: self.table.nest(prefix, sub.table),
            schema: self.schema.nest(prefix, sub.schema),
        };
        r
    }

    /// Splits the finished router into its dispatch table and its schema.
    pub fn split_for_parts(self) -> (r: (RouteTable, DocSchema))
        ensures
            r.0 == self.table,
            r.1 == self.schema,
    {
        (self.table, self.schema)
    }
}

} // verus!
