//! The route table: one `GET` route for each kind of record.
//!
//! The table is fixed. A path pattern ends in the parameter `:id`, which holds
//! the textual form of the identifier.

use crate::handler::EntityKind;
use vstd::prelude::*;

verus! {

/// The request methods that the table knows.
#[derive(Clone, Copy, Debug, PartialEq, Eq, Hash, Structural)]
pub enum Method {
    Get,
}

/// One route: a request with `method` for `path` asks for a record of `kind`.
#[derive(Clone, Copy, Debug, PartialEq, Eq)]
pub struct Route {
    pub method: Method,
    pub path: &'static str,
    pub kind: EntityKind,
}

/// The path pattern under which a kind of record is served.
pub open spec fn route_path(kind: EntityKind) -> Seq<char> {
    match kind {
        EntityKind::Track => "/track/:id"@,
        EntityKind::Album => "/album/:id"@,
        EntityKind::Artist => "/artist/:id"@,
    }
}

/// The kinds of record in the order of the route table.
pub open spec fn route_kinds() -> Seq<EntityKind> {
    seq![EntityKind::Track, EntityKind::Album, EntityKind::Artist]
}

impl Route {
    /// The route of a kind of record.
    pub fn of(kind: EntityKind) -> (route: Route)
        ensures
            route.method == Method::Get,
            route.path@ == route_path(kind),
            route.kind == kind,
    {
        let path = match kind {
            EntityKind::Track => "/track/:id",
            EntityKind::Album => "/album/:id",
            EntityKind::Artist => "/artist/:id",
        };
        Route { method: Method::Get, path, kind }
    }
}

/// The route table: tracks, albums, artists.
pub fn routes() -> (table: Vec<Route>)
    ensures
        table@.len() == 3,
        forall|i: int| 0 <= i < 3 ==> (#[trigger] table@[i]).method == Method::Get,
        forall|i: int| 0 <= i < 3 ==> (#[trigger] table@[i]).path@ == route_path(route_kinds()[i]),
        forall|i: int| 0 <= i < 3 ==> (#[trigger] table@[i]).kind == route_kinds()[i],
{
    let mut table: Vec<Route> = Vec::new();
    table.push(Route::of(EntityKind::Track));
    table.push(Route::of(EntityKind::Album));
    table.push(Route::of(EntityKind::Artist));
    table
}

/// No two kinds of record share a path pattern.
pub proof fn lemma_route_paths_distinct(a: EntityKind, b: EntityKind)
    requires
        a != b,
    ensures
        route_path(a) != route_path(b),
{
    reveal_strlit("/track/:id");
    reveal_strlit("/album/:id");
    reveal_strlit("/artist/:id");
    assert("/track/:id"@[1] != "/album/:id"@[1]);
    assert("/track/:id"@.len() != "/artist/:id"@.len());
    assert("/album/:id"@.len() != "/artist/:id"@.len());
}

} // verus!
