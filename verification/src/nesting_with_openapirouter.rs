//! Nested routes whose documentation is collected at registration time: a
//! documenting router registers each route in the dispatch table and in the
//! schema in one step, and nesting mounts both under the same prefix, so the
//! schema cannot drift from the routes.

use vstd::prelude::*;
use crate::docs::DocRouter;
use crate::docs::DocSchema;
use crate::routes::RouteTable;
use crate::routes::spec_join;

verus! {

/// Application state shared by the handlers: a fixed display name read by
/// the widgets endpoint.
#[derive(Debug, Clone, PartialEq, Eq)]
pub struct AppState {
    pub name: String,
}

impl AppState {
    /// The configured state: the display name is fixed at startup.
    pub fn new() -> (r: AppState)
        ensures
            r.name@ == "Foo"@,
    {
        AppState { name: String::from_str("Foo") }
    }
}

/// The response of the widgets endpoint.
#[derive(Debug, Clone, PartialEq, Eq)]
pub struct Widgets {
    pub names: Vec<String>,
}

impl View for Widgets {
    type V = Seq<Seq<char>>;

    open spec fn view(&self) -> Seq<Seq<char>> {
        self.names@.map_values(|n: String| n@)
    }
}

/// The widgets served by this example: two fixed names, then the configured
/// display name.
pub fn get_widgets(state: &AppState) -> (r: Widgets)
    ensures
        r@ == seq!["Utoipa"@, "Axum"@, state.name@],
{
    let mut names: Vec<String> = Vec::new();
    names.push(String::from_str("Utoipa"));
    names.push(String::from_str("Axum"));
    names.push(state.name.clone());
    let r = Widgets { names };
    proof {
        assert(r@ =~= seq!["Utoipa"@, "Axum"@, state.name@]);
    }
    r
}

/// The widgets API documentation carrier; its schema is filled in by the
/// documenting router as each route is registered.
pub struct WidgetsApi {}

impl WidgetsApi {
    /// The widgets schema before any route is registered.
    pub fn openapi() -> (r: DocSchema)
        ensures
            r.title@ == "Widgets"@,
            r.description@ == "Provide access to Widget instances."@,
            r.paths_view() == Seq::<Seq<char>>::empty(),
    {
        DocSchema::new(
            String::from_str("Widgets"),
            String::from_str("Provide access to Widget instances."),
        )
    }
}

/// The widgets documenting router: one route at its own root, registered in
/// table and schema in one step.
pub fn widgets_openapi_router() -> (r: DocRouter)
    ensures
        r.consistent(),
        r.table.paths() == seq!["/"@],
        r.schema.title@ == "Widgets"@,
        r.schema.description@ == "Provide access to Widget instances."@,
{
    let base = DocRouter { table: RouteTable::new(), schema: WidgetsApi::openapi() };
    let r = base.route(String::from_str("/"));
    proof {
        assert(r.table.paths() =~= seq!["/"@]);
    }
    r
}

/// The top-level API documentation carrier; nesting is done on the
/// documenting router, not by declaration here.
pub struct ApiDoc {}

impl ApiDoc {
    /// The top-level schema before any nesting.
    pub fn openapi() -> (r: DocSchema)
        ensures
            r.title@ == "Nesting with the Utoipa OpenAPI router"@,
            r.description@ == "This API is built by nesting API docs via the Utoipa OpenAPI Router"@,
            r.paths_view() == Seq::<Seq<char>>::empty(),
    {
        DocSchema::new(
            String::from_str("Nesting with the Utoipa OpenAPI router"),
            String::from_str("This API is built by nesting API docs via the Utoipa OpenAPI Router"),
        )
    }
}

/// The API documenting router: the widgets router nested under its prefix,
/// routes and documentation alike.
pub fn openapi_router() -> (r: DocRouter)
    ensures
        r.consistent(),
        r.table.paths() == seq!["/widgets"@],
        r.schema.title@ == "Nesting with the Utoipa OpenAPI router"@,
{
    let base = DocRouter { table: RouteTable::new(), schema: ApiDoc::openapi() };
    let widgets = widgets_openapi_router();
    let r = base.nest(&String::from_str("/widgets"), widgets);
    proof {
        reveal_strlit("/");
        assert("/"@ =~= seq!['/']);
        assert(spec_join("/widgets"@, "/"@) == "/widgets"@);
        assert(r.table.paths() =~= seq!["/widgets"@]);
    }
    r
}

/// The finished parts of this example: the API router nested once more
/// under the API prefix, split into its dispatch table and its schema. The
/// schema documents exactly the mounted API routes.
pub fn api_parts() -> (r: (RouteTable, DocSchema))
    ensures
        r.1.paths_view() == r.0.paths(),
        r.0.paths() == seq!["/api/widgets"@],
{
    let top = DocRouter {
        table: RouteTable::new(),
        schema: DocSchema::new(String::new(), String::new()),
    };
    let nested = top.nest(&String::from_str("/api"), openapi_router());
    proof {
        reveal_strlit("/api");
        reveal_strlit("/widgets");
        reveal_strlit("/api/widgets");
        assert("/widgets"@.len() == 8);
        assert(spec_join("/api"@, "/widgets"@) == "/api"@ + "/widgets"@);
        assert("/api"@ + "/widgets"@ =~= "/api/widgets"@);
        assert(nested.table.paths() =~= seq!["/api/widgets"@]);
    }
    nested.split_for_parts()
}

/// The documentation schema of this example, as collected by the
/// documenting router.
pub fn schema() -> (r: DocSchema)
    ensures
        r.paths_view() == seq!["/api/widgets"@],
{
    let parts = api_parts();
    parts.1
}

/// The dispatch table of this example: the collected API routes merged in,
/// then the root greeting and the documentation UI and schema.
pub fn router() -> (r: RouteTable)
    ensures
        r.paths() == seq!["/api/widgets"@, "/"@, "/swagger-ui"@, "/api-docs/openapi.json"@],
        r.wf(),
{
    let parts = api_parts();
    let table = RouteTable::new().merge(parts.0).route(String::from_str("/")).route(
        String::from_str("/swagger-ui"),
    ).route(String::from_str("/api-docs/openapi.json"));
    proof {
        reveal_strlit("/");
        reveal_strlit("/swagger-ui");
        reveal_strlit("/api-docs/openapi.json");
        reveal_strlit("/api/widgets");
        assert(table.paths() =~= seq![
            "/api/widgets"@,
            "/"@,
            "/swagger-ui"@,
            "/api-docs/openapi.json"@,
        ]);
        assert("/"@.len() == 1);
        assert("/swagger-ui"@.len() == 11);
        assert("/api-docs/openapi.json"@.len() == 22);
        assert("/api/widgets"@.len() == 12);
        assert(table.wf());
    }
    table
}

} // verus!
