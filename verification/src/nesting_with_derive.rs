//! Nested routes whose documentation is declared alongside the route tree:
//! the widgets API is mounted under a prefix, and its schema is nested under
//! the same prefix by declaration. One generation strategy is used
//! throughout, so the schema cannot drift from the routes.

use vstd::prelude::*;
use crate::docs::DocSchema;
use crate::routes::RouteTable;
use crate::routes::spec_join;

verus! {

/// Application state shared by the handlers: a fixed display name read by
/// the widgets endpoint.
#[derive(Debug, Clone, PartialEq, Eq)]
pub struct AppState {
    pub name: String,
}

impl AppState {
    /// The configured state: the display name is fixed at startup.
    pub fn new() -> (r: AppState)
        ensures
            r.name@ == "Foo"@,
    {
        AppState { name: String::from_str("Foo") }
    }
}

/// The response of the widgets endpoint.
#[derive(Debug, Clone, PartialEq, Eq)]
pub struct Widgets {
    pub names: Vec<String>,
}

impl View for Widgets {
    type V = Seq<Seq<char>>;

    open spec fn view(&self) -> Seq<Seq<char>> {
        self.names@.map_values(|n: String| n@)
    }
}

/// The widgets served by this example: exactly the configured display name.
pub fn get_widgets(state: &AppState) -> (r: Widgets)
    ensures
        r@ == seq![state.name@],
{
    let mut names: Vec<String> = Vec::new();
    names.push(state.name.clone());
    let r = Widgets { names };
    proof {
        assert(r@ =~= seq![state.name@]);
    }
    r
}

/// The widgets sub-table: one route at its own root.
pub fn widgets_router() -> (r: RouteTable)
    ensures
        r.paths() == seq!["/"@],
{
    let r = RouteTable::new().route(String::from_str("/"));
    proof {
        assert(r.paths() =~= seq!["/"@]);
    }
    r
}

/// The widgets API documentation, derived from the widgets sub-table.
pub struct WidgetsApi {}

impl WidgetsApi {
    /// The widgets schema: the one widgets route, documented exactly once.
    pub fn openapi() -> (r: DocSchema)
        ensures
            r.title@ == "Widgets"@,
            r.description@ == "Provide access to Widget instances."@,
            r.paths_view() == seq!["/"@],
    {
        let table = widgets_router();
        DocSchema::from_routes(
            String::from_str("Widgets"),
            String::from_str("Provide access to Widget instances."),
            &table,
        )
    }
}

/// The top-level API documentation: the widgets schema nested by declaration
/// under the same prefix the routes are mounted at.
pub struct ApiDoc {}

impl ApiDoc {
    /// The documentation schema: the widgets endpoint at its mounted path,
    /// documented exactly once.
    pub fn openapi() -> (r: DocSchema)
        ensures
            r.title@ == "Nesting with derive macros"@,
            r.description@ == "This API is built by nesting API docs via the macros"@,
            r.paths_view() == seq!["/api/widgets"@],
    {
        let top = DocSchema::new(
            String::from_str("Nesting with derive macros"),
            String::from_str("This API is built by nesting API docs via the macros"),
        );
        let r = top.nest(&String::from_str("/api/widgets"), WidgetsApi::openapi());
        proof {
            reveal_strlit("/");
            reveal_strlit("/api/widgets");
            assert("/"@ =~= seq!['/']);
            assert(spec_join("/api/widgets"@, "/"@) == "/api/widgets"@);
            assert(r.paths_view() =~= seq!["/api/widgets"@]);
        }
        r
    }
}

/// The API sub-table: the widgets sub-table mounted under its prefix.
pub fn api_router() -> (r: RouteTable)
    ensures
        r.paths() == seq!["/widgets"@],
{
    let widgets = widgets_router();
    let r = RouteTable::new().nest(&String::from_str("/widgets"), widgets);
    proof {
        reveal_strlit("/");
        assert("/"@ =~= seq!['/']);
        assert(spec_join("/widgets"@, "/"@) == "/widgets"@);
        assert(r.paths() =~= seq!["/widgets"@]);
    }
    r
}

/// The documentation schema of this example.
pub fn schema() -> (r: DocSchema)
    ensures
        r.title@ == "Nesting with derive macros"@,
        r.description@ == "This API is built by nesting API docs via the macros"@,
        r.paths_view() == seq!["/api/widgets"@],
{
    ApiDoc::openapi()
}

/// The dispatch table of this example: the root greeting, the documentation
/// UI and schema, and the API sub-table mounted under the API prefix. The
/// widgets route mounts at the joined prefix with no trailing slash.
pub fn router() -> (r: RouteTable)
    ensures
        r.paths() == seq!["/"@, "/swagger-ui"@, "/api-docs/openapi.json"@, "/api/widgets"@],
        r.wf(),
{
    let api = api_router();
    let table = RouteTable::new().route(String::from_str("/")).route(
        String::from_str("/swagger-ui"),
    ).route(String::from_str("/api-docs/openapi.json")).nest(&String::from_str("/api"), api);
    proof {
        reveal_strlit("/");
        reveal_strlit("/swagger-ui");
        reveal_strlit("/api-docs/openapi.json");
        reveal_strlit("/api");
        reveal_strlit("/widgets");
        reveal_strlit("/api/widgets");
        assert("/widgets"@.len() == 8);
        assert(spec_join("/api"@, "/widgets"@) == "/api"@ + "/widgets"@);
        assert("/api"@ + "/widgets"@ =~= "/api/widgets"@);
        assert(table.paths() =~= seq![
            "/"@,
            "/swagger-ui"@,
            "/api-docs/openapi.json"@,
            "/api/widgets"@,
        ]);
        assert("/"@.len() == 1);
        assert("/swagger-ui"@.len() == 11);
        assert("/api-docs/openapi.json"@.len() == 22);
        assert("/api/widgets"@.len() == 12);
        assert(table.wf());
    }
    table
}

} // verus!
