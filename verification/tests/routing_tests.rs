use webapp::docs::DocRouter;
use webapp::docs::DocSchema;
use webapp::enum_mapping;
use webapp::enum_of_js_simple_types;
use webapp::nesting_with_derive;
use webapp::nesting_with_openapirouter;
use webapp::routes::RouteTable;
use webapp::routes::join;
use webapp::servers::index;
use webapp::servers::server_plan;

fn s(v: &str) -> String {
    String::from(v)
}

fn paths_of(t: &RouteTable) -> Vec<String> {
    t.routes.iter().map(|r| r.path.clone()).collect()
}

#[test]
fn join_mounts_empty_subpath_at_prefix() {
    assert_eq!(join(&s("/api/widgets"), &s("")), s("/api/widgets"));
}

#[test]
fn join_mounts_root_subpath_at_prefix() {
    assert_eq!(join(&s("/api/widgets"), &s("/")), s("/api/widgets"));
}

#[test]
fn join_appends_other_subpaths() {
    assert_eq!(join(&s("/api"), &s("/widgets")), s("/api/widgets"));
}

#[test]
fn enum_mapping_docs_match_routes() {
    let schema = enum_mapping::schema();
    assert_eq!(schema.paths, vec![s("/api/enums")]);
    let table = enum_mapping::router();
    let paths = paths_of(&table);
    assert_eq!(
        paths,
        vec![s("/"), s("/swagger-ui"), s("/api-docs/openapi.json"), s("/api/enums")]
    );
    for doc_path in &schema.paths {
        assert_eq!(paths.iter().filter(|p| *p == doc_path).count(), 1);
    }
}

#[test]
fn enum_of_js_docs_match_routes() {
    let schema = enum_of_js_simple_types::schema();
    assert_eq!(schema.paths, vec![s("/api/enums-tagged"), s("/api/enums-untagged")]);
    let table = enum_of_js_simple_types::router();
    let paths = paths_of(&table);
    for doc_path in &schema.paths {
        assert_eq!(paths.iter().filter(|p| *p == doc_path).count(), 1);
    }
}

#[test]
fn derive_docs_match_routes() {
    let schema = nesting_with_derive::ApiDoc::openapi();
    assert_eq!(schema.paths, vec![s("/api/widgets")]);
    assert_eq!(schema.title, s("Nesting with derive macros"));
    let table = nesting_with_derive::router();
    let paths = paths_of(&table);
    assert_eq!(
        paths,
        vec![s("/"), s("/swagger-ui"), s("/api-docs/openapi.json"), s("/api/widgets")]
    );
    assert_eq!(paths.iter().filter(|p| **p == s("/api/widgets")).count(), 1);
}

#[test]
fn openapirouter_docs_match_routes() {
    let (table, schema) = nesting_with_openapirouter::api_parts();
    assert_eq!(paths_of(&table), schema.paths);
    assert_eq!(schema.paths, vec![s("/api/widgets")]);
}

#[test]
fn doc_router_keeps_schema_and_table_in_step() {
    let sub = DocRouter {
        table: RouteTable::new(),
        schema: DocSchema::new(s("Sub"), s("A sub API.")),
    }
    .route(s("/a"))
    .route(s("/b"));
    let top = DocRouter {
        table: RouteTable::new(),
        schema: DocSchema::new(s("Top"), s("A top API.")),
    }
    .route(s("/c"))
    .nest(&s("/sub"), sub);
    assert_eq!(paths_of(&top.table), top.schema.paths);
    assert_eq!(top.schema.paths, vec![s("/c"), s("/sub/a"), s("/sub/b")]);
}

#[test]
fn schema_from_routes_lists_every_route_once() {
    let table = RouteTable::new().route(s("/x")).route(s("/y"));
    let schema = DocSchema::from_routes(s("T"), s("D"), &table);
    assert_eq!(schema.paths, paths_of(&table));
}

#[test]
fn widgets_include_context_name_once_under_derive_nesting() {
    let state = nesting_with_derive::AppState::new();
    let w = nesting_with_derive::get_widgets(&state);
    assert_eq!(w.names, vec![s("Foo")]);
    assert_eq!(w.names.iter().filter(|n| **n == s("Foo")).count(), 1);
}

#[test]
fn widgets_include_context_name_once_under_openapirouter_nesting() {
    let state = nesting_with_openapirouter::AppState::new();
    let w = nesting_with_openapirouter::get_widgets(&state);
    assert_eq!(w.names, vec![s("Utoipa"), s("Axum"), s("Foo")]);
    assert_eq!(w.names.iter().filter(|n| **n == s("Foo")).count(), 1);
}

#[test]
fn server_plan_binds_distinct_ports() {
    let plan = server_plan();
    assert_eq!(plan.len(), 4);
    let ports: Vec<u16> = plan.iter().map(|l| l.port).collect();
    assert_eq!(ports, vec![10000, 10001, 10002, 10003]);
    for i in 0..ports.len() {
        for j in (i + 1)..ports.len() {
            assert_ne!(ports[i], ports[j]);
        }
    }
}

#[test]
fn each_server_keeps_its_own_route_set() {
    let a = paths_of(&enum_mapping::router());
    let b = paths_of(&enum_of_js_simple_types::router());
    let c = paths_of(&nesting_with_derive::router());
    let d = paths_of(&nesting_with_openapirouter::router());
    assert!(a.contains(&s("/api/enums")) && !b.contains(&s("/api/enums")));
    assert!(b.contains(&s("/api/enums-tagged")) && !a.contains(&s("/api/enums-tagged")));
    assert!(c.contains(&s("/api/widgets")) && d.contains(&s("/api/widgets")));
    assert_ne!(a, b);
    assert_ne!(a, c);
    assert_ne!(c, d);
}

#[test]
fn root_greeting() {
    assert_eq!(index(), s("Hello, World"));
}
