use service::{routes, EntityKind, Method, Route};

#[test]
fn route_table_has_one_route_for_each_kind() {
    assert_eq!(
        routes(),
        vec![
            Route {
                method: Method::Get,
                path: "/track/:id",
                kind: EntityKind::Track,
            },
            Route {
                method: Method::Get,
                path: "/album/:id",
                kind: EntityKind::Album,
            },
            Route {
                method: Method::Get,
                path: "/artist/:id",
                kind: EntityKind::Artist,
            },
        ]
    );
}

#[test]
fn route_of_a_kind() {
    assert_eq!(Route::of(EntityKind::Track).path, "/track/:id");
    assert_eq!(Route::of(EntityKind::Album).path, "/album/:id");
    assert_eq!(Route::of(EntityKind::Artist).path, "/artist/:id");
    assert_eq!(Route::of(EntityKind::Artist).kind, EntityKind::Artist);
    assert_eq!(Route::of(EntityKind::Artist).method, Method::Get);
}

#[test]
fn every_route_ends_in_the_identifier_parameter() {
    for route in routes() {
        assert!(route.path.ends_with("/:id"));
        assert_eq!(route.path.matches(':').count(), 1);
    }
}
