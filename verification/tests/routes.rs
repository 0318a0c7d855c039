use zero2prod::routes::{routes, Handler, Method};

#[test]
fn the_service_has_exactly_its_two_routes() {
    let table = routes();
    assert_eq!(table.len(), 2);

    assert_eq!(table[0].method, Method::Get);
    assert_eq!(table[0].path, "/health_check");
    assert_eq!(table[0].handler, Handler::HealthCheck);

    assert_eq!(table[1].method, Method::Post);
    assert_eq!(table[1].path, "/subscriptions");
    assert_eq!(table[1].handler, Handler::Subscribe);
}

#[test]
fn no_two_routes_share_a_path() {
    let table = routes();
    for (i, first) in table.iter().enumerate() {
        for second in &table[i + 1..] {
            assert_ne!(first.path, second.path);
        }
    }
}
