use brainlog::exchange::Statement;
use brainlog::handler::{
    log_create, log_delete, log_get, log_list, log_update, type_create, type_delete, type_get,
    type_list, type_update, Fault, Pending, Step,
};
use brainlog::record::Table;
use brainlog::router::{dispatch, routes, Action, Method, Params, Request, Route};

fn route(
    method: Method,
    path: &'static str,
    params: Params,
    payload: bool,
    table: Table,
    action: Action,
) -> Route {
    Route { method, path, params, payload, table, action }
}

#[test]
fn routes_lists_the_ten_routes_in_order() {
    let expected = vec![
        route(Method::Post, "/brainlog/type/create", Params::Nothing, true, Table::EntryType, Action::Create),
        route(Method::Get, "/brainlog/type/get", Params::Id, false, Table::EntryType, Action::Get),
        route(Method::Post, "/brainlog/type/update", Params::Id, true, Table::EntryType, Action::Update),
        route(Method::Get, "/brainlog/type/delete", Params::Id, false, Table::EntryType, Action::Delete),
        route(Method::Get, "/brainlog/type/list", Params::Paging, false, Table::EntryType, Action::List),
        route(Method::Post, "/brainlog/create", Params::Nothing, true, Table::Entry, Action::Create),
        route(Method::Get, "/brainlog/get", Params::Id, false, Table::Entry, Action::Get),
        route(Method::Post, "/brainlog/update", Params::Id, true, Table::Entry, Action::Update),
        route(Method::Get, "/brainlog/delete", Params::Id, false, Table::Entry, Action::Delete),
        route(Method::Get, "/brainlog/list", Params::Paging, false, Table::Entry, Action::List),
    ];
    assert_eq!(routes(), expected);
}

#[test]
fn no_two_routes_share_method_and_path() {
    let table = routes();
    for (i, a) in table.iter().enumerate() {
        for b in &table[i + 1..] {
            assert!(a.method != b.method || a.path != b.path);
        }
    }
}

#[test]
fn every_endpoint_has_one_route() {
    let table = routes();
    for t in [Table::EntryType, Table::Entry] {
        for a in [Action::Create, Action::Get, Action::Update, Action::Delete, Action::List] {
            assert_eq!(table.iter().filter(|r| r.table == t && r.action == a).count(), 1);
        }
    }
}

#[test]
fn dispatch_hands_each_request_to_its_endpoint() {
    let id = "a1a2a3a4-b1b2-c1c2-d1d2-d3d4d5d6d7d8";
    let fields = || vec![Some("work".to_string()), None];
    assert_eq!(
        dispatch(Table::EntryType, Request::Create { fields: fields() }),
        type_create(fields())
    );
    assert_eq!(dispatch(Table::EntryType, Request::Get { id: id.to_string() }), type_get(id));
    assert_eq!(
        dispatch(Table::EntryType, Request::Update { id: id.to_string(), fields: fields() }),
        type_update(id, fields())
    );
    assert_eq!(
        dispatch(Table::EntryType, Request::Delete { id: id.to_string() }),
        type_delete(id)
    );
    assert_eq!(
        dispatch(Table::EntryType, Request::List { page: 2, pagesize: 25 }),
        type_list(2, 25)
    );
    assert_eq!(dispatch(Table::Entry, Request::Create { fields: fields() }), log_create(fields()));
    assert_eq!(dispatch(Table::Entry, Request::Get { id: id.to_string() }), log_get(id));
    assert_eq!(
        dispatch(Table::Entry, Request::Update { id: id.to_string(), fields: fields() }),
        log_update(id, fields())
    );
    assert_eq!(dispatch(Table::Entry, Request::Delete { id: id.to_string() }), log_delete(id));
    assert_eq!(
        dispatch(Table::Entry, Request::List { page: 2, pagesize: 25 }),
        log_list(2, 25)
    );
}

#[test]
fn dispatch_of_a_get_selects_in_the_table_of_the_route() {
    let id = "a1a2a3a4-b1b2-c1c2-d1d2-d3d4d5d6d7d8";
    for table in [Table::EntryType, Table::Entry] {
        assert_eq!(
            dispatch(table, Request::Get { id: id.to_string() }),
            Step::Ask {
                statement: Statement::Select { table, id: 0xa1a2a3a4_b1b2_c1c2_d1d2_d3d4d5d6d7d8 },
                pending: Pending::Record,
            }
        );
        assert_eq!(
            dispatch(table, Request::Delete { id: "not-a-uuid".to_string() }),
            Step::Finish(Err(Fault::MalformedId))
        );
    }
}

#[test]
fn each_route_declares_what_its_action_takes() {
    for route in routes() {
        let (params, payload) = match route.action {
            Action::Create => (Params::Nothing, true),
            Action::Get | Action::Delete => (Params::Id, false),
            Action::Update => (Params::Id, true),
            Action::List => (Params::Paging, false),
        };
        assert_eq!(route.params, params);
        assert_eq!(route.payload, payload);
        assert_eq!(route.method, if payload { Method::Post } else { Method::Get });
    }
}
