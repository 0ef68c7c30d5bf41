//! The routes: which method and path reaches which endpoint, and what the
//! endpoint takes from the request.

use vstd::prelude::*;
use crate::handler::{
    create_spec, delete_spec, get_spec, list_spec, log_create, log_delete, log_get, log_list,
    log_update, type_create, type_delete, type_get, type_list, type_update, update_spec, Step,
    StepView,
};
use crate::ident::parsed_uuid;
use crate::record::Table;

verus! {

/// The request methods in use.
#[derive(Clone, Copy, Debug, PartialEq, Eq, Structural)]
pub enum Method {
    Get,
    Post,
}

/// What an endpoint does to its table.
#[derive(Clone, Copy, Debug, PartialEq, Eq, Structural)]
pub enum Action {
    Create,
    Get,
    Update,
    Delete,
    List,
}

/// The query parameters that a route takes.
#[derive(Clone, Copy, Debug, PartialEq, Eq, Structural)]
pub enum Params {
    /// None.
    Nothing,
    /// `id`: the identifier of a record, as text.
    Id,
    /// `page` and `pagesize`: two integers.
    Paging,
}

/// One route of the service.
#[derive(Clone, Copy, Debug, PartialEq, Eq)]
pub struct Route {
    pub method: Method,
    pub path: &'static str,
    pub params: Params,
    /// Whether the request carries a payload, as JSON.
    pub payload: bool,
    pub table: Table,
    pub action: Action,
}

/// All routes: the five of the entry types, then the five of the entries.
pub open spec fn route_table() -> Seq<Route> {
    seq![
        Route {
            method: Method::Post,
            path: "/brainlog/type/create",
            params: Params::Nothing,
            payload: true,
            table: Table::EntryType,
            action: Action::Create,
        },
        Route {
            method: Method::Get,
            path: "/brainlog/type/get",
            params: Params::Id,
            payload: false,
            table: Table::EntryType,
            action: Action::Get,
        },
        Route {
            method: Method::Post,
            path: "/brainlog/type/update",
            params: Params::Id,
            payload: true,
            table: Table::EntryType,
            action: Action::Update,
        },
        Route {
            method: Method::Get,
            path: "/brainlog/type/delete",
            params: Params::Id,
            payload: false,
            table: Table::EntryType,
            action: Action::Delete,
        },
        Route {
            method: Method::Get,
            path: "/brainlog/type/list",
            params: Params::Paging,
            payload: false,
            table: Table::EntryType,
            action: Action::List,
        },
        Route {
            method: Method::Post,
            path: "/brainlog/create",
            params: Params::Nothing,
            payload: true,
            table: Table::Entry,
            action: Action::Create,
        },
        Route {
            method: Method::Get,
            path: "/brainlog/get",
            params: Params::Id,
            payload: false,
            table: Table::Entry,
            action: Action::Get,
        },
        Route {
            method: Method::Post,
            path: "/brainlog/update",
            params: Params::Id,
            payload: true,
            table: Table::Entry,
            action: Action::Update,
        },
        Route {
            method: Method::Get,
            path: "/brainlog/delete",
            params: Params::Id,
            payload: false,
            table: Table::Entry,
            action: Action::Delete,
        },
        Route {
            method: Method::Get,
            path: "/brainlog/list",
            params: Params::Paging,
            payload: false,
            table: Table::Entry,
            action: Action::List,
        },
    ]
}

/// What a request hands to its endpoint: the query parameters and the
/// payload that the endpoint's route declares.
#[derive(Debug, PartialEq, Eq)]
pub enum Request {
    Create { fields: Vec<Option<String>> },
    Get { id: String },
    Update { id: String, fields: Vec<Option<String>> },
    Delete { id: String },
    List { page: i64, pagesize: i64 },
}

/// The first step of the endpoint that a request reaches.
pub open spec fn dispatch_spec(table: Table, request: Request) -> StepView {
    match request {
        Request::Create { fields } => create_spec(table, fields.deep_view()),
        Request::Get { id } => get_spec(table, parsed_uuid(id@)),
        Request::Update { id, fields } => update_spec(
            table,
            parsed_uuid(id@),
            fields.deep_view(),
        ),
        Request::Delete { id } => delete_spec(table, parsed_uuid(id@)),
        Request::List { page, pagesize } => list_spec(table, page, pagesize),
    }
}

/// Hands a request to the endpoint of `table` that its route leads to, and
/// gives the endpoint's first step.
pub fn dispatch(table: Table, request: Request) -> (step: Step)
    ensures
        step@ == dispatch_spec(table, request),
{
    match table {
        Table::EntryType => match request {
            Request::Create { fields } => type_create(fields),
            Request::Get { id } => type_get(id.as_str()),
            Request::Update { id, fields } => type_update(id.as_str(), fields),
            Request::Delete { id } => type_delete(id.as_str()),
            Request::List { page, pagesize } => type_list(page, pagesize),
        },
        Table::Entry => match request {
            Request::Create { fields } => log_create(fields),
            Request::Get { id } => log_get(id.as_str()),
            Request::Update { id, fields } => log_update(id.as_str(), fields),
            Request::Delete { id } => log_delete(id.as_str()),
            Request::List { page, pagesize } => log_list(page, pagesize),
        },
    }
}

/// The query parameters that an action needs.
pub open spec fn params_of(action: Action) -> Params {
    match action {
        Action::Create => Params::Nothing,
        Action::List => Params::Paging,
        _ => Params::Id,
    }
}

/// Whether an action takes a payload.
pub open spec fn takes_payload(action: Action) -> bool {
    action == Action::Create || action == Action::Update
}

/// Each route declares the parameters and the payload that its action
/// needs; the routes with a payload are posted, the others are got.
pub proof fn lemma_routes_fit_actions()
    ensures
        forall|i: int|
            0 <= i < route_table().len() ==> {
                let route = #[trigger] route_table()[i];
                &&& route.params == params_of(route.action)
                &&& route.payload == takes_payload(route.action)
                &&& route.method == if route.payload { Method::Post } else { Method::Get }
            },
{
}

/// Whether two routes would answer the same request line.
pub open spec fn collide(a: Route, b: Route) -> bool {
    a.method == b.method && a.path@ == b.path@
}

/// Whether a route leads to the endpoint of `table` and `action`.
pub open spec fn serves(route: Route, table: Table, action: Action) -> bool {
    route.table == table && route.action == action
}

/// No two routes of the table collide.
pub proof fn lemma_routes_distinct()
    ensures
        forall|i: int, j: int|
            0 <= i < j < route_table().len() ==> !collide(
                #[trigger] route_table()[i],
                #[trigger] route_table()[j],
            ),
{
    reveal_strlit("/brainlog/type/create");
    reveal_strlit("/brainlog/type/get");
    reveal_strlit("/brainlog/type/update");
    reveal_strlit("/brainlog/type/delete");
    reveal_strlit("/brainlog/type/list");
    reveal_strlit("/brainlog/create");
    reveal_strlit("/brainlog/get");
    reveal_strlit("/brainlog/update");
    reveal_strlit("/brainlog/delete");
    reveal_strlit("/brainlog/list");
    let routes = route_table();
    assert(routes[0].path@[15] != routes[2].path@[15]);
    assert(routes[5].path@[10] != routes[7].path@[10]);
    assert(routes[1].path@.len() == 18 && routes[3].path@.len() == 21);
    assert(routes[4].path@.len() == 19 && routes[6].path@.len() == 13);
    assert(routes[8].path@.len() == 16 && routes[9].path@.len() == 14);
}

/// Each endpoint has a route.
pub proof fn lemma_endpoint_routed(table: Table, action: Action)
    ensures
        exists|i: int|
            0 <= i < route_table().len() && #[trigger] serves(route_table()[i], table, action),
{
    let i: int = match table {
        Table::EntryType => 0int,
        Table::Entry => 5int,
    } + match action {
        Action::Create => 0int,
        Action::Get => 1int,
        Action::Update => 2int,
        Action::Delete => 3int,
        Action::List => 4int,
    };
    assert(serves(route_table()[i], table, action));
}

/// The routes of the service: [`route_table`].
pub fn routes() -> (table: Vec<Route>)
    ensures
        table@ == route_table(),
{
    vec![
        Route {
            method: Method::Post,
            path: "/brainlog/type/create",
            params: Params::Nothing,
            payload: true,
            table: Table::EntryType,
            action: Action::Create,
        },
        Route {
            method: Method::Get,
            path: "/brainlog/type/get",
            params: Params::Id,
            payload: false,
            table: Table::EntryType,
            action: Action::Get,
        },
        Route {
            method: Method::Post,
            path: "/brainlog/type/update",
            params: Params::Id,
            payload: true,
            table: Table::EntryType,
            action: Action::Update,
        },
        Route {
            method: Method::Get,
            path: "/brainlog/type/delete",
            params: Params::Id,
            payload: false,
            table: Table::EntryType,
            action: Action::Delete,
        },
        Route {
            method: Method::Get,
            path: "/brainlog/type/list",
            params: Params::Paging,
            payload: false,
            table: Table::EntryType,
            action: Action::List,
        },
        Route {
            method: Method::Post,
            path: "/brainlog/create",
            params: Params::Nothing,
            payload: true,
            table: Table::Entry,
            action: Action::Create,
        },
        Route {
            method: Method::Get,
            path: "/brainlog/get",
            params: Params::Id,
            payload: false,
            table: Table::Entry,
            action: Action::Get,
        },
        Route {
            method: Method::Post,
            path: "/brainlog/update",
            params: Params::Id,
            payload: true,
            table: Table::Entry,
            action: Action::Update,
        },
        Route {
            method: Method::Get,
            path: "/brainlog/delete",
            params: Params::Id,
            payload: false,
            table: Table::Entry,
            action: Action::Delete,
        },
        Route {
            method: Method::Get,
            path: "/brainlog/list",
            params: Params::Paging,
            payload: false,
            table: Table::Entry,
            action: Action::List,
        },
    ]
}

} // verus!
