use web_core::ctx::Ctx;
use web_core::error::{ClientError, Error};
use web_core::json::JsonValue;
use web_core::model::ModelManager;
use web_core::web::mw_auth::mw_ctx_resolver;
use web_core::web::mw_res_map::main_response_mapper;
use web_core::web::routes_login::{api_login, LoginPayload};
use web_core::web::rpc::{RpcRequest, _rpc_handler};

fn obj(fields: Vec<(&str, JsonValue)>) -> JsonValue {
    JsonValue::Obj(
        fields
            .into_iter()
            .map(|(k, v)| (k.to_string(), v))
            .collect(),
    )
}

fn s(v: &str) -> JsonValue {
    JsonValue::Str(v.to_string())
}

fn rpc(method: &str, params: Option<JsonValue>) -> RpcRequest {
    RpcRequest {
        id: Some(JsonValue::Int(1)),
        method: method.to_string(),
        params,
    }
}

/// Unwrap `{"id": .., "result": ..}` into the result value.
fn result_of(env: JsonValue) -> JsonValue {
    match env {
        JsonValue::Obj(mut fs) => {
            assert_eq!(fs.len(), 2);
            assert_eq!(fs[0].0, "id");
            assert_eq!(fs[1].0, "result");
            fs.remove(1).1
        }
        other => panic!("not an envelope: {other:?}"),
    }
}

#[test]
fn hello_messages() {
    assert_eq!(
        web_core::web::routes_hello::hello_message(Some("Jane")),
        "Hello <strong>Jane</strong>"
    );
    assert_eq!(
        web_core::web::routes_hello::hello_message(None),
        "Hello <strong>world</strong>"
    );
    assert_eq!(
        web_core::web::routes_hello::hello_path_message("Mark"),
        "Hello Mark"
    );
}

#[test]
fn classifier_is_deterministic() {
    let errors = [
        Error::LoginFail,
        Error::AuthFailNoAuthTokenCookie,
        Error::RpcMethodUnknown("x".to_string()),
        Error::Model(web_core::model::Error::EntityNotFound {
            entity: "task",
            id: 7,
        }),
    ];
    for e in errors.iter() {
        assert_eq!(e.client_status_and_error(), e.client_status_and_error());
    }
}

#[test]
fn classifier_buckets() {
    assert_eq!(
        Error::LoginFail.client_status_and_error(),
        (403, ClientError::LOGIN_FAIL)
    );
    assert_eq!(
        Error::LoginFailUsernameNotFound.client_status_and_error(),
        (403, ClientError::LOGIN_FAIL)
    );
    assert_eq!(
        Error::AuthFailNoAuthTokenCookie.client_status_and_error(),
        (403, ClientError::NO_AUTH)
    );
    assert_eq!(
        Error::AuthFailTokenWrongFormat.client_status_and_error(),
        (403, ClientError::NO_AUTH)
    );
    assert_eq!(
        Error::AuthFailCtxNotInRequestExt.client_status_and_error(),
        (403, ClientError::NO_AUTH)
    );
    assert_eq!(
        Error::Model(web_core::model::Error::EntityNotFound {
            entity: "task",
            id: 100
        })
        .client_status_and_error(),
        (400, ClientError::INVALID_PARAMS)
    );
}

#[test]
fn classifier_falls_back_to_service_error() {
    let unlisted = [
        Error::RpcMethodUnknown("unknown_op".to_string()),
        Error::RpcMissingParams {
            rpc_method: "delete_task".to_string(),
        },
        Error::RpcFailJsonParams {
            rpc_method: "create_task".to_string(),
        },
        Error::Model(web_core::model::Error::Store {
            cause: "pool exhausted".to_string(),
        }),
    ];
    for e in unlisted {
        assert_eq!(
            e.client_status_and_error(),
            (500, ClientError::SERVICE_ERROR)
        );
    }
}

#[test]
fn login_success_and_failure() {
    let ok = api_login(LoginPayload {
        username: "demo1".to_string(),
        password: "welcome".to_string(),
    })
    .unwrap();
    assert_eq!(ok.auth_token, "user-1.exp.sign");
    assert_eq!(
        ok.body,
        obj(vec![("result", obj(vec![("success", JsonValue::Bool(true))]))])
    );

    let bad = api_login(LoginPayload {
        username: "demo1".to_string(),
        password: "nope".to_string(),
    });
    assert!(matches!(bad, Err(Error::LoginFail)));
}

#[test]
fn login_token_round_trip() {
    let ok = api_login(LoginPayload {
        username: "demo1".to_string(),
        password: "welcome".to_string(),
    })
    .unwrap();
    let outcome = mw_ctx_resolver(Some(&ok.auth_token));
    assert_eq!(outcome.unwrap().user_id(), 1);
}

#[test]
fn rpc_unknown_method() {
    let mut mm = ModelManager::new().unwrap();
    let ctx = Ctx::new(1);
    let res = _rpc_handler(&ctx, &mut mm, rpc("unknown_op", None));
    assert!(
        matches!(res, Err(Error::RpcMethodUnknown(m)) if m == "unknown_op"),
        "unregistered methods must fail with RpcMethodUnknown"
    );
}

#[test]
fn rpc_missing_params() {
    let mut mm = ModelManager::new().unwrap();
    let ctx = Ctx::new(1);
    for method in ["create_task", "update_task", "delete_task"] {
        let res = _rpc_handler(&ctx, &mut mm, rpc(method, None));
        assert!(
            matches!(res, Err(Error::RpcMissingParams { rpc_method }) if rpc_method == method),
            "{method} without params must fail with RpcMissingParams"
        );
    }
}

#[test]
fn rpc_bad_params() {
    let mut mm = ModelManager::new().unwrap();
    let ctx = Ctx::new(1);
    let res = _rpc_handler(
        &ctx,
        &mut mm,
        rpc("delete_task", Some(obj(vec![("id", s("not-a-number"))]))),
    );
    assert!(
        matches!(res, Err(Error::RpcFailJsonParams { rpc_method }) if rpc_method == "delete_task")
    );
}

#[test]
fn rpc_create_list_update_delete() {
    let mut mm = ModelManager::new().unwrap();
    let ctx = Ctx::new(1);

    let env = _rpc_handler(
        &ctx,
        &mut mm,
        rpc(
            "create_task",
            Some(obj(vec![("data", obj(vec![("title", s("First ticket"))]))])),
        ),
    )
    .unwrap();
    let created = result_of(env);
    assert_eq!(
        created,
        obj(vec![
            ("id", JsonValue::Int(1)),
            ("title", s("First ticket")),
            ("done", JsonValue::Bool(false)),
        ])
    );

    let env = _rpc_handler(&ctx, &mut mm, rpc("list_task", None)).unwrap();
    match result_of(env) {
        JsonValue::Arr(items) => assert_eq!(items.len(), 1),
        other => panic!("expected an array, got {other:?}"),
    }

    let env = _rpc_handler(
        &ctx,
        &mut mm,
        rpc(
            "update_task",
            Some(obj(vec![
                ("id", JsonValue::Int(1)),
                ("data", obj(vec![("done", JsonValue::Bool(true))])),
            ])),
        ),
    )
    .unwrap();
    let updated = result_of(env);
    assert_eq!(
        updated,
        obj(vec![
            ("id", JsonValue::Int(1)),
            ("title", s("First ticket")),
            ("done", JsonValue::Bool(true)),
        ])
    );

    let env = _rpc_handler(
        &ctx,
        &mut mm,
        rpc("delete_task", Some(obj(vec![("id", JsonValue::Int(1))]))),
    )
    .unwrap();
    let deleted = result_of(env);
    assert_eq!(
        deleted,
        obj(vec![
            ("id", JsonValue::Int(1)),
            ("title", s("First ticket")),
            ("done", JsonValue::Bool(true)),
        ])
    );

    let env = _rpc_handler(&ctx, &mut mm, rpc("list_task", None)).unwrap();
    match result_of(env) {
        JsonValue::Arr(items) => assert!(items.is_empty()),
        other => panic!("expected an array, got {other:?}"),
    }
}

#[test]
fn rpc_envelope_echoes_id() {
    let mut mm = ModelManager::new().unwrap();
    let ctx = Ctx::new(1);
    let req = RpcRequest {
        id: Some(s("corr-7")),
        method: "list_task".to_string(),
        params: None,
    };
    let env = _rpc_handler(&ctx, &mut mm, req).unwrap();
    match env {
        JsonValue::Obj(fs) => {
            assert_eq!(fs[0].0, "id");
            assert_eq!(fs[0].1, s("corr-7"));
        }
        other => panic!("not an envelope: {other:?}"),
    }

    let req = RpcRequest {
        id: None,
        method: "list_task".to_string(),
        params: None,
    };
    let env = _rpc_handler(&ctx, &mut mm, req).unwrap();
    match env {
        JsonValue::Obj(fs) => assert_eq!(fs[0].1, JsonValue::Null),
        other => panic!("not an envelope: {other:?}"),
    }
}

/// Pull `(status, type, req_uuid)` out of a mapped error response.
fn mapped_error(status: u16, body: &JsonValue) -> (u16, String, String) {
    match body {
        JsonValue::Obj(fs) => {
            assert_eq!(fs.len(), 1);
            assert_eq!(fs[0].0, "error");
            match &fs[0].1 {
                JsonValue::Obj(inner) => {
                    assert_eq!(inner[0].0, "type");
                    assert_eq!(inner[1].0, "req_uuid");
                    match (&inner[0].1, &inner[1].1) {
                        (JsonValue::Str(t), JsonValue::Str(u)) => {
                            (status, t.clone(), u.clone())
                        }
                        other => panic!("unexpected error body fields: {other:?}"),
                    }
                }
                other => panic!("unexpected error body: {other:?}"),
            }
        }
        other => panic!("unexpected body: {other:?}"),
    }
}

#[test]
fn scenario_gated_route_without_cookie() {
    // Request with no auth cookie reaches a gated route.
    let outcome = mw_ctx_resolver(None);
    let gate_err = match web_core::web::mw_auth::mw_require_auth(&outcome) {
        Err(e) => e,
        Ok(()) => panic!("a request without a resolved context may not pass"),
    };

    let mapped = main_response_mapper(
        None,
        "/api/rpc".to_string(),
        "POST".to_string(),
        Some(&gate_err),
        0,
    );
    let (status, body) = mapped.error_response.expect("an error response is owed");
    let (status, error_type, req_uuid) = mapped_error(status, &body);
    assert_eq!(status, 403);
    assert_eq!(error_type, "NO_AUTH");
    assert_eq!(req_uuid.len(), 36);
    assert_eq!(mapped.log_line.uuid, req_uuid);
    assert_eq!(mapped.log_line.client_error_type.as_deref(), Some("NO_AUTH"));
    assert_eq!(
        mapped.log_line.error_type.as_deref(),
        Some("AuthFailNoAuthTokenCookie")
    );
}

#[test]
fn scenario_login_then_gated_route() {
    // Login succeeds, the cookie comes back on the next request, and
    // the gated handler runs.
    let login = api_login(LoginPayload {
        username: "demo1".to_string(),
        password: "welcome".to_string(),
    })
    .unwrap();
    assert_eq!(
        login.body,
        obj(vec![("result", obj(vec![("success", JsonValue::Bool(true))]))])
    );

    let outcome = mw_ctx_resolver(Some(&login.auth_token));
    assert!(web_core::web::mw_auth::mw_require_auth(&outcome).is_ok());
    let ctx = outcome.unwrap();

    let mut mm = ModelManager::new().unwrap();
    let env = _rpc_handler(&ctx, &mut mm, rpc("list_task", None)).unwrap();
    match result_of(env) {
        JsonValue::Arr(items) => assert!(items.is_empty()),
        other => panic!("expected an array, got {other:?}"),
    }
}

#[test]
fn scenario_delete_missing_task() {
    // RPC delete_task on an id nothing holds: 400, INVALID_PARAMS.
    let mut mm = ModelManager::new().unwrap();
    let ctx = Ctx::new(1);
    let err = _rpc_handler(
        &ctx,
        &mut mm,
        rpc("delete_task", Some(obj(vec![("id", JsonValue::Int(100))]))),
    )
    .unwrap_err();
    assert!(matches!(
        &err,
        Error::Model(web_core::model::Error::EntityNotFound {
            entity: "task",
            id: 100
        })
    ));

    let mapped = main_response_mapper(
        Some(&ctx),
        "/api/rpc".to_string(),
        "POST".to_string(),
        Some(&err),
        0,
    );
    let (status, body) = mapped.error_response.unwrap();
    let (status, error_type, _) = mapped_error(status, &body);
    assert_eq!(status, 400);
    assert_eq!(error_type, "INVALID_PARAMS");
}

#[test]
fn scenario_unknown_rpc_method() {
    // RPC with an unknown method: 500, SERVICE_ERROR.
    let mut mm = ModelManager::new().unwrap();
    let ctx = Ctx::new(1);
    let err = _rpc_handler(&ctx, &mut mm, rpc("unknown_op", None)).unwrap_err();

    let mapped = main_response_mapper(
        Some(&ctx),
        "/api/rpc".to_string(),
        "POST".to_string(),
        Some(&err),
        0,
    );
    let (status, body) = mapped.error_response.unwrap();
    let (status, error_type, _) = mapped_error(status, &body);
    assert_eq!(status, 500);
    assert_eq!(error_type, "SERVICE_ERROR");
    assert_eq!(mapped.log_line.error_type.as_deref(), Some("RpcMethodUnknown"));
    assert_eq!(mapped.log_line.error_data, Some(s("unknown_op")));
}

#[test]
fn mapper_passes_clean_response_through() {
    let ctx = Ctx::new(3);
    let mapped = main_response_mapper(
        Some(&ctx),
        "/hello".to_string(),
        "GET".to_string(),
        None,
        1234,
    );
    assert!(mapped.error_response.is_none());
    assert_eq!(mapped.log_line.user_id, Some(3));
    assert_eq!(mapped.log_line.req_path, "/hello");
    assert_eq!(mapped.log_line.req_method, "GET");
    assert_eq!(mapped.log_line.timestamp, 1234);
    assert!(mapped.log_line.client_error_type.is_none());
    assert!(mapped.log_line.error_type.is_none());
    assert!(mapped.log_line.error_data.is_none());
    assert_eq!(mapped.log_line.uuid.len(), 36);
}

#[test]
fn log_line_carries_error_payload() {
    let err = Error::Model(web_core::model::Error::EntityNotFound {
        entity: "task",
        id: 100,
    });
    let line = web_core::log::log_request(
        "some-uuid".to_string(),
        "POST".to_string(),
        "/api/rpc".to_string(),
        None,
        Some(&err),
        Some(ClientError::INVALID_PARAMS),
        7,
    );
    assert_eq!(line.uuid, "some-uuid");
    assert_eq!(line.client_error_type.as_deref(), Some("INVALID_PARAMS"));
    assert_eq!(line.error_type.as_deref(), Some("Model"));
    assert_eq!(
        line.error_data,
        Some(obj(vec![(
            "EntityNotFound",
            obj(vec![("entity", s("task")), ("id", JsonValue::Int(100))])
        )]))
    );
}
