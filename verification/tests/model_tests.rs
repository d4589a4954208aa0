use web_core::ctx::Ctx;
use web_core::model::error::Error;
use web_core::model::task::{TaskBmc, TaskForCreate, TaskForUpdate};
use web_core::model::user::{UserBmc, UserForCreate};
use web_core::model::ModelManager;

#[test]
fn test_create_ok() {
    let mut mm = ModelManager::new().unwrap();
    let ctx = Ctx::root_ctx();
    let fx_title = "test_create_ok title";

    let task_c = TaskForCreate {
        title: fx_title.to_string(),
    };
    let id = TaskBmc::create(&ctx, &mut mm, task_c).unwrap();

    let task = TaskBmc::get(&ctx, &mm, id).unwrap();

    assert_eq!(task.title, fx_title);

    TaskBmc::delete(&ctx, &mut mm, id).unwrap();
}

#[test]
fn test_get_err_not_found() {
    let mm = ModelManager::new().unwrap();
    let ctx = Ctx::root_ctx();
    let fx_id = 100;

    let res = TaskBmc::get(&ctx, &mm, fx_id);

    assert!(
        matches!(
            res,
            Err(Error::EntityNotFound {
                entity: "task",
                id: 100
            }),
        ),
        "EntityNotFound not matching"
    );
}

#[test]
fn test_list_all_ok() {
    let mut mm = ModelManager::new().unwrap();
    let ctx = Ctx::root_ctx();
    let fx_titles = &["test_list_all_ok-task 01", "test_list_all_ok-task 02"];

    for title in fx_titles {
        TaskBmc::create(
            &ctx,
            &mut mm,
            TaskForCreate {
                title: title.to_string(),
            },
        )
        .unwrap();
    }

    let tasks = TaskBmc::list(&ctx, &mm).unwrap();

    let tasks: Vec<_> = tasks
        .into_iter()
        .filter(|t| t.title.starts_with("test_list_all_ok-task"))
        .collect();

    assert_eq!(tasks.len(), 2, "number of seeded tasks.");

    for task in tasks.iter() {
        TaskBmc::delete(&ctx, &mut mm, task.id).unwrap();
    }
}

#[test]
fn test_update_ok() {
    let mut mm = ModelManager::new().unwrap();
    let ctx = Ctx::root_ctx();
    let fx_title = "test_create_ok task 01";
    let fx_title_new = "test_create_ok task 01 - updated";
    let fx_id = TaskBmc::create(
        &ctx,
        &mut mm,
        TaskForCreate {
            title: fx_title.to_string(),
        },
    )
    .unwrap();

    let task_u = TaskForUpdate {
        title: Some(fx_title_new.to_owned()),
        done: None,
    };

    TaskBmc::update(&ctx, &mut mm, fx_id, task_u).unwrap();

    let updated_task = TaskBmc::get(&ctx, &mm, fx_id).unwrap();

    assert_eq!(updated_task.title, fx_title_new, "Title should be updated");

    TaskBmc::delete(&ctx, &mut mm, fx_id).unwrap();
}

#[test]
fn test_delete_err_not_found() {
    let mut mm = ModelManager::new().unwrap();
    let ctx = Ctx::root_ctx();
    let fx_id = 100;

    let res = TaskBmc::delete(&ctx, &mut mm, fx_id);

    assert!(
        matches!(
            res,
            Err(Error::EntityNotFound {
                entity: "task",
                id: 100
            }),
        ),
        "EntityNotFound not matching"
    );
}

#[test]
fn test_first_by_username_ok() {
    let mut mm = ModelManager::new().unwrap();
    let ctx = Ctx::root_ctx();
    let fx_username = "demo1";

    UserBmc::create(
        &ctx,
        &mut mm,
        UserForCreate {
            username: fx_username.to_string(),
            pwd_clear: "welcome".to_string(),
        },
    )
    .unwrap();

    let user = UserBmc::first_by_username(&ctx, &mm, fx_username)
        .unwrap()
        .expect("Should have user 'demo1'");

    assert_eq!(user.username, fx_username);
}

#[test]
fn test_update_keeps_other_rows() {
    let mut mm = ModelManager::new().unwrap();
    let ctx = Ctx::root_ctx();
    let a = TaskBmc::create(
        &ctx,
        &mut mm,
        TaskForCreate {
            title: "a".to_string(),
        },
    )
    .unwrap();
    let b = TaskBmc::create(
        &ctx,
        &mut mm,
        TaskForCreate {
            title: "b".to_string(),
        },
    )
    .unwrap();

    TaskBmc::update(
        &ctx,
        &mut mm,
        b,
        TaskForUpdate {
            title: None,
            done: Some(true),
        },
    )
    .unwrap();

    let ta = TaskBmc::get(&ctx, &mm, a).unwrap();
    let tb = TaskBmc::get(&ctx, &mm, b).unwrap();
    assert_eq!(ta.title, "a");
    assert!(!ta.done);
    assert_eq!(tb.title, "b");
    assert!(tb.done);
}

#[test]
fn test_user_get_err_not_found() {
    let mm = ModelManager::new().unwrap();
    let ctx = Ctx::root_ctx();

    let res = UserBmc::get(&ctx, &mm, 42);

    assert!(matches!(
        res,
        Err(Error::EntityNotFound {
            entity: "user",
            id: 42
        }),
    ));
}
