use ore_app::async_result::AsyncResult;

#[test]
fn started_query_is_loading() {
    let query: AsyncResult<u64, &str> = AsyncResult::start();
    assert_eq!(query, AsyncResult::Loading);
    assert!(query.is_loading());
    assert_eq!(query.get(), None);
}

#[test]
fn loading_query_takes_one_answer() {
    let mut query: AsyncResult<u64, &str> = AsyncResult::start();
    assert!(query.resolve(Ok(12)));
    assert_eq!(query, AsyncResult::Loaded(12));
    assert_eq!(query.get(), Some(&12));
    assert!(!query.resolve(Err("late")));
    assert_eq!(query, AsyncResult::Loaded(12));
    assert!(!query.resolve(Ok(13)));
    assert_eq!(query, AsyncResult::Loaded(12));
}

#[test]
fn failed_query_holds_the_error() {
    let mut query: AsyncResult<u64, &str> = AsyncResult::start();
    assert!(query.resolve(Err("unreachable")));
    assert_eq!(query, AsyncResult::Error("unreachable"));
    assert_eq!(query.get(), None);
    assert!(!query.is_loading());
}

#[test]
fn restart_makes_the_query_load_again() {
    let mut query: AsyncResult<u64, &str> = AsyncResult::Loaded(3);
    query.restart();
    assert_eq!(query, AsyncResult::Loading);
    assert!(query.resolve(Ok(4)));
    assert_eq!(query, AsyncResult::Loaded(4));

    let mut failed: AsyncResult<u64, &str> = AsyncResult::Error("x");
    failed.restart();
    assert!(failed.is_loading());
}

#[test]
fn copy_of_a_query_holds_what_the_query_holds() {
    let loaded: AsyncResult<String, String> = AsyncResult::Loaded("seven".to_string());
    assert_eq!(loaded.clone(), loaded);
    let failed: AsyncResult<String, String> = AsyncResult::Error("down".to_string());
    assert_eq!(failed.clone(), failed);
    let loading: AsyncResult<String, String> = AsyncResult::Loading;
    assert_eq!(loading.clone(), AsyncResult::Loading);
}
