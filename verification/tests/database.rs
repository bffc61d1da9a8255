use sq_streamhook::database::{
    app_auth_token_query, app_auth_token_store_plan, clear_table_statement, select_first_query,
    user_access_token_query, user_auth_tokens_store_plan, user_refresh_token_query,
};

#[test]
fn select_first_query_text() {
    assert_eq!(select_first_query("a", "t"), "SELECT a FROM t LIMIT 1");
}

#[test]
fn token_queries() {
    assert_eq!(app_auth_token_query(), "SELECT access_token FROM streamhooks_app_auth LIMIT 1");
    assert_eq!(user_access_token_query(), "SELECT access_token FROM streamhooks_user_auth LIMIT 1");
    assert_eq!(user_refresh_token_query(), "SELECT refresh_token FROM streamhooks_user_auth LIMIT 1");
}

#[test]
fn clear_table_binds_the_table_name() {
    let st = clear_table_statement("t");
    assert_eq!(st.sql, "DELETE FROM t");
    assert_eq!(st.binds, vec!["t".to_string()]);
}

#[test]
fn app_token_plan_clears_then_inserts() {
    let plan = app_auth_token_store_plan("tok".to_string());
    assert_eq!(plan.len(), 2);
    assert_eq!(plan[0].sql, "DELETE FROM streamhooks_app_auth");
    assert_eq!(plan[1].sql, "INSERT INTO streamhooks_app_auth (access_token) VALUES ( $1 )");
    assert_eq!(plan[1].binds, vec!["tok".to_string()]);
}

#[test]
fn user_tokens_plan_clears_then_inserts() {
    let plan = user_auth_tokens_store_plan("acc".to_string(), "ref".to_string());
    assert_eq!(plan.len(), 2);
    assert_eq!(plan[0].sql, "DELETE FROM streamhooks_user_auth");
    assert_eq!(plan[0].binds, vec!["streamhooks_user_auth".to_string()]);
    assert_eq!(
        plan[1].sql,
        "INSERT INTO streamhooks_user_auth (access_token, refresh_token) VALUES ( $1, $2 )"
    );
    assert_eq!(plan[1].binds, vec!["acc".to_string(), "ref".to_string()]);
}
