use sq_streamhook::twitch_api::{
    bearer_header, chatter_logins, chatters_url, first_user_id, users_url, Chatter, ChattersPage,
    HelixUser, UsersPage,
};

#[test]
fn helix_texts() {
    assert_eq!(bearer_header("tok"), "Bearer tok");
    assert_eq!(
        chatters_url("12", "34"),
        "https://api.twitch.tv/helix/chat/chatters?broadcaster_id=12&moderator_id=34"
    );
    assert_eq!(users_url("bot"), "https://api.twitch.tv/helix/users?login_id=bot");
}

fn page(total: u64, logins: &[&str]) -> ChattersPage {
    ChattersPage {
        total,
        data: logins.iter().map(|l| Chatter { user_login: l.to_string() }).collect(),
    }
}

#[test]
fn chatter_logins_takes_total_in_order() {
    assert_eq!(chatter_logins(&page(2, &["a", "b"])), vec!["a".to_string(), "b".to_string()]);
    assert_eq!(chatter_logins(&page(1, &["a", "b"])), vec!["a".to_string()]);
    assert!(chatter_logins(&page(0, &[])).is_empty());
}

#[test]
fn first_user_id_reads_first() {
    let users = UsersPage {
        data: vec![HelixUser { id: "42".to_string() }, HelixUser { id: "43".to_string() }],
    };
    assert_eq!(first_user_id(&users), "42");
}
