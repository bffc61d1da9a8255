//! The Twitch Helix requests the bot makes, and what it reads from the
//! answers.
use vstd::prelude::*;

verus! {

/// The `Authorization` header of a Helix request made with `token`.
pub open spec fn bearer_header_text(token: Seq<char>) -> Seq<char> {
    "Bearer "@ + token
}

/// The URL that lists the chatters of a broadcaster's chat, as seen by a
/// moderator.
pub open spec fn chatters_url_text(broadcaster_id: Seq<char>, moderator_id: Seq<char>) -> Seq<char> {
    "https://api.twitch.tv/helix/chat/chatters?broadcaster_id="@ + broadcaster_id
        + "&moderator_id="@ + moderator_id
}

/// The URL that looks a user up by login name.
pub open spec fn users_url_text(login: Seq<char>) -> Seq<char> {
    "https://api.twitch.tv/helix/users?login_id="@ + login
}

/// One chatter in the answer to a chatters request.
pub struct Chatter {
    pub user_login: String,
}

/// The answer to a chatters request: the number of chatters and the
/// chatters listed.
pub struct ChattersPage {
    pub total: u64,
    pub data: Vec<Chatter>,
}

/// One user in the answer to a users request.
pub struct HelixUser {
    pub id: String,
}

/// The answer to a users request.
pub struct UsersPage {
    pub data: Vec<HelixUser>,
}

/// The `Authorization` header of a Helix request made with `token`.
pub fn bearer_header(token: &str) -> (header: String)
    ensures
        header@ == bearer_header_text(token@),
{
    let mut header = String::from_str("Bearer ");
    header.append(token);
    header
}

/// The URL that lists the chatters of `broadcaster_id`'s chat, as seen by
/// `moderator_id`.
pub fn chatters_url(broadcaster_id: &str, moderator_id: &str) -> (url: String)
    ensures
        url@ == chatters_url_text(broadcaster_id@, moderator_id@),
{
    let mut url = String::from_str("https://api.twitch.tv/helix/chat/chatters?broadcaster_id=");
    url.append(broadcaster_id);
    url.append("&moderator_id=");
    url.append(moderator_id);
    url
}

/// The URL that looks up the user whose login is `login`.
pub fn users_url(login: &str) -> (url: String)
    ensures
        url@ == users_url_text(login@),
{
    let mut url = String::from_str("https://api.twitch.tv/helix/users?login_id=");
    url.append(login);
    url
}

/// The logins of the first `total` chatters listed, in order. The answer
/// must list at least `total` chatters.
pub fn chatter_logins(page: &ChattersPage) -> (logins: Vec<String>)
    requires
        page.total <= page.data@.len(),
    ensures
        logins@.len() == page.total,
        forall|i: int| 0 <= i < logins@.len() ==> #[trigger] logins@[i]@ == page.data@[i].user_login@,
{
    let mut logins: Vec<String> = Vec::new();
    let listed: usize = page.data.len();
    let mut i: u64 = 0;
    while i < page.total
        invariant
            i <= page.total,
            page.total <= page.data@.len(),
            listed == page.data@.len(),
            logins@.len() == i,
            forall|j: int| 0 <= j < i ==> #[trigger] logins@[j]@ == page.data@[j].user_login@,
        decreases page.total - i,
    {
        assert(i < listed);
        let idx: usize = i as usize;
        assert(idx == i);
        logins.push(page.data[idx].user_login.clone());
        i = i + 1;
    }
    logins
}

/// The id of the first user of a users answer, which must list one.
pub fn first_user_id(page: &UsersPage) -> (id: String)
    requires
        page.data@.len() > 0,
    ensures
        id@ == page.data@[0].id@,
{
    page.data[0].id.clone()
}

} // verus!
