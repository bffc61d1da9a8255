use sq_streamhook::{build_url, Url};

fn url(path: Option<&str>, parameters: Option<Vec<&str>>) -> Url {
    Url {
        protocol: "https".to_string(),
        domain: "id.twitch.tv".to_string(),
        path: path.map(|p| p.to_string()),
        parameters: parameters.map(|ps| ps.into_iter().map(|p| p.to_string()).collect()),
    }
}

#[test]
fn build_url_bare() {
    assert_eq!(build_url(url(None, None)), "https://id.twitch.tv/");
}

#[test]
fn build_url_with_path() {
    assert_eq!(build_url(url(Some("oauth2/authorize"), None)), "https://id.twitch.tv/oauth2/authorize");
}

#[test]
fn build_url_with_parameters_in_order() {
    let text = build_url(url(Some("oauth2/authorize"), Some(vec!["?a=1", "&b=2", "&c=3"])));
    assert_eq!(text, "https://id.twitch.tv/oauth2/authorize?a=1&b=2&c=3");
}

#[test]
fn build_url_parameters_without_path() {
    assert_eq!(build_url(url(None, Some(vec!["?x=y"]))), "https://id.twitch.tv/?x=y");
}

#[test]
fn build_url_empty_parameter_list() {
    assert_eq!(build_url(url(Some("p"), Some(vec![]))), build_url(url(Some("p"), None)));
}

#[test]
fn build_url_parameter_appends() {
    let shorter = build_url(url(Some("p"), Some(vec!["?a=1"])));
    let longer = build_url(url(Some("p"), Some(vec!["?a=1", "&b=2"])));
    assert_eq!(longer, format!("{}{}", shorter, "&b=2"));
}
