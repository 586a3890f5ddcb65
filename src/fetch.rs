//! The content proxy's request profile: a desktop browser's user agent and a
//! fixed referrer and origin, whatever the address fetched.

use vstd::prelude::*;

verus! {

pub open spec fn user_agent_text() -> Seq<char> {
    "Mozilla/5.0 (X11; Linux x86_64) AppleWebKit/537.36 (KHTML, like Gecko) Chrome/120.0.0.0 Safari/537.36"@
}

pub open spec fn referer_text() -> Seq<char> {
    "https://www.canva.com/"@
}

pub open spec fn origin_text() -> Seq<char> {
    "https://www.canva.com"@
}

/// One GET request: its address, user agent and extra headers, in order.
pub struct FetchRequest {
    pub url: String,
    pub user_agent: String,
    pub headers: Vec<(String, String)>,
}

/// The request that fetches `url`: the address as given, the fixed user
/// agent, and exactly the `Referer` and `Origin` headers of the embedding site.
pub fn canva_request(url: String) -> (r: FetchRequest)
    ensures
        r.url == url,
        r.user_agent@ == user_agent_text(),
        r.headers@.len() == 2,
        r.headers@[0].0@ == "Referer"@,
        r.headers@[0].1@ == referer_text(),
        r.headers@[1].0@ == "Origin"@,
        r.headers@[1].1@ == origin_text(),
{
    let mut headers: Vec<(String, String)> = Vec::new();
    headers.push((String::from_str("Referer"), String::from_str("https://www.canva.com/")));
    headers.push((String::from_str("Origin"), String::from_str("https://www.canva.com")));
    FetchRequest {
        url,
        user_agent: String::from_str(
            "Mozilla/5.0 (X11; Linux x86_64) AppleWebKit/537.36 (KHTML, like Gecko) Chrome/120.0.0.0 Safari/537.36",
        ),
        headers,
    }
}

} // verus!
