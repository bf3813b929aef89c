//! The client's credentials and base URL, and the HTTP request that each
//! endpoint of the service takes. Sending a request and reading the response
//! are left to the caller; `decode_response` turns the response into a result.

use crate::errors::NuclinoError;
use crate::ids::{hyphenated_text, Uuid};
use crate::json::{decimal_of, decimal_text, object_text};
use crate::request_types::{modify_item_members, new_page_members, ModifyItem, NewPage};
use vstd::prelude::*;
use vstd::string::*;

verus! {

/// The base URL of the whole API.
pub const BASE_URL: &'static str = "https://api.nuclino.com";

/// The environment variable that holds the API key.
pub const APIKEY_ENV_VAR: &'static str = "NUCLINO_API_KEY";

/// The text that urlencoding writes for a text: every byte of its UTF-8 form
/// other than ASCII letters, digits and `-`, `_`, `.`, `~` as `%` and two
/// uppercase hex digits.
pub uninterp spec fn url_encoded(s: Seq<char>) -> Seq<char>;

/// Relies on urlencoding::encode: percent-encodes a text for use in a query.
#[verifier::external_body]
fn percent_encode(s: &str) -> (r: String)
    ensures
        r@ == url_encoded(s@),
{
    urlencoding::encode(s).into_owned()
}

/// The HTTP verbs the service's endpoints take.
#[derive(Debug, Clone, Copy, PartialEq, Eq, Structural)]
pub enum Method {
    Get,
    Post,
    Put,
    Delete,
}

/// One request to the service: the verb, the URL, the value of the
/// `Authorization` header, and a JSON body where the endpoint takes one.
#[derive(Debug, Clone)]
pub struct ApiRequest {
    pub method: Method,
    pub url: String,
    pub authorization: String,
    pub body: Option<String>,
}

/// The text of an optional limit.
pub open spec fn limit_text(limit: Option<u64>) -> Option<Seq<char>> {
    match limit {
        Some(n) => Some(decimal_of(n as nat)),
        None => None,
    }
}

/// The query of a list endpoint: `?limit=N&after=C`, each part only where given,
/// and nothing where neither is.
pub open spec fn list_query(limit: Option<Seq<char>>, after: Option<Seq<char>>) -> Seq<char> {
    match (limit, after) {
        (None, None) => Seq::empty(),
        (Some(n), None) => "?limit="@ + n,
        (None, Some(a)) => "?after="@ + a,
        (Some(n), Some(a)) => "?limit="@ + n + "&after="@ + a,
    }
}

/// `&name=value` where the value is given, and nothing where it is not.
pub open spec fn extra_param(name_eq: Seq<char>, value: Option<Seq<char>>) -> Seq<char> {
    match value {
        Some(v) => name_eq + v,
        None => Seq::empty(),
    }
}

/// Appends the decimal text of an optional limit after `prefix`.
fn append_limit(url: &mut String, prefix: &str, limit: Option<u64>)
    ensures
        final(url)@ == old(url)@ + extra_param(prefix@, limit_text(limit)),
{
    match limit {
        Some(n) => {
            url.append(prefix);
            url.append(decimal_text(n).as_str());
        },
        None => {
            assert(old(url)@ + Seq::<char>::empty() =~= old(url)@);
        },
    }
}

/// Holds what every request needs: the API key and the base URL.
#[derive(Debug, Clone)]
pub struct Client {
    pub apikey: String,
    pub baseurl: String,
}

impl Client {
    /// A client with the API key `apikey`, at `base_url` where given and at
    /// `BASE_URL` otherwise.
    pub fn create(apikey: &str, base_url: Option<&str>) -> (r: Client)
        ensures
            r.apikey@ == apikey@,
            r.baseurl@ == (match base_url {
                Some(b) => b@,
                None => BASE_URL@,
            }),
    {
        let baseurl = match base_url {
            Some(b) => String::from_str(b),
            None => String::from_str(BASE_URL),
        };
        Client { apikey: String::from_str(apikey), baseurl }
    }

    /// A client at `BASE_URL` with the API key read from the environment variable
    /// `APIKEY_ENV_VAR`; `ApiKeyNotFound` where the variable was not set.
    pub fn from_env_value(key: Option<String>) -> (r: Result<Client, NuclinoError>)
        ensures
            key is None ==> r == Err::<Client, NuclinoError>(NuclinoError::ApiKeyNotFound),
            key matches Some(k) ==> (r matches Ok(c) && c.apikey@ == k@ && c.baseurl@ == BASE_URL@),
    {
        match key {
            Some(k) => Ok(Client::create(k.as_str(), None)),
            None => Err(NuclinoError::ApiKeyNotFound),
        }
    }

    /// A request with this client's key, to the base URL followed by `path`.
    fn request(&self, method: Method, path: &str) -> (r: ApiRequest)
        ensures
            r.method == method,
            r.url@ == self.baseurl@ + path@,
            r.authorization@ == self.apikey@,
            r.body is None,
    {
        let mut url = self.baseurl.clone();
        url.append(path);
        ApiRequest { method, url, authorization: self.apikey.clone(), body: None }
    }

    /// A request to the base URL followed by `path` and the text of `id`.
    fn request_for(&self, method: Method, path: &str, id: &Uuid) -> (r: ApiRequest)
        ensures
            r.method == method,
            r.url@ == self.baseurl@ + path@ + hyphenated_text(id@),
            r.authorization@ == self.apikey@,
            r.body is None,
    {
        let mut r = self.request(method, path);
        r.url.append(id.to_text().as_str());
        r
    }

    /// Fetches a user: `GET /v0/users/{id}`.
    pub fn user_request(&self, id: &Uuid) -> (r: ApiRequest)
        ensures
            r.method == Method::Get,
            r.url@ == self.baseurl@ + "/v0/users/"@ + hyphenated_text(id@),
            r.authorization@ == self.apikey@,
            r.body is None,
    {
        self.request_for(Method::Get, "/v0/users/", id)
    }

    /// Lists teams, optionally paginated: `GET /v0/teams?limit=N&after=C`.
    pub fn team_list_request(&self, limit: Option<u8>, after: Option<&str>) -> (r: ApiRequest)
        ensures
            r.method == Method::Get,
            r.url@ == self.baseurl@ + "/v0/teams"@ + list_query(
                limit_text(
                    match limit {
                        Some(n) => Some(n as u64),
                        None => None,
                    },
                ),
                match after {
                    Some(a) => Some(a@),
                    None => None,
                },
            ),
            r.authorization@ == self.apikey@,
            r.body is None,
    {
        let wide = match limit {
            Some(n) => Some(n as u64),
            None => None,
        };
        self.list_request("/v0/teams", wide, after)
    }

    /// A list request to the base URL followed by `path` and the list query.
    fn list_request(&self, path: &str, limit: Option<u64>, after: Option<&str>) -> (r: ApiRequest)
        ensures
            r.method == Method::Get,
            r.url@ == self.baseurl@ + path@ + list_query(
                limit_text(limit),
                match after {
                    Some(a) => Some(a@),
                    None => None,
                },
            ),
            r.authorization@ == self.apikey@,
            r.body is None,
    {
        let mut r = self.request(Method::Get, path);
        let ghost start = r.url@;
        match limit {
            Some(n) => {
                r.url.append("?limit=");
                r.url.append(decimal_text(n).as_str());
                match after {
                    Some(a) => {
                        r.url.append("&after=");
                        r.url.append(a);
                    },
                    None => {},
                }
            },
            None => {
                match after {
                    Some(a) => {
                        r.url.append("?after=");
                        r.url.append(a);
                    },
                    None => {},
                }
            },
        }
        proof {
            let q = list_query(
                limit_text(limit),
                match after {
                    Some(a) => Some(a@),
                    None => None,
                },
            );
            assert(r.url@ =~= start + q);
        }
        r
    }

    /// Fetches a team: `GET /v0/teams/{id}`.
    pub fn team_request(&self, id: &str) -> (r: ApiRequest)
        ensures
            r.method == Method::Get,
            r.url@ == self.baseurl@ + "/v0/teams/"@ + id@,
            r.authorization@ == self.apikey@,
            r.body is None,
    {
        let mut r = self.request(Method::Get, "/v0/teams/");
        r.url.append(id);
        r
    }

    /// Lists workspaces, optionally paginated: `GET /v0/workspaces?limit=N&after=C`.
    pub fn workspace_list_request(&self, limit: Option<usize>, after: Option<&str>) -> (r:
        ApiRequest)
        ensures
            r.method == Method::Get,
            r.url@ == self.baseurl@ + "/v0/workspaces"@ + list_query(
                limit_text(
                    match limit {
                        Some(n) => Some(n as u64),
                        None => None,
                    },
                ),
                match after {
                    Some(a) => Some(a@),
                    None => None,
                },
            ),
            r.authorization@ == self.apikey@,
            r.body is None,
    {
        let wide = match limit {
            Some(n) => Some(n as u64),
            None => None,
        };
        self.list_request("/v0/workspaces", wide, after)
    }

    /// Fetches a workspace: `GET /v0/workspaces/{id}`.
    pub fn workspace_request(&self, id: &Uuid) -> (r: ApiRequest)
        ensures
            r.method == Method::Get,
            r.url@ == self.baseurl@ + "/v0/workspaces/"@ + hyphenated_text(id@),
            r.authorization@ == self.apikey@,
            r.body is None,
    {
        self.request_for(Method::Get, "/v0/workspaces/", id)
    }

    /// Creates a page or collection: `POST /v0/items` with the page as its body.
    pub fn page_create_request(&self, page: &NewPage) -> (r: ApiRequest)
        ensures
            r.method == Method::Post,
            r.url@ == self.baseurl@ + "/v0/items"@,
            r.authorization@ == self.apikey@,
            r.body matches Some(b) && b@ == object_text(new_page_members(*page)),
    {
        let mut r = self.request(Method::Post, "/v0/items");
        r.body = Some(page.to_json_text());
        r
    }

    /// Fetches a page: `GET /v0/items/{id}`.
    pub fn page_request(&self, id: &Uuid) -> (r: ApiRequest)
        ensures
            r.method == Method::Get,
            r.url@ == self.baseurl@ + "/v0/items/"@ + hyphenated_text(id@),
            r.authorization@ == self.apikey@,
            r.body is None,
    {
        self.request_for(Method::Get, "/v0/items/", id)
    }

    /// Changes a page: `PUT /v0/items/{id}` with the change as its body.
    pub fn page_update_request(&self, id: &Uuid, updated: &ModifyItem) -> (r: ApiRequest)
        ensures
            r.method == Method::Put,
            r.url@ == self.baseurl@ + "/v0/items/"@ + hyphenated_text(id@),
            r.authorization@ == self.apikey@,
            r.body matches Some(b) && b@ == object_text(modify_item_members(*updated)),
    {
        let mut r = self.request_for(Method::Put, "/v0/items/", id);
        r.body = Some(updated.to_json_text());
        r
    }

    /// Deletes a page: `DELETE /v0/items/{id}`.
    pub fn page_delete_request(&self, id: &Uuid) -> (r: ApiRequest)
        ensures
            r.method == Method::Delete,
            r.url@ == self.baseurl@ + "/v0/items/"@ + hyphenated_text(id@),
            r.authorization@ == self.apikey@,
            r.body is None,
    {
        self.request_for(Method::Delete, "/v0/items/", id)
    }

    /// Lists the pages of a team or workspace, without content:
    /// `GET /v0/items?{owner}={id}&limit=N&after=C`.
    fn pages_request(&self, owner: &str, id: &Uuid, limit: Option<u8>, after: Option<&Uuid>) -> (r:
        ApiRequest)
        ensures
            r.method == Method::Get,
            r.url@ == self.baseurl@ + "/v0/items?"@ + owner@ + hyphenated_text(id@) + extra_param(
                "&limit="@,
                limit_text(
                    match limit {
                        Some(n) => Some(n as u64),
                        None => None,
                    },
                ),
            ) + extra_param(
                "&after="@,
                match after {
                    Some(a) => Some(hyphenated_text(a@)),
                    None => None,
                },
            ),
            r.authorization@ == self.apikey@,
            r.body is None,
    {
        let mut r = self.request(Method::Get, "/v0/items?");
        r.url.append(owner);
        r.url.append(id.to_text().as_str());
        let wide = match limit {
            Some(n) => Some(n as u64),
            None => None,
        };
        append_limit(&mut r.url, "&limit=", wide);
        let ghost mid = r.url@;
        match after {
            Some(a) => {
                r.url.append("&after=");
                r.url.append(a.to_text().as_str());
            },
            None => {
                assert(mid + Seq::<char>::empty() =~= mid);
            },
        }
        r
    }

    /// Lists the pages of a team, without content, optionally paginated: `after`
    /// is the id of the last page already seen.
    pub fn all_pages_for_team_request(&self, team: &Uuid, limit: Option<u8>, after: Option<&Uuid>) -> (r:
        ApiRequest)
        ensures
            r.method == Method::Get,
            r.url@ == self.baseurl@ + "/v0/items?"@ + "teamId="@ + hyphenated_text(team@)
                + extra_param(
                "&limit="@,
                limit_text(
                    match limit {
                        Some(n) => Some(n as u64),
                        None => None,
                    },
                ),
            ) + extra_param(
                "&after="@,
                match after {
                    Some(a) => Some(hyphenated_text(a@)),
                    None => None,
                },
            ),
            r.authorization@ == self.apikey@,
            r.body is None,
    {
        self.pages_request("teamId=", team, limit, after)
    }

    /// Lists the pages of a workspace, without content, optionally paginated:
    /// `after` is the id of the last page already seen.
    pub fn all_pages_for_workspace_request(
        &self,
        workspace: &Uuid,
        limit: Option<u8>,
        after: Option<&Uuid>,
    ) -> (r: ApiRequest)
        ensures
            r.method == Method::Get,
            r.url@ == self.baseurl@ + "/v0/items?"@ + "workspaceId="@ + hyphenated_text(workspace@)
                + extra_param(
                "&limit="@,
                limit_text(
                    match limit {
                        Some(n) => Some(n as u64),
                        None => None,
                    },
                ),
            ) + extra_param(
                "&after="@,
                match after {
                    Some(a) => Some(hyphenated_text(a@)),
                    None => None,
                },
            ),
            r.authorization@ == self.apikey@,
            r.body is None,
    {
        self.pages_request("workspaceId=", workspace, limit, after)
    }

    /// Searches the pages of a team or workspace for a text.
    fn search_request(&self, owner: &str, id: &Uuid, search: &str, limit: Option<u8>) -> (r:
        ApiRequest)
        ensures
            r.method == Method::Get,
            r.url@ == self.baseurl@ + "/v0/items?"@ + owner@ + hyphenated_text(id@) + "&search="@
                + url_encoded(search@) + extra_param(
                "&limit="@,
                limit_text(
                    match limit {
                        Some(n) => Some(n as u64),
                        None => None,
                    },
                ),
            ),
            r.authorization@ == self.apikey@,
            r.body is None,
    {
        let mut r = self.request(Method::Get, "/v0/items?");
        r.url.append(owner);
        r.url.append(id.to_text().as_str());
        r.url.append("&search=");
        r.url.append(percent_encode(search).as_str());
        let wide = match limit {
            Some(n) => Some(n as u64),
            None => None,
        };
        append_limit(&mut r.url, "&limit=", wide);
        r
    }

    /// Searches a team's pages for a text; the results come without content.
    pub fn search_team_request(&self, team: &Uuid, search: &str, limit: Option<u8>) -> (r: ApiRequest)
        ensures
            r.method == Method::Get,
            r.url@ == self.baseurl@ + "/v0/items?"@ + "teamId="@ + hyphenated_text(team@)
                + "&search="@ + url_encoded(search@) + extra_param(
                "&limit="@,
                limit_text(
                    match limit {
                        Some(n) => Some(n as u64),
                        None => None,
                    },
                ),
            ),
            r.authorization@ == self.apikey@,
            r.body is None,
    {
        self.search_request("teamId=", team, search, limit)
    }

    /// Searches a workspace's pages for a text; the results come without content.
    pub fn search_workspace_request(&self, workspace: &Uuid, search: &str, limit: Option<u8>) -> (r:
        ApiRequest)
        ensures
            r.method == Method::Get,
            r.url@ == self.baseurl@ + "/v0/items?"@ + "workspaceId="@ + hyphenated_text(workspace@)
                + "&search="@ + url_encoded(search@) + extra_param(
                "&limit="@,
                limit_text(
                    match limit {
                        Some(n) => Some(n as u64),
                        None => None,
                    },
                ),
            ),
            r.authorization@ == self.apikey@,
            r.body is None,
    {
        self.search_request("workspaceId=", workspace, search, limit)
    }

    /// Fetches the description of a file: `GET /v0/file/{id}`.
    pub fn file_request(&self, id: &Uuid) -> (r: ApiRequest)
        ensures
            r.method == Method::Get,
            r.url@ == self.baseurl@ + "/v0/file/"@ + hyphenated_text(id@),
            r.authorization@ == self.apikey@,
            r.body is None,
    {
        self.request_for(Method::Get, "/v0/file/", id)
    }

    /// Downloads a file from the URL of its download information. The response
    /// body is the file itself, not an envelope.
    pub fn download_file_request(&self, url: &str) -> (r: ApiRequest)
        ensures
            r.method == Method::Get,
            r.url@ == url@,
            r.authorization@ == self.apikey@,
            r.body is None,
    {
        ApiRequest {
            method: Method::Get,
            url: String::from_str(url),
            authorization: self.apikey.clone(),
            body: None,
        }
    }
}

} // verus!
