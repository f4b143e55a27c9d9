//! The remote service as the pipeline sees it: the requests it is asked
//! and the data it answers with.

use vstd::prelude::*;
use vstd::string::*;
use crate::error::Error;
use crate::text::str_views;

verus! {

/// `serde_json::Value`, a JSON value of any shape, declared as an opaque
/// type. Nothing is claimed of what such a value holds: the pipeline
/// carries it through as it came.
#[verifier::external_type_specification]
#[verifier::external_body]
pub struct ExJsonValue(serde_json::Value);

/// Address of the operation that resolves an account.
pub const GET_USERS_URL: &'static str = "https://candfans.jp/api/user/get-users";

/// Address of the operation that lists one feed page.
pub const GET_TIMELINE_URL: &'static str = "https://candfans.jp/api/contents/get-timeline";

/// Value of the referer header every request carries.
pub const REFERER: &'static str = "https://candfans.jp/";

/// The method of a request.
#[derive(Debug, Clone, Copy, PartialEq, Eq, Structural)]
pub enum Method {
    Get,
    Post,
    Put,
    Delete,
}

/// One header of a request.
#[derive(Debug, Clone, PartialEq)]
pub struct Header {
    pub name: String,
    pub value: String,
}

/// The value of a query parameter.
#[derive(Debug, Clone, PartialEq)]
pub enum QueryValue {
    Text(String),
    Number(usize),
}

/// One query parameter of a request.
#[derive(Debug, Clone, PartialEq)]
pub struct QueryParam {
    pub name: String,
    pub value: QueryValue,
}

/// A request to the remote service, ready to be sent.
#[derive(Debug, Clone, PartialEq)]
pub struct Request {
    pub method: Method,
    pub url: String,
    pub headers: Vec<Header>,
    pub query: Vec<QueryParam>,
}

/// A query value as mathematical data.
pub enum QueryValueView {
    Text(Seq<char>),
    Number(nat),
}

/// A request as mathematical data.
pub struct RequestView {
    pub method: Method,
    pub url: Seq<char>,
    pub headers: Seq<(Seq<char>, Seq<char>)>,
    pub query: Seq<(Seq<char>, QueryValueView)>,
}

impl View for Header {
    type V = (Seq<char>, Seq<char>);

    open spec fn view(&self) -> (Seq<char>, Seq<char>) {
        (self.name@, self.value@)
    }
}

impl View for QueryValue {
    type V = QueryValueView;

    open spec fn view(&self) -> QueryValueView {
        match self {
            QueryValue::Text(text) => QueryValueView::Text(text@),
            QueryValue::Number(n) => QueryValueView::Number(*n as nat),
        }
    }
}

impl View for QueryParam {
    type V = (Seq<char>, QueryValueView);

    open spec fn view(&self) -> (Seq<char>, QueryValueView) {
        (self.name@, self.value@)
    }
}

impl View for Request {
    type V = RequestView;

    open spec fn view(&self) -> RequestView {
        RequestView {
            method: self.method,
            url: self.url@,
            headers: self.headers@.map_values(|h: Header| h@),
            query: self.query@.map_values(|q: QueryParam| q@),
        }
    }
}

/// The session credentials under which the remote service is asked.
pub struct CandfansClient {
    cookie: String,
    x_xsrf_token: String,
}

impl CandfansClient {
    /// The session cookie.
    pub closed spec fn spec_cookie(&self) -> Seq<char> {
        self.cookie@
    }

    /// The anti-forgery token.
    pub closed spec fn spec_x_xsrf_token(&self) -> Seq<char> {
        self.x_xsrf_token@
    }

    /// The headers that every request of this client carries, in order.
    pub open spec fn spec_headers(&self) -> Seq<(Seq<char>, Seq<char>)> {
        seq![
            ("Cookie"@, self.spec_cookie()),
            ("X-Xsrf-Token"@, self.spec_x_xsrf_token()),
            ("referer"@, REFERER@),
        ]
    }

    /// A client that sends the given credentials.
    pub fn new(cookie: String, x_xsrf_token: String) -> (client: CandfansClient)
        ensures
            client.spec_cookie() == cookie@,
            client.spec_x_xsrf_token() == x_xsrf_token@,
    {
        CandfansClient { cookie, x_xsrf_token }
    }

    /// The request that resolves the account `user_code`.
    pub open spec fn spec_get_user(&self, user_code: Seq<char>) -> RequestView {
        RequestView {
            method: Method::Get,
            url: GET_USERS_URL@,
            headers: self.spec_headers(),
            query: seq![("user_code"@, QueryValueView::Text(user_code))],
        }
    }

    /// The request that lists page `page_idx` of the feed of account
    /// `user_id`.
    pub open spec fn spec_get_post(&self, user_id: nat, page_idx: nat) -> RequestView {
        RequestView {
            method: Method::Get,
            url: GET_TIMELINE_URL@,
            headers: self.spec_headers(),
            query: seq![
                ("user_id"@, QueryValueView::Number(user_id)),
                ("page"@, QueryValueView::Number(page_idx)),
            ],
        }
    }

    /// The headers that every request of this client carries.
    fn headers(&self) -> (headers: Vec<Header>)
        ensures
            headers@.map_values(|h: Header| h@) == self.spec_headers(),
    {
        let mut headers: Vec<Header> = Vec::new();
        headers.push(Header { name: String::from_str("Cookie"), value: self.cookie.clone() });
        headers.push(
            Header { name: String::from_str("X-Xsrf-Token"), value: self.x_xsrf_token.clone() },
        );
        headers.push(Header { name: String::from_str("referer"), value: String::from_str(REFERER) });
        assert(headers@.map_values(|h: Header| h@) =~= self.spec_headers());
        headers
    }

    /// A request to `url` that carries the credentials and the referer, and
    /// no query.
    pub fn request(&self, method: Method, url: &str) -> (request: Request)
        ensures
            request@ == (RequestView {
                method,
                url: url@,
                headers: self.spec_headers(),
                query: Seq::empty(),
            }),
    {
        let request = Request {
            method,
            url: String::from_str(url),
            headers: self.headers(),
            query: Vec::new(),
        };
        assert(request@.query =~= Seq::empty());
        request
    }

    /// The request that resolves the account `user_code`. Its answer is a
    /// `CandifansResponse<GetUserSuccessData>`.
    pub fn get_user(&self, user_code: &str) -> (request: Request)
        ensures
            request@ == self.spec_get_user(user_code@),
    {
        let mut query: Vec<QueryParam> = Vec::new();
        query.push(
            QueryParam {
                name: String::from_str("user_code"),
                value: QueryValue::Text(String::from_str(user_code)),
            },
        );
        let mut request = self.request(Method::Get, GET_USERS_URL);
        request.query = query;
        assert(request@.query =~= self.spec_get_user(user_code@).query);
        request
    }

    /// The request that lists page `page_idx` of the feed of account
    /// `user_id`. Its answer is a `CandifansResponse<Vec<PostData>>`.
    pub fn get_post(&self, user_id: usize, page_idx: usize) -> (request: Request)
        ensures
            request@ == self.spec_get_post(user_id as nat, page_idx as nat),
    {
        let mut query: Vec<QueryParam> = Vec::new();
        query.push(
            QueryParam { name: String::from_str("user_id"), value: QueryValue::Number(user_id) },
        );
        query.push(
            QueryParam { name: String::from_str("page"), value: QueryValue::Number(page_idx) },
        );
        let mut request = self.request(Method::Get, GET_TIMELINE_URL);
        request.query = query;
        assert(request@.query =~= self.spec_get_post(user_id as nat, page_idx as nat).query);
        request
    }
}

/// What the remote service answers: the data asked for, or its error
/// envelope.
#[derive(Debug, PartialEq)]
pub enum CandifansResponse<T> {
    Success { data: T, status: String },
    Failure(ErrorData),
}

impl<T> CandifansResponse<T> {
    /// The answer that a body stands for, given what it yields when read as
    /// a success and when read as an error envelope. The success shape is
    /// tried first; a body of neither shape is no answer.
    pub fn from_shapes(success: Option<(T, String)>, failure: Option<ErrorData>) -> (response:
        Option<CandifansResponse<T>>)
        ensures
            response == match (success, failure) {
                (Some(found), _) => Some(
                    CandifansResponse::Success { data: found.0, status: found.1 },
                ),
                (None, Some(envelope)) => Some(CandifansResponse::Failure(envelope)),
                (None, None) => None::<CandifansResponse<T>>,
            },
    {
        match success {
            Some((data, status)) => Some(CandifansResponse::Success { data, status }),
            None => match failure {
                Some(envelope) => Some(CandifansResponse::Failure(envelope)),
                None => None,
            },
        }
    }

    /// The data of a successful answer; the envelope of an error as a
    /// remote error.
    pub fn to_anyhow_result(self) -> (result: Result<T, Error>)
        ensures
            result == match self {
                CandifansResponse::Success { data, .. } => Ok::<T, Error>(data),
                CandifansResponse::Failure(envelope) => Err::<T, Error>(Error::Remote(envelope)),
            },
    {
        match self {
            CandifansResponse::Success { data, .. } => Ok(data),
            CandifansResponse::Failure(envelope) => Err(Error::Remote(envelope)),
        }
    }
}

/// The error envelope of the remote service.
#[derive(Debug, PartialEq)]
pub struct ErrorData {
    pub code: String,
    pub errors: serde_json::Value,
    pub message: String,
    pub trace: Vec<String>,
}

/// The answer to "get user".
#[derive(Debug, PartialEq)]
pub struct GetUserSuccessData {
    pub plans: Vec<serde_json::Value>,
    pub user: UserData,
}

/// An account as the remote service describes it.
#[derive(Debug, Clone, PartialEq)]
pub struct UserData {
    pub id: usize,
    pub movie_cnt: usize,
    pub post_cnt: usize,
    pub username: String,
    pub user_code: String,
}

/// An access plan attached to a feed entry.
#[derive(Debug, Clone, PartialEq)]
pub struct PlanData {
    pub plan_id: usize,
    pub plan_name: String,
    pub plan_detail: String,
    pub is_joined_plan: bool,
}

/// One feed entry, with its four asset-reference slots.
#[derive(Debug, Clone, PartialEq)]
pub struct PostData {
    pub post_id: usize,
    pub post_type: usize,
    pub user_id: usize,
    pub contents_path1: String,
    pub contents_path2: String,
    pub contents_path3: String,
    pub contents_path4: String,
    pub plans: Vec<PlanData>,
}

impl PostData {
    /// The four slots of the entry, in their declared order.
    pub open spec fn spec_slots(&self) -> Seq<Seq<char>> {
        seq![
            self.contents_path1@,
            self.contents_path2@,
            self.contents_path3@,
            self.contents_path4@,
        ]
    }

    /// The asset references of the entry: its slots that are not empty, in
    /// slot order.
    pub open spec fn spec_paths(&self) -> Seq<Seq<char>> {
        non_empty(self.spec_slots())
    }

    /// The asset references of the entry: its slots that are not empty, in
    /// slot order.
    pub fn paths(&self) -> (paths: Vec<&str>)
        ensures
            str_views(paths@) == self.spec_paths(),
    {
        let mut paths: Vec<&str> = Vec::new();
        if !self.contents_path1.as_str().is_empty() {
            paths.push(self.contents_path1.as_str());
        }
        if !self.contents_path2.as_str().is_empty() {
            paths.push(self.contents_path2.as_str());
        }
        if !self.contents_path3.as_str().is_empty() {
            paths.push(self.contents_path3.as_str());
        }
        if !self.contents_path4.as_str().is_empty() {
            paths.push(self.contents_path4.as_str());
        }
        proof {
            lemma_filter_four(self.spec_slots());
            assert(str_views(paths@) =~= self.spec_paths());
        }
        paths
    }
}

/// The non-empty members of `s`, in order.
pub open spec fn non_empty(s: Seq<Seq<char>>) -> Seq<Seq<char>> {
    s.filter(|slot: Seq<char>| slot.len() > 0)
}

/// Member `i` of `s` alone, or nothing where it is empty.
spec fn kept(s: Seq<Seq<char>>, i: int) -> Seq<Seq<char>> {
    if s[i].len() > 0 {
        seq![s[i]]
    } else {
        Seq::empty()
    }
}

/// Filtering four slots keeps each non-empty one, in order.
proof fn lemma_filter_four(s: Seq<Seq<char>>)
    requires
        s.len() == 4,
    ensures
        non_empty(s) == kept(s, 0) + kept(s, 1) + kept(s, 2) + kept(s, 3),
{
    reveal(Seq::filter);
    let p = |slot: Seq<char>| slot.len() > 0;
    let s3 = s.drop_last();
    let s2 = s3.drop_last();
    let s1 = s2.drop_last();
    let s0 = s1.drop_last();
    assert(s0.len() == 0);
    assert(s0.filter(p) =~= Seq::empty());
    assert(s1.filter(p) =~= kept(s, 0));
    assert(s2.filter(p) =~= kept(s, 0) + kept(s, 1));
    assert(s3.filter(p) =~= kept(s, 0) + kept(s, 1) + kept(s, 2));
    assert(s.filter(p) =~= kept(s, 0) + kept(s, 1) + kept(s, 2) + kept(s, 3));
}

} // verus!
