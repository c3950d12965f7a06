//! The query client: renders a query template, prepares the request that
//! carries it, and classifies what the service answers. It never retries.

use crate::config::Config;
use crate::http::{
    credential_is_sendable, is_success, sendable, status_is_success, Download, PreparedRequest,
};
use crate::json::{
    document_model, json_parse, json_text, member, model_member, parse_document, quote, unfold,
    JsonModel, JsonNode,
};
use crate::paginator::PaginationCursor;
use crate::record::{all_objects, batch_view, records_of, Record, RecordBatch, RecordView};
use crate::text::{decimal_digits, decimal_text, replace_all, replaced};
use vstd::prelude::*;
use vstd::string::StringExecFns;

verus! {

/// Where a query is posted.
pub const QUERY_URL: &'static str = "https://api.transpose.io/sql";

/// The header that carries the query service's credential.
pub const QUERY_KEY_HEADER: &'static str = "X-API-KEY";

/// A prepared request as mathematics.
pub struct PreparedView {
    pub url: Seq<char>,
    pub key_header: Seq<char>,
    pub api_key: Seq<char>,
    pub body: Seq<char>,
}

impl View for PreparedRequest {
    type V = PreparedView;

    open spec fn view(&self) -> PreparedView {
        PreparedView {
            url: self.url@,
            key_header: self.key_header@,
            api_key: self.api_key@,
            body: self.body@,
        }
    }
}

/// The view of a request that may have been refused.
pub open spec fn prepared_view<E>(r: Result<PreparedRequest, E>) -> Result<PreparedView, E> {
    match r {
        Ok(p) => Ok(p@),
        Err(e) => Err(e),
    }
}

/// Why a query brought no records.
#[derive(Debug, Clone, PartialEq, Eq)]
pub enum QueryError {
    /// The credential is missing or cannot be sent. Fatal: do not retry.
    Unauthenticated,
    /// The service answered with a status outside 200..=299.
    RemoteRejected { status: u16, body: String },
    /// The answer does not hold the expected list of records; the raw
    /// payload is kept for diagnosis.
    MalformedResponse { payload: String },
    /// The service could not be reached.
    Transport,
}

/// A query error as mathematics.
pub enum QueryErrorView {
    Unauthenticated,
    RemoteRejected { status: u16, body: Seq<char> },
    MalformedResponse { payload: Seq<char> },
    Transport,
}

impl View for QueryError {
    type V = QueryErrorView;

    open spec fn view(&self) -> QueryErrorView {
        match self {
            QueryError::Unauthenticated => QueryErrorView::Unauthenticated,
            QueryError::RemoteRejected { status, body } => QueryErrorView::RemoteRejected {
                status: *status,
                body: body@,
            },
            QueryError::MalformedResponse { payload } => QueryErrorView::MalformedResponse {
                payload: payload@,
            },
            QueryError::Transport => QueryErrorView::Transport,
        }
    }
}

impl QueryError {
    /// A copy of this error.
    pub fn duplicate(&self) -> (copy: QueryError)
        ensures
            copy@ == self@,
    {
        match self {
            QueryError::Unauthenticated => QueryError::Unauthenticated,
            QueryError::RemoteRejected { status, body } => QueryError::RemoteRejected {
                status: *status,
                body: body.clone(),
            },
            QueryError::MalformedResponse { payload } => QueryError::MalformedResponse {
                payload: payload.clone(),
            },
            QueryError::Transport => QueryError::Transport,
        }
    }
}

/// A query template with the values for its named placeholders. A
/// placeholder called `name` is written `{{name}}` in the template.
#[derive(Debug, Clone, PartialEq, Eq)]
pub struct QueryRequest {
    pub template: String,
    pub params: Vec<(String, String)>,
}

/// The names and values of a parameter list.
pub open spec fn params_view(params: Seq<(String, String)>) -> Seq<(Seq<char>, Seq<char>)> {
    Seq::new(params.len(), |i: int| (params[i].0@, params[i].1@))
}

/// How the placeholder called `name` is written in a template.
pub open spec fn placeholder(name: Seq<char>) -> Seq<char> {
    "{{"@ + name + "}}"@
}

/// The query text of a template: each parameter in turn, in list order, has
/// every occurrence of its placeholder replaced by its value, as literal
/// text.
pub open spec fn rendered(template: Seq<char>, params: Seq<(Seq<char>, Seq<char>)>) -> Seq<char>
    decreases params.len(),
{
    if params.len() == 0 {
        template
    } else {
        rendered(
            replaced(template, placeholder(params[0].0), params[0].1),
            params.drop_first(),
        )
    }
}

/// The body that carries a query.
pub open spec fn query_body(query: Seq<char>) -> Seq<char> {
    "{\"query\":"@ + json_text(JsonModel::Text(query)) + "}"@
}

/// What preparing a query leads to: the request where the credential is
/// there and can be sent, `Unauthenticated` where it is not.
pub open spec fn prepared_query(key: Option<Seq<char>>, query: Seq<char>) -> Result<
    PreparedView,
    QueryErrorView,
> {
    match key {
        Some(k) => if sendable(k) {
            Ok(
                PreparedView {
                    url: QUERY_URL@,
                    key_header: QUERY_KEY_HEADER@,
                    api_key: k,
                    body: query_body(query),
                },
            )
        } else {
            Err(QueryErrorView::Unauthenticated)
        },
        None => Err(QueryErrorView::Unauthenticated),
    }
}

/// What an answer of the query service means. A status outside 200..=299
/// is a rejection with the status and the body. Otherwise the body must be
/// a document whose `results` member is an array of objects: these are the
/// records. Anything else is malformed, an array with an element that is no
/// object included, and the raw body is kept.
pub open spec fn interpreted(status: u16, body: Seq<char>, document: Option<JsonModel>) -> Result<
    Seq<RecordView>,
    QueryErrorView,
> {
    if !status_is_success(status) {
        Err(QueryErrorView::RemoteRejected { status, body })
    } else {
        match document {
            Some(d) => match model_member(d, "results"@) {
                Some(JsonModel::Array(items)) => if all_objects(items) {
                    Ok(records_of(items))
                } else {
                    Err(QueryErrorView::MalformedResponse { payload: body })
                },
                _ => Err(QueryErrorView::MalformedResponse { payload: body }),
            },
            None => Err(QueryErrorView::MalformedResponse { payload: body }),
        }
    }
}

/// What came back from the query service means: an answer is classified by
/// its status and body, and no answer at all is a transport failure.
pub open spec fn interpreted_download(response: Download<String>) -> Result<
    Seq<RecordView>,
    QueryErrorView,
> {
    match response {
        Download::Received { status, body } => interpreted(status, body@, json_parse(body@)),
        Download::Unreachable => Err(QueryErrorView::Transport),
    }
}

/// The view of a request or the error in its place.
pub open spec fn request_view(r: Result<PreparedRequest, QueryError>) -> Result<
    PreparedView,
    QueryErrorView,
> {
    match r {
        Ok(p) => Ok(p@),
        Err(e) => Err(e@),
    }
}

/// The view of a batch or the error in its place.
pub open spec fn answer_view(r: Result<RecordBatch, QueryError>) -> Result<
    Seq<RecordView>,
    QueryErrorView,
> {
    match r {
        Ok(b) => Ok(batch_view(b@)),
        Err(e) => Err(e@),
    }
}

impl QueryRequest {
    /// The query text: the template with every placeholder replaced by its
    /// value.
    pub fn render(&self) -> (query: String)
        ensures
            query@ == rendered(self.template@, params_view(self.params@)),
    {
        render_template(self.template.as_str(), &self.params)
    }
}

/// The query text of `template` under `params`.
pub fn render_template(template: &str, params: &Vec<(String, String)>) -> (query: String)
    ensures
        query@ == rendered(template@, params_view(params@)),
{
    let ghost all = params_view(params@);
    let mut query = template.to_owned();
    let mut i: usize = 0;
    assert(all.skip(0) =~= all);
    while i < params.len()
        invariant
            i <= params.len(),
            all == params_view(params@),
            rendered(query@, all.skip(i as int)) == rendered(template@, all),
        decreases params.len() - i,
    {
        assert(all.skip(i as int)[0] == all[i as int]);
        assert(all.skip(i as int).drop_first() =~= all.skip(i + 1));
        let mut pattern = String::from_str("{{");
        pattern.append(params[i].0.as_str());
        pattern.append("}}");
        query = replace_all(query.as_str(), pattern.as_str(), params[i].1.as_str());
        i += 1;
    }
    query
}

/// The client of the query service: one credential, one endpoint.
pub struct QueryClient {
    api_key: Option<String>,
}

impl QueryClient {
    /// The credential that the client sends, if it has one.
    pub closed spec fn key(&self) -> Option<Seq<char>> {
        match self.api_key {
            Some(k) => Some(k@),
            None => None,
        }
    }

    /// A client that uses the query credential of `config`.
    pub fn new(config: &Config) -> (client: QueryClient)
        ensures
            client.key() == config@.transpose_api_key,
    {
        QueryClient { api_key: config.transpose_api_key() }
    }

    /// Prepares the request that carries `query_text`.
    pub fn prepare(&self, query_text: &str) -> (r: Result<PreparedRequest, QueryError>)
        ensures
            request_view(r) == prepared_query(self.key(), query_text@),
    {
        match &self.api_key {
            Some(key) => {
                if !credential_is_sendable(key.as_str()) {
                    return Err(QueryError::Unauthenticated);
                }
                let mut body = String::from_str("{\"query\":");
                body.append(quote(query_text).as_str());
                body.append("}");
                Ok(
                    PreparedRequest {
                        url: String::from_str(QUERY_URL),
                        key_header: String::from_str(QUERY_KEY_HEADER),
                        api_key: key.clone(),
                        body,
                    },
                )
            },
            None => Err(QueryError::Unauthenticated),
        }
    }

    /// Classifies an answer, given the document that its body parsed to.
    pub fn interpret_document(status: u16, body: &str, document: Option<serde_json::Value>) -> (r:
        Result<RecordBatch, QueryError>)
        ensures
            answer_view(r) == interpreted(status, body@, document_model(document)),
    {
        if !is_success(status) {
            return Err(QueryError::RemoteRejected { status, body: body.to_owned() });
        }
        match document {
            Some(d) => match member(&d, "results") {
                Some(results) => match unfold(results) {
                    JsonNode::Array(items) => match Record::batch_from_documents(items) {
                        Some(batch) => Ok(batch),
                        None => Err(QueryError::MalformedResponse { payload: body.to_owned() }),
                    },
                    _ => Err(QueryError::MalformedResponse { payload: body.to_owned() }),
                },
                None => Err(QueryError::MalformedResponse { payload: body.to_owned() }),
            },
            None => Err(QueryError::MalformedResponse { payload: body.to_owned() }),
        }
    }

    /// Classifies an answer of the query service. The records are the
    /// objects of the `results` array; an array that holds anything but
    /// objects is no list of records, and the answer is malformed.
    pub fn interpret(status: u16, body: &str) -> (r: Result<RecordBatch, QueryError>)
        ensures
            answer_view(r) == interpreted(status, body@, json_parse(body@)),
    {
        QueryClient::interpret_document(status, body, parse_document(body))
    }

    /// Classifies what came back from the query service: an answer as
    /// `interpret` does, and a service that could not be reached as a
    /// transport failure. Nothing is retried.
    pub fn interpret_download(response: Download<String>) -> (r: Result<RecordBatch, QueryError>)
        ensures
            answer_view(r) == interpreted_download(response),
    {
        match response {
            Download::Received { status, body } => QueryClient::interpret(status, body.as_str()),
            Download::Unreachable => Err(QueryError::Transport),
        }
    }
}

/// Prepares the query that `sql_query` becomes under `params`, under the
/// credential of `config`.
pub fn query_transpose(config: &Config, sql_query: &str, params: &Vec<(String, String)>) -> (r:
    Result<PreparedRequest, QueryError>)
    ensures
        request_view(r) == prepared_query(
            config@.transpose_api_key,
            rendered(sql_query@, params_view(params@)),
        ),
{
    let query = render_template(sql_query, params);
    QueryClient::new(config).prepare(query.as_str())
}

/// The parameters of an account query.
pub open spec fn account_params(address: Seq<char>) -> Seq<(Seq<char>, Seq<char>)> {
    seq![("address"@, address)]
}

/// Prepares the account query of `address` from its template.
pub fn query_ethereum_account(config: &Config, sql_query: &str, address: &str) -> (r: Result<
    PreparedRequest,
    QueryError,
>)
    ensures
        request_view(r) == prepared_query(
            config@.transpose_api_key,
            rendered(sql_query@, account_params(address@)),
        ),
{
    let mut params: Vec<(String, String)> = Vec::new();
    params.push((String::from_str("address"), address.to_owned()));
    assert(params_view(params@) =~= account_params(address@));
    query_transpose(config, sql_query, &params)
}

/// The parameters of one page: the fixed ones, then the limit and the
/// offset in decimal notation.
pub open spec fn with_page(fixed: Seq<(Seq<char>, Seq<char>)>, offset: u64, limit: u64) -> Seq<
    (Seq<char>, Seq<char>),
> {
    fixed.push(("limit"@, decimal_digits(limit as nat))).push(
        ("offset"@, decimal_digits(offset as nat)),
    )
}

/// Prepares the page of a query that `cursor` points at: the template is
/// rendered under the fixed parameters and the cursor's limit and offset.
pub fn query_page(
    config: &Config,
    sql_query: &str,
    fixed_params: &Vec<(String, String)>,
    cursor: &PaginationCursor,
) -> (r: Result<PreparedRequest, QueryError>)
    ensures
        request_view(r) == prepared_query(
            config@.transpose_api_key,
            rendered(sql_query@, with_page(params_view(fixed_params@), cursor.offset, cursor.limit)),
        ),
{
    let mut params: Vec<(String, String)> = Vec::new();
    let mut i: usize = 0;
    while i < fixed_params.len()
        invariant
            i <= fixed_params.len(),
            params@.len() == i,
            forall|j: int|
                0 <= j < i ==> (#[trigger] params@[j]).0@ == fixed_params@[j].0@ && params@[j].1@
                    == fixed_params@[j].1@,
        decreases fixed_params.len() - i,
    {
        params.push((fixed_params[i].0.clone(), fixed_params[i].1.clone()));
        i += 1;
    }
    params.push((String::from_str("limit"), decimal_text(cursor.limit)));
    params.push((String::from_str("offset"), decimal_text(cursor.offset)));
    assert(params_view(params@) =~= with_page(
        params_view(fixed_params@),
        cursor.offset,
        cursor.limit,
    ));
    query_transpose(config, sql_query, &params)
}

/// The fixed parameters of a transaction query.
pub open spec fn wallet_params(address: Seq<char>) -> Seq<(Seq<char>, Seq<char>)> {
    seq![("wallet_address"@, address)]
}

/// Prepares one page of the transaction query of `address` from its
/// template: `cursor.limit` records from `cursor.offset` on.
pub fn query_ethereum_transactions(
    config: &Config,
    sql_query: &str,
    address: &str,
    cursor: &PaginationCursor,
) -> (r: Result<PreparedRequest, QueryError>)
    ensures
        request_view(r) == prepared_query(
            config@.transpose_api_key,
            rendered(sql_query@, with_page(wallet_params(address@), cursor.offset, cursor.limit)),
        ),
{
    let mut fixed: Vec<(String, String)> = Vec::new();
    fixed.push((String::from_str("wallet_address"), address.to_owned()));
    assert(params_view(fixed@) =~= wallet_params(address@));
    query_page(config, sql_query, &fixed, cursor)
}

} // verus!
