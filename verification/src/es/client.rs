//! The search-engine client's decisions: the connection settings taken from
//! the configuration, the request bodies, and what each response status
//! means. Sending the requests is done by the application.

use vstd::prelude::*;
use crate::es::EsConfig;
use crate::es::search::{Json, JsonModel, json_model, field_models, lemma_field_models, json_get, model_get, clone_json, opt_model};
use crate::text::to_owned_string;

verus! {

/// The errors of the search-engine client.
#[derive(Debug)]
pub enum EsError {
    Connection(String),
    Index(String),
    Search(String),
    Document(String),
    Serialization(String),
    Client(String),
}

/// The message of each error.
pub open spec fn es_error_text(e: EsError) -> Seq<char> {
    match e {
        EsError::Connection(m) => "连接错误: "@ + m@,
        EsError::Index(m) => "索引错误: "@ + m@,
        EsError::Search(m) => "搜索错误: "@ + m@,
        EsError::Document(m) => "文档错误: "@ + m@,
        EsError::Serialization(m) => "序列化错误: "@ + m@,
        EsError::Client(m) => "ES 客户端错误: "@ + m@,
    }
}

impl EsError {
    /// The error's message.
    pub fn message(&self) -> (r: String)
        ensures
            r@ == es_error_text(*self),
    {
        let (head, m) = match self {
            EsError::Connection(m) => ("连接错误: ", m),
            EsError::Index(m) => ("索引错误: ", m),
            EsError::Search(m) => ("搜索错误: ", m),
            EsError::Document(m) => ("文档错误: ", m),
            EsError::Serialization(m) => ("序列化错误: ", m),
            EsError::Client(m) => ("ES 客户端错误: ", m),
        };
        let mut r = to_owned_string(head);
        r.append(m.as_str());
        r
    }
}

/// What `url::Url::parse` gives for `text`: the serialised URL, or the
/// message of the parse error.
pub uninterp spec fn url_parse(text: Seq<char>) -> Result<Seq<char>, Seq<char>>;

/// Parses with `url::Url::parse`. Trusted: the serialised URL or the error's
/// message, as a function of the text alone.
#[verifier::external_body]
fn parse_url(text: &str) -> (r: Result<String, String>)
    ensures
        match r {
            Ok(u) => url_parse(text@) == Ok::<Seq<char>, Seq<char>>(u@),
            Err(m) => url_parse(text@) == Err::<Seq<char>, Seq<char>>(m@),
        },
{
    match url::Url::parse(text) {
        Ok(u) => Ok(u.as_str().to_string()),
        Err(e) => Err(e.to_string()),
    }
}

/// Where and how to connect: the URL of the first node, and the credentials
/// where both a user name and a password are set.
#[derive(Debug)]
pub struct EsConnection {
    pub url: String,
    pub credentials: Option<(String, String)>,
}

/// The connection settings of `config`: an error where it names no node or
/// its first node is no URL.
pub fn connection_settings(config: &EsConfig) -> (r: Result<EsConnection, EsError>)
    ensures
        config.nodes@.len() == 0 ==> (r matches Err(EsError::Connection(m)) && m@ == "节点地址不能为空"@),
        config.nodes@.len() > 0 ==> match url_parse(config.nodes@[0]@) {
            Err(e) => r matches Err(EsError::Connection(m)) && m@ == "无效的 URL: "@ + e,
            Ok(u) => r matches Ok(c) && c.url@ == u && match (config.username, config.password) {
                (Some(n), Some(p)) => c.credentials matches Some((cn, cp)) && cn@ == n@ && cp@ == p@,
                _ => c.credentials is None,
            },
        },
{
    if config.nodes.len() == 0 {
        return Err(EsError::Connection(to_owned_string("节点地址不能为空")));
    }
    let url = match parse_url(config.nodes[0].as_str()) {
        Ok(u) => u,
        Err(e) => {
            let mut m = to_owned_string("无效的 URL: ");
            m.append(e.as_str());
            return Err(EsError::Connection(m));
        },
    };
    let credentials = match (&config.username, &config.password) {
        (Some(n), Some(p)) => Some((n.clone(), p.clone())),
        _ => None,
    };
    Ok(EsConnection { url, credentials })
}

// ---------------------------------------------------------------- responses

/// Whether an HTTP status is a success (2xx).
pub open spec fn is_success(status: u16) -> bool {
    200 <= status <= 299
}

/// Whether the status of a response is a success.
pub fn status_is_success(status: u16) -> (r: bool)
    ensures
        r == is_success(status),
{
    200 <= status && status <= 299
}

/// The answer to a ping: whether it succeeded.
pub fn ping_result(status: u16) -> (r: bool)
    ensures
        r == is_success(status),
{
    status_is_success(status)
}

/// The outcome of creating the index `index`.
pub fn create_index_result(index: &str, status: u16) -> (r: Result<(), EsError>)
    ensures
        is_success(status) <==> r is Ok,
        r matches Err(e) ==> e matches EsError::Index(m) && m@ == "创建索引失败: "@ + index@,
{
    if status_is_success(status) {
        Ok(())
    } else {
        let mut m = to_owned_string("创建索引失败: ");
        m.append(index);
        Err(EsError::Index(m))
    }
}

/// The outcome of deleting the index `index`.
pub fn delete_index_result(index: &str, status: u16) -> (r: Result<(), EsError>)
    ensures
        is_success(status) <==> r is Ok,
        r matches Err(e) ==> e matches EsError::Index(m) && m@ == "删除索引失败: "@ + index@,
{
    if status_is_success(status) {
        Ok(())
    } else {
        let mut m = to_owned_string("删除索引失败: ");
        m.append(index);
        Err(EsError::Index(m))
    }
}

/// Whether the index exists, from the status of the existence check.
pub fn index_exists_result(status: u16) -> (r: bool)
    ensures
        r == is_success(status),
{
    status_is_success(status)
}

fn document_result(status: u16, message: &str) -> (r: Result<(), EsError>)
    ensures
        is_success(status) <==> r is Ok,
        r matches Err(e) ==> e matches EsError::Document(m) && m@ == message@,
{
    if status_is_success(status) {
        Ok(())
    } else {
        Err(EsError::Document(to_owned_string(message)))
    }
}

/// The outcome of storing a document.
pub fn index_result(status: u16) -> (r: Result<(), EsError>)
    ensures
        is_success(status) <==> r is Ok,
        r matches Err(e) ==> e matches EsError::Document(m) && m@ == "索引文档失败"@,
{
    document_result(status, "索引文档失败")
}

/// The outcome of updating a document.
pub fn update_result(status: u16) -> (r: Result<(), EsError>)
    ensures
        is_success(status) <==> r is Ok,
        r matches Err(e) ==> e matches EsError::Document(m) && m@ == "更新文档失败"@,
{
    document_result(status, "更新文档失败")
}

/// The outcome of deleting a document.
pub fn delete_result(status: u16) -> (r: Result<(), EsError>)
    ensures
        is_success(status) <==> r is Ok,
        r matches Err(e) ==> e matches EsError::Document(m) && m@ == "删除文档失败"@,
{
    document_result(status, "删除文档失败")
}

/// The outcome of a bulk request.
pub fn bulk_result(status: u16) -> (r: Result<(), EsError>)
    ensures
        is_success(status) <==> r is Ok,
        r matches Err(e) ==> e matches EsError::Document(m) && m@ == "批量操作失败"@,
{
    document_result(status, "批量操作失败")
}

/// The document read by a get: none for status 404, an error for another
/// failure, else the `_source` of the response body.
pub fn get_result(status: u16, body: &Json) -> (r: Result<Option<Json>, EsError>)
    ensures
        status == 404 ==> r matches Ok(None),
        status != 404 && !is_success(status) ==> (r matches Err(EsError::Document(m)) && m@ == "获取文档失败"@),
        status != 404 && is_success(status) ==> (r matches Ok(d) && opt_model(d) == model_get(json_model(*body), "_source"@)),
{
    if status == 404 {
        return Ok(None);
    }
    if !status_is_success(status) {
        return Err(EsError::Document(to_owned_string("获取文档失败")));
    }
    match json_get(body, "_source") {
        Some(s) => Ok(Some(clone_json(s))),
        None => Ok(None),
    }
}

/// The response body of a search, where it succeeded.
pub fn search_result(status: u16, body: Json) -> (r: Result<Json, EsError>)
    ensures
        is_success(status) <==> r is Ok,
        r matches Ok(b) ==> b == body,
        r matches Err(e) ==> e matches EsError::Search(m) && m@ == "搜索失败"@,
{
    if status_is_success(status) {
        Ok(body)
    } else {
        Err(EsError::Search(to_owned_string("搜索失败")))
    }
}

/// The outcome of a reindex.
pub fn reindex_result(status: u16) -> (r: Result<(), EsError>)
    ensures
        is_success(status) <==> r is Ok,
        r matches Err(e) ==> e matches EsError::Index(m) && m@ == "重建索引失败"@,
{
    if status_is_success(status) {
        Ok(())
    } else {
        Err(EsError::Index(to_owned_string("重建索引失败")))
    }
}

// ---------------------------------------------------------------- request bodies

fn object2(k1: &str, v1: Json, k2: &str, v2: Json) -> (r: Json)
    ensures
        json_model(r) == JsonModel::Object(seq![(k1@, json_model(v1)), (k2@, json_model(v2))]),
{
    let ghost m1 = json_model(v1);
    let ghost m2 = json_model(v2);
    let mut f: Vec<(String, Json)> = Vec::new();
    f.push((to_owned_string(k1), v1));
    f.push((to_owned_string(k2), v2));
    proof {
        lemma_field_models(f@);
        assert(field_models(f@) =~= seq![(k1@, m1), (k2@, m2)]);
    }
    Json::Object(f)
}

fn object1(k: &str, v: Json) -> (r: Json)
    ensures
        json_model(r) == JsonModel::Object(seq![(k@, json_model(v))]),
{
    let ghost m = json_model(v);
    let mut f: Vec<(String, Json)> = Vec::new();
    f.push((to_owned_string(k), v));
    proof {
        lemma_field_models(f@);
        assert(field_models(f@) =~= seq![(k@, m)]);
    }
    Json::Object(f)
}

/// The body of an update: the partial document under `doc`.
pub fn update_body(body: Json) -> (r: Json)
    ensures
        json_model(r) == JsonModel::Object(seq![("doc"@, json_model(body))]),
{
    object1("doc", body)
}

/// The body that creates an index: its mappings, and its settings where given.
pub fn create_index_body(mappings: Json, settings: Option<Json>) -> (r: Json)
    ensures
        json_model(r) == JsonModel::Object(
            seq![("mappings"@, json_model(mappings))] + match settings {
                Some(s) => seq![("settings"@, json_model(s))],
                None => seq![],
            },
        ),
{
    match settings {
        Some(s) => {
            let ghost mm = json_model(mappings);
            let ghost sm = json_model(s);
            let r = object2("mappings", mappings, "settings", s);
            proof {
                assert(seq![("mappings"@, mm)] + seq![("settings"@, sm)] =~= seq![("mappings"@, mm), ("settings"@, sm)]);
            }
            r
        },
        None => {
            let r = object1("mappings", mappings);
            proof {
                assert(seq![("mappings"@, json_model(mappings))] + Seq::<(Seq<char>, JsonModel)>::empty()
                    =~= seq![("mappings"@, json_model(mappings))]);
            }
            r
        },
    }
}

/// The body that copies the index `source` into `dest`.
pub fn reindex_body(source: &str, dest: &str) -> (r: Json)
    ensures
        json_model(r) == JsonModel::Object(
            seq![
                ("source"@, JsonModel::Object(seq![("index"@, JsonModel::Str(source@))])),
                ("dest"@, JsonModel::Object(seq![("index"@, JsonModel::Str(dest@))])),
            ],
        ),
{
    let a = object1("index", Json::Str(to_owned_string(source)));
    let b = object1("index", Json::Str(to_owned_string(dest)));
    object2("source", a, "dest", b)
}

} // verus!
