//! The Cloudflare D1 store: the requests it sends to a D1 execute endpoint
//! (a SQLite statement, its parameters, and whether one row, all rows or
//! only the change count comes back) and how it reads the rows returned.

use vstd::prelude::*;
use crate::keys::{KeyView, ResourceKey, ResourceList};
use crate::kv::sqlite::{
    compare_and_swap_query, create_table_statement, delete_query, get_query,
    list_entries_page_query, list_entries_query, list_keys_page_query, list_keys_query, set_query,
    sqlite_compare_and_swap_text, sqlite_create_table_text, sqlite_delete_text, sqlite_get_text,
    sqlite_list_entries_page_text, sqlite_list_entries_query_text, sqlite_list_keys_page_text,
    sqlite_list_keys_query_text, sqlite_set_text,
};
use crate::text::{owned, push_str, str_eq};
use base64::Engine;

verus! {

/// The table the D1 store keeps its rows in.
pub const D1_TABLE: &'static str = "talon_kv_store";

/// What a base64 text (standard alphabet, with padding) stands for.
pub uninterp spec fn base64_text(bytes: Seq<u8>) -> Seq<char>;

/// The bytes a text reads as in base64 (standard alphabet, with padding),
/// if it is base64.
pub uninterp spec fn base64_bytes(text: Seq<char>) -> Option<Seq<u8>>;

/// `base64::engine::general_purpose::STANDARD.encode`: the base64 text of
/// the bytes, which the same engine reads back as those bytes.
#[verifier::external_body]
fn base64_encode(bytes: &[u8]) -> (r: String)
    requires
        bytes@.len() <= isize::MAX,
    ensures
        r@ == base64_text(bytes@),
        base64_bytes(r@) == Some(bytes@),
{
    base64::engine::general_purpose::STANDARD.encode(bytes)
}

/// `base64::engine::general_purpose::STANDARD.decode`: the bytes the text
/// stands for, or the text of the error it reports.
#[verifier::external_body]
fn base64_decode(text: &str) -> (r: Result<Vec<u8>, String>)
    ensures
        match r {
            Ok(b) => base64_bytes(text@) == Some(b@),
            Err(_) => base64_bytes(text@) is None,
        },
{
    base64::engine::general_purpose::STANDARD.decode(text).map_err(|e| e.to_string())
}

/// What a D1 request asks to get back.
#[derive(Clone, Copy, Debug, PartialEq, Eq, Structural)]
pub enum D1Mode {
    /// Only the effects (`meta.changes`).
    Run,
    /// Every row.
    All,
    /// The first row, if any.
    First,
}

/// A parameter of a D1 statement.
#[derive(Clone, Debug)]
pub enum D1Param {
    Null,
    Text { value: String },
    /// A number; D1 takes it as a floating-point number.
    Integer { value: i64 },
    /// Bytes, as their base64 text.
    Bytes { value_base64: String },
}

/// A statement for the D1 execute endpoint.
#[derive(Clone, Debug)]
pub struct D1Request {
    pub mode: D1Mode,
    pub sql: String,
    pub params: Vec<D1Param>,
}

/// A parameter as plain values.
pub enum ParamView {
    Null,
    Text(Seq<char>),
    Integer(i64),
    Bytes(Seq<u8>),
}

/// The plain value of a parameter: bytes by what their text reads as.
pub open spec fn param_view(p: D1Param) -> ParamView {
    match p {
        D1Param::Null => ParamView::Null,
        D1Param::Text { value } => ParamView::Text(value@),
        D1Param::Integer { value } => ParamView::Integer(value),
        D1Param::Bytes { value_base64 } => match base64_bytes(value_base64@) {
            Some(b) => ParamView::Bytes(b),
            None => ParamView::Null,
        },
    }
}

/// The plain values of parameters.
pub open spec fn params_view(ps: Seq<D1Param>) -> Seq<ParamView> {
    ps.map_values(|p: D1Param| param_view(p))
}

/// The parameters that name a key: namespace, parent path, kind, name.
pub open spec fn key_params_view(k: KeyView) -> Seq<ParamView> {
    seq![
        ParamView::Text(k.namespace),
        ParamView::Text(k.parent_path),
        ParamView::Text(k.kind),
        ParamView::Text(k.name),
    ]
}

fn text_param(s: &str) -> (p: D1Param)
    ensures
        param_view(p) == ParamView::Text(s@),
{
    D1Param::Text { value: owned(s) }
}

fn bytes_param(b: &[u8]) -> (p: D1Param)
    requires
        b@.len() <= isize::MAX,
    ensures
        param_view(p) == ParamView::Bytes(b@),
{
    D1Param::Bytes { value_base64: base64_encode(b) }
}

/// The parameters that name a key.
pub fn key_params(key: &ResourceKey) -> (r: Vec<D1Param>)
    ensures
        params_view(r@) == key_params_view(key@),
{
    let mut r: Vec<D1Param> = Vec::new();
    r.push(text_param(key.namespace.as_str()));
    r.push(text_param(key.parent_path.as_str()));
    r.push(text_param(key.kind.as_str()));
    r.push(text_param(key.name.as_str()));
    assert(params_view(r@) =~= key_params_view(key@));
    r
}

/// The parameters that name a parent: namespace and parent path.
pub fn list_params(list: &ResourceList) -> (r: Vec<D1Param>)
    ensures
        params_view(r@) == seq![ParamView::Text(list.parent.namespace@), ParamView::Text(list.parent.parent_path@)],
{
    let mut r: Vec<D1Param> = Vec::new();
    r.push(text_param(list.parent.namespace.as_str()));
    r.push(text_param(list.parent.parent_path.as_str()));
    assert(params_view(r@) =~= seq![
        ParamView::Text(list.parent.namespace@),
        ParamView::Text(list.parent.parent_path@),
    ]);
    r
}

fn push_param(ps: &mut Vec<D1Param>, p: D1Param)
    ensures
        params_view(final(ps)@) == params_view(old(ps)@).push(param_view(p)),
{
    let ghost before = ps@;
    ps.push(p);
    assert(params_view(ps@) =~= params_view(before).push(param_view(p)));
}

/// The request that creates the store table.
pub fn d1_init_request() -> (r: D1Request)
    ensures
        r.mode == D1Mode::Run,
        r.sql@ == sqlite_create_table_text(D1_TABLE@),
        r.params@.len() == 0,
{
    D1Request { mode: D1Mode::Run, sql: create_table_statement(D1_TABLE), params: Vec::new() }
}

/// The request that reads one value.
pub fn d1_get_request(key: &ResourceKey) -> (r: D1Request)
    ensures
        r.mode == D1Mode::First,
        r.sql@ == sqlite_get_text(D1_TABLE@),
        params_view(r.params@) == key_params_view(key@),
{
    D1Request { mode: D1Mode::First, sql: get_query(D1_TABLE), params: key_params(key) }
}

/// The request that writes one value.
pub fn d1_set_request(key: &ResourceKey, value: &[u8]) -> (r: D1Request)
    requires
        value@.len() <= isize::MAX,
    ensures
        r.mode == D1Mode::Run,
        r.sql@ == sqlite_set_text(D1_TABLE@),
        params_view(r.params@) == key_params_view(key@).push(ParamView::Bytes(value@)),
{
    let mut params = key_params(key);
    push_param(&mut params, bytes_param(value));
    D1Request { mode: D1Mode::Run, sql: set_query(D1_TABLE), params }
}

/// The request that writes a value only over the expected one (or none).
pub fn d1_compare_and_swap_request(key: &ResourceKey, expected: Option<&[u8]>, value: &[u8]) -> (r: D1Request)
    requires
        value@.len() <= isize::MAX,
        expected matches Some(e) ==> e@.len() <= isize::MAX,
    ensures
        r.mode == D1Mode::Run,
        r.sql@ == sqlite_compare_and_swap_text(D1_TABLE@, expected is Some),
        params_view(r.params@) == match expected {
            Some(e) => key_params_view(key@).push(ParamView::Bytes(value@)).push(ParamView::Bytes(e@)),
            None => key_params_view(key@).push(ParamView::Bytes(value@)),
        },
{
    let mut params = key_params(key);
    push_param(&mut params, bytes_param(value));
    if let Some(e) = expected {
        push_param(&mut params, bytes_param(e));
    }
    D1Request {
        mode: D1Mode::Run,
        sql: compare_and_swap_query(D1_TABLE, expected.is_some()),
        params,
    }
}

/// Whether a compare-and-swap wrote: it changed exactly one row.
pub fn d1_swap_succeeded(changes: Option<u64>) -> (r: bool)
    ensures
        r == (changes == Some(1u64)),
{
    match changes {
        Some(n) => n == 1,
        None => false,
    }
}

/// The request that deletes one value.
pub fn d1_delete_request(key: &ResourceKey) -> (r: D1Request)
    ensures
        r.mode == D1Mode::Run,
        r.sql@ == sqlite_delete_text(D1_TABLE@),
        params_view(r.params@) == key_params_view(key@),
{
    D1Request { mode: D1Mode::Run, sql: delete_query(D1_TABLE), params: key_params(key) }
}

/// The parameters of a listing: the parent, then the kind if there is one.
pub open spec fn list_params_view(list: ResourceList) -> Seq<ParamView> {
    let base = seq![ParamView::Text(list.parent.namespace@), ParamView::Text(list.parent.parent_path@)];
    match list.kind {
        Some(k) => base.push(ParamView::Text(k@)),
        None => base,
    }
}

fn list_params_with_kind(list: &ResourceList) -> (r: Vec<D1Param>)
    ensures
        params_view(r@) == list_params_view(*list),
{
    let mut params = list_params(list);
    if let Some(kind) = &list.kind {
        push_param(&mut params, text_param(kind.as_str()));
    }
    params
}

/// The request that lists the keys of direct children.
pub fn d1_list_keys_request(list: &ResourceList) -> (r: D1Request)
    ensures
        r.mode == D1Mode::All,
        r.sql@ == sqlite_list_keys_query_text(D1_TABLE@, list.kind is Some),
        params_view(r.params@) == list_params_view(*list),
{
    D1Request {
        mode: D1Mode::All,
        sql: list_keys_query(D1_TABLE, list.kind.is_some()),
        params: list_params_with_kind(list),
    }
}

/// The request that lists the keys and values of direct children.
pub fn d1_list_entries_request(list: &ResourceList) -> (r: D1Request)
    ensures
        r.mode == D1Mode::All,
        r.sql@ == sqlite_list_entries_query_text(D1_TABLE@, list.kind is Some),
        params_view(r.params@) == list_params_view(*list),
{
    D1Request {
        mode: D1Mode::All,
        sql: list_entries_query(D1_TABLE, list.kind.is_some()),
        params: list_params_with_kind(list),
    }
}

/// What is wrong with a D1 request or the rows it got back.
#[derive(Clone, Debug)]
pub enum D1Error {
    /// A page of keys asked without a kind.
    KeysPageNeedsKind,
    /// A page of entries asked without a kind.
    EntriesPageNeedsKind,
    /// A page size that a D1 number cannot carry.
    LimitTooLarge,
    /// A column that holds null.
    NullColumn { column: String },
    /// A text column that holds bytes.
    BytesColumn { column: String },
    /// A bytes column that holds a number or a flag.
    NotBytes { column: String },
    /// A row without the column.
    MissingColumn { column: String },
    /// Bytes whose base64 text does not read; the decoder's own words.
    BadBase64 { detail: String },
}

/// The description of a D1 error.
pub open spec fn d1_error_text(e: D1Error) -> Seq<char> {
    match e {
        D1Error::KeysPageNeedsKind => "d1 list_keys_page requires a resource kind"@,
        D1Error::EntriesPageNeedsKind => "d1 list_entries_page requires a resource kind"@,
        D1Error::LimitTooLarge => "out of range integral type conversion attempted"@,
        D1Error::NullColumn { column } => "Cloudflare D1 column "@ + column@ + " was null"@,
        D1Error::BytesColumn { column } => "Cloudflare D1 column "@ + column@ + " was bytes"@,
        D1Error::NotBytes { column } => "Cloudflare D1 column "@ + column@ + " was not bytes"@,
        D1Error::MissingColumn { column } => "Cloudflare D1 row missing column "@ + column@,
        D1Error::BadBase64 { detail } => detail@,
    }
}

impl D1Error {
    /// A description of the error.
    pub fn message(&self) -> (r: String)
        ensures
            r@ == d1_error_text(*self),
    {
        let mut m = String::new();
        match self {
            D1Error::KeysPageNeedsKind => {
                push_str(&mut m, "d1 list_keys_page requires a resource kind");
            },
            D1Error::EntriesPageNeedsKind => {
                push_str(&mut m, "d1 list_entries_page requires a resource kind");
            },
            D1Error::LimitTooLarge => {
                push_str(&mut m, "out of range integral type conversion attempted");
            },
            D1Error::NullColumn { column } => {
                push_str(&mut m, "Cloudflare D1 column ");
                push_str(&mut m, column.as_str());
                push_str(&mut m, " was null");
            },
            D1Error::BytesColumn { column } => {
                push_str(&mut m, "Cloudflare D1 column ");
                push_str(&mut m, column.as_str());
                push_str(&mut m, " was bytes");
            },
            D1Error::NotBytes { column } => {
                push_str(&mut m, "Cloudflare D1 column ");
                push_str(&mut m, column.as_str());
                push_str(&mut m, " was not bytes");
            },
            D1Error::MissingColumn { column } => {
                push_str(&mut m, "Cloudflare D1 row missing column ");
                push_str(&mut m, column.as_str());
            },
            D1Error::BadBase64 { detail } => {
                push_str(&mut m, detail.as_str());
            },
        }
        m
    }
}

/// The parameters of a page: parent, kind, the cursor (or null) and the
/// page size.
pub open spec fn page_params_view(list: ResourceList, before_name: Option<Seq<char>>, limit: int) -> Seq<ParamView> {
    seq![
        ParamView::Text(list.parent.namespace@),
        ParamView::Text(list.parent.parent_path@),
        ParamView::Text(list.kind->0@),
        match before_name {
            Some(b) => ParamView::Text(b),
            None => ParamView::Null,
        },
        ParamView::Integer(limit as i64),
    ]
}

fn page_params(list: &ResourceList, kind: &String, before_name: Option<&str>, limit: usize) -> (r: Result<Vec<D1Param>, D1Error>)
    requires
        list.kind == Some(*kind),
    ensures
        match r {
            Ok(ps) => limit <= i64::MAX && params_view(ps@) == page_params_view(
                *list,
                match before_name {
                    Some(b) => Some(b@),
                    None => None,
                },
                limit as int,
            ),
            Err(e) => limit > i64::MAX && e is LimitTooLarge,
        },
{
    let mut params = list_params(list);
    push_param(&mut params, text_param(kind.as_str()));
    match before_name {
        Some(b) => push_param(&mut params, text_param(b)),
        None => push_param(&mut params, D1Param::Null),
    }
    if limit as u128 > 9223372036854775807u128 {
        return Err(D1Error::LimitTooLarge);
    }
    push_param(&mut params, D1Param::Integer { value: limit as i64 });
    assert(params_view(params@) =~= page_params_view(
        *list,
        match before_name {
            Some(b) => Some(b@),
            None => None,
        },
        limit as int,
    ));
    Ok(params)
}

/// The request for one page of child keys, last name first: nothing to
/// ask for an empty page; a page needs a kind.
pub fn d1_list_keys_page_request(list: &ResourceList, before_name: Option<&str>, limit: usize) -> (r: Result<Option<D1Request>, D1Error>)
    ensures
        limit == 0 ==> r matches Ok(None),
        limit > 0 && list.kind is None ==> r matches Err(D1Error::KeysPageNeedsKind),
        limit > 0 && list.kind is Some && limit > i64::MAX ==> r matches Err(D1Error::LimitTooLarge),
        limit > 0 && list.kind is Some && limit <= i64::MAX ==> (r matches Ok(Some(q)) && q.mode
            == D1Mode::All && q.sql@ == sqlite_list_keys_page_text(D1_TABLE@) && params_view(q.params@)
            == page_params_view(
            *list,
            match before_name {
                Some(b) => Some(b@),
                None => None,
            },
            limit as int,
        )),
{
    if limit == 0 {
        return Ok(None);
    }
    let kind = match &list.kind {
        Some(k) => k,
        None => {
            return Err(D1Error::KeysPageNeedsKind);
        },
    };
    let params = page_params(list, kind, before_name, limit)?;
    Ok(Some(D1Request { mode: D1Mode::All, sql: list_keys_page_query(D1_TABLE), params }))
}

/// The request for one page of child entries, last name first: nothing to
/// ask for an empty page; a page needs a kind.
pub fn d1_list_entries_page_request(list: &ResourceList, before_name: Option<&str>, limit: usize) -> (r: Result<Option<D1Request>, D1Error>)
    ensures
        limit == 0 ==> r matches Ok(None),
        limit > 0 && list.kind is None ==> r matches Err(D1Error::EntriesPageNeedsKind),
        limit > 0 && list.kind is Some && limit > i64::MAX ==> r matches Err(D1Error::LimitTooLarge),
        limit > 0 && list.kind is Some && limit <= i64::MAX ==> (r matches Ok(Some(q)) && q.mode
            == D1Mode::All && q.sql@ == sqlite_list_entries_page_text(D1_TABLE@) && params_view(
            q.params@,
        ) == page_params_view(
            *list,
            match before_name {
                Some(b) => Some(b@),
                None => None,
            },
            limit as int,
        )),
{
    if limit == 0 {
        return Ok(None);
    }
    let kind = match &list.kind {
        Some(k) => k,
        None => {
            return Err(D1Error::EntriesPageNeedsKind);
        },
    };
    let params = page_params(list, kind, before_name, limit)?;
    Ok(Some(D1Request { mode: D1Mode::All, sql: list_entries_page_query(D1_TABLE), params }))
}

/// A cell of a row D1 returns.
#[derive(Clone, Debug)]
pub enum D1Cell {
    Null,
    Text { value: String },
    /// A number, as the text it is written with.
    Number { text: String },
    Bool { value: bool },
    Bytes { value_base64: String },
}

/// The cell of the first entry named `column`.
pub open spec fn row_cell(row: Seq<(String, D1Cell)>, column: Seq<char>) -> Option<D1Cell>
    decreases row.len(),
{
    if row.len() == 0 {
        None
    } else if row[0].0@ == column {
        Some(row[0].1)
    } else {
        row_cell(row.drop_first(), column)
    }
}

fn find_cell<'a>(row: &'a Vec<(String, D1Cell)>, column: &str) -> (r: Option<&'a D1Cell>)
    ensures
        match r {
            Some(c) => row_cell(row@, column@) == Some(*c),
            None => row_cell(row@, column@) is None,
        },
{
    let mut i: usize = 0;
    assert(row@.skip(0) =~= row@);
    while i < row.len()
        invariant
            i <= row.len(),
            row_cell(row@, column@) == row_cell(row@.skip(i as int), column@),
        decreases row.len() - i,
    {
        assert(row@.skip(i as int).drop_first() =~= row@.skip(i + 1));
        assert(row@.skip(i as int)[0] == row@[i as int]);
        if str_eq(row[i].0.as_str(), column) {
            return Some(&row[i].1);
        }
        i += 1;
    }
    None
}

/// What a text column reads as: its text, a number's text or a flag's
/// word; null, bytes and a missing column are errors.
pub open spec fn cell_text(row: Seq<(String, D1Cell)>, column: Seq<char>) -> Option<Seq<char>> {
    match row_cell(row, column) {
        Some(D1Cell::Text { value }) => Some(value@),
        Some(D1Cell::Number { text }) => Some(text@),
        Some(D1Cell::Bool { value }) => Some(
            if value {
                "true"@
            } else {
                "false"@
            },
        ),
        _ => None,
    }
}

/// A text column of a row.
pub fn cell_string(row: &Vec<(String, D1Cell)>, column: &str) -> (r: Result<String, D1Error>)
    ensures
        match r {
            Ok(s) => cell_text(row@, column@) == Some(s@),
            Err(e) => cell_text(row@, column@) is None && match row_cell(row@, column@) {
                Some(D1Cell::Null) => e matches D1Error::NullColumn { column: c } && c@ == column@,
                Some(D1Cell::Bytes { .. }) => e matches D1Error::BytesColumn { column: c } && c@ == column@,
                None => e matches D1Error::MissingColumn { column: c } && c@ == column@,
                _ => false,
            },
        },
{
    match find_cell(row, column) {
        Some(D1Cell::Text { value }) => Ok(owned(value.as_str())),
        Some(D1Cell::Number { text }) => Ok(owned(text.as_str())),
        Some(D1Cell::Bool { value }) => Ok(
            if *value {
                owned("true")
            } else {
                owned("false")
            },
        ),
        Some(D1Cell::Null) => Err(D1Error::NullColumn { column: owned(column) }),
        Some(D1Cell::Bytes { .. }) => Err(D1Error::BytesColumn { column: owned(column) }),
        None => Err(D1Error::MissingColumn { column: owned(column) }),
    }
}

/// What a bytes column reads as: the bytes of its base64 text, or a
/// text's characters as UTF-8; anything else is an error.
pub open spec fn cell_data(row: Seq<(String, D1Cell)>, column: Seq<char>) -> Option<Seq<u8>> {
    match row_cell(row, column) {
        Some(D1Cell::Bytes { value_base64 }) => base64_bytes(value_base64@),
        Some(D1Cell::Text { value }) => Some(vstd::utf8::encode_utf8(value@)),
        _ => None,
    }
}

/// A bytes column of a row.
pub fn cell_bytes(row: &Vec<(String, D1Cell)>, column: &str) -> (r: Result<Vec<u8>, D1Error>)
    ensures
        match r {
            Ok(b) => cell_data(row@, column@) == Some(b@),
            Err(e) => cell_data(row@, column@) is None && match row_cell(row@, column@) {
                Some(D1Cell::Bytes { .. }) => e is BadBase64,
                Some(D1Cell::Null) => e matches D1Error::NullColumn { column: c } && c@ == column@,
                Some(D1Cell::Number { .. }) => e matches D1Error::NotBytes { column: c } && c@ == column@,
                Some(D1Cell::Bool { .. }) => e matches D1Error::NotBytes { column: c } && c@ == column@,
                None => e matches D1Error::MissingColumn { column: c } && c@ == column@,
                _ => false,
            },
        },
{
    match find_cell(row, column) {
        Some(D1Cell::Bytes { value_base64 }) => match base64_decode(value_base64.as_str()) {
            Ok(b) => Ok(b),
            Err(detail) => Err(D1Error::BadBase64 { detail }),
        },
        Some(D1Cell::Text { value }) => Ok(value.as_str().as_bytes_vec()),
        Some(D1Cell::Null) => Err(D1Error::NullColumn { column: owned(column) }),
        Some(D1Cell::Number { .. }) => Err(D1Error::NotBytes { column: owned(column) }),
        Some(D1Cell::Bool { .. }) => Err(D1Error::NotBytes { column: owned(column) }),
        None => Err(D1Error::MissingColumn { column: owned(column) }),
    }
}

/// The key a row names, from its `namespace`, `parent_path`, `kind` and
/// `name` columns, read in that order.
pub fn key_from_row(row: &Vec<(String, D1Cell)>) -> (r: Result<ResourceKey, D1Error>)
    ensures
        match r {
            Ok(k) => {
                &&& cell_text(row@, "namespace"@) == Some(k.namespace@)
                &&& cell_text(row@, "parent_path"@) == Some(k.parent_path@)
                &&& cell_text(row@, "kind"@) == Some(k.kind@)
                &&& cell_text(row@, "name"@) == Some(k.name@)
            },
            Err(_) => cell_text(row@, "namespace"@) is None || cell_text(row@, "parent_path"@) is None
                || cell_text(row@, "kind"@) is None || cell_text(row@, "name"@) is None,
        },
{
    let namespace = cell_string(row, "namespace")?;
    let parent_path = cell_string(row, "parent_path")?;
    let kind = cell_string(row, "kind")?;
    let name = cell_string(row, "name")?;
    Ok(ResourceKey { namespace, parent_path, kind, name })
}

/// The bytes a D1 write sends for a value read back, from a bytes cell, as
/// the same value.
pub proof fn lemma_written_bytes_read_back(p: D1Param, row: Seq<(String, D1Cell)>, column: Seq<char>, v: Seq<u8>)
    requires
        param_view(p) == ParamView::Bytes(v),
        p matches D1Param::Bytes { value_base64: t } && row_cell(row, column) == Some(
            D1Cell::Bytes { value_base64: t },
        ),
    ensures
        cell_data(row, column) == Some(v),
{
}

} // verus!
