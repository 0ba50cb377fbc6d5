//! The analysis API's logic: job ids and their stream addresses, the keys
//! under which a job's status and result are kept, the query an analysis
//! runs, the columns it reads and aggregates, and what a job reports when
//! it ends.
use vstd::prelude::*;
use vstd::string::*;
use crate::text::{u64_to_text, decimal_digits, join, join_texts, texts, concat};
use crate::analytics::types::{AssetClass, AnalyzeRequest, AnalyzeResponse, ApiError, JobEvent};
use snowflake_me::Snowflake;
use crate::workers::message::text_opt;

verus! {

/// The id generator of the outside crate.
#[verifier::external_type_specification]
#[verifier::external_body]
pub struct ExSnowflake(snowflake_me::Snowflake);

/// `Snowflake::new`: a generator with the default configuration, or the
/// text of the error that kept it from being made.
///
/// Claims nothing of the outcome: it depends on the machine's configuration.
#[verifier::external_body]
fn new_id_generator() -> (r: Result<Snowflake, String>) {
    match Snowflake::new() {
        Ok(g) => Ok(g),
        Err(e) => Err(e.to_string()),
    }
}

/// `Snowflake::next_id`: the next id as a number, or the text of the error.
///
/// Claims nothing of the id: it depends on the clock and on the ids handed
/// out before.
#[verifier::external_body]
fn next_id(generator: &Snowflake) -> (r: Result<u64, String>) {
    match generator.next_id() {
        Ok(id) => Ok(id.as_u64()),
        Err(e) => Err(e.to_string()),
    }
}

/// Where a job's events are streamed: `/analyze/<id>/stream`.
pub open spec fn stream_url_spec(job_id: u64) -> Seq<char> {
    "/analyze/"@ + decimal_digits(job_id as nat) + "/stream"@
}

pub fn stream_url(job_id: u64) -> (r: String)
    ensures
        r@ == stream_url_spec(job_id),
{
    let id = u64_to_text(job_id);
    let mut url = concat("/analyze/", id.as_str());
    url.append("/stream");
    url
}

/// A submitted job: its id and the address of its event stream.
pub struct JobTicket {
    pub job_id: u64,
    pub stream_url: String,
}

/// Submits a job: draws a fresh id and gives the address of its stream;
/// a failure of the id generator is a `Snowflake` error.
pub fn submit_job() -> (r: Result<JobTicket, ApiError>)
    ensures
        r matches Ok(t) ==> t.stream_url@ == stream_url_spec(t.job_id),
        r matches Err(e) ==> e is Snowflake,
{
    let generator = match new_id_generator() {
        Ok(g) => g,
        Err(e) => {
            return Err(ApiError::Snowflake(e));
        },
    };
    match next_id(&generator) {
        Ok(id) => Ok(JobTicket { job_id: id, stream_url: stream_url(id) }),
        Err(e) => Err(ApiError::Snowflake(e)),
    }
}

/// The key of a job's status: `job_status:<id>`.
pub fn job_status_key(job_id: &str) -> (r: String)
    ensures
        r@ == "job_status:"@ + job_id@,
{
    concat("job_status:", job_id)
}

/// The key of a job's result: `job_result:<id>`.
pub fn job_result_key(job_id: &str) -> (r: String)
    ensures
        r@ == "job_result:"@ + job_id@,
{
    concat("job_result:", job_id)
}

/// The status a job has while it runs.
pub fn processing_report() -> (r: (&'static str, JobEvent))
    ensures
        r.0@ == "Processing"@,
        r.1 is Processing,
{
    ("Processing", JobEvent::Processing)
}

/// What a job that produced `result` records and reports.
pub fn completion_report(result: serde_json::Value) -> (r: (&'static str, JobEvent))
    ensures
        r.0@ == "Completed"@,
        r.1 == (JobEvent::Completed { result }),
{
    ("Completed", JobEvent::Completed { result })
}

/// What a failed job records (`Failed: <error>`) and reports
/// (`Analysis failed: <error>`).
pub fn failure_report(err: &ApiError) -> (r: (String, JobEvent))
    ensures
        r.0@ == "Failed: "@ + err@.message(),
        r.1 matches JobEvent::Failed { error } && error@ == "Analysis failed: "@ + err@.message(),
{
    let msg = err.message();
    (
        concat("Failed: ", msg.as_str()),
        JobEvent::Failed { error: concat("Analysis failed: ", msg.as_str()) },
    )
}

/// One ticker's condition: `ticker = '<t>'`.
pub open spec fn ticker_condition(t: Seq<char>) -> Seq<char> {
    "ticker = '"@ + t + "'"@
}

/// The query of an analysis: every stored update of the class for any of
/// the tickers.
pub open spec fn analysis_query_spec(c: AssetClass, tickers: Seq<Seq<char>>) -> Seq<char> {
    "SELECT * FROM "@ + c.name() + " WHERE "@ + join_texts(
        tickers.map_values(|t: Seq<char>| ticker_condition(t)),
        " OR "@,
    )
}

/// The query an analysis runs, or none where it names no ticker (the
/// answer is then empty).
pub fn analysis_query(req: &AnalyzeRequest) -> (r: Option<String>)
    ensures
        texts(req.tickers).len() == 0 ==> r is None,
        texts(req.tickers).len() > 0 ==> (r matches Some(q) && q@ == analysis_query_spec(
            req.asset_class,
            texts(req.tickers),
        )),
{
    let n = req.tickers.len();
    if n == 0 {
        return None;
    }
    let ghost conds = texts(req.tickers).map_values(|t: Seq<char>| ticker_condition(t));
    let mut parts: Vec<String> = Vec::new();
    let mut i: usize = 0;
    while i < n
        invariant
            n == req.tickers@.len(),
            i <= n,
            conds == texts(req.tickers).map_values(|t: Seq<char>| ticker_condition(t)),
            parts@.len() == i,
            texts(parts) == conds.take(i as int),
        decreases n - i,
    {
        let ghost before = parts;
        let mut cond = concat("ticker = '", req.tickers[i].as_str());
        cond.append("'");
        parts.push(cond);
        assert(texts(parts) =~= conds.take(i + 1)) by {
            assert(parts@ == before@.push(cond));
            assert(cond@ == conds[i as int]);
            assert forall|k: int| 0 <= k < i implies texts(parts)[k] == conds.take(i + 1)[k] by {
                assert(parts@[k] == before@[k]);
                assert(texts(before)[k] == conds.take(i as int)[k]);
            }
        }
        i = i + 1;
    }
    assert(conds.take(n as int) =~= conds);
    let filter = join(&parts, " OR ");
    let name = req.asset_class.to_string();
    let mut q = concat("SELECT * FROM ", name.as_str());
    q.append(" WHERE ");
    q.append(filter.as_str());
    Some(q)
}

/// The columns read as numbers: the last price and size of crypto trades,
/// the bid, ask and mid prices of forex quotes.
pub open spec fn float_columns_spec(c: AssetClass) -> Seq<Seq<char>> {
    match c {
        AssetClass::Crypto => seq!["last_price"@, "last_size"@],
        _ => seq!["bid_price"@, "ask_price"@, "mid_price"@],
    }
}

/// The numeric columns of a class's stored updates; equities have none
/// defined.
pub fn float_columns(c: AssetClass) -> (r: Vec<&'static str>)
    requires
        c != AssetClass::Equity,
    ensures
        r@.len() == float_columns_spec(c).len(),
        forall|i: int| 0 <= i < r@.len() ==> (#[trigger] r@[i])@ == float_columns_spec(c)[i],
{
    match c {
        AssetClass::Crypto => vec!["last_price", "last_size"],
        _ => vec!["bid_price", "ask_price", "mid_price"],
    }
}

/// The column whose entries are counted and averaged per ticker, and the
/// name of the average: the last price (`avg_price`) for crypto, the mid
/// price (`avg_mid`) otherwise.
pub fn aggregated_columns(c: AssetClass) -> (r: (&'static str, &'static str))
    ensures
        c == AssetClass::Crypto ==> r.0@ == "last_price"@ && r.1@ == "avg_price"@,
        c != AssetClass::Crypto ==> r.0@ == "mid_price"@ && r.1@ == "avg_mid"@,
{
    if c == AssetClass::Crypto {
        ("last_price", "avg_price")
    } else {
        ("mid_price", "avg_mid")
    }
}

/// The answer of an analysis that found nothing: no job id yet, the class,
/// no records.
pub fn empty_response(c: AssetClass) -> (r: AnalyzeResponse)
    ensures
        r.job_id@ == Seq::<char>::empty(),
        r.asset_class@ == c.name(),
        r.data@.len() == 0,
{
    AnalyzeResponse { job_id: String::new(), asset_class: c.to_string(), data: Vec::new() }
}

/// The text of cell `j` of a row, or none where the row has no such cell.
pub open spec fn row_cell(row: Seq<Option<String>>, j: int) -> Option<Seq<char>> {
    if 0 <= j < row.len() {
        text_opt(row[j])
    } else {
        None
    }
}

fn copy_cell(c: &Option<String>) -> (r: Option<String>)
    ensures
        text_opt(r) == text_opt(*c),
{
    match c {
        Some(t) => Some(t.clone()),
        None => None,
    }
}

/// The column of position `j` of a query answer's rows: one cell per row,
/// in row order.
fn column_of(rows: &Vec<Vec<Option<String>>>, j: usize) -> (r: Vec<Option<String>>)
    ensures
        r@.len() == rows@.len(),
        forall|i: int| 0 <= i < r@.len() ==> text_opt(#[trigger] r@[i]) == row_cell(rows@[i]@, j as int),
{
    let mut col: Vec<Option<String>> = Vec::new();
    let mut i: usize = 0;
    while i < rows.len()
        invariant
            i <= rows@.len(),
            col@.len() == i,
            forall|k: int| 0 <= k < i ==> text_opt(#[trigger] col@[k]) == row_cell(rows@[k]@, j as int),
        decreases rows@.len() - i,
    {
        let row = &rows[i];
        let c = if j < row.len() {
            copy_cell(&row[j])
        } else {
            None
        };
        col.push(c);
        i = i + 1;
    }
    col
}

/// The table of a query answer column by column: each column name with
/// the cells at its position in every row, a row without such a cell
/// giving none.
pub fn answer_columns(names: &Vec<String>, rows: &Vec<Vec<Option<String>>>) -> (r: Vec<(String, Vec<Option<String>>)>)
    ensures
        r@.len() == names@.len(),
        forall|j: int|
            0 <= j < r@.len() ==> (#[trigger] r@[j]).0@ == names@[j]@ && r@[j].1@.len()
                == rows@.len() && forall|i: int|
                0 <= i < rows@.len() ==> text_opt(#[trigger] r@[j].1@[i]) == row_cell(rows@[i]@, j),
{
    let mut out: Vec<(String, Vec<Option<String>>)> = Vec::new();
    let mut j: usize = 0;
    while j < names.len()
        invariant
            j <= names@.len(),
            out@.len() == j,
            forall|k: int|
                0 <= k < j ==> (#[trigger] out@[k]).0@ == names@[k]@ && out@[k].1@.len()
                    == rows@.len() && forall|i: int|
                    0 <= i < rows@.len() ==> text_opt(#[trigger] out@[k].1@[i]) == row_cell(rows@[i]@, k),
        decreases names@.len() - j,
    {
        let col = column_of(rows, j);
        out.push((names[j].clone(), col));
        j = j + 1;
    }
    out
}

/// A cell of a query answer by its JSON kind: null, a string, or any
/// other value with its JSON text.
pub enum AnswerCell {
    Null,
    Text(String),
    Other(String),
}

/// The text a cell contributes to its column: none for null, a string as
/// it is, any other value as its JSON text.
pub fn cell_text(cell: AnswerCell) -> (r: Option<String>)
    ensures
        match cell {
            AnswerCell::Null => r is None,
            AnswerCell::Text(t) => r matches Some(x) && x@ == t@,
            AnswerCell::Other(j) => r matches Some(x) && x@ == j@,
        },
{
    match cell {
        AnswerCell::Null => None,
        AnswerCell::Text(t) => Some(t),
        AnswerCell::Other(j) => Some(j),
    }
}

} // verus!
