use vstd::prelude::*;
use crate::columns::{column_type_to_proto, data_type_of, ColumnType, DataType};
use crate::storage::{error_heading, error_text, DatabaseError};
use crate::value::{db_values_to_proto_values, wire_canonical, wire_meaning, DbValue, Val, WireValue};

verus! {

/// A column of a query result as sent to the client.
#[derive(Debug, Clone)]
pub struct Column {
    pub name: String,
    pub data_type: DataType,
}

/// One row of wire values.
#[derive(Debug, Clone)]
pub struct Row {
    pub values: Vec<WireValue>,
}

/// A piece of a query result: column metadata, rows, or both.
#[derive(Debug, Clone)]
pub struct ResultSet {
    pub columns: Vec<Column>,
    pub rows: Vec<Row>,
}

/// An error reported inside a stream.
#[derive(Debug, Clone)]
pub struct ErrorMessage {
    pub code: String,
    pub message: String,
}

/// One message of a query stream.
#[derive(Debug, Clone)]
pub enum QueryResponse {
    ResultSet(ResultSet),
    Error(ErrorMessage),
}

/// What the backend hands over on one pull of the row sequence.
pub enum Pull {
    Row(Seq<Val>),
    Failure(Seq<char>),
    End,
}

/// What a message of the stream says.
pub enum Msg {
    Descriptor(Seq<(Seq<char>, DataType)>),
    Data(Seq<Val>),
    Failure(Seq<char>, Seq<char>),
}

pub open spec fn pull_view(p: Option<Result<Vec<DbValue>, DatabaseError>>) -> Pull {
    match p {
        Some(Ok(row)) => Pull::Row(row@.map_values(|v: DbValue| v@)),
        Some(Err(e)) => Pull::Failure(error_heading(e) + error_text(e)),
        None => Pull::End,
    }
}

pub open spec fn column_views(cols: Seq<Column>) -> Seq<(Seq<char>, DataType)> {
    cols.map_values(|c: Column| (c.name@, c.data_type))
}

/// A descriptor carries all the columns and no row; a data message carries
/// exactly one row and no column.
pub open spec fn well_shaped(r: QueryResponse) -> bool {
    match r {
        QueryResponse::ResultSet(rs) => rs.rows@.len() == 0 || (rs.rows@.len() == 1
            && rs.columns@.len() == 0 && forall|i: int|
            0 <= i < rs.rows@[0].values@.len() ==> wire_canonical(
                #[trigger] rs.rows@[0].values@[i],
            )),
        QueryResponse::Error(_) => true,
    }
}

pub open spec fn msg_view(r: QueryResponse) -> Msg {
    match r {
        QueryResponse::ResultSet(rs) => if rs.rows@.len() == 0 {
            Msg::Descriptor(column_views(rs.columns@))
        } else {
            Msg::Data(rs.rows@[0].values@.map_values(|w: WireValue| wire_meaning(w)))
        },
        QueryResponse::Error(e) => Msg::Failure(e.code@, e.message@),
    }
}

pub open spec fn query_error_code() -> Seq<char> {
    "QUERY_ERROR"@
}

/// The message that one pull gives while rows are streaming; none at the end.
pub open spec fn step_message(p: Pull) -> Option<Msg> {
    match p {
        Pull::Row(vals) => Some(Msg::Data(vals)),
        Pull::Failure(text) => Some(Msg::Failure(query_error_code(), text)),
        Pull::End => None,
    }
}

/// The messages that the rows give: one per pull, as `step_message` says,
/// until the end or the first failure, which is reported and stops the
/// stream.
pub open spec fn row_messages(pulls: Seq<Pull>) -> Seq<Msg>
    decreases pulls.len(),
{
    if pulls.len() == 0 {
        Seq::empty()
    } else {
        match step_message(pulls[0]) {
            None => Seq::empty(),
            Some(m) => if pulls[0] is Row {
                seq![m] + row_messages(pulls.drop_first())
            } else {
                seq![m]
            },
        }
    }
}

/// The whole stream of a query: the descriptor, then the rows' messages.
pub open spec fn stream_messages(columns: Seq<(Seq<char>, DataType)>, pulls: Seq<Pull>) -> Seq<
    Msg,
> {
    seq![Msg::Descriptor(columns)] + row_messages(pulls)
}

/// Where a stream stands.
#[derive(Debug, Clone, Copy, PartialEq, Eq, Structural)]
pub enum StreamPhase {
    /// The descriptor has not gone out yet.
    Start,
    /// Rows are being passed on.
    Rows,
    /// The rows ended or failed; nothing more is sent.
    Finished,
}

/// The protocol of one query stream: the descriptor first, then one data
/// message per row, then either the end or a single error message.
pub struct QueryStream {
    columns: Vec<Column>,
    phase: StreamPhase,
}

pub open spec fn proto_columns(cols: Seq<(String, ColumnType)>) -> Seq<(Seq<char>, DataType)> {
    cols.map_values(|c: (String, ColumnType)| (c.0@, data_type_of(c.1)))
}

impl QueryStream {
    pub closed spec fn descriptor_view(&self) -> Seq<(Seq<char>, DataType)> {
        column_views(self.columns@)
    }

    pub closed spec fn phase(&self) -> StreamPhase {
        self.phase
    }

    /// A stream over the given result columns; nothing is sent yet.
    pub fn new(columns: Vec<(String, ColumnType)>) -> (r: Self)
        ensures
            r.phase() == StreamPhase::Start,
            r.descriptor_view() == proto_columns(columns@),
    {
        let ghost src = columns@;
        let mut rest = columns;
        let mut out: Vec<Column> = Vec::new();
        while rest.len() > 0
            invariant
                out.len() + rest.len() == src.len(),
                forall|k: int|
                    0 <= k < rest.len() ==> (#[trigger] rest@[k]).0@ == src[out.len() + k].0@
                        && rest@[k].1 == src[out.len() + k].1,
                forall|k: int|
                    0 <= k < out.len() ==> (#[trigger] out@[k]).name@ == src[k].0@
                        && out@[k].data_type == data_type_of(src[k].1),
            decreases rest.len(),
        {
            let (name, t) = rest.remove(0);
            out.push(Column { name, data_type: column_type_to_proto(&t) });
        }
        let r = QueryStream { columns: out, phase: StreamPhase::Start };
        assert(r.descriptor_view() =~= proto_columns(src));
        r
    }

    pub fn phase_now(&self) -> (r: StreamPhase)
        ensures
            r == self.phase(),
    {
        self.phase
    }

    /// Whether the stream is over.
    pub fn is_finished(&self) -> (r: bool)
        ensures
            r == (self.phase() == StreamPhase::Finished),
    {
        self.phase == StreamPhase::Finished
    }

    /// The first message: every column, no row.
    pub fn start(&mut self) -> (r: QueryResponse)
        requires
            old(self).phase() == StreamPhase::Start,
        ensures
            final(self).phase() == StreamPhase::Rows,
            final(self).descriptor_view() == old(self).descriptor_view(),
            well_shaped(r),
            msg_view(r) == Msg::Descriptor(old(self).descriptor_view()),
    {
        let columns = clone_columns(&self.columns);
        self.phase = StreamPhase::Rows;
        QueryResponse::ResultSet(ResultSet { columns, rows: Vec::new() })
    }

    /// Passes on what one pull of the rows gave: a row becomes a data
    /// message, a failure an error message that ends the stream, and the
    /// end of the rows ends it silently.
    pub fn on_pull(&mut self, pulled: Option<Result<Vec<DbValue>, DatabaseError>>) -> (r: Option<
        QueryResponse,
    >)
        requires
            old(self).phase() == StreamPhase::Rows,
        ensures
            final(self).descriptor_view() == old(self).descriptor_view(),
            match step_message(pull_view(pulled)) {
                Some(m) => r matches Some(resp) && well_shaped(resp) && msg_view(resp) == m,
                None => r is None,
            },
            final(self).phase() == match pull_view(pulled) {
                Pull::Row(_) => StreamPhase::Rows,
                _ => StreamPhase::Finished,
            },
    {
        match pulled {
            Some(Ok(values)) => {
                let ghost vals = values@;
                let wire = db_values_to_proto_values(values);
                let mut rows: Vec<Row> = Vec::new();
                rows.push(Row { values: wire });
                let rs = ResultSet { columns: Vec::new(), rows };
                assert(rs.rows@[0].values@.map_values(|w: WireValue| wire_meaning(w)) =~= vals.map_values(
                    |v: DbValue| v@,
                ));
                Some(QueryResponse::ResultSet(rs))
            },
            Some(Err(e)) => {
                self.phase = StreamPhase::Finished;
                Some(
                    QueryResponse::Error(
                        ErrorMessage { code: String::from_str("QUERY_ERROR"), message: e.message() },
                    ),
                )
            },
            None => {
                self.phase = StreamPhase::Finished;
                None
            },
        }
    }
}

fn clone_columns(cols: &Vec<Column>) -> (r: Vec<Column>)
    ensures
        column_views(r@) == column_views(cols@),
{
    let mut out: Vec<Column> = Vec::new();
    let mut i: usize = 0;
    while i < cols.len()
        invariant
            i <= cols.len(),
            out.len() == i,
            forall|k: int|
                0 <= k < i ==> (#[trigger] out@[k]).name@ == cols@[k].name@ && out@[k].data_type
                    == cols@[k].data_type,
        decreases cols.len() - i,
    {
        out.push(Column { name: cols[i].name.clone(), data_type: cols[i].data_type });
        i = i + 1;
    }
    assert(column_views(out@) =~= column_views(cols@));
    out
}

/// The pulls of `n` rows that all succeed.
pub open spec fn all_rows(rows: Seq<Seq<Val>>) -> Seq<Pull> {
    rows.map_values(|r: Seq<Val>| Pull::Row(r))
}

/// A query whose rows all arrive gives exactly one descriptor and one data
/// message per row, in the order of the rows.
pub proof fn lemma_stream_without_error(
    columns: Seq<(Seq<char>, DataType)>,
    rows: Seq<Seq<Val>>,
)
    ensures
        stream_messages(columns, all_rows(rows) + seq![Pull::End]) == seq![
            Msg::Descriptor(columns),
        ] + rows.map_values(|r: Seq<Val>| Msg::Data(r)),
        stream_messages(columns, all_rows(rows) + seq![Pull::End]).len() == 1 + rows.len(),
    decreases rows.len(),
{
    lemma_rows_then(rows, seq![Pull::End]);
    reveal_with_fuel(row_messages, 2);
    assert(row_messages(seq![Pull::End]) =~= Seq::<Msg>::empty());
    assert(rows.map_values(|r: Seq<Val>| Msg::Data(r)) + Seq::<Msg>::empty() =~= rows.map_values(
        |r: Seq<Val>| Msg::Data(r),
    ));
}

/// A query that fails after `k` rows gives one descriptor, `k` data
/// messages and one error message, and nothing after the error, whatever
/// the backend would still have handed over.
pub proof fn lemma_stream_with_error(
    columns: Seq<(Seq<char>, DataType)>,
    rows: Seq<Seq<Val>>,
    text: Seq<char>,
    later: Seq<Pull>,
)
    ensures
        stream_messages(columns, all_rows(rows) + seq![Pull::Failure(text)] + later) == seq![
            Msg::Descriptor(columns),
        ] + rows.map_values(|r: Seq<Val>| Msg::Data(r)) + seq![
            Msg::Failure(query_error_code(), text),
        ],
        stream_messages(columns, all_rows(rows) + seq![Pull::Failure(text)] + later).len() == rows.len()
            + 2,
{
    let tail = seq![Pull::Failure(text)] + later;
    assert(all_rows(rows) + seq![Pull::Failure(text)] + later =~= all_rows(rows) + tail);
    lemma_rows_then(rows, tail);
    assert(tail[0] == Pull::Failure(text));
    assert(row_messages(tail) == seq![Msg::Failure(query_error_code(), text)]);
    assert(seq![Msg::Descriptor(columns)] + (rows.map_values(|r: Seq<Val>| Msg::Data(r))
        + seq![Msg::Failure(query_error_code(), text)]) =~= seq![Msg::Descriptor(columns)]
        + rows.map_values(|r: Seq<Val>| Msg::Data(r)) + seq![
        Msg::Failure(query_error_code(), text),
    ]);
}

proof fn lemma_rows_then(rows: Seq<Seq<Val>>, tail: Seq<Pull>)
    ensures
        row_messages(all_rows(rows) + tail) == rows.map_values(|r: Seq<Val>| Msg::Data(r))
            + row_messages(tail),
    decreases rows.len(),
{
    if rows.len() > 0 {
        let rest = rows.drop_first();
        let all = all_rows(rows) + tail;
        assert(all[0] == Pull::Row(rows[0]));
        assert(all.drop_first() =~= all_rows(rest) + tail);
        lemma_rows_then(rest, tail);
        assert(rows.map_values(|r: Seq<Val>| Msg::Data(r)) =~= seq![Msg::Data(rows[0])]
            + rest.map_values(|r: Seq<Val>| Msg::Data(r)));
    } else {
        assert(all_rows(rows) + tail =~= tail);
        assert(rows.map_values(|r: Seq<Val>| Msg::Data(r)) + row_messages(tail) =~= row_messages(
            tail,
        ));
    }
}

} // verus!
