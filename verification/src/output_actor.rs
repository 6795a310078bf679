use vstd::prelude::*;
use crate::texts;

verus! {

/// The seconds between two flushes of the sink.
pub const FLUSH_INTERVAL_SECS: u64 = 15;

/// The seconds after which a record that could not be written is tried again.
pub const RETRY_DELAY_SECS: u64 = 5;

/// The error of the crate `csv`.
#[verifier::external_type_specification]
#[verifier::external_body]
pub struct ExCsvError(csv::Error);

/// The row that the crate `csv`, as it is configured by default, writes
/// into an empty output for a record of these fields, terminator included;
/// `None` where it reports an error for the record.
pub uninterp spec fn csv_row(fields: Seq<Seq<char>>) -> Option<Seq<u8>>;

/// Makes a `csv::Writer` over an empty byte vector with
/// `csv::Writer::from_writer`, calls `write_record` on it once and takes the
/// bytes out with `into_inner`.
///
/// Trusted: what comes back depends on the fields alone. The bytes are the
/// row that [`csv_row`] names for them, and an error comes back exactly
/// where that names none.
#[verifier::external_body]
fn encode_row(fields: &Vec<String>) -> (r: Result<Vec<u8>, csv::Error>)
    ensures
        match r {
            Ok(bytes) => csv_row(texts(fields@)) == Some(bytes@),
            Err(_) => csv_row(texts(fields@)).is_none(),
        },
{
    let mut writer = csv::Writer::from_writer(Vec::new());
    writer.write_record(fields)?;
    match writer.into_inner() {
        Ok(bytes) => Ok(bytes),
        Err(e) => Err(csv::Error::from(e.into_error())),
    }
}

/// What became of a record that the sink was handed.
#[derive(Debug, PartialEq)]
pub enum Outcome {
    /// Its row is written.
    Delivered,
    /// Nothing was written; the same record is to be handed in again after
    /// this many seconds.
    Retry { record: Vec<String>, after_secs: u64 },
}

/// The durable sink: it turns records into rows under one header and
/// collects them until the next flush.
#[derive(Debug)]
pub struct OutputActor {
    header: Vec<String>,
    header_written: bool,
    pending: Vec<u8>,
}

/// The rows one after the other, without any header row.
pub open spec fn rows_of(rows: Seq<Seq<u8>>) -> Seq<u8>
    decreases rows.len(),
{
    if rows.len() == 0 {
        Seq::empty()
    } else {
        rows_of(rows.drop_last()) + rows.last()
    }
}

/// Everything a sink with the header row `head` writes when records with
/// these rows are delivered to it from its start on: nothing for no record,
/// else the header row followed by the rows.
pub open spec fn output_of(head: Seq<u8>, rows: Seq<Seq<u8>>) -> Seq<u8> {
    if rows.len() == 0 {
        Seq::empty()
    } else {
        head + rows_of(rows)
    }
}

/// What a delivered record adds to the output: its row, preceded by the
/// header row where that was not written yet.
pub open spec fn addition(header_written: bool, head: Seq<u8>, row: Seq<u8>) -> Seq<u8> {
    if header_written {
        row
    } else {
        head + row
    }
}

/// What delivering a record of these fields adds to the output of a sink
/// with these columns; `None` where the record cannot be delivered, because
/// its row, or a header row that is still due, cannot be encoded.
pub open spec fn delivery_of(
    header_written: bool,
    header: Seq<Seq<char>>,
    fields: Seq<Seq<char>>,
) -> Option<Seq<u8>> {
    match (csv_row(fields), header_written, csv_row(header)) {
        (Some(row), true, _) => Some(addition(true, Seq::empty(), row)),
        (Some(row), false, Some(head)) => Some(addition(false, head, row)),
        _ => None,
    }
}

/// What stands written after records with these rows were delivered in turn
/// to a sink with the header row `head` that had written `written` before,
/// its header row included or not as `header_written` says.
pub open spec fn delivered_all(
    head: Seq<u8>,
    header_written: bool,
    written: Seq<u8>,
    rows: Seq<Seq<u8>>,
) -> Seq<u8>
    decreases rows.len(),
{
    if rows.len() == 0 {
        written
    } else {
        let earlier = rows.drop_last();
        delivered_all(head, header_written, written, earlier) + addition(
            header_written || earlier.len() > 0,
            head,
            rows.last(),
        )
    }
}

impl OutputActor {
    /// The names of the columns.
    pub closed spec fn header(&self) -> Seq<Seq<char>> {
        texts(self.header@)
    }

    /// Whether the header row was written.
    pub closed spec fn header_written(&self) -> bool {
        self.header_written
    }

    /// What was written since the last flush.
    pub closed spec fn pending(&self) -> Seq<u8> {
        self.pending@
    }

    /// A sink with the given column names that has written nothing yet.
    pub fn new(header: Vec<String>) -> (r: Self)
        ensures
            r.header() == texts(header@),
            !r.header_written(),
            r.pending() == Seq::<u8>::empty(),
    {
        OutputActor { header, header_written: false, pending: Vec::new() }
    }

    /// Takes in `record` given its encoded row `row` and, for a sink that has
    /// not written its header yet, the encoded header row `head`.
    ///
    /// Where the row, or a header row that is still due, could not be
    /// encoded, nothing is written and the record comes back for a retry.
    /// Otherwise the row is written, after the header row if that is due.
    pub fn accept(
        &mut self,
        record: Vec<String>,
        head: Option<Result<Vec<u8>, csv::Error>>,
        row: Result<Vec<u8>, csv::Error>,
    ) -> (r: Outcome)
        ensures
            final(self).header() == old(self).header(),
            match (head, row) {
                (_, Err(_)) => r == (Outcome::Retry { record, after_secs: RETRY_DELAY_SECS })
                    && final(self).pending() == old(self).pending() && final(self).header_written() == old(self).header_written(),
                (Some(Ok(head_bytes)), Ok(row_bytes)) => r == Outcome::Delivered && final(self).header_written() && final(self).pending() == old(self).pending() + addition(old(self).header_written(), head_bytes@, row_bytes@),
                (_, Ok(row_bytes)) => if old(self).header_written() {
                    r == Outcome::Delivered && final(self).header_written() && final(self).pending() == old(self).pending() + row_bytes@
                } else {
                    r == (Outcome::Retry { record, after_secs: RETRY_DELAY_SECS }) && final(self).pending() == old(self).pending() && !final(self).header_written()
                },
            },
    {
        let mut row_bytes = match row {
            Ok(bytes) => bytes,
            Err(_) => {
                return Outcome::Retry { record, after_secs: RETRY_DELAY_SECS };
            },
        };
        if !self.header_written {
            let mut head_bytes = match head {
                Some(Ok(bytes)) => bytes,
                _ => {
                    return Outcome::Retry { record, after_secs: RETRY_DELAY_SECS };
                },
            };
            self.pending.append(&mut head_bytes);
            self.header_written = true;
        }
        self.pending.append(&mut row_bytes);
        Outcome::Delivered
    }

    /// Takes in one record: its fields in the order of the columns.
    ///
    /// The record is delivered exactly where its row can be encoded and so
    /// can the header row, if this would be the first record delivered: its
    /// row is then written, after the header row if that is due. Otherwise
    /// nothing is written, and the record comes back to be handed in again
    /// after [`RETRY_DELAY_SECS`].
    pub fn handle(&mut self, msg: Vec<String>) -> (r: Outcome)
        ensures
            final(self).header() == old(self).header(),
            (r == Outcome::Delivered) == delivery_of(
                old(self).header_written(),
                old(self).header(),
                texts(msg@),
            ).is_some(),
            match delivery_of(old(self).header_written(), old(self).header(), texts(msg@)) {
                Some(added) => r == Outcome::Delivered && final(self).header_written() && final(self).pending() == old(self).pending() + added,
                None => r == (Outcome::Retry { record: msg, after_secs: RETRY_DELAY_SECS })
                    && final(self).pending() == old(self).pending() && final(self).header_written() == old(self).header_written(),
            },
    {
        let head = if self.header_written {
            None
        } else {
            Some(encode_row(&self.header))
        };
        let row = encode_row(&msg);
        self.accept(msg, head, row)
    }

    /// Hands out what was written since the last flush, for the caller to
    /// put on the output stream, and starts collecting anew.
    pub fn flush(&mut self) -> (r: Vec<u8>)
        ensures
            r@ == old(self).pending(),
            final(self).pending() == Seq::<u8>::empty(),
            final(self).header() == old(self).header(),
            final(self).header_written() == old(self).header_written(),
    {
        let mut out: Vec<u8> = Vec::new();
        out.append(&mut self.pending);
        out
    }
}

/// The header row is written exactly once, before the first row, however
/// many records follow: what a new sink has written after any records were
/// delivered is the header row and then their rows alone.
pub proof fn lemma_header_written_once(head: Seq<u8>, rows: Seq<Seq<u8>>)
    ensures
        delivered_all(head, false, Seq::empty(), rows) == output_of(head, rows),
    decreases rows.len(),
{
    if rows.len() > 0 {
        let earlier = rows.drop_last();
        lemma_header_written_once(head, earlier);
        if earlier.len() == 0 {
            assert(rows_of(earlier) =~= Seq::<u8>::empty());
        }
        assert(delivered_all(head, false, Seq::empty(), rows) =~= output_of(head, rows));
    }
}

/// A delivery adds what [`delivered_all`] adds for one more row: the sink's
/// own step and the run of deliveries agree.
pub proof fn lemma_delivery_is_one_step(
    header: Seq<Seq<char>>,
    written: Seq<u8>,
    rows: Seq<Seq<u8>>,
    fields: Seq<Seq<char>>,
)
    requires
        csv_row(header).is_some(),
        csv_row(fields).is_some(),
    ensures
        delivery_of(rows.len() > 0, header, fields).is_some(),
        delivered_all(csv_row(header).unwrap(), false, written, rows.push(csv_row(fields).unwrap()))
            == delivered_all(csv_row(header).unwrap(), false, written, rows) + delivery_of(
            rows.len() > 0,
            header,
            fields,
        ).unwrap(),
{
    let more = rows.push(csv_row(fields).unwrap());
    assert(more.drop_last() =~= rows);
}

} // verus!
