//! Session orchestration as a pure state machine.
//!
//! The code that owns the real connection drives one logical exchange at a
//! time: it frames and sends a request, then feeds each received payload to
//! the decision functions here and acts on what they return. Every decision
//! the protocol makes — what the first response byte means, how many column
//! definitions to expect, when the row stream ends — is taken in this module
//! and verified; the driver only moves bytes.

use vstd::prelude::*;

use crate::command::{column_definition_at, err_packet_at, row_fields_at, ColumnDefinition41,
    ErrPacket, ResultsetRow};
use crate::error::ClientError;

verus! {

/// What a session needs to know to connect and authenticate.
#[derive(Debug, Clone)]
pub struct ConnectionOptions {
    pub username: String,
    pub password: String,
    pub database: String,
    pub host: String,
    pub port: u16,
}

/// Checks the packet that answers the handshake response: anything but a
/// 0x00 header refuses the authentication.
pub fn check_auth_ok(pkt: &Vec<u8>) -> (r: Result<(), ClientError>)
    ensures
        r is Ok <==> pkt@.len() >= 1 && pkt@[0] == 0,
        r matches Err(e) ==> e == (if pkt@.len() < 1 {
            ClientError::MalformedPacket
        } else {
            ClientError::ProtocolViolation
        }),
{
    if pkt.len() < 1 {
        return Err(ClientError::MalformedPacket);
    }
    if pkt[0] != 0 {
        return Err(ClientError::ProtocolViolation);
    }
    Ok(())
}

/// Where a query exchange stands after the packets fed so far.
#[derive(Debug, PartialEq, Eq, Structural, Clone, Copy)]
pub enum QueryPhase {
    /// Nothing received yet: the next packet carries the column count, or is
    /// an ERR packet.
    AwaitingColumnCount,
    /// Column-definition packets are still owed.
    ReadingColumns,
    /// Row packets follow, until the 0xFE end-of-rows marker.
    ReadingRows,
    /// The exchange ended: either the rows are complete or the server
    /// returned an error.
    Complete,
}

/// The response side of one query: packets go in, and either rows or a
/// decoded server error come out.
pub struct QuerySession {
    pub phase: QueryPhase,
    pub remaining_columns: u64,
    pub columns: Vec<ColumnDefinition41>,
    pub rows: Vec<ResultsetRow>,
    pub server_error: Option<ErrPacket>,
}

impl QuerySession {
    /// Internal consistency: columns are still owed exactly in the
    /// column-reading phase, and a server error ends the exchange.
    pub open spec fn wf(self) -> bool {
        &&& (self.phase is ReadingColumns ==> self.remaining_columns >= 1)
        &&& (self.server_error is Some ==> self.phase is Complete)
    }

    /// A fresh exchange, awaiting the first response packet.
    pub fn new() -> (r: Self)
        ensures
            r.wf(),
            r.phase is AwaitingColumnCount,
            r.columns@.len() == 0,
            r.rows@.len() == 0,
            r.server_error is None,
    {
        Self {
            phase: QueryPhase::AwaitingColumnCount,
            remaining_columns: 0,
            columns: Vec::new(),
            rows: Vec::new(),
            server_error: None,
        }
    }

    /// Consumes one received packet payload and advances the exchange.
    /// Returns `Ok(true)` when the exchange is complete, `Ok(false)` when
    /// more packets are owed. The packet's meaning depends on the phase:
    /// first the column count (or an ERR packet), then one column definition
    /// per owed column, then rows until the 0xFE marker.
    pub fn feed_packet(&mut self, pkt: Vec<u8>) -> (r: Result<bool, ClientError>)
        requires
            old(self).wf(),
        ensures
            final(self).wf(),
            old(self).phase is Complete ==> r == Err::<bool, ClientError>(
                ClientError::ProtocolViolation,
            ) && *final(self) == *old(self),
            !(old(self).phase is Complete) && pkt@.len() == 0 ==> r == Err::<bool, ClientError>(
                ClientError::MalformedPacket,
            ) && *final(self) == *old(self),
            old(self).phase is AwaitingColumnCount && pkt@.len() >= 1 && pkt@[0] == 0xff ==> (
            match err_packet_at(pkt@) {
                Some(e) => {
                    &&& r == Ok::<bool, ClientError>(true)
                    &&& final(self).phase is Complete
                    &&& (final(self).server_error matches Some(ep) && ep@ == e)
                    &&& final(self).columns == old(self).columns
                    &&& final(self).rows == old(self).rows
                },
                None => r == Err::<bool, ClientError>(ClientError::MalformedPacket) && *final(self)
                    == *old(self),
            }),
            old(self).phase is AwaitingColumnCount && pkt@.len() >= 1 && pkt@[0] != 0xff ==> {
                &&& r == Ok::<bool, ClientError>(false)
                &&& (pkt@[0] == 0 ==> final(self).phase is ReadingRows)
                &&& (pkt@[0] != 0 ==> final(self).phase is ReadingColumns
                    && final(self).remaining_columns == pkt@[0])
                &&& final(self).columns == old(self).columns
                &&& final(self).rows == old(self).rows
                &&& final(self).server_error == old(self).server_error
            },
            old(self).phase is ReadingColumns && pkt@.len() >= 1 ==> (
            match column_definition_at(pkt@) {
                Some(c) => {
                    &&& r == Ok::<bool, ClientError>(false)
                    &&& final(self).columns.deep_view() == old(self).columns.deep_view().push(c)
                    &&& final(self).remaining_columns == old(self).remaining_columns - 1
                    &&& (old(self).remaining_columns == 1 <==> final(self).phase is ReadingRows)
                    &&& (old(self).remaining_columns != 1 <==> final(self).phase
                        is ReadingColumns)
                    &&& final(self).rows == old(self).rows
                    &&& final(self).server_error == old(self).server_error
                },
                None => r == Err::<bool, ClientError>(ClientError::MalformedPacket) && *final(self)
                    == *old(self),
            }),
            old(self).phase is ReadingRows && pkt@.len() >= 1 && pkt@[0] == 0xfe ==> {
                &&& r == Ok::<bool, ClientError>(true)
                &&& final(self).phase is Complete
                &&& final(self).columns == old(self).columns
                &&& final(self).rows == old(self).rows
                &&& final(self).server_error == old(self).server_error
            },
            old(self).phase is ReadingRows && pkt@.len() >= 1 && pkt@[0] != 0xfe ==> (
            match row_fields_at(pkt@, 0) {
                Some(fields) => {
                    &&& r == Ok::<bool, ClientError>(false)
                    &&& final(self).phase is ReadingRows
                    &&& final(self).rows.deep_view() == old(self).rows.deep_view().push(fields)
                    &&& final(self).columns == old(self).columns
                    &&& final(self).server_error == old(self).server_error
                },
                None => r == Err::<bool, ClientError>(ClientError::MalformedPacket) && *final(self)
                    == *old(self),
            }),
    {
        match self.phase {
            QueryPhase::Complete => Err(ClientError::ProtocolViolation),
            QueryPhase::AwaitingColumnCount => {
                if pkt.len() < 1 {
                    return Err(ClientError::MalformedPacket);
                }
                if pkt[0] == 0xff {
                    let err = match ErrPacket::decode(pkt) {
                        Ok(e) => e,
                        Err(e) => { return Err(e); },
                    };
                    self.server_error = Some(err);
                    self.phase = QueryPhase::Complete;
                    Ok(true)
                } else {
                    let column_count = pkt[0];
                    if column_count == 0 {
                        self.phase = QueryPhase::ReadingRows;
                    } else {
                        self.phase = QueryPhase::ReadingColumns;
                        self.remaining_columns = column_count as u64;
                    }
                    Ok(false)
                }
            },
            QueryPhase::ReadingColumns => {
                if pkt.len() < 1 {
                    return Err(ClientError::MalformedPacket);
                }
                let ghost prev_columns = self.columns.deep_view();
                let column = match ColumnDefinition41::decode(pkt) {
                    Ok(c) => c,
                    Err(e) => { return Err(e); },
                };
                let ghost column_view = column@;
                self.columns.push(column);
                proof {
                    assert(self.columns.deep_view() =~= prev_columns.push(column_view));
                }
                self.remaining_columns = self.remaining_columns - 1;
                if self.remaining_columns == 0 {
                    self.phase = QueryPhase::ReadingRows;
                }
                Ok(false)
            },
            QueryPhase::ReadingRows => {
                if pkt.len() < 1 {
                    return Err(ClientError::MalformedPacket);
                }
                if pkt[0] == 0xfe {
                    self.phase = QueryPhase::Complete;
                    return Ok(true);
                }
                let ghost prev_rows = self.rows.deep_view();
                let row = match ResultsetRow::decode(pkt) {
                    Ok(row) => row,
                    Err(e) => { return Err(e); },
                };
                let ghost row_view = row@;
                self.rows.push(row);
                proof {
                    assert(self.rows.deep_view() =~= prev_rows.push(row_view));
                }
                Ok(false)
            },
        }
    }

    /// True once the exchange has ended, in success or in a server error.
    pub fn is_complete(&self) -> (r: bool)
        ensures
            r <==> self.phase is Complete,
    {
        match self.phase {
            QueryPhase::Complete => true,
            _ => false,
        }
    }
}

} // verus!
