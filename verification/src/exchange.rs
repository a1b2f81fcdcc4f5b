//! The course of one exchange, on the server's side and on the client's side.
//!
//! Each side goes through a fixed course of stages. A stage is a type of its own, and says what
//! the side does next; what came of that leads to the next stage, or breaks the exchange off. Both
//! sides note the clock as they go.

use vstd::prelude::*;

use crate::payload::arrived_intact;
use crate::time::Timestamp;
use crate::timing::{ClientTiming, ServerTiming, TimingSummary};

verus! {

/// Why an exchange is broken off.
#[derive(Debug, Clone, Copy, PartialEq, Eq, Structural)]
pub enum ExchangeFailure {
    /// The number of bytes that were sent is not the size of the payload.
    SendSizeMismatch {
        /// How many bytes were sent.
        copied: u64,
        /// How many bytes the payload has.
        size: u64,
    },
    /// The other side sent nothing.
    UnexpectedEof,
    /// The bytes that arrived are not those that were expected.
    Corruption,
}

/// The server has accepted a connection. Next it sends its payload and flushes the connection.
pub struct ServerAccepted<'a> {
    /// The payload to send.
    pub send: &'a [u8],
    /// The payload that the client is to send.
    pub expected: &'a [u8],
    /// When the connection was accepted.
    pub accepted_ts: Timestamp,
}

/// The server has sent its payload. Next it reads for the first time.
pub struct ServerSent<'a> {
    /// The payload that the client is to send.
    pub expected: &'a [u8],
    /// When the connection was accepted.
    pub accepted_ts: Timestamp,
    /// When the payload was sent.
    pub copied_ts: Timestamp,
}

/// The server has read for the first time. Next it fills the rest of its buffer.
pub struct ServerReading<'a> {
    /// The payload that the client is to send.
    pub expected: &'a [u8],
    /// When the connection was accepted.
    pub accepted_ts: Timestamp,
    /// When the payload was sent.
    pub copied_ts: Timestamp,
    /// When the first bytes arrived.
    pub first_byte_ts: Timestamp,
    /// How many bytes have arrived: the buffer is to be filled from here.
    pub filled: usize,
}

impl<'a> ServerAccepted<'a> {
    /// A connection was accepted at `at`.
    pub fn new(send: &'a [u8], expected: &'a [u8], at: Timestamp) -> (r: ServerAccepted<'a>)
        ensures
            r == (ServerAccepted { send, expected, accepted_ts: at }),
    {
        ServerAccepted { send, expected, accepted_ts: at }
    }

    /// What follows when `copied` bytes of the payload were sent by `at`.
    pub open spec fn after_send(self, copied: u64, at: Timestamp) -> Result<
        ServerSent<'a>,
        ExchangeFailure,
    > {
        if copied == self.send@.len() {
            Ok(
                ServerSent {
                    expected: self.expected,
                    accepted_ts: self.accepted_ts,
                    copied_ts: at,
                },
            )
        } else {
            Err(ExchangeFailure::SendSizeMismatch { copied, size: self.send.len() as u64 })
        }
    }

    /// The payload was sent and flushed by `at`: `copied` bytes of it. It must have been all.
    pub fn payload_sent(self, copied: u64, at: Timestamp) -> (r: Result<
        ServerSent<'a>,
        ExchangeFailure,
    >)
        ensures
            r == self.after_send(copied, at),
            r is Ok <==> copied == self.send@.len(),
            r matches Ok(sent) ==> sent.expected == self.expected && sent.accepted_ts
                == self.accepted_ts && sent.copied_ts == at,
            r matches Err(e) ==> e is SendSizeMismatch && e->copied == copied && e->size
                == self.send@.len(),
    {
        let size: u64 = self.send.len() as u64;
        if copied != size {
            return Err(ExchangeFailure::SendSizeMismatch { copied, size });
        }
        Ok(ServerSent { expected: self.expected, accepted_ts: self.accepted_ts, copied_ts: at })
    }
}

impl<'a> ServerSent<'a> {
    /// What follows when the first read gave `count` bytes at `at`.
    pub open spec fn after_first_read(self, count: usize, at: Timestamp) -> Result<
        ServerReading<'a>,
        ExchangeFailure,
    > {
        if count == 0 {
            Err(ExchangeFailure::UnexpectedEof)
        } else {
            Ok(
                ServerReading {
                    expected: self.expected,
                    accepted_ts: self.accepted_ts,
                    copied_ts: self.copied_ts,
                    first_byte_ts: at,
                    filled: count,
                },
            )
        }
    }

    /// The first read gave `count` bytes at `at`. There must have been some; a buffer of the size
    /// of the expected payload holds no more than that.
    pub fn first_read(self, count: usize, at: Timestamp) -> (r: Result<
        ServerReading<'a>,
        ExchangeFailure,
    >)
        requires
            count <= self.expected@.len(),
        ensures
            r == self.after_first_read(count, at),
            r matches Ok(reading) ==> 0 < reading.filled <= reading.expected@.len(),
            r is Ok <==> count > 0,
            r matches Ok(reading) ==> reading.filled == count && reading.first_byte_ts == at
                && reading.expected == self.expected && reading.accepted_ts == self.accepted_ts
                && reading.copied_ts == self.copied_ts,
            r matches Err(e) ==> e is UnexpectedEof,
    {
        if count == 0 {
            return Err(ExchangeFailure::UnexpectedEof);
        }
        Ok(
            ServerReading {
                expected: self.expected,
                accepted_ts: self.accepted_ts,
                copied_ts: self.copied_ts,
                first_byte_ts: at,
                filled: count,
            },
        )
    }
}

impl<'a> ServerReading<'a> {
    /// What follows when the buffer was full at `at`, with `received` in it.
    pub open spec fn after_read(self, received: Seq<u8>, at: Timestamp) -> Result<
        ServerTiming,
        ExchangeFailure,
    > {
        if received == self.expected@ {
            Ok(
                ServerTiming {
                    accepted_ts: self.accepted_ts,
                    copied_ts: self.copied_ts,
                    first_byte_ts: self.first_byte_ts,
                    read_done_ts: at,
                },
            )
        } else {
            Err(ExchangeFailure::Corruption)
        }
    }

    /// The buffer was full at `at`, with `received` in it. This must be the expected payload. The
    /// server then sends its timing to the client, which ends the exchange.
    pub fn payload_read(self, received: &[u8], at: Timestamp) -> (r: Result<
        ServerTiming,
        ExchangeFailure,
    >)
        ensures
            r == self.after_read(received@, at),
            r is Ok <==> received@ == self.expected@,
            r matches Ok(timing) ==> timing.accepted_ts == self.accepted_ts && timing.copied_ts
                == self.copied_ts && timing.first_byte_ts == self.first_byte_ts
                && timing.read_done_ts == at,
            r matches Err(e) ==> e is Corruption,
    {
        if !arrived_intact(received, self.expected) {
            return Err(ExchangeFailure::Corruption);
        }
        Ok(
            ServerTiming {
                accepted_ts: self.accepted_ts,
                copied_ts: self.copied_ts,
                first_byte_ts: self.first_byte_ts,
                read_done_ts: at,
            },
        )
    }
}

/// The client is connected. Next it reads for the first time.
pub struct ClientStarted<'a> {
    /// The payload to send.
    pub send: &'a [u8],
    /// The payload that the server is to send.
    pub expected: &'a [u8],
    /// When the connection succeeded.
    pub started_ts: Timestamp,
}

/// The client has read for the first time. Next it fills the rest of its buffer.
pub struct ClientReading<'a> {
    /// The payload to send.
    pub send: &'a [u8],
    /// The payload that the server is to send.
    pub expected: &'a [u8],
    /// When the connection succeeded.
    pub started_ts: Timestamp,
    /// When the first bytes arrived.
    pub first_byte_ts: Timestamp,
    /// How many bytes have arrived: the buffer is to be filled from here.
    pub filled: usize,
}

/// The client has read all of the server's payload. Next it sends its own payload and flushes the
/// connection.
pub struct ClientRead<'a> {
    /// The payload to send.
    pub send: &'a [u8],
    /// The payload that the server is to send.
    pub expected: &'a [u8],
    /// When the connection succeeded.
    pub started_ts: Timestamp,
    /// When the first bytes arrived.
    pub first_byte_ts: Timestamp,
    /// When the last bytes arrived.
    pub read_done_ts: Timestamp,
}

/// The client has sent its payload, and has found the server's payload intact. Next it reads the
/// server's timing.
pub struct ClientSent {
    /// When the connection succeeded.
    pub started_ts: Timestamp,
    /// When the first bytes arrived.
    pub first_byte_ts: Timestamp,
    /// When the last bytes arrived.
    pub read_done_ts: Timestamp,
    /// When the payload was sent.
    pub copied_ts: Timestamp,
    /// The size of the payload that arrived.
    pub download_size: usize,
    /// The size of the payload that was sent.
    pub upload_size: usize,
}

impl<'a> ClientStarted<'a> {
    /// The connection succeeded at `at`.
    pub fn new(send: &'a [u8], expected: &'a [u8], at: Timestamp) -> (r: ClientStarted<'a>)
        ensures
            r == (ClientStarted { send, expected, started_ts: at }),
    {
        ClientStarted { send, expected, started_ts: at }
    }

    /// What follows when the first read gave `count` bytes at `at`.
    pub open spec fn after_first_read(self, count: usize, at: Timestamp) -> ClientReading<'a> {
        ClientReading {
            send: self.send,
            expected: self.expected,
            started_ts: self.started_ts,
            first_byte_ts: at,
            filled: count,
        }
    }

    /// The first read gave `count` bytes at `at`; a buffer of the size of the expected payload
    /// holds no more than that. Where there were none the exchange goes on: filling the buffer
    /// fails if it is not full yet and nothing more comes.
    pub fn first_read(self, count: usize, at: Timestamp) -> (r: ClientReading<'a>)
        requires
            count <= self.expected@.len(),
        ensures
            r == self.after_first_read(count, at),
            r.filled <= r.expected@.len(),
            r.filled == count,
            r.first_byte_ts == at,
            r.send == self.send,
            r.expected == self.expected,
            r.started_ts == self.started_ts,
    {
        ClientReading {
            send: self.send,
            expected: self.expected,
            started_ts: self.started_ts,
            first_byte_ts: at,
            filled: count,
        }
    }
}

impl<'a> ClientReading<'a> {
    /// What follows when the buffer was full at `at`.
    pub open spec fn after_read(self, at: Timestamp) -> ClientRead<'a> {
        ClientRead {
            send: self.send,
            expected: self.expected,
            started_ts: self.started_ts,
            first_byte_ts: self.first_byte_ts,
            read_done_ts: at,
        }
    }

    /// The buffer was full at `at`.
    pub fn payload_read(self, at: Timestamp) -> (r: ClientRead<'a>)
        ensures
            r == self.after_read(at),
            r.read_done_ts == at,
            r.send == self.send,
            r.expected == self.expected,
            r.started_ts == self.started_ts,
            r.first_byte_ts == self.first_byte_ts,
    {
        ClientRead {
            send: self.send,
            expected: self.expected,
            started_ts: self.started_ts,
            first_byte_ts: self.first_byte_ts,
            read_done_ts: at,
        }
    }
}

impl<'a> ClientRead<'a> {
    /// What follows when the payload was sent by `at`, and `received` is what had arrived.
    pub open spec fn after_send(self, received: Seq<u8>, at: Timestamp) -> Result<
        ClientSent,
        ExchangeFailure,
    > {
        if received == self.expected@ {
            Ok(
                ClientSent {
                    started_ts: self.started_ts,
                    first_byte_ts: self.first_byte_ts,
                    read_done_ts: self.read_done_ts,
                    copied_ts: at,
                    download_size: self.expected.len(),
                    upload_size: self.send.len(),
                },
            )
        } else {
            Err(ExchangeFailure::Corruption)
        }
    }

    /// The payload was sent and flushed by `at`. Only now, when the clock is noted, is what
    /// arrived compared with the payload that was expected: `received` must be the same.
    pub fn payload_sent(self, received: &[u8], at: Timestamp) -> (r: Result<
        ClientSent,
        ExchangeFailure,
    >)
        ensures
            r == self.after_send(received@, at),
            r is Ok <==> received@ == self.expected@,
            r matches Ok(sent) ==> sent.started_ts == self.started_ts && sent.first_byte_ts
                == self.first_byte_ts && sent.read_done_ts == self.read_done_ts && sent.copied_ts
                == at,
            r matches Ok(sent) ==> sent.download_size == self.expected@.len() && sent.upload_size
                == self.send@.len(),
            r matches Err(e) ==> e is Corruption,
    {
        if !arrived_intact(received, self.expected) {
            return Err(ExchangeFailure::Corruption);
        }
        Ok(
            ClientSent {
                started_ts: self.started_ts,
                first_byte_ts: self.first_byte_ts,
                read_done_ts: self.read_done_ts,
                copied_ts: at,
                download_size: self.expected.len(),
                upload_size: self.send.len(),
            },
        )
    }
}

impl ClientSent {
    /// What the exchange measured, given the server's timing.
    pub open spec fn after_timing(self, server: ServerTiming) -> ClientTiming {
        ClientTiming {
            started_ts: self.started_ts,
            first_byte_ts: self.first_byte_ts,
            read_done_ts: self.read_done_ts,
            copied_ts: self.copied_ts,
            server,
            download_size: self.download_size,
            upload_size: self.upload_size,
        }
    }

    /// The server's timing has arrived, which ends the exchange.
    pub fn timing_read(self, server: ServerTiming) -> (r: ClientTiming)
        ensures
            r == self.after_timing(server),
            r.started_ts == self.started_ts,
            r.first_byte_ts == self.first_byte_ts,
            r.read_done_ts == self.read_done_ts,
            r.copied_ts == self.copied_ts,
            r.server == server,
            r.download_size == self.download_size,
            r.upload_size == self.upload_size,
    {
        ClientTiming {
            started_ts: self.started_ts,
            first_byte_ts: self.first_byte_ts,
            read_done_ts: self.read_done_ts,
            copied_ts: self.copied_ts,
            server,
            download_size: self.download_size,
            upload_size: self.upload_size,
        }
    }
}

/// What the server observes in the course of an exchange.
pub ghost struct ServerObservations {
    /// When the connection was accepted.
    pub accepted_at: Timestamp,
    /// How many bytes were sent.
    pub copied: u64,
    /// When they were sent.
    pub copied_at: Timestamp,
    /// How many bytes the first read gave.
    pub count: usize,
    /// When it gave them.
    pub first_at: Timestamp,
    /// What was in the buffer when it was full.
    pub received: Seq<u8>,
    /// When it was full.
    pub done_at: Timestamp,
}

/// What the client observes in the course of an exchange.
pub ghost struct ClientObservations {
    /// When the connection succeeded.
    pub started_at: Timestamp,
    /// How many bytes the first read gave.
    pub count: usize,
    /// When it gave them.
    pub first_at: Timestamp,
    /// When the buffer was full.
    pub done_at: Timestamp,
    /// What was in it.
    pub received: Seq<u8>,
    /// When the payload was sent.
    pub copied_at: Timestamp,
    /// The server's timing.
    pub server: ServerTiming,
}

/// The outcome of the server's course through all of its stages.
pub open spec fn server_course(send: &[u8], expected: &[u8], o: ServerObservations) -> Result<
    ServerTiming,
    ExchangeFailure,
> {
    let accepted = ServerAccepted { send, expected, accepted_ts: o.accepted_at };
    match accepted.after_send(o.copied, o.copied_at) {
        Err(e) => Err(e),
        Ok(sent) => match sent.after_first_read(o.count, o.first_at) {
            Err(e) => Err(e),
            Ok(reading) => reading.after_read(o.received, o.done_at),
        },
    }
}

/// The outcome of the client's course through all of its stages.
pub open spec fn client_course(send: &[u8], expected: &[u8], o: ClientObservations) -> Result<
    ClientTiming,
    ExchangeFailure,
> {
    let started = ClientStarted { send, expected, started_ts: o.started_at };
    let read = started.after_first_read(o.count, o.first_at).after_read(o.done_at);
    match read.after_send(o.received, o.copied_at) {
        Err(e) => Err(e),
        Ok(sent) => Ok(sent.after_timing(o.server)),
    }
}

/// The server goes on after sending exactly if it sent as many bytes as its payload has. It then
/// knows when it accepted and when it had sent, and expects what it expected before; otherwise it
/// says how many bytes were sent and how many the payload has.
pub proof fn law_server_sends_all(stage: ServerAccepted<'_>, copied: u64, at: Timestamp)
    ensures
        stage.after_send(copied, at) is Ok <==> copied == stage.send@.len(),
        stage.after_send(copied, at) matches Ok(sent) ==> sent.expected == stage.expected
            && sent.accepted_ts == stage.accepted_ts && sent.copied_ts == at,
        stage.after_send(copied, at) matches Err(e) ==> e is SendSizeMismatch && e->copied == copied
            && e->size == stage.send@.len(),
{
}

/// The server goes on after its first read exactly if that gave something. It fills its buffer on
/// from exactly where the first read ended, so that what it has read and what it has still to read
/// make up the expected payload.
pub proof fn law_server_fills_on(stage: ServerSent<'_>, count: usize, at: Timestamp)
    ensures
        stage.after_first_read(count, at) is Ok <==> count > 0,
        stage.after_first_read(count, at) matches Ok(reading) ==> reading.filled == count && (
        reading.expected@.len() - reading.filled) + count == stage.expected@.len(),
        stage.after_first_read(count, at) matches Ok(reading) ==> reading.first_byte_ts == at
            && reading.expected == stage.expected && reading.accepted_ts == stage.accepted_ts
            && reading.copied_ts == stage.copied_ts,
        stage.after_first_read(count, at) matches Err(e) ==> e is UnexpectedEof,
{
}

/// The server finishes exactly if its buffer holds the expected payload, with the clocks noted
/// before and the present one.
pub proof fn law_server_compares(stage: ServerReading<'_>, received: Seq<u8>, at: Timestamp)
    ensures
        stage.after_read(received, at) is Ok <==> received == stage.expected@,
        stage.after_read(received, at) matches Ok(timing) ==> timing.accepted_ts
            == stage.accepted_ts && timing.copied_ts == stage.copied_ts && timing.first_byte_ts
            == stage.first_byte_ts && timing.read_done_ts == at,
        stage.after_read(received, at) matches Err(e) ==> e is Corruption,
{
}

/// The client fills its buffer on from exactly where its first read ended, so that what it has read
/// and what it has still to read make up the expected payload.
pub proof fn law_client_fills_on(stage: ClientStarted<'_>, count: usize, at: Timestamp)
    ensures
        stage.after_first_read(count, at).filled == count,
        (stage.after_first_read(count, at).expected@.len() - stage.after_first_read(
            count,
            at,
        ).filled) + count == stage.expected@.len(),
        stage.after_first_read(count, at).first_byte_ts == at,
        stage.after_first_read(count, at).started_ts == stage.started_ts,
        stage.after_first_read(count, at).send == stage.send,
        stage.after_first_read(count, at).expected == stage.expected,
{
}

/// When its buffer is full, the client notes the clock, and nothing else changes.
pub proof fn law_client_reads_all(stage: ClientReading<'_>, at: Timestamp)
    ensures
        stage.after_read(at).read_done_ts == at,
        stage.after_read(at).first_byte_ts == stage.first_byte_ts,
        stage.after_read(at).started_ts == stage.started_ts,
        stage.after_read(at).send == stage.send,
        stage.after_read(at).expected == stage.expected,
{
}

/// The client goes on after sending exactly if what it had received is the expected payload. The
/// sizes it notes are those of the payload it expected and of the payload it sent.
pub proof fn law_client_compares(stage: ClientRead<'_>, received: Seq<u8>, at: Timestamp)
    ensures
        stage.after_send(received, at) is Ok <==> received == stage.expected@,
        stage.after_send(received, at) matches Ok(sent) ==> sent.download_size
            == stage.expected@.len() && sent.upload_size == stage.send@.len(),
        stage.after_send(received, at) matches Ok(sent) ==> sent.started_ts == stage.started_ts
            && sent.first_byte_ts == stage.first_byte_ts && sent.read_done_ts == stage.read_done_ts
            && sent.copied_ts == at,
        stage.after_send(received, at) matches Err(e) ==> e is Corruption,
{
}

/// The client's timing is what it noted, and the server's timing as it arrived.
pub proof fn law_client_keeps_timing(stage: ClientSent, server: ServerTiming)
    ensures
        stage.after_timing(server).server == server,
        stage.after_timing(server).started_ts == stage.started_ts,
        stage.after_timing(server).first_byte_ts == stage.first_byte_ts,
        stage.after_timing(server).read_done_ts == stage.read_done_ts,
        stage.after_timing(server).copied_ts == stage.copied_ts,
        stage.after_timing(server).download_size == stage.download_size,
        stage.after_timing(server).upload_size == stage.upload_size,
{
}

/// Which failure breaks off the server's exchange: first of all that it did not send its payload
/// whole, then that the client sent nothing, and last that the client sent something else.
pub proof fn law_server_failure(send: &[u8], expected: &[u8], o: ServerObservations)
    ensures
        o.copied != send@.len() ==> (server_course(send, expected, o) matches Err(e) && e is
            SendSizeMismatch && e->copied == o.copied && e->size == send@.len()),
        o.copied == send@.len() && o.count == 0 ==> (server_course(send, expected, o) matches Err(
            e,
        ) && e is UnexpectedEof),
        o.copied == send@.len() && o.count > 0 && o.received != expected@ ==> (server_course(
            send,
            expected,
            o,
        ) matches Err(e) && e is Corruption),
{
}

/// The server finishes an exchange exactly if it sent all of its payload, the client sent at least
/// one byte, and what the client sent is the expected payload. Its timing is then the clock as it
/// was noted. So with an empty payload to receive it never finishes.
pub proof fn law_server_finishes(send: &[u8], expected: &[u8], o: ServerObservations)
    ensures
        server_course(send, expected, o) is Ok <==> o.copied == send@.len() && o.count > 0
            && o.received == expected@,
        server_course(send, expected, o) matches Ok(t) ==> t == (ServerTiming {
            accepted_ts: o.accepted_at,
            copied_ts: o.copied_at,
            first_byte_ts: o.first_at,
            read_done_ts: o.done_at,
        }),
        expected@.len() == 0 && o.count <= expected@.len() ==> server_course(send, expected, o) is
            Err,
{
}

/// The client finishes an exchange exactly if what the server sent is the expected payload. Its
/// timing is then the clock as it was noted, the server's timing, and the sizes of the two
/// payloads. A first read that gave nothing changes none of this.
pub proof fn law_client_finishes(send: &[u8], expected: &[u8], o: ClientObservations)
    ensures
        client_course(send, expected, o) is Ok <==> o.received == expected@,
        client_course(send, expected, o) is Err ==> client_course(send, expected, o) == Err::<
            ClientTiming,
            ExchangeFailure,
        >(ExchangeFailure::Corruption),
        client_course(send, expected, o) matches Ok(t) ==> t == (ClientTiming {
            started_ts: o.started_at,
            first_byte_ts: o.first_at,
            read_done_ts: o.done_at,
            copied_ts: o.copied_at,
            server: o.server,
            download_size: expected.len(),
            upload_size: send.len(),
        }) && t.download_size == expected@.len() && t.upload_size == send@.len(),
{
}

/// Where both sides finish, each received exactly what the other was to send, and the sizes in the
/// client's timing are those of what was received on either side.
pub proof fn law_payloads_cross(
    upload: &[u8],
    download: &[u8],
    server: ServerObservations,
    client: ClientObservations,
)
    requires
        server_course(download, upload, server) is Ok,
        client_course(upload, download, client) is Ok,
    ensures
        server.received == upload@,
        client.received == download@,
        server.copied == client.received.len(),
        client_course(upload, download, client)->Ok_0.download_size == client.received.len(),
        client_course(upload, download, client)->Ok_0.upload_size == server.received.len(),
{
}

/// Where both sides finish and the server's timing reaches the client, the summary of the exchange
/// gives the time from the server's accept to the client's first byte, the time of the client's
/// reading with the size of the server's payload, the time from the client's last byte to the
/// server's first, and the time of the server's reading with the size of the client's payload.
pub proof fn law_exchange_summarized(
    upload: &[u8],
    download: &[u8],
    server: ServerObservations,
    client: ClientObservations,
    timing: ClientTiming,
    summary: TimingSummary,
)
    requires
        server_course(download, upload, server) == Ok::<ServerTiming, ExchangeFailure>(
            client.server,
        ),
        client_course(upload, download, client) == Ok::<ClientTiming, ExchangeFailure>(timing),
        summary.summarizes(timing),
    ensures
        summary.download_ttfb@ == client.first_at@ - server.accepted_at@,
        summary.download_rate.bytes == download@.len(),
        summary.download_rate.time@ == client.done_at@ - client.first_at@,
        summary.upload_ttfb@ == server.first_at@ - client.done_at@,
        summary.upload_rate.bytes == upload@.len(),
        summary.upload_rate.time@ == server.done_at@ - server.first_at@,
{
}

} // verus!
