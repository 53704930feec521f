//! The one-line status texts that the transport shows while it runs.

use vstd::prelude::*;
use vstd::string::*;

use crate::text;

verus! {

/// What the transport is doing. Error fields carry the error's own rendering.
pub enum Status {
    /// The transport starts.
    Init,
    /// The interface is about to be registered.
    Registering,
    /// The interface could not be registered.
    RegisterFailed { error: String },
    /// The controller is about to be reset.
    Resetting,
    /// Endpoints are up and the host may talk.
    Ready { ep_out: u8, ep_in: u8 },
    /// Request number `number`, of `bytes` bytes, is being handled.
    Dispatching { number: u64, bytes: usize },
    /// A response could not be serialised.
    SerialiseFailed { error: String },
    /// The response to request number `number` is being sent.
    Sending { bytes: usize, number: u64 },
    /// One transfer of a response went out.
    ChunkSent { index: u64, bytes: usize, written: usize },
    /// The host went away while a response was being sent.
    SendDisconnected,
    /// A transfer of a response failed.
    WriteFailed { error: String },
    /// Request number `number` has been answered.
    Done { number: u64 },
    /// The reader could not map its buffer.
    ReaderMapFailed { error: String },
    /// The reader runs.
    ReaderStarted { ep_out: u8, ep_in: u8 },
    /// The host went away while the reader was waiting.
    WaitingForHost,
    /// A read failed.
    ReadFailed { error: String },
    /// Bytes arrived.
    Received { bytes: usize, total_bytes: u64, total_lines: u64 },
    /// A line is complete.
    GotLine { number: u64, bytes: usize },
    /// Nobody takes lines any more.
    DispatcherGone,
    /// A line outgrew the cap.
    OversizeDropped,
}

/// `WebUSB ready (EP out=<ep_out>, in=<ep_in>)`.
pub open spec fn ready_text(ep_out: nat, ep_in: nat) -> Seq<char> {
    "WebUSB ready (EP out="@ + text::decimal_text(ep_out) + ", in="@ + text::decimal_text(ep_in) + ")"@
}

/// `rx <bytes>B / <total_bytes> total / <total_lines> lines`.
pub open spec fn received_text(bytes: nat, total_bytes: nat, total_lines: nat) -> Seq<char> {
    "rx "@ + text::decimal_text(bytes) + "B / "@ + text::decimal_text(total_bytes) + " total / "@
        + text::decimal_text(total_lines) + " lines"@
}

/// `got line <number> (<bytes>B)`.
pub open spec fn got_line_text(number: nat, bytes: nat) -> Seq<char> {
    "got line "@ + text::decimal_text(number) + " ("@ + text::decimal_text(bytes) + "B)"@
}

/// `dispatch <number> (<bytes>B)`.
pub open spec fn dispatching_text(number: nat, bytes: nat) -> Seq<char> {
    "dispatch "@ + text::decimal_text(number) + " ("@ + text::decimal_text(bytes) + "B)"@
}

/// `tx <bytes>B (#<number>)`.
pub open spec fn sending_text(bytes: nat, number: nat) -> Seq<char> {
    "tx "@ + text::decimal_text(bytes) + "B (#"@ + text::decimal_text(number) + ")"@
}

/// `tx chunk <index> <bytes>B ok (<written>)`.
pub open spec fn chunk_sent_text(index: nat, bytes: nat, written: nat) -> Seq<char> {
    "tx chunk "@ + text::decimal_text(index) + " "@ + text::decimal_text(bytes) + "B ok ("@ + text::decimal_text(
        written,
    ) + ")"@
}

/// `done #<number>`.
pub open spec fn done_text(number: nat) -> Seq<char> {
    "done #"@ + text::decimal_text(number)
}

/// `WebUSB reader started (out=<ep_out> in=<ep_in>)`.
pub open spec fn reader_started_text(ep_out: nat, ep_in: nat) -> Seq<char> {
    "WebUSB reader started (out="@ + text::decimal_text(ep_out) + " in="@ + text::decimal_text(ep_in) + ")"@
}

/// The view of a status is the text that it is shown as.
impl View for Status {
    type V = Seq<char>;

    open spec fn view(&self) -> Seq<char> {
        match *self {
            Status::Init => "WebUSB: init"@,
            Status::Registering => "WebUSB: registering interface"@,
            Status::RegisterFailed { error } => "WebUSB: register interface failed: "@ + error@,
            Status::Resetting => "WebUSB: resetting USB"@,
            Status::Ready { ep_out, ep_in } => ready_text(ep_out as nat, ep_in as nat),
            Status::Dispatching { number, bytes } => dispatching_text(number as nat, bytes as nat),
            Status::SerialiseFailed { error } => "serialise err: "@ + error@,
            Status::Sending { bytes, number } => sending_text(bytes as nat, number as nat),
            Status::ChunkSent { index, bytes, written } => chunk_sent_text(
                index as nat,
                bytes as nat,
                written as nat,
            ),
            Status::SendDisconnected => "tx: host disc"@,
            Status::WriteFailed { error } => "write err: "@ + error@,
            Status::Done { number } => done_text(number as nat),
            Status::ReaderMapFailed { error } => "reader: map err "@ + error@,
            Status::ReaderStarted { ep_out, ep_in } => reader_started_text(
                ep_out as nat,
                ep_in as nat,
            ),
            Status::WaitingForHost => "WebUSB: waiting for host"@,
            Status::ReadFailed { error } => "read err: "@ + error@,
            Status::Received { bytes, total_bytes, total_lines } => received_text(
                bytes as nat,
                total_bytes as nat,
                total_lines as nat,
            ),
            Status::GotLine { number, bytes } => got_line_text(number as nat, bytes as nat),
            Status::DispatcherGone => "dispatcher gone"@,
            Status::OversizeDropped => "rx: oversize line dropped"@,
        }
    }
}

impl Status {
    /// The text of the status.
    pub fn text(&self) -> (text: String)
        ensures
            text@ == self@,
    {
        match self {
            Status::Init => "WebUSB: init".to_owned(),
            Status::Registering => "WebUSB: registering interface".to_owned(),
            Status::RegisterFailed { error } => {
                "WebUSB: register interface failed: ".to_owned().concat(error.as_str())
            },
            Status::Resetting => "WebUSB: resetting USB".to_owned(),
            Status::Ready { ep_out, ep_in } => {
                let ep_out: u64 = *ep_out as u64;
                let ep_in: u64 = *ep_in as u64;
                "WebUSB ready (EP out=".to_owned().concat(text::decimal(ep_out).as_str()).concat(
                    ", in=",
                ).concat(text::decimal(ep_in).as_str()).concat(")")
            },
            Status::Dispatching { number, bytes } => {
                let bytes: u64 = *bytes as u64;
                "dispatch ".to_owned().concat(text::decimal(*number).as_str()).concat(" (").concat(
                    text::decimal(bytes).as_str(),
                ).concat("B)")
            },
            Status::SerialiseFailed { error } => {
                "serialise err: ".to_owned().concat(error.as_str())
            },
            Status::Sending { bytes, number } => {
                let bytes: u64 = *bytes as u64;
                "tx ".to_owned().concat(text::decimal(bytes).as_str()).concat("B (#").concat(
                    text::decimal(*number).as_str(),
                ).concat(")")
            },
            Status::ChunkSent { index, bytes, written } => {
                let bytes: u64 = *bytes as u64;
                let written: u64 = *written as u64;
                "tx chunk ".to_owned().concat(text::decimal(*index).as_str()).concat(" ").concat(
                    text::decimal(bytes).as_str(),
                ).concat("B ok (").concat(text::decimal(written).as_str()).concat(")")
            },
            Status::SendDisconnected => "tx: host disc".to_owned(),
            Status::WriteFailed { error } => "write err: ".to_owned().concat(error.as_str()),
            Status::Done { number } => "done #".to_owned().concat(text::decimal(*number).as_str()),
            Status::ReaderMapFailed { error } => {
                "reader: map err ".to_owned().concat(error.as_str())
            },
            Status::ReaderStarted { ep_out, ep_in } => {
                let ep_out: u64 = *ep_out as u64;
                let ep_in: u64 = *ep_in as u64;
                "WebUSB reader started (out=".to_owned().concat(text::decimal(ep_out).as_str()).concat(
                    " in=",
                ).concat(text::decimal(ep_in).as_str()).concat(")")
            },
            Status::WaitingForHost => "WebUSB: waiting for host".to_owned(),
            Status::ReadFailed { error } => "read err: ".to_owned().concat(error.as_str()),
            Status::Received { bytes, total_bytes, total_lines } => {
                let bytes: u64 = *bytes as u64;
                "rx ".to_owned().concat(text::decimal(bytes).as_str()).concat("B / ").concat(
                    text::decimal(*total_bytes).as_str(),
                ).concat(" total / ").concat(text::decimal(*total_lines).as_str()).concat(" lines")
            },
            Status::GotLine { number, bytes } => {
                let bytes: u64 = *bytes as u64;
                "got line ".to_owned().concat(text::decimal(*number).as_str()).concat(" (").concat(
                    text::decimal(bytes).as_str(),
                ).concat("B)")
            },
            Status::DispatcherGone => "dispatcher gone".to_owned(),
            Status::OversizeDropped => "rx: oversize line dropped".to_owned(),
        }
    }
}

/// Whoever knows how to read numbers reads the endpoint numbers off the status,
/// each in its place.
pub proof fn law_endpoints_can_be_read(
    ep_out: nat,
    ep_in: nat,
    out_numeral: Seq<char>,
    in_numeral: Seq<char>,
)
    requires
        text::is_numeral(out_numeral, ep_out),
        text::is_numeral(in_numeral, ep_in),
    ensures
        ready_text(ep_out, ep_in) == "WebUSB ready (EP out="@ + out_numeral + ", in="@ + in_numeral
            + ")"@,
        reader_started_text(ep_out, ep_in) == "WebUSB reader started (out="@ + out_numeral
            + " in="@ + in_numeral + ")"@,
{
    text::law_numeral_is_unique(out_numeral, ep_out);
    text::law_numeral_is_unique(in_numeral, ep_in);
}

/// The receiving side's totals can be read off its statuses, each in its place.
pub proof fn law_received_totals_can_be_read(
    bytes: nat,
    total_bytes: nat,
    lines: nat,
    bytes_numeral: Seq<char>,
    total_numeral: Seq<char>,
    lines_numeral: Seq<char>,
)
    requires
        text::is_numeral(bytes_numeral, bytes),
        text::is_numeral(total_numeral, total_bytes),
        text::is_numeral(lines_numeral, lines),
    ensures
        received_text(bytes, total_bytes, lines) == "rx "@ + bytes_numeral + "B / "@ + total_numeral
            + " total / "@ + lines_numeral + " lines"@,
        got_line_text(lines, bytes) == "got line "@ + lines_numeral + " ("@ + bytes_numeral + "B)"@,
{
    text::law_numeral_is_unique(bytes_numeral, bytes);
    text::law_numeral_is_unique(total_numeral, total_bytes);
    text::law_numeral_is_unique(lines_numeral, lines);
}

/// How far a request has come can be read off the sending side's statuses: its
/// number, the sizes, and what of a transfer was taken, each in its place.
pub proof fn law_request_progress_can_be_read(
    number: nat,
    bytes: nat,
    written: nat,
    number_numeral: Seq<char>,
    bytes_numeral: Seq<char>,
    written_numeral: Seq<char>,
)
    requires
        text::is_numeral(number_numeral, number),
        text::is_numeral(bytes_numeral, bytes),
        text::is_numeral(written_numeral, written),
    ensures
        dispatching_text(number, bytes) == "dispatch "@ + number_numeral + " ("@ + bytes_numeral
            + "B)"@,
        sending_text(bytes, number) == "tx "@ + bytes_numeral + "B (#"@ + number_numeral + ")"@,
        chunk_sent_text(number, bytes, written) == "tx chunk "@ + number_numeral + " "@
            + bytes_numeral + "B ok ("@ + written_numeral + ")"@,
        done_text(number) == "done #"@ + number_numeral,
{
    text::law_numeral_is_unique(number_numeral, number);
    text::law_numeral_is_unique(bytes_numeral, bytes);
    text::law_numeral_is_unique(written_numeral, written);
}

} // verus!
