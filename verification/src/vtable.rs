//! The table manager: the list of tables, the form by which one is added,
//! and the address that a table's QR code carries.

use vstd::prelude::*;
use vstd::string::*;
use vstd::utf8::encode_utf8;
use crate::dbt::{snapshot_view, VirtualTable, VirtualTableID, VirtualTableModel};
use crate::decimal::{decimal_text, render_u32};
use crate::offers::outcome_view;
use crate::request::{Command, CommandModel, Request, RequestModel};
use crate::scan::append_bytes;

verus! {

/// Whether `byte` is written as an escape in the path of a table's
/// address: the controls, the space, `"`, `#`, `%`, `&`, `/`, `<`, `=`,
/// `>`, and every byte outside ASCII.
pub open spec fn must_escape(byte: u8) -> bool {
    byte <= 0x20 || byte >= 0x7f || byte == 0x22 || byte == 0x23 || byte == 0x25 || byte == 0x26
        || byte == 0x2f || byte == 0x3c || byte == 0x3d || byte == 0x3e
}

/// The upper-case hexadecimal digit of `nibble`, as a byte.
pub open spec fn hex_digit(nibble: int) -> u8 {
    if nibble < 10 {
        (48 + nibble) as u8
    } else {
        (55 + nibble) as u8
    }
}

/// The escape of `byte`: a percent sign and its two hexadecimal digits.
pub open spec fn escape_of(byte: u8) -> Seq<u8> {
    seq![37u8, hex_digit(byte as int / 16), hex_digit(byte as int % 16)]
}

/// `bytes` with every byte that must be escaped replaced by its escape.
pub open spec fn escaped(bytes: Seq<u8>) -> Seq<u8>
    decreases bytes.len(),
{
    if bytes.len() == 0 {
        Seq::empty()
    } else if must_escape(bytes.last()) {
        escaped(bytes.drop_last()) + escape_of(bytes.last())
    } else {
        escaped(bytes.drop_last()).push(bytes.last())
    }
}

/// The address under which `table` is served by the host `host` on port
/// `port`, as the bytes of its text: `http://host:port/` and the escaped
/// name of the table.
pub open spec fn table_url_spec(host: Seq<char>, port: nat, table: Seq<char>) -> Seq<u8> {
    encode_utf8("http://"@ + host + ":"@ + decimal_text(port) + "/"@) + escaped(
        encode_utf8(table),
    )
}

/// What is written for a table's name holds nothing that must be
/// escaped: every byte of it is plain ASCII outside the escaped set, or
/// the percent sign of an escape.
pub proof fn lemma_escaped_is_plain(bytes: Seq<u8>)
    ensures
        forall|i: int|
            0 <= i < escaped(bytes).len() ==> (#[trigger] escaped(bytes)[i]) == 37 || !must_escape(
                escaped(bytes)[i],
            ),
    decreases bytes.len(),
{
    if bytes.len() > 0 {
        let init = escaped(bytes.drop_last());
        lemma_escaped_is_plain(bytes.drop_last());
        assert forall|i: int| 0 <= i < escaped(bytes).len() implies (#[trigger] escaped(bytes)[i])
            == 37 || !must_escape(escaped(bytes)[i]) by {
            if i >= init.len() && must_escape(bytes.last()) {
                assert(escaped(bytes)[i] == escape_of(bytes.last())[i - init.len()]);
            }
        }
    }
}

/// `percent_encoding::percent_encode_byte`: the three ASCII characters
/// that escape `byte`, a percent sign and the two upper-case hexadecimal
/// digits of its value, here as their bytes.
#[verifier::external_body]
fn escape_byte(byte: u8) -> (escape: &'static [u8])
    ensures
        escape@ == escape_of(byte),
{
    percent_encoding::percent_encode_byte(byte).as_bytes()
}

/// Whether `byte` must be escaped.
fn needs_escape(byte: u8) -> (needed: bool)
    ensures
        needed == must_escape(byte),
{
    byte <= 0x20 || byte >= 0x7f || byte == 0x22 || byte == 0x23 || byte == 0x25 || byte == 0x26
        || byte == 0x2f || byte == 0x3c || byte == 0x3d || byte == 0x3e
}

/// Builds the address under which `table` is served.
pub fn table_url(host: &str, port: u16, table: &str) -> (url: Vec<u8>)
    ensures
        url@ == table_url_spec(host@, port as nat, table@),
{
    let head = String::from_str("http://").concat(host).concat(":").concat(
        render_u32(port as u32).as_str(),
    ).concat("/");
    let mut url: Vec<u8> = Vec::new();
    append_bytes(&mut url, head.as_str().as_bytes());
    let ghost prefix = url@;
    let name = table.as_bytes();
    let mut i: usize = 0;
    while i < name.len()
        invariant
            i <= name.len(),
            url@ == prefix + escaped(name@.take(i as int)),
        decreases name.len() - i,
    {
        let byte = name[i];
        assert(name@.take(i + 1).drop_last() =~= name@.take(i as int));
        if needs_escape(byte) {
            append_bytes(&mut url, escape_byte(byte));
        } else {
            url.push(byte);
        }
        i += 1;
    }
    assert(name@.take(name.len() as int) =~= name@);
    url
}

/// The events of the table manager.
#[derive(Clone, Debug, PartialEq, Eq)]
pub enum VirtualTableManagerMessage {
    /// A fetch of the tables ended.
    FetchedVirtualTables(Result<Vec<VirtualTable>, String>),
    /// The user asked for the QR code of a table.
    GenerateQRCode(VirtualTableID),
    /// The user closed the QR code.
    CloseQRCode,
    /// The user asked for a table to be deleted.
    DeleteVirtualTable(VirtualTableID),
    /// The deletion ended.
    DeleteVirtualTablePost(Result<(), String>),
    /// The user submitted the name of a new table.
    AddVirtualTable(VirtualTableID),
    /// The insertion ended.
    AddVirtualTablePost(Result<(), String>),
    /// The user edited the name field.
    TextInputed(String),
}

/// The model of a [`VirtualTableManagerMessage`].
pub enum VirtualTableManagerMessageModel {
    FetchedVirtualTables(Result<Seq<VirtualTableModel>, Seq<char>>),
    GenerateQRCode(Seq<char>),
    CloseQRCode,
    DeleteVirtualTable(Seq<char>),
    DeleteVirtualTablePost(Result<(), Seq<char>>),
    AddVirtualTable(Seq<char>),
    AddVirtualTablePost(Result<(), Seq<char>>),
    TextInputed(Seq<char>),
}

impl DeepView for VirtualTableManagerMessage {
    type V = VirtualTableManagerMessageModel;

    open spec fn deep_view(&self) -> VirtualTableManagerMessageModel {
        match self {
            VirtualTableManagerMessage::FetchedVirtualTables(r) =>
                VirtualTableManagerMessageModel::FetchedVirtualTables(snapshot_view(*r)),
            VirtualTableManagerMessage::GenerateQRCode(t) =>
                VirtualTableManagerMessageModel::GenerateQRCode(t@),
            VirtualTableManagerMessage::CloseQRCode => VirtualTableManagerMessageModel::CloseQRCode,
            VirtualTableManagerMessage::DeleteVirtualTable(t) =>
                VirtualTableManagerMessageModel::DeleteVirtualTable(t@),
            VirtualTableManagerMessage::DeleteVirtualTablePost(r) =>
                VirtualTableManagerMessageModel::DeleteVirtualTablePost(outcome_view(*r)),
            VirtualTableManagerMessage::AddVirtualTable(t) =>
                VirtualTableManagerMessageModel::AddVirtualTable(t@),
            VirtualTableManagerMessage::AddVirtualTablePost(r) =>
                VirtualTableManagerMessageModel::AddVirtualTablePost(outcome_view(*r)),
            VirtualTableManagerMessage::TextInputed(t) =>
                VirtualTableManagerMessageModel::TextInputed(t@),
        }
    }
}

/// Names the message by which the outcome of a request comes back.
#[derive(Clone, Copy, Debug, PartialEq, Eq, Structural)]
pub enum VirtualTableManagerReply {
    /// Comes back as [`VirtualTableManagerMessage::FetchedVirtualTables`].
    Tables,
    /// Comes back as [`VirtualTableManagerMessage::DeleteVirtualTablePost`].
    Deleted,
    /// Comes back as [`VirtualTableManagerMessage::AddVirtualTablePost`].
    Added,
}

/// The state of the table manager: the tables last fetched, the table
/// whose QR code is open with the address the code carries, and what the
/// name field holds.
#[derive(Clone, Debug, PartialEq, Eq)]
pub struct VirtualTableManager {
    pub fetch_vtables: Result<Vec<VirtualTable>, String>,
    pub qr_code: Option<(VirtualTableID, Vec<u8>)>,
    pub table_name_text_input: String,
}

/// The model of a [`VirtualTableManager`].
pub struct VirtualTableManagerModel {
    pub tables: Result<Seq<VirtualTableModel>, Seq<char>>,
    pub qr_code: Option<(Seq<char>, Seq<u8>)>,
    pub name_input: Seq<char>,
}

impl DeepView for VirtualTableManager {
    type V = VirtualTableManagerModel;

    open spec fn deep_view(&self) -> VirtualTableManagerModel {
        VirtualTableManagerModel {
            tables: snapshot_view(self.fetch_vtables),
            qr_code: match self.qr_code {
                Some((table, url)) => Some((table@, url@)),
                None => None,
            },
            name_input: self.table_name_text_input@,
        }
    }
}

/// The command that fetches the tables again.
pub open spec fn refresh_tables() -> CommandModel<VirtualTableManagerReply> {
    CommandModel::Send { request: RequestModel::Tables, reply: VirtualTableManagerReply::Tables }
}

/// One transition of the table manager, on a machine whose tables are
/// served by `host` on `port`: the state after `message`, and the command
/// the transition issues.
pub open spec fn step(
    state: VirtualTableManagerModel,
    message: VirtualTableManagerMessageModel,
    host: Seq<char>,
    port: nat,
) -> (VirtualTableManagerModel, CommandModel<VirtualTableManagerReply>) {
    match message {
        VirtualTableManagerMessageModel::GenerateQRCode(table) => (
            VirtualTableManagerModel {
                qr_code: Some((table, table_url_spec(host, port, table))),
                ..state
            },
            CommandModel::Nothing,
        ),
        VirtualTableManagerMessageModel::CloseQRCode => (
            VirtualTableManagerModel { qr_code: None, ..state },
            CommandModel::Nothing,
        ),
        VirtualTableManagerMessageModel::FetchedVirtualTables(outcome) => (
            VirtualTableManagerModel { tables: outcome, ..state },
            CommandModel::Nothing,
        ),
        VirtualTableManagerMessageModel::DeleteVirtualTable(table) => (
            state,
            CommandModel::Send {
                request: RequestModel::TablesDelete { table: table },
                reply: VirtualTableManagerReply::Deleted,
            },
        ),
        VirtualTableManagerMessageModel::DeleteVirtualTablePost(Ok(())) => (
            state,
            refresh_tables(),
        ),
        VirtualTableManagerMessageModel::DeleteVirtualTablePost(Err(_)) => (
            state,
            CommandModel::Nothing,
        ),
        VirtualTableManagerMessageModel::AddVirtualTable(name) => if name.len() == 0 {
            (state, CommandModel::Nothing)
        } else {
            (
                state,
                CommandModel::Send {
                    request: RequestModel::TablesInsert {
                        table: VirtualTableModel { name: name, order_count: 0 },
                    },
                    reply: VirtualTableManagerReply::Added,
                },
            )
        },
        VirtualTableManagerMessageModel::AddVirtualTablePost(Ok(())) => (
            VirtualTableManagerModel { name_input: Seq::empty(), ..state },
            refresh_tables(),
        ),
        VirtualTableManagerMessageModel::AddVirtualTablePost(Err(_)) => (
            state,
            CommandModel::Nothing,
        ),
        VirtualTableManagerMessageModel::TextInputed(text) => (
            VirtualTableManagerModel { name_input: text, ..state },
            CommandModel::Nothing,
        ),
    }
}

/// A fetched list of tables depends on the response alone: it replaces
/// whatever was held, and the same response twice in a row leaves the
/// state of the first.
pub proof fn lemma_repeated_response_same_tables(
    state: VirtualTableManagerModel,
    other: VirtualTableManagerModel,
    outcome: Result<Seq<VirtualTableModel>, Seq<char>>,
    host: Seq<char>,
    port: nat,
)
    ensures
        ({
            let message = VirtualTableManagerMessageModel::FetchedVirtualTables(outcome);
            &&& step(state, message, host, port).0.tables == outcome
            &&& step(other, message, host, port).0.tables == outcome
            &&& step(step(state, message, host, port).0, message, host, port) == step(
                state,
                message,
                host,
                port,
            )
        }),
{
}

/// Nothing is sent for a table without a name, and the tables are
/// fetched again exactly after a deletion or an insertion that succeeded.
pub proof fn lemma_issued_requests(
    state: VirtualTableManagerModel,
    message: VirtualTableManagerMessageModel,
    host: Seq<char>,
    port: nat,
)
    ensures
        step(state, message, host, port).1 matches CommandModel::Send { request, reply } ==> {
            match reply {
                VirtualTableManagerReply::Tables => request == RequestModel::Tables && (message
                    matches VirtualTableManagerMessageModel::DeleteVirtualTablePost(Ok(_))
                    || message matches VirtualTableManagerMessageModel::AddVirtualTablePost(
                    Ok(_),
                )),
                VirtualTableManagerReply::Deleted => message
                    matches VirtualTableManagerMessageModel::DeleteVirtualTable(table) && request
                    == (RequestModel::TablesDelete { table: table }),
                VirtualTableManagerReply::Added => message
                    matches VirtualTableManagerMessageModel::AddVirtualTable(name) && name.len() > 0
                    && request == (RequestModel::TablesInsert {
                    table: VirtualTableModel { name: name, order_count: 0 },
                }),
            }
        },
{
}

impl Default for VirtualTableManager {
    /// The table manager before anything was fetched, with no QR code
    /// open and an empty name field.
    fn default() -> (manager: VirtualTableManager)
        ensures
            manager.deep_view() == (VirtualTableManagerModel {
                tables: Err("Fetching data..."@),
                qr_code: None,
                name_input: Seq::empty(),
            }),
    {
        VirtualTableManager {
            fetch_vtables: Err(String::from_str("Fetching data...")),
            qr_code: None,
            table_name_text_input: String::new(),
        }
    }
}

impl VirtualTableManager {
    /// Takes one transition: applies `message` to the state and returns the
    /// command that the runtime is to carry out. `host` and `port` say
    /// where this machine serves its tables; they are read only when a QR
    /// code is asked for.
    pub fn update(&mut self, message: VirtualTableManagerMessage, host: &str, port: u16) -> (command:
        Command<VirtualTableManagerReply>)
        ensures
            (final(self).deep_view(), command.deep_view()) == step(
                old(self).deep_view(),
                message.deep_view(),
                host@,
                port as nat,
            ),
    {
        match message {
            VirtualTableManagerMessage::GenerateQRCode(table) => {
                let url = table_url(host, port, table.as_str());
                self.qr_code = Some((table, url));
                Command::Nothing
            },
            VirtualTableManagerMessage::CloseQRCode => {
                self.qr_code = None;
                Command::Nothing
            },
            VirtualTableManagerMessage::FetchedVirtualTables(response) => {
                self.fetch_vtables = response;
                Command::Nothing
            },
            VirtualTableManagerMessage::DeleteVirtualTable(table) => Command::Send {
                request: Request::TablesDelete { table },
                reply: VirtualTableManagerReply::Deleted,
            },
            VirtualTableManagerMessage::DeleteVirtualTablePost(result) => match result {
                Ok(()) => Command::Send {
                    request: Request::Tables,
                    reply: VirtualTableManagerReply::Tables,
                },
                Err(_) => Command::Nothing,
            },
            VirtualTableManagerMessage::AddVirtualTable(name) => {
                if name.as_str().is_empty() {
                    return Command::Nothing;
                }
                Command::Send {
                    request: Request::TablesInsert { table: VirtualTable { name, order_count: 0 } },
                    reply: VirtualTableManagerReply::Added,
                }
            },
            VirtualTableManagerMessage::AddVirtualTablePost(result) => match result {
                Ok(()) => {
                    self.table_name_text_input = String::new();
                    Command::Send {
                        request: Request::Tables,
                        reply: VirtualTableManagerReply::Tables,
                    }
                },
                Err(_) => Command::Nothing,
            },
            VirtualTableManagerMessage::TextInputed(text) => {
                self.table_name_text_input = text;
                Command::Nothing
            },
        }
    }
}

} // verus!
