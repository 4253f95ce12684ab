//! Requests and responses carried in reassembled command payloads.
use vstd::prelude::*;

use crate::copy_into;
use crate::Error;

verus! {

/// Commands.
///
/// Specifies the commands of the protocol as well as `Other` for
/// user-defined commands.
#[derive(Debug, Clone, Copy, PartialEq, Eq, Structural)]
pub enum Command {
    BinInfo,
    Info,
    ResetIntoApp,
    ResetIntoBootloader,
    StartFlash,
    WriteFlashPage,
    ChecksumPages,
    ReadWords,
    WriteWords,
    Dmesg,
    Other(u32),
}

/// The command that a raw command id stands for.
pub open spec fn command_from_code(v: u32) -> Command {
    if v == 0x0001 {
        Command::BinInfo
    } else if v == 0x0002 {
        Command::Info
    } else if v == 0x0003 {
        Command::ResetIntoApp
    } else if v == 0x0004 {
        Command::ResetIntoBootloader
    } else if v == 0x0005 {
        Command::StartFlash
    } else if v == 0x0006 {
        Command::WriteFlashPage
    } else if v == 0x0007 {
        Command::ChecksumPages
    } else if v == 0x0008 {
        Command::ReadWords
    } else if v == 0x0009 {
        Command::WriteWords
    } else if v == 0x0010 {
        Command::Dmesg
    } else {
        Command::Other(v)
    }
}

/// The raw command id of a command.
pub open spec fn command_code(c: Command) -> u32 {
    match c {
        Command::BinInfo => 0x0001,
        Command::Info => 0x0002,
        Command::ResetIntoApp => 0x0003,
        Command::ResetIntoBootloader => 0x0004,
        Command::StartFlash => 0x0005,
        Command::WriteFlashPage => 0x0006,
        Command::ChecksumPages => 0x0007,
        Command::ReadWords => 0x0008,
        Command::WriteWords => 0x0009,
        Command::Dmesg => 0x0010,
        Command::Other(v) => v,
    }
}

impl From<u32> for Command {
    fn from(value: u32) -> (r: Self) {
        match value {
            0x0001 => Command::BinInfo,
            0x0002 => Command::Info,
            0x0003 => Command::ResetIntoApp,
            0x0004 => Command::ResetIntoBootloader,
            0x0005 => Command::StartFlash,
            0x0006 => Command::WriteFlashPage,
            0x0007 => Command::ChecksumPages,
            0x0008 => Command::ReadWords,
            0x0009 => Command::WriteWords,
            0x0010 => Command::Dmesg,
            _ => Command::Other(value),
        }
    }
}

impl vstd::std_specs::convert::FromSpecImpl<u32> for Command {
    open spec fn obeys_from_spec() -> bool {
        true
    }

    open spec fn from_spec(v: u32) -> Command {
        command_from_code(v)
    }
}

impl From<Command> for u32 {
    fn from(value: Command) -> (r: u32) {
        match value {
            Command::BinInfo => 0x0001,
            Command::Info => 0x0002,
            Command::ResetIntoApp => 0x0003,
            Command::ResetIntoBootloader => 0x0004,
            Command::StartFlash => 0x0005,
            Command::WriteFlashPage => 0x0006,
            Command::ChecksumPages => 0x0007,
            Command::ReadWords => 0x0008,
            Command::WriteWords => 0x0009,
            Command::Dmesg => 0x0010,
            Command::Other(v) => v,
        }
    }
}

impl vstd::std_specs::convert::FromSpecImpl<Command> for u32 {
    open spec fn obeys_from_spec() -> bool {
        true
    }

    open spec fn from_spec(c: Command) -> u32 {
        command_code(c)
    }
}

/// A raw command id that names none of the protocol's commands.
pub open spec fn is_vendor_code(v: u32) -> bool {
    command_from_code(v) is Other
}

/// Reading any raw command id as a command and writing the command back
/// gives the same id, including ids that name no command of the protocol.
pub proof fn lemma_command_code_round_trip(v: u32)
    ensures
        command_code(command_from_code(v)) == v,
{
}

/// Writing a command as its id and reading the id back gives the same
/// command, for every command but an `Other` that holds the id of a named
/// command.
pub proof fn lemma_command_round_trip(c: Command)
    requires
        c is Other ==> is_vendor_code(c->Other_0),
    ensures
        command_from_code(command_code(c)) == c,
{
}

/// The little-endian 16-bit value of two bytes.
pub open spec fn u16_from_le(b0: u8, b1: u8) -> u16 {
    (b0 as u16) | ((b1 as u16) << 8u16)
}

/// The little-endian 32-bit value of four bytes.
pub open spec fn u32_from_le(b0: u8, b1: u8, b2: u8, b3: u8) -> u32 {
    (b0 as u32) | ((b1 as u32) << 8u32) | ((b2 as u32) << 16u32) | ((b3 as u32) << 24u32)
}

/// The two little-endian bytes of a 16-bit value.
pub open spec fn u16_le_bytes(v: u16) -> Seq<u8> {
    seq![v as u8, (v >> 8u16) as u8]
}

/// The four little-endian bytes of a 32-bit value.
pub open spec fn u32_le_bytes(v: u32) -> Seq<u8> {
    seq![v as u8, (v >> 8u32) as u8, (v >> 16u32) as u8, (v >> 24u32) as u8]
}

/// Reading back the little-endian bytes of a value gives the value.
proof fn lemma_le_round_trip(a: u16, b: u32)
    ensures
        u16_from_le(u16_le_bytes(a)[0], u16_le_bytes(a)[1]) == a,
        u32_from_le(
            u32_le_bytes(b)[0],
            u32_le_bytes(b)[1],
            u32_le_bytes(b)[2],
            u32_le_bytes(b)[3],
        ) == b,
{
    assert(((a as u8) as u16) | ((((a >> 8u16) as u8) as u16) << 8u16) == a) by (bit_vector);
    assert(((b as u8) as u32) | ((((b >> 8u32) as u8) as u32) << 8u32) | ((((b >> 16u32) as u8)
        as u32) << 16u32) | ((((b >> 24u32) as u8) as u32) << 24u32) == b) by (bit_vector);
}

/// The bytes of a request buffer: command id (4 bytes, little-endian), tag
/// (2 bytes, little-endian), two reserved zero bytes, then the data.
pub open spec fn request_bytes(command: Command, tag: u16, data: Seq<u8>) -> Seq<u8> {
    u32_le_bytes(command_code(command)) + u16_le_bytes(tag) + seq![0u8, 0u8] + data
}

/// The command named by a request buffer.
pub open spec fn request_command(bytes: Seq<u8>) -> Command {
    command_from_code(u32_from_le(bytes[0], bytes[1], bytes[2], bytes[3]))
}

/// The tag of a request buffer.
pub open spec fn request_tag(bytes: Seq<u8>) -> u16 {
    u16_from_le(bytes[4], bytes[5])
}

/// The data of a request buffer: everything after the header.
pub open spec fn request_data(bytes: Seq<u8>) -> Seq<u8> {
    bytes.subrange(8, bytes.len() as int)
}

/// Command request.
#[derive(Debug)]
pub struct Request<'a>(&'a [u8]);

impl<'a> View for Request<'a> {
    type V = Seq<u8>;

    closed spec fn view(&self) -> Seq<u8> {
        self.0@
    }
}

impl<'a> Request<'a> {
    /// Fixed header length: command id, tag and two reserved bytes.
    pub const HEADER_LEN: usize = 8;

    /// A request always holds its whole header.
    #[verifier::type_invariant]
    closed spec fn well_formed(self) -> bool {
        self.0@.len() >= 8
    }

    /// Creates a new [`Request`] in `buf`.
    ///
    /// `buf` must be exactly 8 bytes larger than `data` to fit the header;
    /// otherwise nothing is written.
    pub fn new(buf: &'a mut [u8], command: Command, tag: u16, data: &[u8]) -> (r: Result<
        Request<'a>,
        Error,
    >)
        ensures
            old(buf)@.len() != data@.len() + 8 <==> r == Err::<Request<'a>, Error>(
                Error::SizeMismatch,
            ),
            r is Ok <==> old(buf)@.len() == data@.len() + 8,
            r is Err ==> final(buf)@ == old(buf)@,
            r is Ok ==> {
                &&& r->Ok_0@ == request_bytes(command, tag, data@)
                &&& final(buf)@ == request_bytes(command, tag, data@)
            },
    {
        if buf.len() < Self::HEADER_LEN || buf.len() - Self::HEADER_LEN != data.len() {
            return Err(Error::SizeMismatch);
        }
        copy_into(buf, Self::HEADER_LEN, data);
        let cmd: u32 = command.into();
        buf[0] = #[verifier::truncate] (cmd as u8);
        buf[1] = #[verifier::truncate] ((cmd >> 8u32) as u8);
        buf[2] = #[verifier::truncate] ((cmd >> 16u32) as u8);
        buf[3] = #[verifier::truncate] ((cmd >> 24u32) as u8);
        buf[4] = #[verifier::truncate] (tag as u8);
        buf[5] = #[verifier::truncate] ((tag >> 8u16) as u8);
        buf[6] = 0;
        buf[7] = 0;
        let whole: &'a [u8] = buf;
        assert(whole@ =~= request_bytes(command, tag, data@));
        Ok(Request(whole))
    }

    /// Creates a new [`Request`] from a byte array.
    ///
    /// Fails when the buffer is shorter than the header.
    pub fn from_bytes(buf: &'a [u8]) -> (r: Result<Request<'a>, Error>)
        ensures
            r is Ok <==> buf@.len() >= 8,
            buf@.len() < 8 <==> r == Err::<Request<'a>, Error>(Error::HeaderTooShort),
            r is Ok ==> r->Ok_0@ == buf@,
    {
        if buf.len() < Self::HEADER_LEN {
            return Err(Error::HeaderTooShort);
        }
        Ok(Request(buf))
    }

    /// Data length.
    pub fn len(&self) -> (r: usize)
        ensures
            r == self@.len() - 8,
            self@.len() >= 8,
    {
        proof {
            use_type_invariant(self);
        }
        self.0.len() - Self::HEADER_LEN
    }

    /// Get command.
    pub fn command(&self) -> (r: Command)
        ensures
            r == request_command(self@),
    {
        proof {
            use_type_invariant(self);
        }
        let b = self.0;
        let value = (b[0] as u32) | ((b[1] as u32) << 8u32) | ((b[2] as u32) << 16u32) | ((
        b[3] as u32) << 24u32);
        Command::from(value)
    }

    /// Get tag.
    pub fn tag(&self) -> (r: u16)
        ensures
            r == request_tag(self@),
    {
        proof {
            use_type_invariant(self);
        }
        let b = self.0;
        (b[4] as u16) | ((b[5] as u16) << 8u16)
    }

    /// Command data.
    pub fn data(&self) -> (r: &[u8])
        ensures
            r@ == request_data(self@),
    {
        proof {
            use_type_invariant(self);
        }
        vstd::slice::slice_subrange(self.0, Self::HEADER_LEN, self.0.len())
    }
}

/// Writing a request and reading it back gives the same tag, the same data
/// and the same command id; the command itself comes back unless it is an
/// `Other` that holds the id of a named command.
pub proof fn lemma_request_round_trip(command: Command, tag: u16, data: Seq<u8>)
    ensures
        request_bytes(command, tag, data).len() == data.len() + 8,
        command_code(request_command(request_bytes(command, tag, data))) == command_code(command),
        (command is Other ==> is_vendor_code(command->Other_0)) ==> request_command(
            request_bytes(command, tag, data),
        ) == command,
        request_tag(request_bytes(command, tag, data)) == tag,
        request_data(request_bytes(command, tag, data)) == data,
{
    let b = request_bytes(command, tag, data);
    lemma_le_round_trip(tag, command_code(command));
    lemma_command_code_round_trip(command_code(command));
    if command is Other ==> is_vendor_code(command->Other_0) {
        lemma_command_round_trip(command);
    }
    assert(request_data(b) =~= data);
}

/// Response status.
#[derive(Debug, Clone, Copy, PartialEq, Eq, Structural)]
pub enum Status {
    /// The command was processed successfully.
    Success,
    /// Command ID was not known to the device.
    Unknown,
    /// An error occurred during execution of the command.
    Error,
    /// Any other status response.
    Other(u8),
}

/// The status that a raw status byte stands for.
pub open spec fn status_from_code(v: u8) -> Status {
    if v == 0x00 {
        Status::Success
    } else if v == 0x01 {
        Status::Unknown
    } else if v == 0x02 {
        Status::Error
    } else {
        Status::Other(v)
    }
}

/// The raw status byte of a status.
pub open spec fn status_code(s: Status) -> u8 {
    match s {
        Status::Success => 0x00,
        Status::Unknown => 0x01,
        Status::Error => 0x02,
        Status::Other(v) => v,
    }
}

impl From<u8> for Status {
    fn from(value: u8) -> (r: Self) {
        match value {
            0x00 => Status::Success,
            0x01 => Status::Unknown,
            0x02 => Status::Error,
            _ => Status::Other(value),
        }
    }
}

impl vstd::std_specs::convert::FromSpecImpl<u8> for Status {
    open spec fn obeys_from_spec() -> bool {
        true
    }

    open spec fn from_spec(v: u8) -> Status {
        status_from_code(v)
    }
}

impl From<Status> for u8 {
    fn from(value: Status) -> (r: u8) {
        match value {
            Status::Success => 0x00,
            Status::Unknown => 0x01,
            Status::Error => 0x02,
            Status::Other(v) => v,
        }
    }
}

impl vstd::std_specs::convert::FromSpecImpl<Status> for u8 {
    open spec fn obeys_from_spec() -> bool {
        true
    }

    open spec fn from_spec(s: Status) -> u8 {
        status_code(s)
    }
}

/// A raw status byte that names none of the protocol's statuses.
pub open spec fn is_other_status_code(v: u8) -> bool {
    status_from_code(v) is Other
}

/// Reading any raw status byte as a status and writing the status back
/// gives the same byte, including bytes that name no status of the protocol.
pub proof fn lemma_status_code_round_trip(v: u8)
    ensures
        status_code(status_from_code(v)) == v,
{
}

/// Writing a status as its byte and reading the byte back gives the same
/// status, for every status but an `Other` that holds the byte of a named
/// status.
pub proof fn lemma_status_round_trip(s: Status)
    requires
        s is Other ==> is_other_status_code(s->Other_0),
    ensures
        status_from_code(status_code(s)) == s,
{
}

/// The bytes of a response buffer: tag (2 bytes, little-endian), status
/// byte, status info byte, then the data.
pub open spec fn response_bytes(tag: u16, status: Status, status_info: u8, data: Seq<u8>) -> Seq<
    u8,
> {
    u16_le_bytes(tag) + seq![status_code(status), status_info] + data
}

/// The tag of a response buffer.
pub open spec fn response_tag(bytes: Seq<u8>) -> u16 {
    u16_from_le(bytes[0], bytes[1])
}

/// The status of a response buffer.
pub open spec fn response_status(bytes: Seq<u8>) -> Status {
    status_from_code(bytes[2])
}

/// The status info byte of a response buffer.
pub open spec fn response_status_info(bytes: Seq<u8>) -> u8 {
    bytes[3]
}

/// The data of a response buffer: everything after the header.
pub open spec fn response_data(bytes: Seq<u8>) -> Seq<u8> {
    bytes.subrange(4, bytes.len() as int)
}

/// Command response.
#[derive(Debug)]
pub struct Response<'a>(&'a [u8]);

impl<'a> View for Response<'a> {
    type V = Seq<u8>;

    closed spec fn view(&self) -> Seq<u8> {
        self.0@
    }
}

impl<'a> Response<'a> {
    /// Fixed header length: tag, status and status info.
    pub const HEADER_LEN: usize = 4;

    /// A response always holds its whole header.
    #[verifier::type_invariant]
    closed spec fn well_formed(self) -> bool {
        self.0@.len() >= 4
    }

    /// Creates a new [`Response`] in `buf`.
    ///
    /// `buf` must be exactly 4 bytes larger than `data` to fit the header;
    /// otherwise nothing is written.
    pub fn new(buf: &'a mut [u8], tag: u16, status: Status, status_info: u8, data: &[u8]) -> (r:
        Result<Response<'a>, Error>)
        ensures
            old(buf)@.len() != data@.len() + 4 <==> r == Err::<Response<'a>, Error>(
                Error::SizeMismatch,
            ),
            r is Ok <==> old(buf)@.len() == data@.len() + 4,
            r is Err ==> final(buf)@ == old(buf)@,
            r is Ok ==> {
                &&& r->Ok_0@ == response_bytes(tag, status, status_info, data@)
                &&& final(buf)@ == response_bytes(tag, status, status_info, data@)
            },
    {
        if buf.len() < Self::HEADER_LEN || buf.len() - Self::HEADER_LEN != data.len() {
            return Err(Error::SizeMismatch);
        }
        copy_into(buf, Self::HEADER_LEN, data);
        buf[0] = #[verifier::truncate] (tag as u8);
        buf[1] = #[verifier::truncate] ((tag >> 8u16) as u8);
        buf[2] = status.into();
        buf[3] = status_info;
        let whole: &'a [u8] = buf;
        assert(whole@ =~= response_bytes(tag, status, status_info, data@));
        Ok(Response(whole))
    }

    /// Creates a new [`Response`] from a byte array.
    ///
    /// Fails when the buffer is shorter than the header.
    pub fn from_bytes(buf: &'a [u8]) -> (r: Result<Response<'a>, Error>)
        ensures
            r is Ok <==> buf@.len() >= 4,
            buf@.len() < 4 <==> r == Err::<Response<'a>, Error>(Error::HeaderTooShort),
            r is Ok ==> r->Ok_0@ == buf@,
    {
        if buf.len() < Self::HEADER_LEN {
            return Err(Error::HeaderTooShort);
        }
        Ok(Response(buf))
    }

    /// Returns the tag.
    pub fn tag(&self) -> (r: u16)
        ensures
            r == response_tag(self@),
    {
        proof {
            use_type_invariant(self);
        }
        let b = self.0;
        (b[0] as u16) | ((b[1] as u16) << 8u16)
    }

    /// Returns the status.
    pub fn status(&self) -> (r: Status)
        ensures
            r == response_status(self@),
    {
        proof {
            use_type_invariant(self);
        }
        Status::from(self.0[2])
    }

    /// Returns the status info byte.
    pub fn status_info(&self) -> (r: u8)
        ensures
            r == response_status_info(self@),
    {
        proof {
            use_type_invariant(self);
        }
        self.0[3]
    }

    /// Returns a slice containing the data.
    pub fn data(&self) -> (r: &[u8])
        ensures
            r@ == response_data(self@),
    {
        proof {
            use_type_invariant(self);
        }
        vstd::slice::slice_subrange(self.0, Self::HEADER_LEN, self.0.len())
    }
}

/// Writing a response and reading it back gives the same tag, status byte,
/// status info and data; the status itself comes back unless it is an
/// `Other` that holds the byte of a named status.
pub proof fn lemma_response_round_trip(tag: u16, status: Status, status_info: u8, data: Seq<u8>)
    ensures
        response_bytes(tag, status, status_info, data).len() == data.len() + 4,
        response_tag(response_bytes(tag, status, status_info, data)) == tag,
        status_code(response_status(response_bytes(tag, status, status_info, data)))
            == status_code(status),
        (status is Other ==> is_other_status_code(status->Other_0)) ==> response_status(
            response_bytes(tag, status, status_info, data),
        ) == status,
        response_status_info(response_bytes(tag, status, status_info, data)) == status_info,
        response_data(response_bytes(tag, status, status_info, data)) == data,
{
    let b = response_bytes(tag, status, status_info, data);
    lemma_le_round_trip(tag, 0);
    lemma_status_code_round_trip(status_code(status));
    if status is Other ==> is_other_status_code(status->Other_0) {
        lemma_status_round_trip(status);
    }
    assert(response_data(b) =~= data);
}

} // verus!
