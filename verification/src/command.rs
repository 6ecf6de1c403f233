//! The codes that tell what a message asks for or answers.
use crate::bytes::{le32, push_u32, read_u32, u32_at, u32_reads_back};
use crate::text::text_written;
use crate::wire::{FromBytes, IntoBytes};
use vstd::prelude::*;
use vstd::string::StringExecFns;

verus! {

/// Specifies the type of a driver request or of a device response.
///
/// The associated constants are the codes that the protocol assigns; a device may answer with any
/// other code too.
#[derive(Clone, Copy, PartialEq, Eq, Structural)]
pub struct Command(pub u32);

impl Command {
    // 2D commands
    pub const GET_DISPLAY_INFO: u32 = 0x100;
    pub const RESOURCE_CREATE_2D: u32 = 0x101;
    pub const RESOURCE_UNREF: u32 = 0x102;
    pub const SET_SCANOUT: u32 = 0x103;
    pub const RESOURCE_FLUSH: u32 = 0x104;
    pub const TRANSFER_TO_HOST_2D: u32 = 0x105;
    pub const RESOURCE_ATTACH_BACKING: u32 = 0x106;
    pub const RESOURCE_DETACH_BACKING: u32 = 0x107;
    pub const GET_CAPSET_INFO: u32 = 0x108;
    pub const GET_CAPSET: u32 = 0x109;
    pub const GET_EDID: u32 = 0x10a;
    pub const RESOURCE_ASSIGN_UUID: u32 = 0x10b;
    pub const RESOURCE_CREATE_BLOB: u32 = 0x10c;
    pub const SET_SCANOUT_BLOB: u32 = 0x10d;

    // 3D commands
    pub const CTX_CREATE: u32 = 0x200;
    pub const CTX_DESTROY: u32 = 0x201;
    pub const CTX_ATTACH_RESOURCE: u32 = 0x202;
    pub const CTX_DETACH_RESOURCE: u32 = 0x203;
    pub const RESOURCE_CREATE_3D: u32 = 0x204;
    pub const TRANSFER_TO_HOST_3D: u32 = 0x205;
    pub const TRANSFER_FROM_HOST_3D: u32 = 0x206;
    pub const SUBMIT_3D: u32 = 0x207;
    pub const RESOURCE_MAP_BLOB: u32 = 0x208;
    pub const RESOURCE_UNMAP_BLOB: u32 = 0x209;

    // Cursor commands
    pub const UPDATE_CURSOR: u32 = 0x300;
    pub const MOVE_CURSOR: u32 = 0x301;

    // Success responses
    pub const OK_NODATA: u32 = 0x1100;
    pub const OK_DISPLAY_INFO: u32 = 0x1101;
    pub const OK_CAPSET_INFO: u32 = 0x1102;
    pub const OK_CAPSET: u32 = 0x1103;
    pub const OK_EDID: u32 = 0x1104;
    pub const OK_RESOURCE_UUID: u32 = 0x1105;
    pub const OK_MAP_INFO: u32 = 0x1106;

    // Error responses
    pub const ERR_UNSPEC: u32 = 0x1200;
    pub const ERR_OUT_OF_MEMORY: u32 = 0x1201;
    pub const ERR_INVALID_SCANOUT_ID: u32 = 0x1202;
    pub const ERR_INVALID_RESOURCE_ID: u32 = 0x1203;
    pub const ERR_INVALID_CONTEXT_ID: u32 = 0x1204;
    pub const ERR_INVALID_PARAMETER: u32 = 0x1205;

    /// Whether the code is one of a device response.
    pub open spec fn answers(self) -> bool {
        self.0 >= Command::OK_NODATA
    }

    /// Whether the code is one of an error response.
    pub open spec fn refuses(self) -> bool {
        self.0 >= Command::ERR_UNSPEC
    }

    /// Whether the code is one of a cursor command.
    pub open spec fn moves_cursor(self) -> bool {
        self.0 == Command::UPDATE_CURSOR || self.0 == Command::MOVE_CURSOR
    }

    /// Whether the code is one of a device response.
    pub fn is_response(&self) -> (r: bool)
        ensures
            r == self.answers(),
    {
        self.0 >= Command::OK_NODATA
    }

    /// Whether the code is one of an error response.
    pub fn is_error(&self) -> (r: bool)
        ensures
            r == self.refuses(),
    {
        self.0 >= Command::ERR_UNSPEC
    }

    /// Whether the code is one of a cursor command.
    pub fn is_cursor(&self) -> (r: bool)
        ensures
            r == self.moves_cursor(),
    {
        self.0 == Command::UPDATE_CURSOR || self.0 == Command::MOVE_CURSOR
    }

    /// The name that the protocol has for the code, if it has one.
    pub fn name(&self) -> (r: Option<&'static str>)
        ensures
            match r {
                Some(name) => command_name(self.0) == Some(name@),
                None => command_name(self.0) is None,
            },
    {
        if self.0 == Command::GET_DISPLAY_INFO {
            Some("GET_DISPLAY_INFO")
        } else if self.0 == Command::RESOURCE_CREATE_2D {
            Some("RESOURCE_CREATE_2D")
        } else if self.0 == Command::RESOURCE_UNREF {
            Some("RESOURCE_UNREF")
        } else if self.0 == Command::SET_SCANOUT {
            Some("SET_SCANOUT")
        } else if self.0 == Command::RESOURCE_FLUSH {
            Some("RESOURCE_FLUSH")
        } else if self.0 == Command::TRANSFER_TO_HOST_2D {
            Some("TRANSFER_TO_HOST_2D")
        } else if self.0 == Command::RESOURCE_ATTACH_BACKING {
            Some("RESOURCE_ATTACH_BACKING")
        } else if self.0 == Command::RESOURCE_DETACH_BACKING {
            Some("RESOURCE_DETACH_BACKING")
        } else if self.0 == Command::GET_CAPSET_INFO {
            Some("GET_CAPSET_INFO")
        } else if self.0 == Command::GET_CAPSET {
            Some("GET_CAPSET")
        } else if self.0 == Command::GET_EDID {
            Some("GET_EDID")
        } else if self.0 == Command::RESOURCE_ASSIGN_UUID {
            Some("RESOURCE_ASSIGN_UUID")
        } else if self.0 == Command::RESOURCE_CREATE_BLOB {
            Some("RESOURCE_CREATE_BLOB")
        } else if self.0 == Command::SET_SCANOUT_BLOB {
            Some("SET_SCANOUT_BLOB")
        } else if self.0 == Command::CTX_CREATE {
            Some("CTX_CREATE")
        } else if self.0 == Command::CTX_DESTROY {
            Some("CTX_DESTROY")
        } else if self.0 == Command::CTX_ATTACH_RESOURCE {
            Some("CTX_ATTACH_RESOURCE")
        } else if self.0 == Command::CTX_DETACH_RESOURCE {
            Some("CTX_DETACH_RESOURCE")
        } else if self.0 == Command::RESOURCE_CREATE_3D {
            Some("RESOURCE_CREATE_3D")
        } else if self.0 == Command::TRANSFER_TO_HOST_3D {
            Some("TRANSFER_TO_HOST_3D")
        } else if self.0 == Command::TRANSFER_FROM_HOST_3D {
            Some("TRANSFER_FROM_HOST_3D")
        } else if self.0 == Command::SUBMIT_3D {
            Some("SUBMIT_3D")
        } else if self.0 == Command::RESOURCE_MAP_BLOB {
            Some("RESOURCE_MAP_BLOB")
        } else if self.0 == Command::RESOURCE_UNMAP_BLOB {
            Some("RESOURCE_UNMAP_BLOB")
        } else if self.0 == Command::UPDATE_CURSOR {
            Some("UPDATE_CURSOR")
        } else if self.0 == Command::MOVE_CURSOR {
            Some("MOVE_CURSOR")
        } else if self.0 == Command::OK_NODATA {
            Some("OK_NODATA")
        } else if self.0 == Command::OK_DISPLAY_INFO {
            Some("OK_DISPLAY_INFO")
        } else if self.0 == Command::OK_CAPSET_INFO {
            Some("OK_CAPSET_INFO")
        } else if self.0 == Command::OK_CAPSET {
            Some("OK_CAPSET")
        } else if self.0 == Command::OK_EDID {
            Some("OK_EDID")
        } else if self.0 == Command::OK_RESOURCE_UUID {
            Some("OK_RESOURCE_UUID")
        } else if self.0 == Command::OK_MAP_INFO {
            Some("OK_MAP_INFO")
        } else if self.0 == Command::ERR_UNSPEC {
            Some("ERR_UNSPEC")
        } else if self.0 == Command::ERR_OUT_OF_MEMORY {
            Some("ERR_OUT_OF_MEMORY")
        } else if self.0 == Command::ERR_INVALID_SCANOUT_ID {
            Some("ERR_INVALID_SCANOUT_ID")
        } else if self.0 == Command::ERR_INVALID_RESOURCE_ID {
            Some("ERR_INVALID_RESOURCE_ID")
        } else if self.0 == Command::ERR_INVALID_CONTEXT_ID {
            Some("ERR_INVALID_CONTEXT_ID")
        } else if self.0 == Command::ERR_INVALID_PARAMETER {
            Some("ERR_INVALID_PARAMETER")
        } else {
            None
        }
    }

    /// The code in the form in which it is shown to people: its name, or `Command(0x...)` with
    /// the number in hexadecimal for a code without one.
    pub fn debug_string(&self) -> (s: String)
        ensures
            s@ == command_text(self.0),
    {
        match self.name() {
            Some(name) => String::from_str(name),
            None => {
                let mut s = String::from_str("Command(0x");
                append_hex(&mut s, self.0);
                s.append(")");
                s
            },
        }
    }
}

impl core::fmt::Debug for Command {
    /// Shows the code to people, see [`Command::debug_string`].
    fn fmt(&self, f: &mut core::fmt::Formatter<'_>) -> (r: core::fmt::Result)
        ensures
            r is Ok ==> text_written(*final(f)) == text_written(*old(f)) + command_text(self.0),
    {
        f.write_str(self.debug_string().as_str())
    }
}

/// The name that the protocol has for `code`.
pub open spec fn command_name(code: u32) -> Option<Seq<char>> {
    if code == Command::GET_DISPLAY_INFO {
        Some("GET_DISPLAY_INFO"@)
    } else if code == Command::RESOURCE_CREATE_2D {
        Some("RESOURCE_CREATE_2D"@)
    } else if code == Command::RESOURCE_UNREF {
        Some("RESOURCE_UNREF"@)
    } else if code == Command::SET_SCANOUT {
        Some("SET_SCANOUT"@)
    } else if code == Command::RESOURCE_FLUSH {
        Some("RESOURCE_FLUSH"@)
    } else if code == Command::TRANSFER_TO_HOST_2D {
        Some("TRANSFER_TO_HOST_2D"@)
    } else if code == Command::RESOURCE_ATTACH_BACKING {
        Some("RESOURCE_ATTACH_BACKING"@)
    } else if code == Command::RESOURCE_DETACH_BACKING {
        Some("RESOURCE_DETACH_BACKING"@)
    } else if code == Command::GET_CAPSET_INFO {
        Some("GET_CAPSET_INFO"@)
    } else if code == Command::GET_CAPSET {
        Some("GET_CAPSET"@)
    } else if code == Command::GET_EDID {
        Some("GET_EDID"@)
    } else if code == Command::RESOURCE_ASSIGN_UUID {
        Some("RESOURCE_ASSIGN_UUID"@)
    } else if code == Command::RESOURCE_CREATE_BLOB {
        Some("RESOURCE_CREATE_BLOB"@)
    } else if code == Command::SET_SCANOUT_BLOB {
        Some("SET_SCANOUT_BLOB"@)
    } else if code == Command::CTX_CREATE {
        Some("CTX_CREATE"@)
    } else if code == Command::CTX_DESTROY {
        Some("CTX_DESTROY"@)
    } else if code == Command::CTX_ATTACH_RESOURCE {
        Some("CTX_ATTACH_RESOURCE"@)
    } else if code == Command::CTX_DETACH_RESOURCE {
        Some("CTX_DETACH_RESOURCE"@)
    } else if code == Command::RESOURCE_CREATE_3D {
        Some("RESOURCE_CREATE_3D"@)
    } else if code == Command::TRANSFER_TO_HOST_3D {
        Some("TRANSFER_TO_HOST_3D"@)
    } else if code == Command::TRANSFER_FROM_HOST_3D {
        Some("TRANSFER_FROM_HOST_3D"@)
    } else if code == Command::SUBMIT_3D {
        Some("SUBMIT_3D"@)
    } else if code == Command::RESOURCE_MAP_BLOB {
        Some("RESOURCE_MAP_BLOB"@)
    } else if code == Command::RESOURCE_UNMAP_BLOB {
        Some("RESOURCE_UNMAP_BLOB"@)
    } else if code == Command::UPDATE_CURSOR {
        Some("UPDATE_CURSOR"@)
    } else if code == Command::MOVE_CURSOR {
        Some("MOVE_CURSOR"@)
    } else if code == Command::OK_NODATA {
        Some("OK_NODATA"@)
    } else if code == Command::OK_DISPLAY_INFO {
        Some("OK_DISPLAY_INFO"@)
    } else if code == Command::OK_CAPSET_INFO {
        Some("OK_CAPSET_INFO"@)
    } else if code == Command::OK_CAPSET {
        Some("OK_CAPSET"@)
    } else if code == Command::OK_EDID {
        Some("OK_EDID"@)
    } else if code == Command::OK_RESOURCE_UUID {
        Some("OK_RESOURCE_UUID"@)
    } else if code == Command::OK_MAP_INFO {
        Some("OK_MAP_INFO"@)
    } else if code == Command::ERR_UNSPEC {
        Some("ERR_UNSPEC"@)
    } else if code == Command::ERR_OUT_OF_MEMORY {
        Some("ERR_OUT_OF_MEMORY"@)
    } else if code == Command::ERR_INVALID_SCANOUT_ID {
        Some("ERR_INVALID_SCANOUT_ID"@)
    } else if code == Command::ERR_INVALID_RESOURCE_ID {
        Some("ERR_INVALID_RESOURCE_ID"@)
    } else if code == Command::ERR_INVALID_CONTEXT_ID {
        Some("ERR_INVALID_CONTEXT_ID"@)
    } else if code == Command::ERR_INVALID_PARAMETER {
        Some("ERR_INVALID_PARAMETER"@)
    } else {
        None
    }
}

/// Every error response is a response, and no response is a cursor command.
pub proof fn kinds_of_commands(code: Command)
    ensures
        code.refuses() ==> code.answers(),
        code.moves_cursor() ==> !code.answers(),
{
}

/// A digit below sixteen as a character, letters in lower case.
pub open spec fn hex_digit(d: nat) -> char
    recommends
        d < 16,
{
    seq!['0', '1', '2', '3', '4', '5', '6', '7', '8', '9', 'a', 'b', 'c', 'd', 'e', 'f'][d as int]
}

/// A number in hexadecimal, without leading zeros.
pub open spec fn hex(n: nat) -> Seq<char>
    decreases n,
{
    if n < 16 {
        seq![hex_digit(n)]
    } else {
        hex(n / 16).push(hex_digit(n % 16))
    }
}

/// How `code` is shown to people.
pub open spec fn command_text(code: u32) -> Seq<char> {
    match command_name(code) {
        Some(name) => name,
        None => "Command(0x"@ + hex(code as nat) + ")"@,
    }
}

/// Appends a digit below sixteen.
fn append_digit(s: &mut String, d: u32)
    requires
        d < 16,
    ensures
        final(s)@ == old(s)@.push(hex_digit(d as nat)),
{
    let text = match d {
        0 => "0",
        1 => "1",
        2 => "2",
        3 => "3",
        4 => "4",
        5 => "5",
        6 => "6",
        7 => "7",
        8 => "8",
        9 => "9",
        10 => "a",
        11 => "b",
        12 => "c",
        13 => "d",
        14 => "e",
        _ => "f",
    };
    proof {
        reveal_strlit("0");
        reveal_strlit("1");
        reveal_strlit("2");
        reveal_strlit("3");
        reveal_strlit("4");
        reveal_strlit("5");
        reveal_strlit("6");
        reveal_strlit("7");
        reveal_strlit("8");
        reveal_strlit("9");
        reveal_strlit("a");
        reveal_strlit("b");
        reveal_strlit("c");
        reveal_strlit("d");
        reveal_strlit("e");
        reveal_strlit("f");
    }
    assert(text@ =~= seq![hex_digit(d as nat)]);
    s.append(text);
    assert(s@ =~= old(s)@.push(hex_digit(d as nat)));
}

/// Appends a number in hexadecimal.
fn append_hex(s: &mut String, n: u32)
    ensures
        final(s)@ == old(s)@ + hex(n as nat),
    decreases n,
{
    if n < 16 {
        append_digit(s, n);
    } else {
        append_hex(s, n / 16);
        append_digit(s, n % 16);
    }
    assert(s@ =~= old(s)@ + hex(n as nat));
}

impl IntoBytes for Command {
    open spec fn wire(&self) -> Seq<u8> {
        le32(self.0)
    }

    open spec fn wire_len() -> nat {
        4
    }

    proof fn wire_has_len(&self) {
    }

    open spec fn is_at(&self, bytes: Seq<u8>, at: int) -> bool {
        self.0 == u32_at(bytes, at)
    }

    proof fn is_where_written(&self, bytes: Seq<u8>, at: int) {
        u32_reads_back(bytes, at, self.0);
    }

    proof fn is_alone(self, other: Self, bytes: Seq<u8>, at: int) {
    }

    fn as_bytes(&self) -> (out: Vec<u8>) {
        let mut out: Vec<u8> = Vec::new();
        push_u32(&mut out, self.0);
        assert(out@ =~= self.wire());
        out
    }
}

impl FromBytes for Command {
    fn size() -> (n: usize) {
        4
    }

    fn read_at(bytes: &[u8], at: usize) -> (message: Self) {
        Command(read_u32(bytes, at))
    }
}

} // verus!
