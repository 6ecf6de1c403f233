//! What the small values mean: codes, headers, formats, pages and numbers in bytes.
use crate::bytes::{
    le32, le64, push_bytes, push_u32, push_u64, read_array, read_u32, read_u64, read_u8, sits_at,
    u32_at, u32_reads_back, u64_at, u64_reads_back, zeroed,
};
use crate::command::{hex, hex_digit, Command};
use crate::config::Features;
use crate::context::GpuBox;
use crate::display::{DisplayOne, Rect, RespDisplayInfo};
use crate::dma::{pages, pages_suffice};
use crate::error::Error;
use crate::header::CtrlHeader;
use crate::laws::layout::pixel_code;
use crate::laws::queries::{header_is_read, header_read};
use crate::laws::reading::{blank, fields_are_words, long, message_words, word};
use crate::resource::Format;
use crate::wire::{FromBytes, IntoBytes};
use vstd::prelude::*;

verus! {

/// Responses are the codes from 0x1100 on, errors those from 0x1200 on; two codes are of the
/// cursor.
pub proof fn kinds_of_codes(code: &Command, response: bool, error: bool, cursor: bool)
    requires
        call_ensures(Command::is_response, (code,), response),
        call_ensures(Command::is_error, (code,), error),
        call_ensures(Command::is_cursor, (code,), cursor),
    ensures
        response == (code.0 >= 0x1100),
        error == (code.0 >= 0x1200),
        cursor == (code.0 == 0x300 || code.0 == 0x301),
{
}

/// Whether the protocol has a name for a code.
pub open spec fn has_name(code: u32) -> bool {
    ||| 0x100 <= code <= 0x10d
    ||| 0x200 <= code <= 0x209
    ||| 0x300 <= code <= 0x301
    ||| 0x1100 <= code <= 0x1106
    ||| 0x1200 <= code <= 0x1205
}

/// The value of a hexadecimal digit.
pub open spec fn digit_value(c: char) -> int {
    if '0' <= c && c <= '9' {
        c as int - '0' as int
    } else if 'a' <= c && c <= 'f' {
        c as int - 'a' as int + 10
    } else {
        -1
    }
}

/// The number that a text of hexadecimal digits stands for.
pub open spec fn text_value(text: Seq<char>) -> int
    decreases text.len(),
{
    if text.len() == 0 {
        0
    } else {
        16 * text_value(text.drop_last()) + digit_value(text.last())
    }
}

/// Whether a text is a number in hexadecimal, without leading zeros.
pub open spec fn is_hexadecimal(text: Seq<char>, n: int) -> bool {
    &&& text.len() > 0
    &&& text.len() > 1 ==> text[0] != '0'
    &&& forall|i: int| 0 <= i < text.len() ==> 0 <= digit_value(#[trigger] text[i]) < 16
    &&& text_value(text) == n
}

/// A number in hexadecimal stands for the number.
proof fn hex_is_hexadecimal(n: nat)
    ensures
        is_hexadecimal(hex(n), n as int),
        n > 0 ==> hex(n)[0] != '0',
    decreases n,
{
    assert(forall|d: nat|
        d < 16 ==> digit_value(#[trigger] hex_digit(d)) == d && (d > 0 ==> hex_digit(d) != '0'));
    if n >= 16 {
        hex_is_hexadecimal(n / 16);
        assert(hex(n).drop_last() =~= hex(n / 16));
        assert(hex(n)[0] == hex(n / 16)[0]);
    } else {
        assert(hex(n).drop_last() =~= Seq::<char>::empty());
        assert(text_value(hex(n).drop_last()) == 0);
    }
}

/// Codes that the protocol names are shown by their name; any other one is shown as a number.
pub proof fn codes_as_text(code: &Command, name: Option<&'static str>, text: String)
    requires
        call_ensures(Command::name, (code,), name),
        call_ensures(Command::debug_string, (code,), text),
    ensures
        name is Some <==> has_name(code.0),
        name matches Some(name) ==> text@ == name@,
        name is None ==> {
            let digits = text@.subrange(10, text@.len() - 1);
            &&& text@ == "Command(0x"@ + digits + ")"@
            &&& is_hexadecimal(digits, code.0 as int)
        },
{
    reveal_strlit("Command(0x");
    reveal_strlit(")");
    hex_is_hexadecimal(code.0 as nat);
    if name is None {
        assert(text@.subrange(10, text@.len() - 1) =~= hex(code.0 as nat));
    }
}

/// A header has the type, the context and the fence that it is made with, and nothing else.
pub proof fn headers_are_made(
    hdr_type: Command,
    ctx_id: u32,
    fence_id: u64,
    plain: CtrlHeader,
    with_ctx: CtrlHeader,
    with_fence: CtrlHeader,
)
    requires
        call_ensures(CtrlHeader::with_type, (hdr_type,), plain),
        call_ensures(CtrlHeader::with_type_and_ctx, (hdr_type, ctx_id), with_ctx),
        call_ensures(CtrlHeader::with_fence, (hdr_type, ctx_id, fence_id), with_fence),
    ensures
        plain.hdr_type == hdr_type,
        plain.flags == 0,
        plain.fence_id == 0,
        plain.ctx_id == 0,
        plain.ring_idx == 0,
        plain._padding@ == seq![0u8, 0, 0],
        with_ctx.hdr_type == hdr_type,
        with_ctx.flags == 0,
        with_ctx.fence_id == 0,
        with_ctx.ctx_id == ctx_id,
        with_ctx.ring_idx == 0,
        with_ctx._padding@ == seq![0u8, 0, 0],
        with_fence.hdr_type == hdr_type,
        with_fence.flags == 1,
        with_fence.fence_id == fence_id,
        with_fence.ctx_id == ctx_id,
        with_fence.ring_idx == 0,
        with_fence._padding@ == seq![0u8, 0, 0],
{
}

/// A header is accepted if its type is the one that is expected.
pub proof fn check_type_law(header: &CtrlHeader, expected: Command, r: Result<(), Error>)
    requires
        call_ensures(CtrlHeader::check_type, (header, expected), r),
    ensures
        header.hdr_type.0 == expected.0 ==> r is Ok,
        header.hdr_type.0 != expected.0 ==> r == Err::<(), Error>(Error::IoError),
{
}

/// Every format has its own code and takes four bytes a pixel.
pub proof fn formats_law(format: &Format, code: u32, stride: usize, out: Vec<u8>)
    requires
        call_ensures(Format::code, (format,), code),
        call_ensures(Format::stride, (format,), stride),
        call_ensures(<Format as IntoBytes>::as_bytes, (format,), out),
    ensures
        code == pixel_code(*format),
        stride == 4,
        out@.len() == 4,
        word(out@, 0) == pixel_code(*format),
{
    message_words(*format);
}

/// A code is four bytes.
pub proof fn command_bytes(command: &Command, out: Vec<u8>)
    requires
        call_ensures(<Command as IntoBytes>::as_bytes, (command,), out),
    ensures
        out@.len() == 4,
        word(out@, 0) == command.0,
{
    message_words(*command);
}

/// A code is read from four bytes.
pub proof fn command_read(bytes: &[u8], at: usize, command: Command)
    requires
        call_ensures(<Command as FromBytes>::read_at, (bytes, at), command),
        at + 4 <= bytes@.len(),
    ensures
        word(bytes@, at as int) == command.0,
{
    fields_are_words(bytes@);
}

/// The bytes of display modes: a header, and sixteen modes of 24 bytes each.
pub proof fn resp_display_info_bytes(info: &RespDisplayInfo, out: Vec<u8>)
    requires
        call_ensures(<RespDisplayInfo as IntoBytes>::as_bytes, (info,), out),
    ensures
        out@.len() == 408,
        header_read(info.header, out@),
        forall|i: int|
            0 <= i < 16 ==> {
                let mode = #[trigger] info.pmodes@[i];
                &&& word(out@, 24 + 24 * i) == mode.rect.x
                &&& word(out@, 28 + 24 * i) == mode.rect.y
                &&& word(out@, 32 + 24 * i) == mode.rect.width
                &&& word(out@, 36 + 24 * i) == mode.rect.height
                &&& word(out@, 40 + 24 * i) == mode.enabled
                &&& word(out@, 44 + 24 * i) == mode.flags
            },
{
    message_words(*info);
    modes_are_words(*info, out@);
}

/// Display modes that were read are those in the bytes.
pub proof fn resp_display_info_read(bytes: &[u8], info: RespDisplayInfo)
    requires
        call_ensures(<RespDisplayInfo as FromBytes>::read_at, (bytes, 0), info),
        bytes@.len() >= 408,
    ensures
        header_read(info.header, bytes@),
        forall|i: int|
            0 <= i < 16 ==> {
                let mode = #[trigger] info.pmodes@[i];
                &&& word(bytes@, 24 + 24 * i) == mode.rect.x
                &&& word(bytes@, 28 + 24 * i) == mode.rect.y
                &&& word(bytes@, 32 + 24 * i) == mode.rect.width
                &&& word(bytes@, 36 + 24 * i) == mode.rect.height
                &&& word(bytes@, 40 + 24 * i) == mode.enabled
                &&& word(bytes@, 44 + 24 * i) == mode.flags
            },
{
    modes_are_words(info, bytes@);
}

/// The modes at the beginning of some bytes.
proof fn modes_are_words(info: RespDisplayInfo, b: Seq<u8>)
    requires
        info.is_at(b, 0),
        b.len() >= 408,
    ensures
        header_read(info.header, b),
        forall|i: int|
            0 <= i < 16 ==> {
                let mode = #[trigger] info.pmodes@[i];
                &&& word(b, 24 + 24 * i) == mode.rect.x
                &&& word(b, 28 + 24 * i) == mode.rect.y
                &&& word(b, 32 + 24 * i) == mode.rect.width
                &&& word(b, 36 + 24 * i) == mode.rect.height
                &&& word(b, 40 + 24 * i) == mode.enabled
                &&& word(b, 44 + 24 * i) == mode.flags
            },
{
    fields_are_words(b);
    header_is_read(info.header, b);
    assert forall|i: int| 0 <= i < 16 implies {
        let mode = #[trigger] info.pmodes@[i];
        &&& word(b, 24 + 24 * i) == mode.rect.x
        &&& word(b, 28 + 24 * i) == mode.rect.y
        &&& word(b, 32 + 24 * i) == mode.rect.width
        &&& word(b, 36 + 24 * i) == mode.rect.height
        &&& word(b, 40 + 24 * i) == mode.enabled
        &&& word(b, 44 + 24 * i) == mode.flags
    } by {
        let mode = info.pmodes@[i];
        assert(mode.is_at(b, 24 + 24 * i));
        assert(u32_at(b, 24 + 24 * i) == word(b, 24 + 24 * i));
        assert(u32_at(b, 28 + 24 * i) == word(b, 28 + 24 * i));
        assert(u32_at(b, 32 + 24 * i) == word(b, 32 + 24 * i));
        assert(u32_at(b, 36 + 24 * i) == word(b, 36 + 24 * i));
        assert(u32_at(b, 40 + 24 * i) == word(b, 40 + 24 * i));
        assert(u32_at(b, 44 + 24 * i) == word(b, 44 + 24 * i));
    }
}

/// What is made without being told how is zero throughout.
pub proof fn defaults_are_zero(rect: Rect, mode: DisplayOne, box_: GpuBox, features: Features)
    requires
        call_ensures(<Rect as Default>::default, (), rect),
        call_ensures(<DisplayOne as Default>::default, (), mode),
        call_ensures(<GpuBox as Default>::default, (), box_),
        call_ensures(<Features as Default>::default, (), features),
    ensures
        rect == (Rect { x: 0, y: 0, width: 0, height: 0 }),
        mode.rect == (Rect { x: 0, y: 0, width: 0, height: 0 }),
        mode.enabled == 0,
        mode.flags == 0,
        box_ == (GpuBox { x: 0, y: 0, z: 0, w: 0, h: 0, d: 0 }),
        features.bits == 0,
{
}

/// Pages of 4096 bytes hold what they are for, and one page less would not.
pub proof fn pages_law(size: usize, n: usize)
    requires
        call_ensures(pages, (size,), n),
    ensures
        size <= n * 4096 < size + 4096,
{
    pages_suffice(size as nat);
}

/// Numbers are appended least significant byte first, behind what is there.
pub proof fn numbers_are_appended(short: &mut Vec<u8>, v: u32, wide: &mut Vec<u8>, w: u64)
    requires
        call_ensures(push_u32, (short, v), ()),
        call_ensures(push_u64, (wide, w), ()),
    ensures
        final(short)@.len() == old(short)@.len() + 4,
        final(short)@.take(old(short)@.len() as int) == old(short)@,
        word(final(short)@, old(short)@.len() as int) == v,
        final(wide)@.len() == old(wide)@.len() + 8,
        final(wide)@.take(old(wide)@.len() as int) == old(wide)@,
        long(final(wide)@, old(wide)@.len() as int) == w,
{
    let n = old(short)@.len() as int;
    let k = old(wide)@.len() as int;
    assert(final(short)@.take(n) =~= old(short)@);
    assert(final(wide)@.take(k) =~= old(wide)@);
    assert(sits_at(final(short)@, n, le32(v)));
    assert(sits_at(final(wide)@, k, le64(w)));
    u32_reads_back(final(short)@, n, v);
    u64_reads_back(final(wide)@, k, w);
    fields_are_words(final(short)@);
    fields_are_words(final(wide)@);
    assert(u32_at(final(short)@, n) == word(final(short)@, n));
    assert(u64_at(final(wide)@, k) == long(final(wide)@, k));
}

/// Behind the end of a message, zeros are read.
pub proof fn zeros_follow_the_end(bytes: &[u8], at: usize, byte: u8, number: u32)
    requires
        at >= bytes@.len(),
        at + 4 <= usize::MAX,
        call_ensures(read_u8, (bytes, at), byte),
        call_ensures(read_u32, (bytes, at), number),
    ensures
        byte == 0,
        number == 0,
{
}

/// Numbers are read least significant byte first, and bytes as they are.
pub proof fn numbers_are_read(
    bytes: &[u8],
    at: usize,
    byte: u8,
    number: u32,
    wide: u64,
    array: [u8; 16],
)
    requires
        at + 16 <= bytes@.len(),
        call_ensures(read_u8, (bytes, at), byte),
        call_ensures(read_u32, (bytes, at), number),
        call_ensures(read_u64, (bytes, at), wide),
        call_ensures(read_array::<16>, (bytes, at), array),
    ensures
        byte == bytes@[at as int],
        number == word(bytes@, at as int),
        wide == long(bytes@, at as int),
        array@ == bytes@.subrange(at as int, at + 16),
{
    fields_are_words(bytes@);
    assert(array@ =~= bytes@.subrange(at as int, at + 16));
}

/// Bytes are appended as they are, and a blank buffer is blank.
pub proof fn bytes_are_appended(out: &mut Vec<u8>, bytes: &[u8], n: usize, fresh: Vec<u8>)
    requires
        call_ensures(push_bytes, (out, bytes), ()),
        call_ensures(zeroed, (n,), fresh),
    ensures
        final(out)@ == old(out)@ + bytes@,
        blank(fresh@, n as int),
{
}

} // verus!
