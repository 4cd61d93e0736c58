//! What is handed to the Windows shell: the identity of the tray icon, and the
//! data of a tooltip or balloon.

use vstd::prelude::*;
use vstd::string::*;
use vstd::arithmetic::div_mod::lemma_div_denominator;
use vstd::arithmetic::power::{lemma_pow_positive, pow};
use crate::text::{encode_utf16, utf16};

verus! {

/// Identifies the tray icon to the shell.
pub const TRAY_GUID: u128 = 0x420e1bd2_5733_6c9a_8f4e_2d4b_110a_9c71;

/// Flags for the parts of the data that are in use.
pub const NIF_TIP: u32 = 0x0000_0004;

pub const NIF_INFO: u32 = 0x0000_0010;

pub const NIF_GUID: u32 = 0x0000_0020;

/// Symbols of a balloon.
pub const NIIF_INFO: u32 = 0x0000_0001;

pub const NIIF_WARNING: u32 = 0x0000_0002;

pub const NIIF_ERROR: u32 = 0x0000_0004;

/// How long a balloon is shown, in milliseconds.
pub const BALLOON_MS: u32 = 10_000;

/// Units in the buffers of the shell, with the zero at their end.
pub const TIP_UNITS: usize = 128;

pub const INFO_UNITS: usize = 256;

pub const TITLE_UNITS: usize = 64;

/// The error of the system where a named mutex was there before.
pub const ERROR_ALREADY_EXISTS: i32 = 183;

/// What a balloon is about.
#[derive(Clone, Copy, PartialEq, Eq, Debug, Structural)]
pub enum Kind {
    Info,
    Warning,
    Error,
}

/// The four fields of a GUID.
pub struct GuidFields {
    pub data1: u32,
    pub data2: u16,
    pub data3: u16,
    pub data4: [u8; 8],
}

/// The data for the shell; what is not named here is zero.
pub struct NotifyData {
    pub uflags: u32,
    pub sz_tip: [u16; 128],
    pub sz_info: [u16; 256],
    pub u_timeout: u32,
    pub sz_info_title: [u16; 64],
    pub dw_info_flags: u32,
    pub guid_item: [u8; 16],
}

/// Byte `at` of a number, where byte zero is the lowest.
pub open spec fn byte_of(v: int, at: nat) -> u8
    decreases at,
{
    if at == 0 {
        (v % 256) as u8
    } else {
        byte_of(v / 256, (at - 1) as nat)
    }
}

/// Where each byte of a GUID in memory comes from, counted from the lowest
/// byte of the number: the first three fields are little-endian, the last
/// eight bytes are as they are written.
pub open spec fn guid_source(at: int) -> nat {
    if at < 4 {
        (12 + at) as nat
    } else if at < 6 {
        (10 + (at - 4)) as nat
    } else if at < 8 {
        (8 + (at - 6)) as nat
    } else {
        (15 - at) as nat
    }
}

/// The bytes of a GUID in memory.
pub open spec fn guid_bytes(v: u128) -> Seq<u8> {
    Seq::new(16, |at: int| byte_of(v as int, guid_source(at)))
}

/// Calls `windows_sys::core::GUID::from_u128` and hands its fields out.
/// Claimed: the fields are the highest four bytes of the number, the next two,
/// the next two, and the last eight from the highest to the lowest.
#[verifier::external_body]
fn guid_fields(v: u128) -> (res: GuidFields)
    ensures
        res.data1 == v / 0x1_0000_0000_0000_0000_0000_0000,
        res.data2 == v / 0x1_0000_0000_0000_0000_0000 % 0x1_0000,
        res.data3 == v / 0x1_0000_0000_0000_0000 % 0x1_0000,
        forall|i: int| 0 <= i < 8 ==> #[trigger] res.data4@[i] == byte_of(v as int, (7 - i) as nat),
{
    let g = windows_sys::core::GUID::from_u128(v);
    GuidFields { data1: g.data1, data2: g.data2, data3: g.data3, data4: g.data4 }
}

proof fn lemma_byte_after(v: int, skipped: nat, at: nat)
    requires
        v >= 0,
    ensures
        byte_of(v, skipped + at) == byte_of(v / pow(256, skipped), at),
    decreases skipped,
{
    reveal(pow);
    if skipped > 0 {
        let fewer = (skipped - 1) as nat;
        lemma_byte_after(v / 256, fewer, at);
        lemma_pow_positive(256, fewer);
        lemma_div_denominator(v, 256, pow(256, fewer));
    }
}

/// The upper eight bytes of a number, read off its quotients.
proof fn lemma_high_bytes(v: int)
    requires
        v >= 0,
    ensures
        byte_of(v, 12) == (v / 0x1_0000_0000_0000_0000_0000_0000 % 256) as u8,
        byte_of(v, 13) == (v / 0x1_0000_0000_0000_0000_0000_0000 / 256 % 256) as u8,
        byte_of(v, 14) == (v / 0x1_0000_0000_0000_0000_0000_0000 / 256 / 256 % 256) as u8,
        byte_of(v, 15) == (v / 0x1_0000_0000_0000_0000_0000_0000 / 256 / 256 / 256 % 256) as u8,
        byte_of(v, 10) == (v / 0x1_0000_0000_0000_0000_0000 % 256) as u8,
        byte_of(v, 11) == (v / 0x1_0000_0000_0000_0000_0000 / 256 % 256) as u8,
        byte_of(v, 8) == (v / 0x1_0000_0000_0000_0000 % 256) as u8,
        byte_of(v, 9) == (v / 0x1_0000_0000_0000_0000 / 256 % 256) as u8,
{
    assert(pow(256, 8) == 0x1_0000_0000_0000_0000 && pow(256, 10)
        == 0x1_0000_0000_0000_0000_0000 && pow(256, 12) == 0x1_0000_0000_0000_0000_0000_0000) by {
        reveal(pow);
        reveal_with_fuel(pow, 13);
    }
    lemma_byte_after(v, 12, 0);
    lemma_byte_after(v, 12, 1);
    lemma_byte_after(v, 12, 2);
    lemma_byte_after(v, 12, 3);
    lemma_byte_after(v, 10, 0);
    lemma_byte_after(v, 10, 1);
    lemma_byte_after(v, 8, 0);
    lemma_byte_after(v, 8, 1);
    reveal_with_fuel(byte_of, 4);
}

/// The bytes of a four-byte number.
proof fn lemma_word_bytes(q: int)
    requires
        0 <= q < 0x1_0000_0000,
    ensures
        q / 256 / 256 == q / 0x1_0000,
        q / 256 / 256 / 256 % 256 == q / 0x100_0000,
{
}

/// The bytes of the lowest two bytes of a number.
proof fn lemma_half_word_bytes(q: int)
    requires
        q >= 0,
    ensures
        q % 0x1_0000 % 256 == q % 256,
        q % 0x1_0000 / 256 == q / 256 % 256,
{
}

/// The bytes under which the shell knows the icon with the GUID `v`: the
/// layout of the GUID in memory, which is not the little-endian number.
pub fn guid_mem_bytes(v: u128) -> (res: [u8; 16])
    ensures
        res@ == guid_bytes(v),
{
    let g = guid_fields(v);
    let d: [u8; 8] = g.data4;
    let res: [u8; 16] = [
        (g.data1 % 256) as u8,
        (g.data1 / 256 % 256) as u8,
        (g.data1 / 0x1_0000 % 256) as u8,
        (g.data1 / 0x100_0000) as u8,
        (g.data2 % 256) as u8,
        (g.data2 / 256) as u8,
        (g.data3 % 256) as u8,
        (g.data3 / 256) as u8,
        d[0],
        d[1],
        d[2],
        d[3],
        d[4],
        d[5],
        d[6],
        d[7],
    ];
    proof {
        lemma_high_bytes(v as int);
        lemma_word_bytes(v as int / 0x1_0000_0000_0000_0000_0000_0000);
        lemma_half_word_bytes(v as int / 0x1_0000_0000_0000_0000_0000);
        lemma_half_word_bytes(v as int / 0x1_0000_0000_0000_0000);
        assert forall|at: int| 0 <= at < 16 implies #[trigger] res@[at] == guid_bytes(v)[at] by {
            if at >= 8 {
                assert(res@[at] == d@[at - 8]);
            }
        }
    }
    res
}

/// The longest start of a text, in UTF-16, that leaves room for a zero at the
/// end of a buffer.
pub open spec fn fitting(text: Seq<char>, size: nat) -> Seq<u16> {
    let units = utf16(text);
    if units.len() < size {
        units
    } else {
        units.take(size - 1)
    }
}

/// A buffer with a text, filled up with zeros.
pub open spec fn text_buffer(text: Seq<char>, size: nat) -> Seq<u16> {
    let units = fitting(text, size);
    Seq::new(
        size,
        |i: int|
            if i < units.len() {
                units[i]
            } else {
                0
            },
    )
}

/// A buffer without a text.
pub open spec fn empty_buffer(size: nat) -> Seq<u16> {
    Seq::new(size, |i: int| 0u16)
}

fn fill<const N: usize>(buffer: &mut [u16; N], text: &str)
    requires
        N > 0,
        old(buffer)@ == empty_buffer(N as nat),
    ensures
        final(buffer)@ == text_buffer(text@, N as nat),
{
    let units: Vec<u16> = encode_utf16(text);
    let count: usize = if units.len() < N {
        units.len()
    } else {
        N - 1
    };
    let mut i: usize = 0;
    while i < count
        invariant
            i <= count <= units.len(),
            count < N,
            units@.take(count as int) == fitting(text@, N as nat),
            forall|j: int|
                0 <= j < N ==> #[trigger] buffer@[j] == if j < i {
                    units@[j]
                } else {
                    0
                },
        decreases count - i,
    {
        buffer[i] = units[i];
        i += 1;
    }
    proof {
        let want = text_buffer(text@, N as nat);
        assert forall|j: int| 0 <= j < N implies #[trigger] buffer@[j] == want[j] by {
            if j < count {
                assert(units@.take(count as int)[j] == units@[j]);
            }
        }
        assert(buffer@ == want);
    }
}

impl NotifyData {
    /// The shell finds the icon by its GUID.
    pub open spec fn names_the_icon(self) -> bool {
        self.guid_item@ == guid_bytes(TRAY_GUID)
    }
}

/// The data that sets the tooltip of the tray icon.
pub fn set_tip(title: &str) -> (res: NotifyData)
    ensures
        res.uflags == NIF_TIP | NIF_GUID,
        res.uflags == 0x24,
        res.sz_tip@ == text_buffer(title@, TIP_UNITS as nat),
        res.sz_info@ == empty_buffer(INFO_UNITS as nat),
        res.u_timeout == 0,
        res.sz_info_title@ == empty_buffer(TITLE_UNITS as nat),
        res.dw_info_flags == 0,
        res.names_the_icon(),
{
    assert(NIF_TIP | NIF_GUID == 0x24) by (bit_vector);
    let mut tip: [u16; 128] = [0; 128];
    assert(tip@ == empty_buffer(128));
    fill(&mut tip, title);
    let info: [u16; 256] = [0; 256];
    let info_title: [u16; 64] = [0; 64];
    NotifyData {
        uflags: NIF_TIP | NIF_GUID,
        sz_tip: tip,
        sz_info: info,
        u_timeout: 0,
        sz_info_title: info_title,
        dw_info_flags: 0,
        guid_item: guid_mem_bytes(TRAY_GUID),
    }
}

/// The symbol of a kind of balloon.
pub open spec fn kind_flags(kind: Kind) -> u32 {
    match kind {
        Kind::Info => NIIF_INFO,
        Kind::Warning => NIIF_WARNING,
        Kind::Error => NIIF_ERROR,
    }
}

/// The data that shows a balloon on the tray icon.
pub fn balloon(title: &str, msg: &str, kind: Kind) -> (res: NotifyData)
    ensures
        res.uflags == NIF_INFO | NIF_GUID,
        res.uflags == 0x30,
        res.sz_tip@ == empty_buffer(TIP_UNITS as nat),
        res.sz_info@ == text_buffer(msg@, INFO_UNITS as nat),
        res.u_timeout == BALLOON_MS,
        res.sz_info_title@ == text_buffer(title@, TITLE_UNITS as nat),
        res.dw_info_flags == kind_flags(kind),
        res.names_the_icon(),
{
    assert(NIF_INFO | NIF_GUID == 0x30) by (bit_vector);
    let flags: u32 = match kind {
        Kind::Info => NIIF_INFO,
        Kind::Warning => NIIF_WARNING,
        Kind::Error => NIIF_ERROR,
    };
    let tip: [u16; 128] = [0; 128];
    let mut info: [u16; 256] = [0; 256];
    let mut info_title: [u16; 64] = [0; 64];
    assert(info@ == empty_buffer(256));
    assert(info_title@ == empty_buffer(64));
    fill(&mut info, msg);
    fill(&mut info_title, title);
    NotifyData {
        uflags: NIF_INFO | NIF_GUID,
        sz_tip: tip,
        sz_info: info,
        u_timeout: BALLOON_MS,
        sz_info_title: info_title,
        dw_info_flags: flags,
        guid_item: guid_mem_bytes(TRAY_GUID),
    }
}

/// The name of the mutex that a running instance holds, with the zero at its
/// end.
pub fn singleton_name() -> (res: Vec<u16>)
    ensures
        res@ == utf16("PcieWatch_Singleton"@).push(0),
{
    let mut name: Vec<u16> = encode_utf16("PcieWatch_Singleton");
    name.push(0);
    name
}

/// Whether this instance may run, after the attempt to create the mutex:
/// unless it was there before, which means another instance. Where it could
/// not be created for another reason, the start is not blocked.
pub fn ensure_singleton(last_error: Option<i32>, handle_is_null: bool) -> (res: bool)
    ensures
        res == (last_error != Some(ERROR_ALREADY_EXISTS)),
        res <==> !(last_error matches Some(code) && code == 183),
{
    let already = match last_error {
        Some(code) => code == ERROR_ALREADY_EXISTS,
        None => false,
    };
    if !already && handle_is_null {
        return true;
    }
    !already
}

/// What the shell reads always ends inside its buffer.
pub proof fn law_buffers_end_in_zero(text: Seq<char>, size: nat)
    requires
        size > 0,
    ensures
        text_buffer(text, size).len() == size,
        text_buffer(text, size)[size - 1] == 0,
{
}

/// A text that fits, with its zero, is handed over whole; of a longer one, as
/// much as fits.
pub proof fn law_buffers_hold_what_fits(text: Seq<char>, size: nat)
    requires
        size > 0,
    ensures
        utf16(text).len() < size ==> utf16(text).is_prefix_of(text_buffer(text, size)),
        utf16(text).len() >= size ==> text_buffer(text, size).take(size - 1) == utf16(text).take(
            size - 1,
        ),
{
}

proof fn lemma_bytes_tell_the_number(a: int, b: int, count: nat)
    requires
        0 <= a < pow(256, count),
        0 <= b < pow(256, count),
        forall|i: nat| i < count ==> #[trigger] byte_of(a, i) == byte_of(b, i),
    ensures
        a == b,
    decreases count,
{
    reveal(pow);
    if count > 0 {
        let fewer = (count - 1) as nat;
        assert(a / 256 < pow(256, fewer) && b / 256 < pow(256, fewer));
        assert forall|i: nat| i < fewer implies #[trigger] byte_of(a / 256, i) == byte_of(
            b / 256,
            i,
        ) by {
            assert(byte_of(a, i + 1) == byte_of(b, i + 1));
        }
        lemma_bytes_tell_the_number(a / 256, b / 256, fewer);
        assert(byte_of(a, 0) == byte_of(b, 0));
    }
}

/// Two icons with the same bytes have the same GUID.
pub proof fn law_guid_bytes_tell_the_guid(a: u128, b: u128)
    requires
        guid_bytes(a) == guid_bytes(b),
    ensures
        a == b,
{
    assert(pow(256, 16) == 0x1_0000_0000_0000_0000_0000_0000_0000_0000) by {
        reveal(pow);
        reveal_with_fuel(pow, 17);
    }
    assert forall|i: nat| i < 16 implies #[trigger] byte_of(a as int, i) == byte_of(
        b as int,
        i,
    ) by {
        let at: int = if i < 8 {
            15 - i
        } else if i < 10 {
            i - 2
        } else if i < 12 {
            i - 6
        } else {
            i - 12
        };
        assert(guid_source(at) == i);
        assert(guid_bytes(a)[at] == byte_of(a as int, guid_source(at)));
        assert(guid_bytes(b)[at] == byte_of(b as int, guid_source(at)));
    }
    lemma_bytes_tell_the_number(a as int, b as int, 16);
}

/// A number is its lowest four bytes, and what lies above them.
proof fn lemma_low_bytes(v: int)
    requires
        v >= 0,
    ensures
        v == byte_of(v, 0) + 0x100 * byte_of(v, 1) + 0x1_0000 * byte_of(v, 2) + 0x100_0000
            * byte_of(v, 3) + 0x1_0000_0000 * (v / 0x1_0000_0000),
{
    reveal_with_fuel(byte_of, 4);
    assert(byte_of(v, 1) == v / 256 % 256);
    assert(byte_of(v, 2) == v / 256 / 256 % 256);
    assert(byte_of(v, 3) == v / 256 / 256 / 256 % 256);
    assert(v / 256 / 256 / 256 / 256 == v / 0x1_0000_0000);
}

/// Four bytes on, the bytes are those of the quotient.
proof fn lemma_bytes_four_on(v: int, at: nat)
    ensures
        byte_of(v, at + 4) == byte_of(v / 0x1_0000_0000, at),
{
    reveal_with_fuel(byte_of, 5);
    assert(v / 256 / 256 / 256 / 256 == v / 0x1_0000_0000);
}

/// The bytes of a GUID spell its number: the first four from the last to the
/// first, then two and two in the same way, and the last eight in their order.
pub proof fn law_guid_bytes_spell_the_number(v: u128)
    ensures
        ({
            let b = guid_bytes(v);
            let data1 = b[0] + 0x100 * b[1] + 0x1_0000 * b[2] + 0x100_0000 * b[3];
            let data2 = b[4] + 0x100 * b[5];
            let data3 = b[6] + 0x100 * b[7];
            let upper = b[11] + 0x100 * b[10] + 0x1_0000 * b[9] + 0x100_0000 * b[8];
            let lower = b[15] + 0x100 * b[14] + 0x1_0000 * b[13] + 0x100_0000 * b[12];
            &&& b.len() == 16
            &&& v == 0x1_0000_0000_0000_0000_0000_0000 * data1 + 0x1_0000_0000_0000_0000_0000
                * data2 + 0x1_0000_0000_0000_0000 * data3 + 0x1_0000_0000 * upper + lower
        }),
{
    let q0 = v as int;
    let q1 = q0 / 0x1_0000_0000;
    let q2 = q1 / 0x1_0000_0000;
    let q3 = q2 / 0x1_0000_0000;
    lemma_low_bytes(q0);
    lemma_low_bytes(q1);
    lemma_low_bytes(q2);
    lemma_low_bytes(q3);
    assert(q3 / 0x1_0000_0000 == 0);
    assert forall|at: nat| at < 4 implies #[trigger] byte_of(q1, at) == byte_of(q0, at + 4)
        && byte_of(q2, at) == byte_of(q0, at + 8) && byte_of(q3, at) == byte_of(q0, at + 12) by {
        lemma_bytes_four_on(q0, at);
        lemma_bytes_four_on(q0, at + 4);
        lemma_bytes_four_on(q1, at);
        lemma_bytes_four_on(q0, at + 8);
        lemma_bytes_four_on(q1, at + 4);
        lemma_bytes_four_on(q2, at);
    }
    let b = guid_bytes(v);
    assert(b[0] == byte_of(q3, 0) && b[1] == byte_of(q3, 1) && b[2] == byte_of(q3, 2) && b[3]
        == byte_of(q3, 3));
    assert(b[4] == byte_of(q2, 2) && b[5] == byte_of(q2, 3) && b[6] == byte_of(q2, 0) && b[7]
        == byte_of(q2, 1));
    assert(b[11] == byte_of(q1, 0) && b[10] == byte_of(q1, 1) && b[9] == byte_of(q1, 2) && b[8]
        == byte_of(q1, 3));
    assert(b[15] == byte_of(q0, 0) && b[14] == byte_of(q0, 1) && b[13] == byte_of(q0, 2) && b[12]
        == byte_of(q0, 3));
}

/// After the text a buffer holds nothing but zeros, and in front of them unit
/// by unit what the text has there.
pub proof fn law_buffers_hold_only_the_text(text: Seq<char>, size: nat, i: int)
    requires
        0 <= i < size,
    ensures
        text_buffer(text, size).len() == size,
        i < utf16(text).len() && i < size - 1 ==> text_buffer(text, size)[i] == utf16(text)[i],
        i >= utf16(text).len() || i == size - 1 ==> text_buffer(text, size)[i] == 0,
        empty_buffer(size).len() == size,
        empty_buffer(size)[i] == 0,
        text_buffer(seq![], size) == empty_buffer(size),
{
}

/// The icon goes by one GUID, and by no other.
pub proof fn law_icon_goes_by_its_guid(data: NotifyData, v: u128)
    ensures
        data.guid_item@ == guid_bytes(v) ==> (data.names_the_icon() <==> v
            == 0x420e1bd2_5733_6c9a_8f4e_2d4b_110a_9c71),
{
    if data.guid_item@ == guid_bytes(v) && data.names_the_icon() {
        law_guid_bytes_tell_the_guid(v, TRAY_GUID);
    }
}

/// Each kind of balloon has a symbol of its own.
pub proof fn law_kinds_have_their_own_symbols(a: Kind, b: Kind)
    ensures
        kind_flags(a) == kind_flags(b) ==> a == b,
        kind_flags(Kind::Info) == 1,
        kind_flags(Kind::Warning) == 2,
        kind_flags(Kind::Error) == 4,
{
}

} // verus!
