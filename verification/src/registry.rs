//! Typed model of Windows registry values: hives, value types, capture,
//! restore planning, UTF-16 string payloads and human rendering.

use vstd::prelude::*;
use crate::error::{ZenouError, error_is};
use crate::text::{
    chars_of, contains_str, decimal, hex_fixed, lower_seq, opt_view, owned, push_char, push_decimal,
    push_hex, push_str, seq_contains, slice_eq, string_of, to_ascii_uppercase, to_lowercase,
    lowercase_of, upper_seq,
};
use crate::types::{SavedValue, SavedView};

verus! {

/// A predefined registry root key.
#[derive(Debug, Clone, Copy, PartialEq, Eq, Structural)]
pub enum Hive {
    CurrentUser,
    LocalMachine,
    Users,
    ClassesRoot,
    CurrentConfig,
}

/// The short name of a hive ("HKCU", ...).
pub open spec fn hive_abbrev(h: Hive) -> Seq<char> {
    match h {
        Hive::CurrentUser => "HKCU"@,
        Hive::LocalMachine => "HKLM"@,
        Hive::Users => "HKU"@,
        Hive::ClassesRoot => "HKCR"@,
        Hive::CurrentConfig => "HKCC"@,
    }
}

/// The hive an uppercase name denotes, short or long form.
pub open spec fn hive_named(u: Seq<char>) -> Option<Hive> {
    if u == "HKCU"@ || u == "HKEY_CURRENT_USER"@ {
        Some(Hive::CurrentUser)
    } else if u == "HKLM"@ || u == "HKEY_LOCAL_MACHINE"@ {
        Some(Hive::LocalMachine)
    } else if u == "HKU"@ || u == "HKEY_USERS"@ {
        Some(Hive::Users)
    } else if u == "HKCR"@ || u == "HKEY_CLASSES_ROOT"@ {
        Some(Hive::ClassesRoot)
    } else if u == "HKCC"@ || u == "HKEY_CURRENT_CONFIG"@ {
        Some(Hive::CurrentConfig)
    } else {
        None
    }
}

/// `s` equals the literal `lit`.
pub fn is_lit(s: &[char], lit: &str) -> (r: bool)
    ensures
        r == (s@ == lit@),
{
    let l = chars_of(lit);
    slice_eq(s, l.as_slice())
}

impl Hive {
    /// Parses a hive name, ignoring ASCII case; unknown names are refused.
    pub fn parse(s: &str) -> (r: Result<Hive, ZenouError>)
        ensures
            match r {
                Ok(h) => hive_named(upper_seq(s@)) == Some(h),
                Err(e) => hive_named(upper_seq(s@)) is None && error_is(
                    e,
                    "registry"@,
                    "The tweak targets an unsupported registry location and was blocked."@,
                    Some("unknown hive: "@ + upper_seq(s@)),
                ),
            },
    {
        let u = to_ascii_uppercase(s);
        let us = u.as_slice();
        if is_lit(us, "HKCU") || is_lit(us, "HKEY_CURRENT_USER") {
            Ok(Hive::CurrentUser)
        } else if is_lit(us, "HKLM") || is_lit(us, "HKEY_LOCAL_MACHINE") {
            Ok(Hive::LocalMachine)
        } else if is_lit(us, "HKU") || is_lit(us, "HKEY_USERS") {
            Ok(Hive::Users)
        } else if is_lit(us, "HKCR") || is_lit(us, "HKEY_CLASSES_ROOT") {
            Ok(Hive::ClassesRoot)
        } else if is_lit(us, "HKCC") || is_lit(us, "HKEY_CURRENT_CONFIG") {
            Ok(Hive::CurrentConfig)
        } else {
            let mut d = owned("unknown hive: ");
            let name = string_of(us);
            push_str(&mut d, name.as_str());
            Err(ZenouError::registry(
                owned("The tweak targets an unsupported registry location and was blocked."),
                Some(d),
            ))
        }
    }

    /// The short name of the hive.
    pub fn as_str(self) -> (r: &'static str)
        ensures
            r@ == hive_abbrev(self),
    {
        match self {
            Hive::CurrentUser => "HKCU",
            Hive::LocalMachine => "HKLM",
            Hive::Users => "HKU",
            Hive::ClassesRoot => "HKCR",
            Hive::CurrentConfig => "HKCC",
        }
    }
}

/// A hive's short name parses back to the hive.
pub proof fn law_hive_name_round_trip(h: Hive)
    ensures
        hive_named(upper_seq(hive_abbrev(h))) == Some(h),
{
    broadcast use vstd::string::group_string_axioms;

    reveal_strlit("HKCU");
    reveal_strlit("HKLM");
    reveal_strlit("HKU");
    reveal_strlit("HKCR");
    reveal_strlit("HKCC");
    reveal_strlit("HKEY_CURRENT_USER");
    reveal_strlit("HKEY_LOCAL_MACHINE");
    reveal_strlit("HKEY_USERS");
    reveal_strlit("HKEY_CLASSES_ROOT");
    reveal_strlit("HKEY_CURRENT_CONFIG");
    assert(upper_seq(hive_abbrev(h)) =~= hive_abbrev(h));
    match h {
        Hive::CurrentUser => {},
        Hive::LocalMachine => {
            assert("HKLM"@[2] != "HKCU"@[2]);
        },
        Hive::Users => {
            assert("HKU"@.len() != "HKCU"@.len());
        },
        Hive::ClassesRoot => {
            assert("HKCR"@[3] != "HKCU"@[3] && "HKCR"@[2] != "HKLM"@[2]);
        },
        Hive::CurrentConfig => {
            assert("HKCC"@[3] != "HKCU"@[3] && "HKCC"@[2] != "HKLM"@[2] && "HKCC"@[3] != "HKCR"@[3]);
        },
    }
}

/// Parsing in tests goes through the same path as `Hive::parse`.
pub fn parse_hive_shim(s: &str) -> (r: Result<Hive, ZenouError>)
    ensures
        match r {
            Ok(h) => hive_named(upper_seq(s@)) == Some(h),
            Err(_) => hive_named(upper_seq(s@)) is None,
        },
{
    Hive::parse(s)
}

// ---------------------------------------------------------------- value types

/// Registry value types (the raw type codes of the Windows registry).
#[allow(non_camel_case_types)]
#[derive(Debug, Clone, Copy, PartialEq, Eq, Structural)]
pub enum RegType {
    REG_NONE,
    REG_SZ,
    REG_EXPAND_SZ,
    REG_BINARY,
    REG_DWORD,
    REG_DWORD_BIG_ENDIAN,
    REG_LINK,
    REG_MULTI_SZ,
    REG_RESOURCE_LIST,
    REG_FULL_RESOURCE_DESCRIPTOR,
    REG_RESOURCE_REQUIREMENTS_LIST,
    REG_QWORD,
}

/// A raw registry value: its type and payload bytes.
pub struct RegValue {
    pub vtype: RegType,
    pub bytes: Vec<u8>,
}

/// Plain-value view of a registry value.
pub struct RegValueView {
    pub vtype: RegType,
    pub bytes: Seq<u8>,
}

impl View for RegValue {
    type V = RegValueView;

    open spec fn view(&self) -> RegValueView {
        RegValueView { vtype: self.vtype, bytes: self.bytes@ }
    }
}

impl RegValue {
    /// A copy holding the same data.
    pub fn duplicate(&self) -> (r: RegValue)
        ensures
            r@ == self@,
    {
        RegValue { vtype: self.vtype, bytes: self.bytes.clone() }
    }
}

/// The recorded name of a value type.
pub open spec fn reg_type_label(t: RegType) -> Seq<char> {
    match t {
        RegType::REG_SZ => "REG_SZ"@,
        RegType::REG_EXPAND_SZ => "REG_EXPAND_SZ"@,
        RegType::REG_BINARY => "REG_BINARY"@,
        RegType::REG_DWORD => "REG_DWORD"@,
        RegType::REG_DWORD_BIG_ENDIAN => "REG_DWORD_BIG_ENDIAN"@,
        RegType::REG_LINK => "REG_LINK"@,
        RegType::REG_MULTI_SZ => "REG_MULTI_SZ"@,
        RegType::REG_QWORD => "REG_QWORD"@,
        _ => "REG_NONE"@,
    }
}

/// The value type a recorded name denotes (unknown names denote REG_NONE).
pub open spec fn reg_type_of_label(n: Seq<char>) -> RegType {
    if n == "REG_SZ"@ {
        RegType::REG_SZ
    } else if n == "REG_EXPAND_SZ"@ {
        RegType::REG_EXPAND_SZ
    } else if n == "REG_BINARY"@ {
        RegType::REG_BINARY
    } else if n == "REG_DWORD"@ {
        RegType::REG_DWORD
    } else if n == "REG_DWORD_BIG_ENDIAN"@ {
        RegType::REG_DWORD_BIG_ENDIAN
    } else if n == "REG_LINK"@ {
        RegType::REG_LINK
    } else if n == "REG_MULTI_SZ"@ {
        RegType::REG_MULTI_SZ
    } else if n == "REG_QWORD"@ {
        RegType::REG_QWORD
    } else {
        RegType::REG_NONE
    }
}

/// The value types whose name survives a capture (all but the resource-list types).
pub open spec fn named_type(t: RegType) -> bool {
    !(t is REG_RESOURCE_LIST || t is REG_FULL_RESOURCE_DESCRIPTOR
        || t is REG_RESOURCE_REQUIREMENTS_LIST)
}


/// A recorded type name denotes the type it was recorded from, for every
/// type with a name of its own; and no type is recorded as "ABSENT".
pub proof fn law_type_name_round_trip(t: RegType)
    ensures
        named_type(t) ==> reg_type_of_label(reg_type_label(t)) == t,
        reg_type_label(t) != "ABSENT"@,
{
    broadcast use vstd::string::group_string_axioms;
    reveal_strlit("REG_SZ");
    reveal_strlit("REG_EXPAND_SZ");
    reveal_strlit("REG_BINARY");
    reveal_strlit("REG_DWORD");
    reveal_strlit("REG_DWORD_BIG_ENDIAN");
    reveal_strlit("REG_LINK");
    reveal_strlit("REG_MULTI_SZ");
    reveal_strlit("REG_QWORD");
    reveal_strlit("REG_NONE");
    reveal_strlit("ABSENT");
    assert("REG_SZ"@[4] == 'S' && "REG_SZ"@.len() == 6);
    assert("REG_EXPAND_SZ"@[4] == 'E' && "REG_EXPAND_SZ"@.len() == 13);
    assert("REG_BINARY"@[4] == 'B' && "REG_BINARY"@.len() == 10);
    assert("REG_DWORD"@[4] == 'D' && "REG_DWORD"@.len() == 9);
    assert("REG_DWORD_BIG_ENDIAN"@[4] == 'D' && "REG_DWORD_BIG_ENDIAN"@.len() == 20);
    assert("REG_LINK"@[4] == 'L' && "REG_LINK"@.len() == 8);
    assert("REG_MULTI_SZ"@[4] == 'M' && "REG_MULTI_SZ"@.len() == 12);
    assert("REG_QWORD"@[4] == 'Q' && "REG_QWORD"@.len() == 9);
    assert("REG_NONE"@[4] == 'N' && "REG_NONE"@.len() == 8);
    assert(reg_type_label(t)[0] == 'R');
    assert("ABSENT"@[0] == 'A');
}

/// Records a value as (type name, payload).
pub fn encode_value(value: &RegValue) -> (r: (String, Vec<u8>))
    ensures
        r.0@ == reg_type_label(value.vtype),
        r.1@ == value.bytes@,
{
    let t = match value.vtype {
        RegType::REG_SZ => "REG_SZ",
        RegType::REG_EXPAND_SZ => "REG_EXPAND_SZ",
        RegType::REG_BINARY => "REG_BINARY",
        RegType::REG_DWORD => "REG_DWORD",
        RegType::REG_DWORD_BIG_ENDIAN => "REG_DWORD_BIG_ENDIAN",
        RegType::REG_LINK => "REG_LINK",
        RegType::REG_MULTI_SZ => "REG_MULTI_SZ",
        RegType::REG_QWORD => "REG_QWORD",
        _ => "REG_NONE",
    };
    (owned(t), value.bytes.clone())
}

/// Rebuilds a value from its recorded type name and payload.
pub fn decode_value(reg_type: &str, data: &[u8]) -> (r: Result<RegValue, ZenouError>)
    ensures
        r matches Ok(v) && v.vtype == reg_type_of_label(reg_type@) && v.bytes@ == data@,
{
    let n = chars_of(reg_type);
    let ns = n.as_slice();
    let vtype = if is_lit(ns, "REG_SZ") {
        RegType::REG_SZ
    } else if is_lit(ns, "REG_EXPAND_SZ") {
        RegType::REG_EXPAND_SZ
    } else if is_lit(ns, "REG_BINARY") {
        RegType::REG_BINARY
    } else if is_lit(ns, "REG_DWORD") {
        RegType::REG_DWORD
    } else if is_lit(ns, "REG_DWORD_BIG_ENDIAN") {
        RegType::REG_DWORD_BIG_ENDIAN
    } else if is_lit(ns, "REG_LINK") {
        RegType::REG_LINK
    } else if is_lit(ns, "REG_MULTI_SZ") {
        RegType::REG_MULTI_SZ
    } else if is_lit(ns, "REG_QWORD") {
        RegType::REG_QWORD
    } else {
        RegType::REG_NONE
    };
    Ok(RegValue { vtype, bytes: vstd::slice::slice_to_vec(data) })
}

// ---------------------------------------------------------------- little-endian integers

/// The unsigned integer whose little-endian bytes are `b`.
pub open spec fn le_value(b: Seq<u8>) -> nat
    decreases b.len(),
{
    if b.len() == 0 {
        0
    } else {
        b[0] as nat + 256 * le_value(b.drop_first())
    }
}

/// 256 to the power `n`.
pub open spec fn pow256(n: nat) -> nat
    decreases n,
{
    if n == 0 {
        1
    } else {
        256 * pow256((n - 1) as nat)
    }
}

proof fn lemma_le_value_bound(b: Seq<u8>)
    ensures
        le_value(b) < pow256(b.len()),
    decreases b.len(),
{
    if b.len() > 0 {
        lemma_le_value_bound(b.drop_first());
    }
}

/// Little-endian value of `b[from..]`, for at most eight bytes.
fn le_read(b: &[u8]) -> (v: u64)
    requires
        b@.len() <= 8,
    ensures
        v as nat == le_value(b@),
{
    let mut v: u64 = 0;
    let mut i: usize = b.len();
    proof {
        reveal_with_fuel(pow256, 9);
    }
    while i > 0
        invariant
            i <= b@.len() <= 8,
            v as nat == le_value(b@.subrange(i as int, b@.len() as int)),
            v < pow256((b@.len() - i) as nat),
            pow256(8) == 0x1_0000_0000_0000_0000nat,
            forall|k: nat| k <= 8 ==> pow256(k) <= 0x1_0000_0000_0000_0000nat,
        decreases i,
    {
        let ghost tail = b@.subrange(i as int, b@.len() as int);
        let ghost ext = b@.subrange(i - 1, b@.len() as int);
        assert(ext.drop_first() =~= tail);
        assert(pow256((b@.len() - (i - 1)) as nat) == 256 * pow256((b@.len() - i) as nat));
        v = v * 256 + b[i - 1] as u64;
        i = i - 1;
    }
    assert(b@.subrange(0, b@.len() as int) =~= b@);
    v
}

/// The four little-endian bytes of `v`.
pub open spec fn dword_bytes(v: u32) -> Seq<u8> {
    seq![
        (v % 256) as u8,
        ((v / 256) % 256) as u8,
        ((v / 65536) % 256) as u8,
        ((v / 16777216) % 256) as u8,
    ]
}

/// `u32::to_le_bytes`.
pub fn dword_to_le(v: u32) -> (b: Vec<u8>)
    ensures
        b@ == dword_bytes(v),
        le_value(b@) == v as nat,
{
    let b = vec![
        (v % 256) as u8,
        ((v / 256) % 256) as u8,
        ((v / 65536) % 256) as u8,
        ((v / 16777216) % 256) as u8,
    ];
    assert(b@ =~= dword_bytes(v));
    proof {
        let s = dword_bytes(v);
        reveal_with_fuel(le_value, 5);
        assert(s.drop_first().drop_first().drop_first().drop_first() =~= Seq::<u8>::empty());
        assert(le_value(s) == v as nat);
    }
    b
}

/// The DWORD stored in four little-endian bytes.
pub fn dword_from_le(b: &[u8]) -> (v: u32)
    requires
        b@.len() == 4,
    ensures
        v as nat == le_value(b@),
{
    proof {
        lemma_le_value_bound(b@);
        reveal_with_fuel(pow256, 5);
    }
    le_read(b) as u32
}

/// The QWORD stored in eight little-endian bytes.
pub fn qword_from_le(b: &[u8]) -> (v: u64)
    requires
        b@.len() == 8,
    ensures
        v as nat == le_value(b@),
{
    le_read(b)
}

// ---------------------------------------------------------------- UTF-16 payloads

/// The UTF-16 code units of one character.
pub open spec fn utf16_units(c: char) -> Seq<u16> {
    let v = c as u32 as int;
    if v < 0x10000 {
        seq![v as u16]
    } else {
        let w = v - 0x10000;
        seq![(0xD800 + w / 1024) as u16, (0xDC00 + w % 1024) as u16]
    }
}

/// UTF-16 encoding of a character sequence (`str::encode_utf16`).
pub open spec fn utf16_of(s: Seq<char>) -> Seq<u16>
    decreases s.len(),
{
    if s.len() == 0 {
        Seq::empty()
    } else {
        utf16_units(s[0]) + utf16_of(s.drop_first())
    }
}

/// Little-endian bytes of a sequence of code units.
pub open spec fn le16(u: Seq<u16>) -> Seq<u8>
    decreases u.len(),
{
    if u.len() == 0 {
        Seq::empty()
    } else {
        seq![(u[0] % 256) as u8, (u[0] / 256) as u8] + le16(u.drop_first())
    }
}

/// The code units read from consecutive byte pairs (a final odd byte is ignored).
pub open spec fn units_le(b: Seq<u8>) -> Seq<u16> {
    Seq::new(b.len() / 2, |i: int| (b[2 * i] as int + 256 * b[2 * i + 1] as int) as u16)
}

/// The code units before the first zero unit.
pub open spec fn until_nul(u: Seq<u16>) -> Seq<u16>
    decreases u.len(),
{
    if u.len() == 0 || u[0] == 0 {
        Seq::empty()
    } else {
        seq![u[0]] + until_nul(u.drop_first())
    }
}

/// UTF-16 decoding: every unit outside the surrogate range is a character, a
/// high surrogate followed by a low surrogate is one character, anything else
/// makes the sequence invalid.
pub open spec fn decode_utf16(u: Seq<u16>) -> Option<Seq<char>>
    decreases u.len(),
{
    if u.len() == 0 {
        Some(Seq::empty())
    } else if u[0] < 0xD800 || u[0] > 0xDFFF {
        match decode_utf16(u.drop_first()) {
            Some(r) => Some(seq![u[0] as char] + r),
            None => None,
        }
    } else if u[0] <= 0xDBFF && u.len() >= 2 && 0xDC00 <= u[1] <= 0xDFFF {
        let c = (0x10000 + (u[0] - 0xD800) * 1024 + (u[1] - 0xDC00)) as char;
        match decode_utf16(u.subrange(2, u.len() as int)) {
            Some(r) => Some(seq![c] + r),
            None => None,
        }
    } else {
        None
    }
}

/// The string stored in a UTF-16LE payload: units up to the first NUL, decoded.
pub open spec fn decode_payload(b: Seq<u8>) -> Option<Seq<char>> {
    decode_utf16(until_nul(units_le(b)))
}

/// Facts about the code of a character.
pub proof fn lemma_char_code(c: char)
    ensures
        (c as u32) <= 0x10FFFF,
        (c as u32) < 0xD800 || 0xE000 <= (c as u32),
        (c as u32) as char == c,
{
}

/// UTF-16 encoding distributes over concatenation.
pub proof fn lemma_utf16_append(a: Seq<char>, b: Seq<char>)
    ensures
        utf16_of(a + b) == utf16_of(a) + utf16_of(b),
    decreases a.len(),
{
    if a.len() == 0 {
        assert(a + b =~= b);
    } else {
        assert((a + b).drop_first() =~= a.drop_first() + b);
        lemma_utf16_append(a.drop_first(), b);
        assert(utf16_units(a[0]) + (utf16_of(a.drop_first()) + utf16_of(b)) =~= utf16_units(a[0])
            + utf16_of(a.drop_first()) + utf16_of(b));
    }
}

proof fn lemma_le16_append(a: Seq<u16>, b: Seq<u16>)
    ensures
        le16(a + b) == le16(a) + le16(b),
    decreases a.len(),
{
    if a.len() == 0 {
        assert(a + b =~= b);
    } else {
        assert((a + b).drop_first() =~= a.drop_first() + b);
        lemma_le16_append(a.drop_first(), b);
        assert(seq![(a[0] % 256) as u8, (a[0] / 256) as u8] + (le16(a.drop_first()) + le16(b))
            =~= seq![(a[0] % 256) as u8, (a[0] / 256) as u8] + le16(a.drop_first()) + le16(b));
    }
}

proof fn lemma_units_of_le16(u: Seq<u16>)
    ensures
        units_le(le16(u)) == u,
        le16(u).len() == 2 * u.len(),
    decreases u.len(),
{
    if u.len() > 0 {
        lemma_units_of_le16(u.drop_first());
        let b = le16(u);
        let t = le16(u.drop_first());
        assert(b =~= seq![(u[0] % 256) as u8, (u[0] / 256) as u8] + t);
        assert forall|i: int| 0 <= i < u.len() implies #[trigger] units_le(b)[i] == u[i] by {
            if i == 0 {
                assert(b[0] == (u[0] % 256) as u8);
                assert(b[1] == (u[0] / 256) as u8);
            } else {
                assert(b[2 * i] == t[2 * (i - 1)]);
                assert(b[2 * i + 1] == t[2 * (i - 1) + 1]);
                assert(units_le(t)[i - 1] == u.drop_first()[i - 1]);
            }
        }
        assert(units_le(b) =~= u);
    }
}

proof fn lemma_no_nul_units(s: Seq<char>)
    requires
        forall|i: int| 0 <= i < s.len() ==> (s[i] as u32) != 0,
    ensures
        until_nul(utf16_of(s)) == utf16_of(s),
    decreases s.len(),
{
    if s.len() > 0 {
        lemma_no_nul_units(s.drop_first());
        let u = utf16_units(s[0]);
        let rest = utf16_of(s.drop_first());
        let v = s[0] as u32 as int;
        lemma_char_code(s[0]);
        assert(v != 0);
        if v < 0x10000 {
            assert(u[0] == v as u16);
            assert(u[0] != 0);
        } else {
            assert(v <= 0x10FFFF);
            let w = v - 0x10000;
            assert(0 <= w / 1024 <= 1023);
            assert(u[0] == (0xD800 + w / 1024) as u16);
            assert(u[0] != 0);
        }
        assert((u + rest).drop_first() =~= u.drop_first() + rest);
        if u.len() == 2 {
            assert(u[1] != 0);
            assert((u + rest).drop_first().drop_first() =~= rest);
            assert(until_nul(u.drop_first() + rest) =~= seq![u[1]] + rest);
        } else {
            assert(u.drop_first() + rest =~= rest);
        }
        assert(until_nul(u + rest) =~= u + rest);
    }
}

proof fn lemma_decode_encode(s: Seq<char>)
    ensures
        decode_utf16(utf16_of(s)) == Some(s),
    decreases s.len(),
{
    if s.len() > 0 {
        lemma_decode_encode(s.drop_first());
        let c = s[0];
        let u = utf16_units(c);
        let rest = utf16_of(s.drop_first());
        let all = u + rest;
        let v = c as u32 as int;
        lemma_char_code(c);
        if v < 0x10000 {
            assert(all.drop_first() =~= rest);
            assert((v as u16) as int == v);
            assert((v as u16) as char == (c as u32) as char);
            assert((v as u16) as char == c);
            assert(seq![c] + s.drop_first() =~= s);
        } else {
            let w = v - 0x10000;
            assert(all.subrange(2, all.len() as int) =~= rest);
            assert(0x10000 + (w / 1024) * 1024 + w % 1024 == v);
            assert(seq![c] + s.drop_first() =~= s);
        }
    }
}

/// A string payload written from `s` reads back as `s`, for every `s` without NUL
/// characters (a NUL ends the stored string).
pub proof fn law_utf16_round_trip(s: Seq<char>)
    requires
        forall|i: int| 0 <= i < s.len() ==> (s[i] as u32) != 0,
    ensures
        decode_payload(le16(utf16_of(s))) == Some(s),
{
    lemma_units_of_le16(utf16_of(s));
    lemma_no_nul_units(s);
    lemma_decode_encode(s);
}

/// The UTF-16LE payload of a string (`str::encode_utf16` then `u16::to_le_bytes`).
pub fn to_utf16le(s: &str) -> (b: Vec<u8>)
    ensures
        b@ == le16(utf16_of(s@)),
{
    let v = chars_of(s);
    let mut b: Vec<u8> = Vec::new();
    let mut i: usize = 0;
    assert(s@.subrange(0, 0) =~= Seq::<char>::empty());
    while i < v.len()
        invariant
            v@ == s@,
            i <= v@.len(),
            b@ == le16(utf16_of(s@.subrange(0, i as int))),
        decreases v.len() - i,
    {
        let c = v[i];
        let code = c as u32;
        let ghost pre = s@.subrange(0, i as int);
        proof {
            assert(s@.subrange(0, i + 1) =~= pre + seq![c]);
            lemma_utf16_append(pre, seq![c]);
            reveal_with_fuel(utf16_of, 2);
            assert(seq![c].drop_first() =~= Seq::<char>::empty());
            assert(utf16_of(seq![c]) =~= utf16_units(c));
            lemma_le16_append(utf16_of(pre), utf16_units(c));
            reveal_with_fuel(le16, 3);
        }
        if code < 0x10000 {
            b.push((code % 256) as u8);
            b.push((code / 256) as u8);
            proof {
                reveal_with_fuel(le16, 3);
                let u = utf16_units(c);
                assert(u[0] == code as u16);
                assert(u.drop_first() =~= Seq::<u16>::empty());
                assert(le16(u) =~= seq![(code % 256) as u8, (code / 256) as u8]);
            }
        } else {
            let w = code - 0x10000;
            let hi = 0xD800 + w / 1024;
            let lo = 0xDC00 + w % 1024;
            b.push((hi % 256) as u8);
            b.push((hi / 256) as u8);
            b.push((lo % 256) as u8);
            b.push((lo / 256) as u8);
            proof {
                reveal_with_fuel(le16, 3);
                let u = utf16_units(c);
                lemma_char_code(c);
                assert(code <= 0x10FFFF);
                assert(hi < 65536 && lo < 65536);
                assert(u[0] == hi as u16 && u[1] == lo as u16);
                assert(u.drop_first().drop_first() =~= Seq::<u16>::empty());
                assert(le16(u.drop_first()) =~= seq![(lo % 256) as u8, (lo / 256) as u8]);
                assert(le16(u) =~= seq![
                    (hi % 256) as u8,
                    (hi / 256) as u8,
                    (lo % 256) as u8,
                    (lo / 256) as u8,
                ]);
            }
        }
        i = i + 1;
    }
    assert(s@.subrange(0, v@.len() as int) =~= s@);
    b
}


/// `char::from_u32`: the character with code `v`, when `v` is a Unicode scalar value.
#[verifier::external_body]
pub(crate) fn char_from_u32(v: u32) -> (r: Option<char>)
    ensures
        (v <= 0x10FFFF && (v < 0xD800 || 0xE000 <= v)) ==> r == Some(v as char),
        !(v <= 0x10FFFF && (v < 0xD800 || 0xE000 <= v)) ==> r is None,
{
    char::from_u32(v)
}

/// The code units of a little-endian byte payload, up to the first zero unit.
fn payload_units(bytes: &[u8]) -> (u: Vec<u16>)
    ensures
        u@ == until_nul(units_le(bytes@)),
{
    let n = bytes.len() / 2;
    let ghost all = units_le(bytes@);
    let mut u: Vec<u16> = Vec::new();
    let mut i: usize = 0;
    assert(all.subrange(0, n as int) =~= all);
    assert(u@ + until_nul(all) =~= until_nul(all));
    while i < n
        invariant
            n == all.len(),
            n == bytes@.len() / 2,
            bytes@.len() == bytes.len(),
            all == units_le(bytes@),
            i <= n,
            until_nul(all) == u@ + until_nul(all.subrange(i as int, n as int)),
            forall|k: int| 0 <= k < u@.len() ==> u@[k] != 0,
        decreases n - i,
    {
        let unit: u16 = (bytes[2 * i] as u16) + 256 * (bytes[2 * i + 1] as u16);
        assert(unit == all[i as int]);
        let ghost tail = all.subrange(i as int, n as int);
        assert(tail.drop_first() =~= all.subrange(i + 1, n as int));
        if unit == 0 {
            assert(until_nul(tail) =~= Seq::<u16>::empty());
            assert(u@ + Seq::<u16>::empty() =~= u@);
            return u;
        }
        u.push(unit);
        assert(u@.drop_last() + (seq![unit] + until_nul(all.subrange(i + 1, n as int))) =~= u@
            + until_nul(all.subrange(i + 1, n as int)));
        i = i + 1;
    }
    assert(until_nul(all.subrange(n as int, n as int)) =~= Seq::<u16>::empty());
    assert(u@ + Seq::<u16>::empty() =~= u@);
    u
}

/// Decodes a UTF-16LE payload: the units before the first NUL, as text; `None`
/// when they are not valid UTF-16 (`String::from_utf16` on the units).
pub fn decode_utf16le(bytes: &[u8]) -> (r: Option<String>)
    ensures
        opt_view(r) == decode_payload(bytes@),
{
    let u = payload_units(bytes);
    let mut out: Vec<char> = Vec::new();
    let mut i: usize = 0;
    proof {
        assert(u@.subrange(0, u@.len() as int) =~= u@);
        match decode_utf16(u@) {
            Some(r) => {
                assert(out@ + r =~= r);
            },
            None => {},
        }
    }
    while i < u.len()
        invariant
            i <= u@.len(),
            decode_payload(bytes@) == match decode_utf16(u@.subrange(i as int, u@.len() as int)) {
                Some(r) => Some(out@ + r),
                None => None::<Seq<char>>,
            },
        decreases u.len() - i,
    {
        let ghost tail = u@.subrange(i as int, u@.len() as int);
        let a = u[i];
        if a < 0xD800 || a > 0xDFFF {
            assert(tail.drop_first() =~= u@.subrange(i + 1, u@.len() as int));
            match char_from_u32(a as u32) {
                Some(c) => {
                    proof {
                        match decode_utf16(tail.drop_first()) {
                            Some(r) => {
                                assert(out@ + (seq![a as char] + r) =~= out@.push(c) + r);
                            },
                            None => {},
                        }
                    }
                    out.push(c);
                },
                None => {
                    return None;
                },
            }
            i = i + 1;
        } else if a <= 0xDBFF && i + 1 < u.len() && 0xDC00 <= u[i + 1] && u[i + 1] <= 0xDFFF {
            let b = u[i + 1];
            let code: u32 = 0x10000 + ((a as u32) - 0xD800) * 1024 + ((b as u32) - 0xDC00);
            assert(tail.subrange(2, tail.len() as int) =~= u@.subrange(i + 2, u@.len() as int));
            match char_from_u32(code) {
                Some(c) => {
                    proof {
                        match decode_utf16(tail.subrange(2, tail.len() as int)) {
                            Some(r) => {
                                assert(out@ + (seq![code as char] + r) =~= out@.push(c) + r);
                            },
                            None => {},
                        }
                    }
                    out.push(c);
                },
                None => {
                    return None;
                },
            }
            i = i + 2;
        } else {
            return None;
        }
    }
    assert(u@.subrange(i as int, u@.len() as int) =~= Seq::<u16>::empty());
    assert(out@ + Seq::<char>::empty() =~= out@);
    Some(string_of(out.as_slice()))
}

// ---------------------------------------------------------------- rendering

/// Two lowercase hex digits of a byte.
pub open spec fn hex2(b: u8) -> Seq<char> {
    hex_fixed(b as nat, 2)
}

/// Bytes as two-digit hex, separated by single spaces.
pub open spec fn hex_join(b: Seq<u8>) -> Seq<char>
    decreases b.len(),
{
    if b.len() == 0 {
        Seq::empty()
    } else if b.len() == 1 {
        hex2(b[0])
    } else {
        hex_join(b.drop_last()) + " "@ + hex2(b.last())
    }
}

/// "v (0x0000000v)": a DWORD in decimal and zero-padded hex.
pub open spec fn dword_label(v: nat) -> Seq<char> {
    decimal(v) + " (0x"@ + hex_fixed(v, 8) + ")"@
}

/// The human rendering of a captured value.
pub open spec fn render_spec(s: SavedView) -> Seq<char> {
    if s.reg_type == "ABSENT"@ {
        "not set"@
    } else if s.reg_type == "REG_DWORD"@ && s.data.len() == 4 {
        dword_label(le_value(s.data))
    } else if s.reg_type == "REG_QWORD"@ && s.data.len() == 8 {
        decimal(le_value(s.data))
    } else if s.reg_type == "REG_SZ"@ || s.reg_type == "REG_EXPAND_SZ"@ {
        match decode_payload(s.data) {
            Some(t) => t,
            None => "(binary)"@,
        }
    } else if s.reg_type == "REG_BINARY"@ && s.data.len() <= 16 {
        hex_join(s.data)
    } else {
        decimal(s.data.len()) + " bytes"@
    }
}

/// Bytes as two-digit hex separated by spaces.
pub fn hex_bytes(b: &[u8]) -> (r: String)
    ensures
        r@ == hex_join(b@),
{
    let mut r = String::new();
    let mut i: usize = 0;
    assert(b@.subrange(0, 0) =~= Seq::<u8>::empty());
    while i < b.len()
        invariant
            i <= b@.len(),
            r@ == hex_join(b@.subrange(0, i as int)),
        decreases b.len() - i,
    {
        let ghost pre = r@;
        assert(b@.subrange(0, i + 1).drop_last() =~= b@.subrange(0, i as int));
        if i > 0 {
            push_str(&mut r, " ");
        }
        push_hex(&mut r, b[i] as u64, 2);
        proof {
            if i == 0 {
                assert(pre =~= Seq::<char>::empty());
                assert(Seq::<char>::empty() + hex2(b@[0]) =~= hex2(b@[0]));
                assert(hex_join(b@.subrange(0, 1)) == hex2(b@.subrange(0, 1)[0]));
            }
        }
        i = i + 1;
    }
    assert(b@.subrange(0, b@.len() as int) =~= b@);
    r
}

/// "v (0x0000000v)" for a DWORD.
pub fn format_dword(v: u32) -> (r: String)
    ensures
        r@ == dword_label(v as nat),
{
    let mut r = String::new();
    push_decimal(&mut r, v as u64);
    push_str(&mut r, " (0x");
    push_hex(&mut r, v as u64, 8);
    push_str(&mut r, ")");
    assert(Seq::<char>::empty() + decimal(v as nat) =~= decimal(v as nat));
    r
}

/// "n bytes".
pub fn format_byte_count(n: usize) -> (r: String)
    ensures
        r@ == decimal(n as nat) + " bytes"@,
{
    let mut r = String::new();
    push_decimal(&mut r, n as u64);
    push_str(&mut r, " bytes");
    assert(Seq::<char>::empty() + decimal(n as nat) =~= decimal(n as nat));
    r
}

/// Human-readable rendering of a captured or preview value for the UI.
pub fn render_saved(saved: &SavedValue) -> (r: String)
    ensures
        r@ == render_spec(saved@),
{
    let t = chars_of(saved.reg_type.as_str());
    let ts = t.as_slice();
    let n = saved.data.len();
    if is_lit(ts, "ABSENT") {
        owned("not set")
    } else if is_lit(ts, "REG_DWORD") && n == 4 {
        let v = dword_from_le(saved.data.as_slice());
        format_dword(v)
    } else if is_lit(ts, "REG_QWORD") && n == 8 {
        let v = qword_from_le(saved.data.as_slice());
        let mut r = String::new();
        push_decimal(&mut r, v);
        assert(Seq::<char>::empty() + decimal(v as nat) =~= decimal(v as nat));
        r
    } else if is_lit(ts, "REG_SZ") || is_lit(ts, "REG_EXPAND_SZ") {
        match decode_utf16le(saved.data.as_slice()) {
            Some(s) => s,
            None => owned("(binary)"),
        }
    } else if is_lit(ts, "REG_BINARY") && n <= 16 {
        hex_bytes(saved.data.as_slice())
    } else {
        format_byte_count(n)
    }
}

// ---------------------------------------------------------------- capture and restore

/// Where a value lives: hive, key path and value name.
pub open spec fn value_key(h: Hive, path: Seq<char>, name: Seq<char>) -> (Hive, Seq<char>, Seq<char>) {
    (h, path, name)
}

/// The view of an optional raw value.
pub open spec fn raw_view(r: Option<RegValue>) -> Option<RegValueView> {
    match r {
        Some(v) => Some(v@),
        None => None,
    }
}

/// What a capture records for a value that is `raw` (absent when `None`).
pub open spec fn capture_spec(h: Hive, path: Seq<char>, name: Seq<char>, raw: Option<RegValueView>) -> SavedView {
    SavedView {
        hive: hive_abbrev(h),
        path,
        name,
        reg_type: match raw {
            Some(v) => reg_type_label(v.vtype),
            None => "ABSENT"@,
        },
        data: match raw {
            Some(v) => v.bytes,
            None => Seq::empty(),
        },
    }
}

/// Records the current value of a registry value; an absent value is recorded
/// as "ABSENT" so that restore can delete it again.
pub fn capture(hive: Hive, path: &str, name: &str, raw: &Option<RegValue>) -> (s: SavedValue)
    ensures
        s@ == capture_spec(hive, path@, name@, raw_view(*raw)),
{
    match raw {
        Some(v) => {
            let (t, data) = encode_value(v);
            SavedValue { hive: owned(hive.as_str()), path: owned(path), name: owned(name), reg_type: t, data }
        },
        None => SavedValue {
            hive: owned(hive.as_str()),
            path: owned(path),
            name: owned(name),
            reg_type: owned("ABSENT"),
            data: Vec::new(),
        },
    }
}

/// A registry mutation.
pub enum RegAction {
    /// Create or overwrite a value (creating its key when missing).
    Write { hive: Hive, path: String, name: String, value: RegValue },
    /// Remove a value.
    Delete { hive: Hive, path: String, name: String },
}

/// Plain-value view of a registry mutation.
pub enum RegActionView {
    Write { key: (Hive, Seq<char>, Seq<char>), value: RegValueView },
    Delete { key: (Hive, Seq<char>, Seq<char>) },
}

impl View for RegAction {
    type V = RegActionView;

    open spec fn view(&self) -> RegActionView {
        match self {
            RegAction::Write { hive, path, name, value } => RegActionView::Write {
                key: value_key(*hive, path@, name@),
                value: value@,
            },
            RegAction::Delete { hive, path, name } => RegActionView::Delete {
                key: value_key(*hive, path@, name@),
            },
        }
    }
}

/// The registry after a mutation: a map from value location to value.
pub open spec fn apply_action(m: Map<(Hive, Seq<char>, Seq<char>), RegValueView>, a: RegActionView) -> Map<
    (Hive, Seq<char>, Seq<char>),
    RegValueView,
> {
    match a {
        RegActionView::Write { key, value } => m.insert(key, value),
        RegActionView::Delete { key } => m.remove(key),
    }
}

/// The mutation that puts back a captured value: delete it when it was
/// absent, otherwise write the recorded type and bytes.
pub open spec fn restore_action(s: SavedView, h: Hive) -> RegActionView {
    if s.reg_type == "ABSENT"@ {
        RegActionView::Delete { key: value_key(h, s.path, s.name) }
    } else {
        RegActionView::Write {
            key: value_key(h, s.path, s.name),
            value: RegValueView { vtype: reg_type_of_label(s.reg_type), bytes: s.data },
        }
    }
}

/// Plans the restore of a previously captured value; a value recorded under an
/// unknown hive is refused.
pub fn restore(saved: &SavedValue) -> (r: Result<RegAction, ZenouError>)
    ensures
        match r {
            Ok(a) => hive_named(upper_seq(saved.hive@)) matches Some(h) && a@ == restore_action(
                saved@,
                h,
            ),
            Err(e) => hive_named(upper_seq(saved.hive@)) is None && error_is(
                e,
                "registry"@,
                "The tweak targets an unsupported registry location and was blocked."@,
                Some("unknown hive: "@ + upper_seq(saved.hive@)),
            ),
        },
{
    let hive = Hive::parse(saved.hive.as_str())?;
    let t = chars_of(saved.reg_type.as_str());
    if is_lit(t.as_slice(), "ABSENT") {
        return Ok(RegAction::Delete { hive, path: saved.path.clone(), name: saved.name.clone() });
    }
    let value = decode_value(saved.reg_type.as_str(), saved.data.as_slice())?;
    Ok(RegAction::Write { hive, path: saved.path.clone(), name: saved.name.clone(), value })
}

/// Restoring a capture puts the value back exactly as it was when captured
/// (present with the same type and bytes, or absent), whatever was written in
/// between, for every value of a type that has a name of its own.
pub proof fn law_capture_restore_round_trip(
    before: Map<(Hive, Seq<char>, Seq<char>), RegValueView>,
    after: Map<(Hive, Seq<char>, Seq<char>), RegValueView>,
    h: Hive,
    path: Seq<char>,
    name: Seq<char>,
)
    requires
        before.contains_key(value_key(h, path, name)) ==> named_type(
            before[value_key(h, path, name)].vtype,
        ),
    ensures
        ({
            let k = value_key(h, path, name);
            let saved = capture_spec(h, path, name, before.get(k));
            &&& hive_named(upper_seq(saved.hive)) == Some(h)
            &&& apply_action(after, restore_action(saved, h)) == if before.contains_key(k) {
                after.insert(k, before[k])
            } else {
                after.remove(k)
            }
        }),
{
    law_hive_name_round_trip(h);
    let k = value_key(h, path, name);
    if before.contains_key(k) {
        law_type_name_round_trip(before[k].vtype);
    }
}

// ---------------------------------------------------------------- write values and errors

/// A REG_DWORD value.
pub fn dword_value(v: u32) -> (r: RegValue)
    ensures
        r@ == (RegValueView { vtype: RegType::REG_DWORD, bytes: dword_bytes(v) }),
        le_value(r.bytes@) == v as nat,
{
    RegValue { vtype: RegType::REG_DWORD, bytes: dword_to_le(v) }
}

/// A REG_SZ value holding `s` in UTF-16LE.
pub fn sz_value(s: &str) -> (r: RegValue)
    ensures
        r@ == (RegValueView { vtype: RegType::REG_SZ, bytes: le16(utf16_of(s@)) }),
{
    RegValue { vtype: RegType::REG_SZ, bytes: to_utf16le(s) }
}

/// A REG_BINARY value.
pub fn binary_value(b: &[u8]) -> (r: RegValue)
    ensures
        r@ == (RegValueView { vtype: RegType::REG_BINARY, bytes: b@ }),
{
    RegValue { vtype: RegType::REG_BINARY, bytes: vstd::slice::slice_to_vec(b) }
}

/// The failure details describe a missing key (Windows error 2, "cannot find
/// the file" or "not found" in any case).
pub open spec fn missing_details(d: Seq<char>) -> bool {
    seq_contains(d, "code: 2"@) || seq_contains(d, "cannot find the file"@) || seq_contains(
        lowercase_of(d),
        "not found"@,
    )
}

/// The error says that a key does not exist.
pub open spec fn missing_key_spec(e: ZenouError) -> bool {
    match e.details {
        Some(d) => missing_details(d@),
        None => false,
    }
}

/// Whether an error says that the key does not exist.
pub fn is_missing_key(e: &ZenouError) -> (r: bool)
    ensures
        r == missing_key_spec(*e),
{
    match &e.details {
        Some(d) => {
            let dv = chars_of(d.as_str());
            if contains_str(dv.as_slice(), "code: 2") || contains_str(dv.as_slice(), "cannot find the file") {
                true
            } else {
                let low = to_lowercase(d.as_str());
                let lv = chars_of(low.as_str());
                contains_str(lv.as_slice(), "not found")
            }
        },
        None => false,
    }
}

/// A read failed because the key is missing (that means: no value).
pub open spec fn read_says_absent(e: ZenouError) -> bool {
    (e.code@ == "registry"@ && seq_contains(e.message@, "does not exist"@)) || missing_key_spec(e)
}

/// The outcome of reading a value, given the outcome of opening its key and
/// reading it: a missing key reads as an absent value, other failures stay.
pub fn read_raw(opened: Result<Option<RegValue>, ZenouError>) -> (r: Result<Option<RegValue>, ZenouError>)
    ensures
        match opened {
            Ok(v) => r matches Ok(w) && raw_view(w) == raw_view(v),
            Err(e) => if read_says_absent(e) {
                r matches Ok(w) && w is None
            } else {
                r matches Err(f) && error_is(f, e.code@, e.message@, opt_view(e.details))
            },
        },
{
    match opened {
        Ok(v) => Ok(v),
        Err(e) => {
            let code = chars_of(e.code.as_str());
            let msg = chars_of(e.message.as_str());
            if (is_lit(code.as_slice(), "registry") && contains_str(msg.as_slice(), "does not exist"))
                || is_missing_key(&e) {
                Ok(None)
            } else {
                Err(e)
            }
        },
    }
}

/// The outcome of deleting a value that Windows reported: a value that was
/// already absent is the end state asked for, so the delete succeeds; any
/// other refusal is an error.
pub fn delete_result(not_found: bool, detail: String) -> (r: Result<(), ZenouError>)
    ensures
        not_found ==> r is Ok,
        !not_found ==> (r matches Err(e) && error_is(e, "registry"@, "Could not remove the registry value."@, Some(detail@))),
{
    if not_found {
        Ok(())
    } else {
        Err(ZenouError::registry(owned("Could not remove the registry value."), Some(detail)))
    }
}

/// The outcome of a delete whose key could not be opened: a missing key means
/// the value is already gone.
pub fn delete_when_unopened(e: ZenouError) -> (r: Result<(), ZenouError>)
    ensures
        missing_key_spec(e) ==> r is Ok,
        !missing_key_spec(e) ==> (r matches Err(f) && error_is(f, e.code@, e.message@, opt_view(e.details))),
{
    if is_missing_key(&e) {
        Ok(())
    } else {
        Err(e)
    }
}

/// The error of a key that could not be created.
pub fn create_key_error(detail: String) -> (e: ZenouError)
    ensures
        error_is(e, "registry"@, "Could not create the registry location."@, Some(detail@)),
{
    ZenouError::registry(owned("Could not create the registry location."), Some(detail))
}

/// The error of a value that could not be written.
pub fn write_error(detail: String) -> (e: ZenouError)
    ensures
        error_is(e, "registry"@, "Could not write the registry value."@, Some(detail@)),
{
    ZenouError::registry(owned("Could not write the registry value."), Some(detail))
}

/// The error of an original value that could not be written back.
pub fn restore_write_error(detail: String) -> (e: ZenouError)
    ensures
        error_is(e, "registry"@, "Could not restore the original registry value."@, Some(detail@)),
{
    ZenouError::registry(owned("Could not restore the original registry value."), Some(detail))
}

} // verus!
