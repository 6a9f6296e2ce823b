//! The string table: USB string descriptors, UTF-16LE encoded and prefixed
//! with their length and descriptor type.
use vstd::prelude::*;
use crate::descriptors::le16;
use crate::usb::{
    STRINGID_CONFIG_HS, STRINGID_CONFIG_LS, STRINGID_INTERFACE, STRINGID_LANGID,
    STRINGID_MANUFACTURER, STRINGID_PRODUCT, STRINGID_SERIAL, USB_DT_STRING,
};

verus! {

/// UTF-16 code units of one character: itself below U+10000, else a
/// surrogate pair.
pub open spec fn utf16_of_char(c: char) -> Seq<u16> {
    let v = c as u32;
    if v < 0x10000 {
        seq![v as u16]
    } else {
        let w = (v - 0x10000) as u32;
        seq![(0xD800 + w / 0x400) as u16, (0xDC00 + w % 0x400) as u16]
    }
}

/// UTF-16 code units of a string.
pub open spec fn utf16_units(s: Seq<char>) -> Seq<u16>
    decreases s.len(),
{
    if s.len() == 0 {
        Seq::empty()
    } else {
        utf16_units(s.drop_last()) + utf16_of_char(s.last())
    }
}

/// Code units laid out as little-endian byte pairs.
pub open spec fn le_bytes_of_units(units: Seq<u16>) -> Seq<u8>
    decreases units.len(),
{
    if units.len() == 0 {
        Seq::empty()
    } else {
        le_bytes_of_units(units.drop_last()) + le16(units.last())
    }
}

/// A string descriptor: length byte, descriptor type, UTF-16LE payload.
pub open spec fn usb_string_spec(s: Seq<char>) -> Seq<u8> {
    let payload = le_bytes_of_units(utf16_units(s));
    seq![(payload.len() + 2) as u8, USB_DT_STRING] + payload
}

/// The language-id pseudo-string: US English.
pub open spec fn langid_string_spec() -> Seq<u8> {
    seq![4u8, USB_DT_STRING, 0x09u8, 0x04u8]
}

/// The text of each string identifier other than the language id.
pub open spec fn string_text(id: u8) -> Seq<char> {
    if id == STRINGID_MANUFACTURER {
        "Antoni Przybylik"@
    } else if id == STRINGID_PRODUCT {
        "Bionik Hexapod PWM Gadget"@
    } else if id == STRINGID_SERIAL {
        "0001"@
    } else if id == STRINGID_CONFIG_HS {
        "High speed configuration"@
    } else if id == STRINGID_CONFIG_LS {
        "Low speed configuration"@
    } else {
        "PWM control interface"@
    }
}

/// What the table holds for `id`.
pub open spec fn string_lookup_spec(id: u8) -> Option<Seq<u8>> {
    if id == STRINGID_LANGID {
        Some(langid_string_spec())
    } else if id <= STRINGID_INTERFACE {
        Some(usb_string_spec(string_text(id)))
    } else {
        None
    }
}

/// Relies on str::encode_utf16: the string's UTF-16 code units, character by
/// character.
#[verifier::external_body]
fn encode_utf16(s: &str) -> (r: Vec<u16>)
    ensures
        r@ == utf16_units(s@),
{
    s.encode_utf16().collect()
}

proof fn lemma_le_bytes_len(units: Seq<u16>)
    ensures
        le_bytes_of_units(units).len() == 2 * units.len(),
    decreases units.len(),
{
    if units.len() > 0 {
        lemma_le_bytes_len(units.drop_last());
    }
}

proof fn lemma_utf16_len_bound(s: Seq<char>)
    ensures
        utf16_units(s).len() <= 2 * s.len(),
    decreases s.len(),
{
    if s.len() > 0 {
        lemma_utf16_len_bound(s.drop_last());
    }
}

/// The UTF-16LE bytes of `string`.
pub fn make_utf16le(string: &str) -> (r: Vec<u8>)
    ensures
        r@ == le_bytes_of_units(utf16_units(string@)),
{
    let units = encode_utf16(string);
    let mut result: Vec<u8> = Vec::new();
    let mut i: usize = 0;
    while i < units.len()
        invariant
            i <= units@.len(),
            units@ == utf16_units(string@),
            result@ == le_bytes_of_units(units@.subrange(0, i as int)),
        decreases units@.len() - i,
    {
        let chunk = units[i];
        result.push((chunk % 256) as u8);
        result.push((chunk / 256) as u8);
        i = i + 1;
        proof {
            let prefix = units@.subrange(0, i as int);
            assert(prefix.drop_last() =~= units@.subrange(0, i - 1));
            assert(result@ =~= le_bytes_of_units(prefix));
        }
    }
    assert(units@.subrange(0, i as int) =~= units@);
    result
}

/// The string descriptor of `string`. Its length byte must fit, so the
/// string holds at most 126 UTF-16 code units.
pub fn make_usb_string(string: &str) -> (r: Vec<u8>)
    requires
        utf16_units(string@).len() <= 126,
    ensures
        r@ == usb_string_spec(string@),
{
    let utf16le_string = make_utf16le(string);
    proof {
        lemma_le_bytes_len(utf16_units(string@));
    }
    let mut usb_string: Vec<u8> = Vec::with_capacity(utf16le_string.len() + 2);
    usb_string.push(utf16le_string.len() as u8 + 2);
    usb_string.push(USB_DT_STRING);
    let mut i: usize = 0;
    while i < utf16le_string.len()
        invariant
            i <= utf16le_string@.len(),
            usb_string@ == seq![(utf16le_string@.len() + 2) as u8, USB_DT_STRING]
                + utf16le_string@.subrange(0, i as int),
        decreases utf16le_string@.len() - i,
    {
        usb_string.push(utf16le_string[i]);
        i = i + 1;
        assert(usb_string@ =~= seq![(utf16le_string@.len() + 2) as u8, USB_DT_STRING]
            + utf16le_string@.subrange(0, i as int));
    }
    assert(usb_string@ =~= usb_string_spec(string@));
    usb_string
}

/// Looks up the string descriptor of `id`; identifiers 0 to 6 are known.
pub fn usb_gadget_get_string(id: u8) -> (r: Option<Vec<u8>>)
    ensures
        r is Some <==> id <= STRINGID_INTERFACE,
        r is Some ==> Some(r->Some_0@) == string_lookup_spec(id),
{
    let text: &str = if id == STRINGID_LANGID {
        return Some(vec![4u8, USB_DT_STRING, 0x09u8, 0x04u8]);
    } else if id == STRINGID_MANUFACTURER {
        "Antoni Przybylik"
    } else if id == STRINGID_PRODUCT {
        "Bionik Hexapod PWM Gadget"
    } else if id == STRINGID_SERIAL {
        "0001"
    } else if id == STRINGID_CONFIG_HS {
        "High speed configuration"
    } else if id == STRINGID_CONFIG_LS {
        "Low speed configuration"
    } else if id == STRINGID_INTERFACE {
        "PWM control interface"
    } else {
        return None;
    };
    proof {
        reveal_strlit("Antoni Przybylik");
        reveal_strlit("Bionik Hexapod PWM Gadget");
        reveal_strlit("0001");
        reveal_strlit("High speed configuration");
        reveal_strlit("Low speed configuration");
        reveal_strlit("PWM control interface");
        assert(text@ == string_text(id));
        lemma_utf16_len_bound(text@);
    }
    Some(make_usb_string(text))
}

/// Every string descriptor of the table, but the language id's, is two
/// header bytes and two bytes per UTF-16 code unit of its text; identifiers
/// 0 to 6 are found and no other.
pub proof fn lemma_string_table_shape(id: u8)
    ensures
        string_lookup_spec(id) is Some <==> id <= STRINGID_INTERFACE,
        STRINGID_MANUFACTURER <= id <= STRINGID_INTERFACE ==> string_lookup_spec(id)->Some_0.len()
            == 2 + 2 * utf16_units(string_text(id)).len(),
{
    lemma_le_bytes_len(utf16_units(string_text(id)));
}

} // verus!
