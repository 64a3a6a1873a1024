//! The coinbase identification signature: a magic tag followed by
//! type-length-value entries, one for each configured field that fits.

use vstd::prelude::*;
use vstd::string::*;
use vstd::utf8::*;

verus! {

/// Type code of the `pool` entry.
pub const FIELD_PREFIX_POOL: u8 = 0x01;

/// Type code of the `miner` entry.
pub const FIELD_PREFIX_MINER: u8 = 0x02;

/// Type code of the `software` entry.
pub const FIELD_PREFIX_SOFTWARE: u8 = 0x03;

/// Type code of the `website` entry.
pub const FIELD_PREFIX_WEBSITE: u8 = 0x04;

/// Type code of the `custom` entry.
pub const FIELD_PREFIX_CUSTOM: u8 = 0xFF;

/// Largest value length, in bytes, that the one-byte length of an entry can carry.
pub const MAX_FIELD_LEN: usize = 255;

/// The magic tag that opens every non-empty signature: ASCII `TAG`.
pub const COINBASE_TAG_MAGIC_BYTES: [u8; 3] = [0x54, 0x41, 0x47];

/// The three bytes of the magic tag.
pub open spec fn magic_bytes() -> Seq<u8> {
    seq![0x54u8, 0x41u8, 0x47u8]
}

/// The identification fields of the pool operator. Each is absent or holds text.
#[derive(Debug)]
pub struct CoinbaseTagConfig {
    pub pool: Option<String>,
    pub miner: Option<String>,
    pub software: Option<String>,
    pub website: Option<String>,
    pub custom: Option<String>,
}

/// The mathematical content of a [`CoinbaseTagConfig`]: each field as its characters.
pub struct TagFields {
    pub pool: Option<Seq<char>>,
    pub miner: Option<Seq<char>>,
    pub software: Option<Seq<char>>,
    pub website: Option<Seq<char>>,
    pub custom: Option<Seq<char>>,
}

/// The characters of an optional string.
pub open spec fn field_view(field: Option<String>) -> Option<Seq<char>> {
    match field {
        Some(s) => Some(s@),
        None => None,
    }
}

impl View for CoinbaseTagConfig {
    type V = TagFields;

    open spec fn view(&self) -> TagFields {
        TagFields {
            pool: field_view(self.pool),
            miner: field_view(self.miner),
            software: field_view(self.software),
            website: field_view(self.website),
            custom: field_view(self.custom),
        }
    }
}

/// A field is usable when it is present and its UTF-8 encoding fits the length byte.
pub open spec fn usable(field: Option<Seq<char>>) -> bool {
    field is Some && encode_utf8(field->0).len() <= 255
}

/// The entry of one field: type code, length byte, value bytes; nothing for a
/// field that is absent or too long.
pub open spec fn tlv_entry(code: u8, field: Option<Seq<char>>) -> Seq<u8> {
    if usable(field) {
        seq![code, encode_utf8(field->0).len() as u8] + encode_utf8(field->0)
    } else {
        Seq::<u8>::empty()
    }
}

/// The entries of all five fields, in the fixed order pool, miner, software,
/// website, custom.
pub open spec fn tlv_entries(fields: TagFields) -> Seq<u8> {
    tlv_entry(FIELD_PREFIX_POOL, fields.pool)
        + tlv_entry(FIELD_PREFIX_MINER, fields.miner)
        + tlv_entry(FIELD_PREFIX_SOFTWARE, fields.software)
        + tlv_entry(FIELD_PREFIX_WEBSITE, fields.website)
        + tlv_entry(FIELD_PREFIX_CUSTOM, fields.custom)
}

/// The signature of a configuration: empty when no field is usable, else the
/// magic tag followed by the entries.
pub open spec fn signature(fields: TagFields) -> Seq<u8> {
    if tlv_entries(fields).len() == 0 {
        Seq::<u8>::empty()
    } else {
        magic_bytes() + tlv_entries(fields)
    }
}

impl TagFields {
    /// No field is present.
    pub open spec fn none() -> TagFields {
        TagFields { pool: None, miner: None, software: None, website: None, custom: None }
    }

    /// Every present field holds at least one character.
    pub open spec fn well_formed(self) -> bool {
        &&& self.pool is Some ==> self.pool->0.len() > 0
        &&& self.miner is Some ==> self.miner->0.len() > 0
        &&& self.software is Some ==> self.software->0.len() > 0
        &&& self.website is Some ==> self.website->0.len() > 0
        &&& self.custom is Some ==> self.custom->0.len() > 0
    }

    /// At least one field is usable.
    pub open spec fn any_usable(self) -> bool {
        usable(self.pool) || usable(self.miner) || usable(self.software) || usable(self.website)
            || usable(self.custom)
    }
}

/// An entry of the configuration text counts as a field only when it holds
/// at least one character.
pub open spec fn present(raw: Option<Seq<char>>) -> Option<Seq<char>> {
    if raw is Some && raw->0.len() > 0 {
        raw
    } else {
        None
    }
}

/// Keeps a text that holds at least one character and drops every other.
pub fn present_text(raw: Option<String>) -> (r: Option<String>)
    ensures
        field_view(r) == present(field_view(raw)),
{
    match raw {
        Some(text) => {
            if text.as_str().is_empty() {
                None
            } else {
                Some(text)
            }
        },
        None => None,
    }
}

impl CoinbaseTagConfig {
    /// Builds the configuration from the five entries as they were read,
    /// treating an empty text as an absent field.
    pub fn from_entries(
        pool: Option<String>,
        miner: Option<String>,
        software: Option<String>,
        website: Option<String>,
        custom: Option<String>,
    ) -> (r: CoinbaseTagConfig)
        ensures
            r@ == (TagFields {
                pool: present(field_view(pool)),
                miner: present(field_view(miner)),
                software: present(field_view(software)),
                website: present(field_view(website)),
                custom: present(field_view(custom)),
            }),
            r@.well_formed(),
    {
        CoinbaseTagConfig {
            pool: present_text(pool),
            miner: present_text(miner),
            software: present_text(software),
            website: present_text(website),
            custom: present_text(custom),
        }
    }
}

impl Default for CoinbaseTagConfig {
    fn default() -> (r: Self)
        ensures
            r@ == TagFields::none(),
    {
        CoinbaseTagConfig { pool: None, miner: None, software: None, website: None, custom: None }
    }
}

/// Appends the entry of one field to `out`.
fn push_entry(out: &mut Vec<u8>, code: u8, field: &Option<String>)
    ensures
        final(out)@ == old(out)@ + tlv_entry(code, field_view(*field)),
{
    match field {
        Some(text) => {
            let bytes = text.as_str().as_bytes();
            if bytes.len() <= MAX_FIELD_LEN {
                let ghost before = out@;
                out.push(code);
                out.push(bytes.len() as u8);
                out.extend_from_slice(bytes);
                assert(out@ =~= before + tlv_entry(code, field_view(*field)));
            } else {
                assert(out@ =~= old(out)@ + tlv_entry(code, field_view(*field)));
            }
        },
        None => {
            assert(out@ =~= old(out)@ + tlv_entry(code, field_view(*field)));
        },
    }
}

/// Composes the signature of `config`.
pub fn compose_signature(config: &CoinbaseTagConfig) -> (sig: Vec<u8>)
    ensures
        sig@ == signature(config@),
{
    let mut entries: Vec<u8> = Vec::new();
    push_entry(&mut entries, FIELD_PREFIX_POOL, &config.pool);
    push_entry(&mut entries, FIELD_PREFIX_MINER, &config.miner);
    push_entry(&mut entries, FIELD_PREFIX_SOFTWARE, &config.software);
    push_entry(&mut entries, FIELD_PREFIX_WEBSITE, &config.website);
    push_entry(&mut entries, FIELD_PREFIX_CUSTOM, &config.custom);
    assert(entries@ =~= tlv_entries(config@));
    if entries.is_empty() {
        return Vec::new();
    }
    let mut sig: Vec<u8> = Vec::new();
    let magic = COINBASE_TAG_MAGIC_BYTES;
    assert(magic@ =~= magic_bytes());
    sig.extend_from_slice(magic.as_slice());
    sig.extend_from_slice(entries.as_slice());
    assert(sig@ =~= magic_bytes() + tlv_entries(config@));
    sig
}

/// The text that `String::from_utf8_lossy` makes of a byte sequence: the
/// bytes decoded as UTF-8, with the replacement character in place of what is
/// not UTF-8.
pub uninterp spec fn utf8_lossy_text(bytes: Seq<u8>) -> Seq<char>;

/// Trusted: `String::from_utf8_lossy`, a function of the bytes alone, whose
/// result the contract names. Of bytes that are valid UTF-8 it returns the
/// text that they encode, unchanged.
#[verifier::external_body]
fn lossy_text(bytes: &[u8]) -> (r: String)
    ensures
        r@ == utf8_lossy_text(bytes@),
        valid_utf8(bytes@) ==> encode_utf8(r@) == bytes@,
{
    String::from_utf8_lossy(bytes).into_owned()
}

/// The signature as the text under which the pool is shown: nothing for an
/// empty signature, else its lossy reading as UTF-8. The bytes themselves
/// stay what goes on the wire; this text is for display only.
pub fn display_signature(signature: &[u8]) -> (r: Option<String>)
    ensures
        signature@.len() == 0 ==> r is None,
        signature@.len() > 0 ==> r is Some && r->0@ == utf8_lossy_text(signature@),
        signature@.len() > 0 && valid_utf8(signature@) ==> encode_utf8(r->0@) == signature@,
{
    if signature.len() == 0 {
        None
    } else {
        Some(lossy_text(signature))
    }
}

/// One of the five fields of the tag.
pub enum TagField {
    Pool,
    Miner,
    Software,
    Website,
    Custom,
}

impl TagFields {
    /// These fields with one of them replaced.
    pub open spec fn with(self, which: TagField, value: Option<Seq<char>>) -> TagFields {
        match which {
            TagField::Pool => TagFields { pool: value, ..self },
            TagField::Miner => TagFields { miner: value, ..self },
            TagField::Software => TagFields { software: value, ..self },
            TagField::Website => TagFields { website: value, ..self },
            TagField::Custom => TagFields { custom: value, ..self },
        }
    }

    /// One of these fields.
    pub open spec fn get(self, which: TagField) -> Option<Seq<char>> {
        match which {
            TagField::Pool => self.pool,
            TagField::Miner => self.miner,
            TagField::Software => self.software,
            TagField::Website => self.website,
            TagField::Custom => self.custom,
        }
    }
}

/// An entry is its type code, then the exact number of bytes of the value's
/// UTF-8 encoding, then those bytes.
pub proof fn entry_layout(code: u8, text: Seq<char>)
    requires
        encode_utf8(text).len() <= 255,
    ensures
        tlv_entry(code, Some(text)).len() == 2 + encode_utf8(text).len(),
        tlv_entry(code, Some(text))[0] == code,
        tlv_entry(code, Some(text))[1] == encode_utf8(text).len(),
        tlv_entry(code, Some(text)).subrange(2, 2 + encode_utf8(text).len() as int)
            == encode_utf8(text),
{
    let entry = tlv_entry(code, Some(text));
    assert(entry.subrange(2, 2 + encode_utf8(text).len() as int) =~= encode_utf8(text));
}

/// A field that is absent, or whose encoding is longer than 255 bytes, has no
/// entry at all: no type code, no length, no part of the value.
pub proof fn unusable_field_has_no_entry(code: u8, field: Option<Seq<char>>)
    requires
        !usable(field),
    ensures
        tlv_entry(code, field).len() == 0,
{
}

/// A configuration without fields has the empty signature: no magic tag
/// stands alone.
pub proof fn empty_configuration_has_empty_signature()
    ensures
        signature(TagFields::none()) == Seq::<u8>::empty(),
{
}

/// The signature is empty exactly when no field is usable.
pub proof fn signature_empty_iff_nothing_usable(fields: TagFields)
    ensures
        signature(fields).len() == 0 <==> !fields.any_usable(),
{
}

/// A signature that is not empty opens with the magic tag, which at least one
/// whole entry follows.
pub proof fn signature_opens_with_magic(fields: TagFields)
    requires
        fields.any_usable(),
    ensures
        signature(fields).len() >= 5,
        signature(fields).subrange(0, 3) == magic_bytes(),
        signature(fields).subrange(3, signature(fields).len() as int) == tlv_entries(fields),
{
    let sig = signature(fields);
    assert(sig.subrange(0, 3) =~= magic_bytes());
    assert(sig.subrange(3, sig.len() as int) =~= tlv_entries(fields));
}

/// A field that is not usable is dropped without a trace: the signature is
/// the one of the same configuration with that field absent, so the other
/// fields keep their entries and their places.
pub proof fn unusable_field_is_dropped(fields: TagFields, which: TagField)
    requires
        !usable(fields.get(which)),
    ensures
        signature(fields) == signature(fields.with(which, None)),
{
    assert(tlv_entries(fields) =~= tlv_entries(fields.with(which, None)));
}

/// No signature is longer than the magic tag and five full entries.
pub proof fn signature_length_bound(fields: TagFields)
    ensures
        signature(fields).len() <= 3 + 5 * 257,
{
}

/// Composing is a function of the fields' contents: configurations that hold
/// the same texts have the same signature.
pub proof fn equal_configs_equal_signatures(a: CoinbaseTagConfig, b: CoinbaseTagConfig)
    requires
        a@ == b@,
    ensures
        signature(a@) == signature(b@),
{
}

/// The order in which two different fields are filled in changes neither the
/// configuration nor its signature.
pub proof fn population_order_is_irrelevant(
    fields: TagFields,
    first: TagField,
    first_value: Option<Seq<char>>,
    second: TagField,
    second_value: Option<Seq<char>>,
)
    requires
        first != second,
    ensures
        fields.with(first, first_value).with(second, second_value) == fields.with(
            second,
            second_value,
        ).with(first, first_value),
        signature(fields.with(first, first_value).with(second, second_value)) == signature(
            fields.with(second, second_value).with(first, first_value),
        ),
{
}

} // verus!
