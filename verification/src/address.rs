use vstd::bytes::{
    lemma_auto_spec_u64_to_from_le_bytes, spec_u64_from_le_bytes, spec_u64_to_le_bytes,
    u64_to_le_bytes,
};
use vstd::prelude::*;
use vstd::string::StrSliceExecFns;
use vstd::utf8::{decode_utf8, encode_utf8, encode_utf8_decode_utf8};

verus! {

/// The two kinds of record. Each kind has a namespace of its own, so that an
/// organization and a voucher never share an address.
#[derive(Clone, Copy, Debug, PartialEq, Eq, Structural, Hash)]
pub enum RecordKind {
    Organization,
    Voucher,
}

impl RecordKind {
    /// The tag that names a kind's namespace.
    pub open spec fn tag_of(self) -> Seq<char> {
        match self {
            RecordKind::Organization => "organization"@,
            RecordKind::Voucher => "voucher"@,
        }
    }

    /// The tag that names this kind's namespace.
    pub fn tag(&self) -> (tag: &'static str)
        ensures
            tag@ == self.tag_of(),
    {
        match self {
            RecordKind::Organization => "organization",
            RecordKind::Voucher => "voucher",
        }
    }
}

/// What a record's address is derived from: the record's kind and the bytes
/// that identify it within the kind. The same key always gives the same
/// address.
#[derive(Clone, Debug, PartialEq, Eq)]
pub struct RecordKey {
    /// The kind of record.
    pub kind: RecordKind,
    /// The bytes that identify the record within its kind.
    pub bytes: Vec<u8>,
}

/// A record key as mathematical values.
pub struct RecordKeyView {
    pub kind: RecordKind,
    pub bytes: Seq<u8>,
}

impl View for RecordKey {
    type V = RecordKeyView;

    open spec fn view(&self) -> RecordKeyView {
        RecordKeyView { kind: self.kind, bytes: self.bytes@ }
    }
}

/// The key of the organization with the given external identifier.
pub open spec fn organization_key_of(org_github_id: u64) -> RecordKeyView {
    RecordKeyView { kind: RecordKind::Organization, bytes: spec_u64_to_le_bytes(org_github_id) }
}

/// The key of the voucher with the given identifier.
pub open spec fn voucher_key_of(voucher_id: Seq<char>) -> RecordKeyView {
    RecordKeyView { kind: RecordKind::Voucher, bytes: encode_utf8(voucher_id) }
}

/// The key of an organization: its external identifier as eight bytes, the
/// least significant first.
pub fn organization_key(org_github_id: u64) -> (key: RecordKey)
    ensures
        key@ == organization_key_of(org_github_id),
        key.bytes@.len() == 8,
{
    RecordKey { kind: RecordKind::Organization, bytes: u64_to_le_bytes(org_github_id) }
}

/// The key of a voucher: its identifier in UTF-8.
pub fn voucher_key(voucher_id: &str) -> (key: RecordKey)
    ensures
        key@ == voucher_key_of(voucher_id@),
{
    RecordKey { kind: RecordKind::Voucher, bytes: voucher_id.as_bytes_vec() }
}

/// Two organizations have the same key only if they have the same external
/// identifier, two vouchers only if they have the same identifier, and an
/// organization never has the key of a voucher.
pub proof fn lemma_keys_are_distinct(
    org_a: u64,
    org_b: u64,
    voucher_a: Seq<char>,
    voucher_b: Seq<char>,
)
    ensures
        organization_key_of(org_a) == organization_key_of(org_b) ==> org_a == org_b,
        voucher_key_of(voucher_a) == voucher_key_of(voucher_b) ==> voucher_a == voucher_b,
        organization_key_of(org_a) != voucher_key_of(voucher_a),
{
    lemma_auto_spec_u64_to_from_le_bytes();
    assert(spec_u64_from_le_bytes(spec_u64_to_le_bytes(org_a)) == org_a);
    assert(spec_u64_from_le_bytes(spec_u64_to_le_bytes(org_b)) == org_b);
    encode_utf8_decode_utf8(voucher_a);
    encode_utf8_decode_utf8(voucher_b);
    assert(decode_utf8(encode_utf8(voucher_a)) == voucher_a);
    assert(decode_utf8(encode_utf8(voucher_b)) == voucher_b);
}

} // verus!
