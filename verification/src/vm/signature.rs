//! Signature records of root filesystem images, and the decision whether
//! an image may be booted.
//!
//! A record carries the signature, the id of the signing key, the time of
//! signing and the SHA-256 checksum of the image. The library hashes the
//! image and decides; reading files, and making and checking the Ed25519
//! signature itself, are left to the caller, who hands in what came of it.

use crate::json::{
    json_parse, json_render_pretty, parse_json, push_member, record_model, to_pretty_json_text,
    JsonModel, JsonValue,
};
use crate::text::{concat, owned, same_text, string_from_chars};
use crate::vm::verity::{merkle_root_hex, merkle_root_of};
use vstd::prelude::*;

verus! {

/// The SHA-256 digest of a byte sequence.
pub uninterp spec fn sha256(data: Seq<u8>) -> Seq<u8>;

/// Calls `sha2::Sha256::digest`. The digest is a function of the bytes
/// alone and is 32 bytes long.
#[verifier::external_body]
pub(crate) fn sha256_digest(data: &[u8]) -> (out: Vec<u8>)
    ensures
        out@ == sha256(data@),
        out@.len() == 32,
{
    <sha2::Sha256 as sha2::Digest>::digest(data).to_vec()
}

/// Calls `chrono::Utc::now` and takes the seconds since the epoch. Nothing
/// is known of the outcome. The call fails where the system clock stands
/// before the epoch.
#[verifier::external_body]
fn current_timestamp() -> i64 {
    chrono::Utc::now().timestamp()
}

/// The lowercase hexadecimal digit of a value below sixteen.
pub open spec fn hex_digit(n: int) -> char
    recommends
        0 <= n < 16,
{
    if n < 10 {
        (48 + n) as u8 as char
    } else {
        (87 + n) as u8 as char
    }
}

/// The lowercase hexadecimal text of a byte sequence, two digits a byte.
pub open spec fn hex_of(bytes: Seq<u8>) -> Seq<char> {
    Seq::new(
        2 * bytes.len(),
        |i: int|
            if i % 2 == 0 {
                hex_digit(bytes[i / 2] as int / 16)
            } else {
                hex_digit(bytes[i / 2] as int % 16)
            },
    )
}

/// The checksum of an image: the hexadecimal text of its SHA-256 digest.
pub open spec fn checksum_of(image: Seq<u8>) -> Seq<char> {
    hex_of(sha256(image))
}

/// The hexadecimal digit of a value below sixteen.
fn hex_char(n: u8) -> (out: char)
    requires
        n < 16,
    ensures
        out == hex_digit(n as int),
{
    if n < 10 {
        (48u8 + n) as char
    } else {
        (87u8 + n) as char
    }
}

/// The lowercase hexadecimal text of the bytes.
pub fn hex_encode(bytes: &[u8]) -> (out: String)
    ensures
        out@ == hex_of(bytes@),
{
    let mut chars: Vec<char> = Vec::new();
    let mut i: usize = 0;
    while i < bytes.len()
        invariant
            i <= bytes.len(),
            chars.len() == 2 * i,
            forall|k: int| 0 <= k < 2 * i ==> chars@[k] == hex_of(bytes@)[k],
        decreases bytes.len() - i,
    {
        let b = bytes[i];
        let high = hex_char(b / 16);
        let low = hex_char(b % 16);
        chars.push(high);
        chars.push(low);
        assert(hex_of(bytes@)[2 * i] == high);
        assert(hex_of(bytes@)[2 * i + 1] == low);
        i += 1;
    }
    assert(chars@ =~= hex_of(bytes@));
    string_from_chars(&chars)
}

/// The value of a lowercase hexadecimal digit, if the character is one.
fn hex_value(c: char) -> (out: Option<u8>)
    ensures
        match out {
            Some(v) => v < 16 && hex_digit(v as int) == c,
            None => forall|n: int| 0 <= n < 16 ==> hex_digit(n) != c,
        },
{
    if c >= '0' && c <= '9' {
        Some((c as u8) - 48)
    } else if c >= 'a' && c <= 'f' {
        Some((c as u8) - 87)
    } else {
        None
    }
}

/// The bytes that a lowercase hexadecimal text stands for, where it stands
/// for any: it has two digits a byte, and nothing but digits.
pub fn hex_decode(text: &str) -> (out: Option<Vec<u8>>)
    ensures
        match out {
            Some(bytes) => hex_of(bytes@) == text@,
            None => forall|bytes: Seq<u8>| hex_of(bytes) != text@,
        },
{
    let chars = crate::text::chars_of(text);
    if chars.len() % 2 != 0 {
        assert forall|bytes: Seq<u8>| hex_of(bytes) != text@ by {
            assert(hex_of(bytes).len() == 2 * bytes.len());
        }
        return None;
    }
    let count = chars.len() / 2;
    let mut bytes: Vec<u8> = Vec::new();
    let mut i: usize = 0;
    while i < count
        invariant
            i <= count,
            chars.len() == 2 * count,
            chars@ == text@,
            bytes.len() == i,
            forall|k: int| 0 <= k < 2 * i ==> hex_of(bytes@)[k] == chars@[k],
        decreases count - i,
    {
        let high = hex_value(chars[2 * i]);
        let low = hex_value(chars[2 * i + 1]);
        match (high, low) {
            (Some(h), Some(l)) => {
                let ghost before = bytes@;
                bytes.push(h * 16 + l);
                assert forall|k: int| 0 <= k < 2 * (i + 1) implies hex_of(bytes@)[k] == chars@[k] by {
                    if k < 2 * i {
                        assert(bytes@[k / 2] == before[k / 2]);
                        assert(hex_of(before)[k] == chars@[k]);
                    } else {
                        assert(bytes@[k / 2] == h * 16 + l);
                        assert((h * 16 + l) as int / 16 == h);
                        assert((h * 16 + l) as int % 16 == l);
                    }
                }
            },
            _ => {
                assert forall|other: Seq<u8>| hex_of(other) != text@ by {
                    if hex_of(other) == text@ {
                        let k: int = if high is None {
                            2 * i
                        } else {
                            2 * i + 1
                        };
                        assert(hex_of(other)[k] == chars@[k]);
                        assert(0 <= other[k / 2] as int / 16 < 16);
                        assert(0 <= other[k / 2] as int % 16 < 16);
                    }
                }
                return None;
            },
        }
        i += 1;
    }
    assert(hex_of(bytes@) =~= text@);
    Some(bytes)
}

/// The checksum of an image.
pub fn calculate_checksum(image: &[u8]) -> (out: String)
    ensures
        out@ == checksum_of(image@),
        out@.len() == 64,
{
    let digest = sha256_digest(image);
    hex_encode(digest.as_slice())
}

/// A pair of keys for signing images.
#[derive(Debug, Clone, PartialEq, Eq)]
pub struct KeyPair {
    /// Public key.
    pub public_key: String,
    /// Secret key.
    pub secret_key: String,
    /// Id under which the key is known.
    pub key_id: String,
}

/// The record of a signed image.
#[derive(Debug, Clone, PartialEq, Eq)]
pub struct RootfsSignature {
    /// The signature.
    pub signature: String,
    /// Id of the signing key.
    pub key_id: String,
    /// Time of signing, in seconds since the epoch.
    pub timestamp: i64,
    /// SHA-256 checksum of the image, in hexadecimal.
    pub checksum: String,
    /// Root of the hash tree over the blocks of the image, in hexadecimal.
    pub hash_tree_root: Option<String>,
}

/// The model of a record.
pub struct RootfsSignatureView {
    pub signature: Seq<char>,
    pub key_id: Seq<char>,
    pub timestamp: i64,
    pub checksum: Seq<char>,
    pub hash_tree_root: Option<Seq<char>>,
}

/// The characters of an optional string.
pub open spec fn optional_chars(s: Option<String>) -> Option<Seq<char>> {
    match s {
        Some(t) => Some(t@),
        None => None,
    }
}

impl View for RootfsSignature {
    type V = RootfsSignatureView;

    open spec fn view(&self) -> RootfsSignatureView {
        RootfsSignatureView {
            signature: self.signature@,
            key_id: self.key_id@,
            timestamp: self.timestamp,
            checksum: self.checksum@,
            hash_tree_root: optional_chars(self.hash_tree_root),
        }
    }
}

/// The name of the file that holds the secret key `key_id`.
pub open spec fn private_key_file_of(key_id: Seq<char>) -> Seq<char> {
    key_id + ".priv.pem"@
}

/// The name of the file that holds the public key `key_id`.
pub open spec fn public_key_file_of(key_id: Seq<char>) -> Seq<char> {
    key_id + ".pub.pem"@
}

impl KeyPair {
    /// The name of the file that holds the secret key.
    pub fn private_key_file(&self) -> (out: String)
        ensures
            out@ == private_key_file_of(self.key_id@),
    {
        concat(self.key_id.as_str(), ".priv.pem")
    }

    /// The name of the file that holds the public key.
    pub fn public_key_file(&self) -> (out: String)
        ensures
            out@ == public_key_file_of(self.key_id@),
    {
        concat(self.key_id.as_str(), ".pub.pem")
    }
}

/// The root of the hash tree of an image, in hexadecimal.
pub open spec fn tree_root_of(image: Seq<u8>) -> Seq<char> {
    hex_of(merkle_root_of(image))
}

/// The record of the image `image`, signed with the key `key_id` at
/// `timestamp`: the detached signature as the signer made it, the image's
/// checksum, and the root of its hash tree.
pub open spec fn signed_record(
    image: Seq<u8>,
    key_id: Seq<char>,
    signature: Seq<char>,
    timestamp: i64,
) -> RootfsSignatureView {
    RootfsSignatureView {
        signature,
        key_id,
        timestamp,
        checksum: checksum_of(image),
        hash_tree_root: Some(tree_root_of(image)),
    }
}

/// Makes the record of an image that was signed at a given time. The caller
/// makes the detached signature over the image with the secret key of the
/// pair and hands it in; the record keeps it as it is.
pub fn sign_rootfs_at(image: &[u8], key_pair: &KeyPair, signature: &str, timestamp: i64) -> (out:
    RootfsSignature)
    ensures
        out@ == signed_record(image@, key_pair.key_id@, signature@, timestamp),
{
    RootfsSignature {
        signature: owned(signature),
        key_id: key_pair.key_id.clone(),
        timestamp,
        checksum: calculate_checksum(image),
        hash_tree_root: Some(merkle_root_hex(image)),
    }
}

/// Makes the record of an image that was signed just now. Everything but
/// the time of signing is determined by the image, the key and the
/// detached signature.
pub fn sign_rootfs(image: &[u8], key_pair: &KeyPair, signature: &str) -> (out: RootfsSignature)
    ensures
        out@ == signed_record(image@, key_pair.key_id@, signature@, out.timestamp),
{
    let timestamp = current_timestamp();
    sign_rootfs_at(image, key_pair, signature, timestamp)
}

/// Whether the image still has the checksum that the record holds.
pub fn checksum_matches(image: &[u8], signature: &RootfsSignature) -> (out: bool)
    ensures
        out == (checksum_of(image@) == signature.checksum@),
{
    let current = calculate_checksum(image);
    same_text(current.as_str(), signature.checksum.as_str())
}

/// Whether an image is the signed one: it has the checksum that the record
/// holds, and the record's signature verified against the public key. The
/// caller checks the signature against the key and says what came of it.
pub fn verify_rootfs(
    image: &[u8],
    signature: &RootfsSignature,
    public_key_pem: &str,
    signature_valid: bool,
) -> (out: bool)
    ensures
        out == (checksum_of(image@) == signature.checksum@ && signature_valid),
{
    checksum_matches(image, signature) && signature_valid
}

/// Why an image may not be booted.
#[derive(Debug, Clone, Copy, PartialEq, Eq, Structural)]
pub enum IntegrityError {
    /// The image is not there.
    NotFound,
    /// The record names a key that the host does not trust.
    KeyUnknown,
    /// The image does not have the recorded checksum.
    ChecksumMismatch,
    /// The signature does not verify against the public key.
    SignatureInvalid,
    /// The root of the hash tree is not the recorded one.
    HashTreeMismatch,
}

/// Whether the hash tree on the host is the one that the record names. A
/// record without a root asks for no tree.
pub open spec fn tree_accepted(record: RootfsSignatureView, tree_root: Option<Seq<char>>) -> bool {
    match record.hash_tree_root {
        Some(root) => tree_root == Some(root),
        None => true,
    }
}

/// Whether an image may be booted, and if not, why. The checks run in a
/// fixed order: presence, key, checksum, signature, hash tree. The caller
/// says whether the signature verified against the host's public key, and
/// hands in the root of the hash tree that the host holds, if it holds one.
pub open spec fn integrity_verdict(
    image: Option<Seq<u8>>,
    record: RootfsSignatureView,
    trusted_key_id: Seq<char>,
    signature_valid: bool,
    tree_root: Option<Seq<char>>,
) -> Result<(), IntegrityError> {
    match image {
        None => Err(IntegrityError::NotFound),
        Some(bytes) => if record.key_id != trusted_key_id {
            Err(IntegrityError::KeyUnknown)
        } else if checksum_of(bytes) != record.checksum {
            Err(IntegrityError::ChecksumMismatch)
        } else if !signature_valid {
            Err(IntegrityError::SignatureInvalid)
        } else if !tree_accepted(record, tree_root) {
            Err(IntegrityError::HashTreeMismatch)
        } else {
            Ok(())
        },
    }
}

/// The bytes of an optional image.
pub open spec fn optional_bytes(image: Option<&[u8]>) -> Option<Seq<u8>> {
    match image {
        Some(bytes) => Some(bytes@),
        None => None,
    }
}

/// The characters of an optional text.
pub open spec fn optional_str(text: Option<&str>) -> Option<Seq<char>> {
    match text {
        Some(t) => Some(t@),
        None => None,
    }
}

/// Decides whether an image may be booted.
pub fn check_integrity(
    image: Option<&[u8]>,
    record: &RootfsSignature,
    trusted_key_id: &str,
    signature_valid: bool,
    tree_root: Option<&str>,
) -> (out: Result<(), IntegrityError>)
    ensures
        out == integrity_verdict(
            optional_bytes(image),
            record@,
            trusted_key_id@,
            signature_valid,
            optional_str(tree_root),
        ),
{
    let bytes = match image {
        Some(bytes) => bytes,
        None => {
            return Err(IntegrityError::NotFound);
        },
    };
    if !same_text(record.key_id.as_str(), trusted_key_id) {
        return Err(IntegrityError::KeyUnknown);
    }
    if !checksum_matches(bytes, record) {
        return Err(IntegrityError::ChecksumMismatch);
    }
    if !signature_valid {
        return Err(IntegrityError::SignatureInvalid);
    }
    let tree_ok = match &record.hash_tree_root {
        Some(root) => match tree_root {
            Some(found) => same_text(found, root.as_str()),
            None => false,
        },
        None => true,
    };
    if !tree_ok {
        return Err(IntegrityError::HashTreeMismatch);
    }
    Ok(())
}

/// An image whose digest differs from that of the signed image is refused,
/// whatever else was found.
pub proof fn lemma_tampered_image_refused(
    signed: Seq<u8>,
    tampered: Seq<u8>,
    key_id: Seq<char>,
    signature: Seq<char>,
    timestamp: i64,
    signature_valid: bool,
    tree_root: Option<Seq<char>>,
)
    requires
        checksum_of(tampered) != checksum_of(signed),
    ensures
        integrity_verdict(
            Some(tampered),
            signed_record(signed, key_id, signature, timestamp),
            key_id,
            signature_valid,
            tree_root,
        ) == Err::<(), IntegrityError>(IntegrityError::ChecksumMismatch),
{
}

/// The signed image itself is accepted once its signature is found good
/// and the host holds the hash tree of the image.
pub proof fn lemma_signed_image_accepted(
    image: Seq<u8>,
    key_id: Seq<char>,
    signature: Seq<char>,
    timestamp: i64,
)
    ensures
        integrity_verdict(
            Some(image),
            signed_record(image, key_id, signature, timestamp),
            key_id,
            true,
            Some(tree_root_of(image)),
        ) is Ok,
{
}

/// A hash tree other than the one of the signed image is refused.
pub proof fn lemma_foreign_tree_refused(
    image: Seq<u8>,
    key_id: Seq<char>,
    signature: Seq<char>,
    timestamp: i64,
    tree_root: Option<Seq<char>>,
)
    requires
        tree_root != Some(tree_root_of(image)),
    ensures
        integrity_verdict(
            Some(image),
            signed_record(image, key_id, signature, timestamp),
            key_id,
            true,
            tree_root,
        ) == Err::<(), IntegrityError>(IntegrityError::HashTreeMismatch),
{
}

/// The document of a record, as it is kept in a signature file. The root
/// of the hash tree is written where the record has one.
pub open spec fn signature_document(r: RootfsSignatureView) -> JsonModel {
    let fixed = seq![
        ("signature"@, JsonModel::Text(r.signature)),
        ("key_id"@, JsonModel::Text(r.key_id)),
        ("timestamp"@, JsonModel::Integer(r.timestamp as int)),
        ("checksum"@, JsonModel::Text(r.checksum)),
    ];
    match r.hash_tree_root {
        Some(root) => JsonModel::Record(fixed.push(("hash_tree_root"@, JsonModel::Text(root)))),
        None => JsonModel::Record(fixed),
    }
}

/// The root of the hash tree that a document holds: none where the member
/// is missing or `null`. A member that is no string makes the document
/// unreadable.
pub open spec fn tree_root_of_document(doc: JsonModel) -> Result<Option<Seq<char>>, ()> {
    match doc.present_field("hash_tree_root"@) {
        None => Ok(None),
        Some(JsonModel::Text(root)) => Ok(Some(root)),
        Some(_) => Err(()),
    }
}

/// The record that a document holds: the strings `signature`, `key_id` and
/// `checksum`, the integer `timestamp` and, where it is there, the string
/// `hash_tree_root`.
pub open spec fn signature_of_document(doc: JsonModel) -> Option<RootfsSignatureView> {
    match (
        doc.field("signature"@),
        doc.field("key_id"@),
        doc.field("timestamp"@),
        doc.field("checksum"@),
    ) {
        (
            Some(JsonModel::Text(signature)),
            Some(JsonModel::Text(key_id)),
            Some(stamp),
            Some(JsonModel::Text(checksum)),
        ) => match (stamp.signed(), tree_root_of_document(doc)) {
            (Some(timestamp), Ok(hash_tree_root)) => Some(
                RootfsSignatureView { signature, key_id, timestamp, checksum, hash_tree_root },
            ),
            _ => None,
        },
        _ => None,
    }
}

/// The model of an optional record.
pub open spec fn optional_signature_model(s: Option<RootfsSignature>) -> Option<
    RootfsSignatureView,
> {
    match s {
        Some(v) => Some(v@),
        None => None,
    }
}

/// Writes a record as a document.
pub fn signature_to_json(signature: &RootfsSignature) -> (out: JsonValue)
    ensures
        out@ == signature_document(signature@),
{
    let mut entries: Vec<(String, JsonValue)> = Vec::new();
    push_member(&mut entries, "signature", JsonValue::text(signature.signature.as_str()));
    push_member(&mut entries, "key_id", JsonValue::text(signature.key_id.as_str()));
    push_member(&mut entries, "timestamp", JsonValue::signed(signature.timestamp));
    push_member(&mut entries, "checksum", JsonValue::text(signature.checksum.as_str()));
    match &signature.hash_tree_root {
        Some(root) => {
            push_member(&mut entries, "hash_tree_root", JsonValue::text(root.as_str()));
        },
        None => {},
    }
    let out = JsonValue::object(entries);
    assert(out@->Record_0 =~= signature_document(signature@)->Record_0);
    out
}

/// Reads a record from a document.
pub fn signature_from_json(doc: &JsonValue) -> (out: Option<RootfsSignature>)
    ensures
        optional_signature_model(out) == signature_of_document(doc@),
{
    let signature = match doc.get("signature") {
        Some(v) => match v.as_text() {
            Some(t) => t.clone(),
            None => {
                return None;
            },
        },
        None => {
            return None;
        },
    };
    let key_id = match doc.get("key_id") {
        Some(v) => match v.as_text() {
            Some(t) => t.clone(),
            None => {
                return None;
            },
        },
        None => {
            return None;
        },
    };
    let timestamp = match doc.get("timestamp") {
        Some(v) => match v.as_i64() {
            Some(n) => n,
            None => {
                return None;
            },
        },
        None => {
            return None;
        },
    };
    let checksum = match doc.get("checksum") {
        Some(v) => match v.as_text() {
            Some(t) => t.clone(),
            None => {
                return None;
            },
        },
        None => {
            return None;
        },
    };
    let hash_tree_root = match doc.get_present("hash_tree_root") {
        Some(v) => match v.as_text() {
            Some(t) => Some(t.clone()),
            None => {
                return None;
            },
        },
        None => None,
    };
    Some(RootfsSignature { signature, key_id, timestamp, checksum, hash_tree_root })
}

/// The text of a signature file for a record.
pub fn signature_file_text(signature: &RootfsSignature) -> (out: String)
    ensures
        out@ == json_render_pretty(signature_document(signature@)),
{
    let document = signature_to_json(signature);
    to_pretty_json_text(&document)
}

/// The record that a signature file holds.
pub fn parse_signature_file(text: &str) -> (out: Option<RootfsSignature>)
    ensures
        optional_signature_model(out) == match json_parse(text@) {
            Some(doc) => signature_of_document(doc),
            None => None,
        },
{
    match parse_json(text) {
        Some(document) => signature_from_json(&document),
        None => None,
    }
}

} // verus!
