//! The signed direct link to a track's audio.
//!
//! The service answers a download request with a small XML document, the
//! signing page. Its fields, together with a fixed secret, give the link from
//! which the audio can be fetched for a short while.

use vstd::prelude::*;
use vstd::string::*;
use vstd::utf8::encode_utf8;
use crate::api::digest::{hex_encode, hex_lower, md5_compute, md5_digest};
use crate::api::xml::{
    child_text, document_tree, field_text, is_plain_document, parse_document, plain_document,
    XmlTree,
};
use crate::error::ApiError;

verus! {

/// The secret that every signature starts from.
pub const SIGNING_SECRET: &'static str = "XGRlBW9FXlekgbPrRHuSiA";

/// The four fields of a signing page.
pub struct SigningDescriptor {
    pub host: String,
    pub path: String,
    pub s: String,
    pub ts: String,
}

/// The fields of a signing page as plain text.
pub struct SigningFields {
    pub host: Seq<char>,
    pub path: Seq<char>,
    pub s: Seq<char>,
    pub ts: Seq<char>,
}

impl View for SigningDescriptor {
    type V = SigningFields;

    open spec fn view(&self) -> SigningFields {
        SigningFields { host: self.host@, path: self.path@, s: self.s@, ts: self.ts@ }
    }
}

/// The text that is hashed: the secret, the path without its first character,
/// and the token.
pub open spec fn signing_material(path: Seq<char>, s: Seq<char>) -> Seq<char> {
    SIGNING_SECRET@ + path.skip(1) + s
}

/// The signature: the MD5 digest of the hashed text's UTF-8 bytes, in
/// lower-case hexadecimal.
pub open spec fn signature_text(path: Seq<char>, s: Seq<char>) -> Seq<char> {
    hex_lower(md5_digest(encode_utf8(signing_material(path, s))))
}

/// The direct link for a signature that is already known.
pub open spec fn link_text(
    host: Seq<char>,
    signature: Seq<char>,
    ts: Seq<char>,
    path: Seq<char>,
) -> Seq<char> {
    "https://"@ + host + "/get-mp3/"@ + signature + "/"@ + ts + path
}

/// The direct link that a signing page's fields give.
pub open spec fn direct_link_text(fields: SigningFields) -> Seq<char> {
    link_text(fields.host, signature_text(fields.path, fields.s), fields.ts, fields.path)
}

/// The length of a direct link: its fixed parts, the thirty-two characters of
/// the signature, and the three fields that it holds.
pub open spec fn link_len(fields: SigningFields) -> nat {
    8 + fields.host.len() + 9 + 32 + 1 + fields.ts.len() + fields.path.len()
}

/// What a signing page holds. A page that is no plain document, see
/// [`plain_document`], or no XML document at all, is a parse error. A page
/// without one of the four fields, or with an empty path, is a resolution
/// error.
pub open spec fn signing_fields(page: Seq<u8>) -> Result<SigningFields, ApiError> {
    if !plain_document(page) {
        Err(ApiError::Parse)
    } else {
        signing_fields_of(document_tree(page))
    }
}

/// What a signing page holds, once it was read as a document.
pub open spec fn signing_fields_of(document: Option<XmlTree>) -> Result<SigningFields, ApiError> {
    match document {
        None => Err(ApiError::Parse),
        Some(tree) => match (
            child_text(tree, "host"@),
            child_text(tree, "path"@),
            child_text(tree, "s"@),
            child_text(tree, "ts"@),
        ) {
            (Some(host), Some(path), Some(s), Some(ts)) => if path.len() > 0 {
                Ok(SigningFields { host, path, s, ts })
            } else {
                Err(ApiError::Resolution)
            },
            _ => Err(ApiError::Resolution),
        },
    }
}

/// Puts a direct link together from its parts.
pub fn build_link(host: &str, signature: &str, ts: &str, path: &str) -> (link: String)
    ensures
        link@ == link_text(host@, signature@, ts@, path@),
{
    let mut link = String::from_str("https://");
    link.append(host);
    link.append("/get-mp3/");
    link.append(signature);
    link.append("/");
    link.append(ts);
    link.append(path);
    link
}

/// Computes the signature of a path and a token: thirty-two hexadecimal
/// digits. The path must not be empty.
pub fn signature(path: &str, s: &str) -> (text: String)
    requires
        path@.len() > 0,
    ensures
        text@ == signature_text(path@, s@),
        text@.len() == 32,
{
    let tail = path.substring_char(1, path.unicode_len());
    let mut material = String::from_str(SIGNING_SECRET);
    material.append(tail);
    material.append(s);
    assert(material@ =~= signing_material(path@, s@));
    let digest = md5_compute(material.as_str().as_bytes());
    hex_encode(digest.as_slice())
}

impl SigningDescriptor {
    /// The direct link that these fields give. The path must not be empty.
    pub fn direct_link(&self) -> (link: String)
        requires
            self@.path.len() > 0,
        ensures
            link@ == direct_link_text(self@),
            signature_text(self@.path, self@.s).len() == 32,
            link@.len() == link_len(self@),
    {
        let sign = signature(self.path.as_str(), self.s.as_str());
        proof {
            reveal_strlit("https://");
            reveal_strlit("/get-mp3/");
            reveal_strlit("/");
        }
        build_link(self.host.as_str(), sign.as_str(), self.ts.as_str(), self.path.as_str())
    }
}

/// Reads the four fields of a signing page.
pub fn signing_descriptor(page: &[u8]) -> (result: Result<SigningDescriptor, ApiError>)
    ensures
        match result {
            Ok(descriptor) => signing_fields(page@) == Ok::<SigningFields, ApiError>(descriptor@),
            Err(error) => signing_fields(page@) == Err::<SigningFields, ApiError>(error),
        },
{
    if !is_plain_document(page) {
        return Err(ApiError::Parse);
    }
    let root = match parse_document(page) {
        Ok(root) => root,
        Err(_) => {
            return Err(ApiError::Parse);
        },
    };
    let host = field_text(&root, "host");
    let path = field_text(&root, "path");
    let s = field_text(&root, "s");
    let ts = field_text(&root, "ts");
    match (host, path, s, ts) {
        (Some(host), Some(path), Some(s), Some(ts)) => {
            if path.as_str().unicode_len() > 0 {
                Ok(SigningDescriptor { host, path, s, ts })
            } else {
                Err(ApiError::Resolution)
            }
        },
        _ => Err(ApiError::Resolution),
    }
}

/// Computes the direct link from the bytes of a signing page.
pub fn direct_link(page: &[u8]) -> (result: Result<String, ApiError>)
    ensures
        match result {
            Ok(link) => {
                &&& signing_fields(page@) matches Ok(fields)
                &&& link@ == direct_link_text(fields)
                &&& signature_text(fields.path, fields.s).len() == 32
                &&& link@.len() == link_len(fields)
            },
            Err(error) => signing_fields(page@) == Err::<SigningFields, ApiError>(error),
        },
{
    match signing_descriptor(page) {
        Ok(descriptor) => Ok(descriptor.direct_link()),
        Err(error) => Err(error),
    }
}

} // verus!
