use vstd::prelude::*;

verus! {

broadcast use vstd::string::to_string_from_display_ensures_for_str;

/// Metadata of an NFT collection, following the NEP-177 token metadata; the
/// hashes are held in their base64 text form.
pub struct NftMetadata {
    pub title: Option<String>,
    pub description: Option<String>,
    pub media: Option<String>,
    pub media_hash: Option<String>,
    pub copies: Option<u64>,
    pub issued_at: Option<String>,
    pub expires_at: Option<String>,
    pub starts_at: Option<String>,
    pub updated_at: Option<String>,
    pub extra: Option<String>,
    pub reference: Option<String>,
    pub reference_hash: Option<String>,
}

/// A copy of an optional text.
pub fn clone_opt_string(o: &Option<String>) -> (c: Option<String>)
    ensures
        c == *o,
{
    match o {
        Some(s) => Some(s.clone()),
        None => None,
    }
}

impl NftMetadata {
    /// A copy of the metadata.
    pub fn clone_metadata(&self) -> (m: NftMetadata)
        ensures
            m == *self,
    {
        NftMetadata {
            title: clone_opt_string(&self.title),
            description: clone_opt_string(&self.description),
            media: clone_opt_string(&self.media),
            media_hash: clone_opt_string(&self.media_hash),
            copies: self.copies,
            issued_at: clone_opt_string(&self.issued_at),
            expires_at: clone_opt_string(&self.expires_at),
            starts_at: clone_opt_string(&self.starts_at),
            updated_at: clone_opt_string(&self.updated_at),
            extra: clone_opt_string(&self.extra),
            reference: clone_opt_string(&self.reference),
            reference_hash: clone_opt_string(&self.reference_hash),
        }
    }

    /// The metadata that holds only a title and a media URL.
    pub open spec fn is_title_and_media(&self, title: Seq<char>, media: Seq<char>) -> bool {
        &&& self.title matches Some(t) && t@ == title
        &&& self.media matches Some(m) && m@ == media
        &&& self.description is None
        &&& self.media_hash is None
        &&& self.copies is None
        &&& self.issued_at is None
        &&& self.expires_at is None
        &&& self.starts_at is None
        &&& self.updated_at is None
        &&& self.extra is None
        &&& self.reference is None
        &&& self.reference_hash is None
    }

    /// Metadata with a title and a media URL only.
    pub fn new(title: &str, media: &str) -> (m: NftMetadata)
        ensures
            m.is_title_and_media(title@, media@),
    {
        NftMetadata {
            title: Some(title.to_string()),
            description: None,
            media: Some(media.to_string()),
            media_hash: None,
            copies: None,
            issued_at: None,
            expires_at: None,
            starts_at: None,
            updated_at: None,
            extra: None,
            reference: None,
            reference_hash: None,
        }
    }
}

} // verus!
