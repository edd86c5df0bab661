use vstd::prelude::*;

use crate::threshold::ImageResizeThreshold;

verus! {

/// The SHA-256 digest of a byte sequence.
pub uninterp spec fn sha256_of(data: Seq<u8>) -> Seq<u8>;

/// The URL-safe, padded base64 text of a byte sequence.
pub uninterp spec fn base64_url_of(data: Seq<u8>) -> Seq<char>;

/// The final extension of a file path (the text after the last dot of the file
/// name, when the name has one that is not its first character).
pub uninterp spec fn extension_of(path: Seq<char>) -> Option<Seq<char>>;

/// Relies on sha2::Sha256::digest: the 32-byte SHA-256 digest of the data.
#[verifier::external_body]
fn sha256(data: &[u8]) -> (r: Vec<u8>)
    ensures
        r@ == sha256_of(data@),
        r@.len() == 32,
{
    <sha2::Sha256 as sha2::Digest>::digest(data).to_vec()
}

/// Relies on base64's URL_SAFE engine (`Engine::encode`): the padded URL-safe
/// base64 text of the bytes.
#[verifier::external_body]
fn base64_url(data: &[u8]) -> (r: String)
    requires
        data@.len() <= 64,
    ensures
        r@ == base64_url_of(data@),
{
    base64::Engine::encode(&base64::engine::general_purpose::URL_SAFE, data)
}

/// Relies on std::path::Path::extension: the extension of the path's file
/// name, converted to text lossily.
#[verifier::external_body]
fn path_extension(path: &str) -> (r: Option<String>)
    ensures
        r is Some <==> extension_of(path@) is Some,
        r is Some ==> r->Some_0@ == extension_of(path@)->Some_0,
{
    match std::path::Path::new(path).extension() {
        Some(e) => Some(e.to_string_lossy().into_owned()),
        None => None,
    }
}

/// The cache file name `{prefix}_{digest}.{extension}`.
pub open spec fn spec_file_name(prefix: Seq<char>, digest_text: Seq<char>, extension: Seq<char>) -> Seq<char> {
    prefix + "_"@ + digest_text + "."@ + extension
}

/// The cache file name of a source's content for a bucket prefix and extension.
pub open spec fn spec_cache_key(source: Seq<u8>, prefix: Seq<char>, extension: Seq<char>) -> Seq<char> {
    spec_file_name(prefix, base64_url_of(sha256_of(source)), extension)
}

/// Joins a bucket prefix, the encoded content digest and an extension into a
/// cache file name.
pub fn join_file_name(prefix: &str, digest_text: &str, extension: &str) -> (r: String)
    ensures
        r@ == spec_file_name(prefix@, digest_text@, extension@),
{
    proof {
        reveal_strlit("_");
        reveal_strlit(".");
    }
    let mut name = String::from_str(prefix);
    name.append("_");
    name.append(digest_text);
    name.append(".");
    name.append(extension);
    name
}

/// The cache file name for the content `source` under a bucket prefix, keeping
/// the source's extension.
pub fn cache_file_name(source: &[u8], prefix: &str, extension: &str) -> (r: String)
    ensures
        r@ == spec_cache_key(source@, prefix@, extension@),
{
    let digest = sha256(source);
    let text = base64_url(digest.as_slice());
    join_file_name(prefix, text.as_str(), extension)
}

/// The extension of a source path, if its file name has one.
pub fn source_extension(file_path: &str) -> (r: Option<String>)
    ensures
        r is Some <==> extension_of(file_path@) is Some,
        r is Some ==> r->Some_0@ == extension_of(file_path@)->Some_0,
{
    path_extension(file_path)
}

/// The cache file name of a source file of the given content and path, for a
/// request of `width` x `height`; `None` when the path has no extension.
pub fn derivative_file_name(file_path: &str, source: &[u8], width: u32, height: u32) -> (r: Option<String>)
    ensures
        r is Some <==> extension_of(file_path@) is Some,
        r is Some ==> r->Some_0@ == spec_cache_key(
            source@,
            ImageResizeThreshold::spec_for_size(width as int, height as int).prefix_text(),
            extension_of(file_path@)->Some_0,
        ),
{
    match source_extension(file_path) {
        None => None,
        Some(ext) => {
            let preset = ImageResizeThreshold::for_size(width, height).value();
            Some(cache_file_name(source, preset.prefix, ext.as_str()))
        },
    }
}

/// The cache key depends on the content alone: two sources with the same bytes
/// share a key, whatever their names.
pub proof fn lemma_same_content_same_key(a: Seq<u8>, b: Seq<u8>, prefix: Seq<char>, extension: Seq<char>)
    requires
        a == b,
    ensures
        spec_cache_key(a, prefix, extension) == spec_cache_key(b, prefix, extension),
{
}

/// Requests of different sizes that fall into the same bucket share the cache
/// entry of a source.
pub proof fn lemma_same_bucket_same_key(
    source: Seq<u8>,
    w1: u32,
    h1: u32,
    w2: u32,
    h2: u32,
    extension: Seq<char>,
)
    requires
        ImageResizeThreshold::spec_for_size(w1 as int, h1 as int)
            == ImageResizeThreshold::spec_for_size(w2 as int, h2 as int),
    ensures
        spec_cache_key(source, ImageResizeThreshold::spec_for_size(w1 as int, h1 as int).prefix_text(), extension)
            == spec_cache_key(source, ImageResizeThreshold::spec_for_size(w2 as int, h2 as int).prefix_text(), extension),
{
}

/// The same content requested under two different buckets gets two different
/// cache keys.
pub proof fn lemma_buckets_do_not_collide(
    source: Seq<u8>,
    t1: ImageResizeThreshold,
    t2: ImageResizeThreshold,
    extension: Seq<char>,
)
    requires
        t1 != t2,
    ensures
        spec_cache_key(source, t1.prefix_text(), extension)
            != spec_cache_key(source, t2.prefix_text(), extension),
{
    reveal_strlit("very_small");
    reveal_strlit("small");
    reveal_strlit("medium");
    reveal_strlit("large");
    reveal_strlit("very_large");
    reveal_strlit("_");
    let k1 = spec_cache_key(source, t1.prefix_text(), extension);
    let k2 = spec_cache_key(source, t2.prefix_text(), extension);
    assert(k1[0] != k2[0] || k1[5] != k2[5]);
}

} // verus!
