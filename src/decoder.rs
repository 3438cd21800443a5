use vstd::prelude::*;

verus! {

/// Metadata of a WebP image that the decoder accepted.
#[derive(Debug, Clone, Copy, PartialEq, Eq, Structural)]
pub struct WebpInfo {
    pub width: u32,
    pub height: u32,
    pub has_alpha: bool,
    pub is_animated: bool,
    pub num_frames: u32,
}

/// What the decoder reports of a header it accepted:
/// `(width, height, has_alpha, is_animated, num_frames)`.
pub type HeaderFields = (u32, u32, bool, bool, u32);

/// What `image_webp`'s decoder makes of `data`: the fields of the header it
/// accepted, or the `Debug` rendering of the `DecodingError` it failed with.
pub uninterp spec fn webp_header_of(data: Seq<u8>) -> Result<HeaderFields, Seq<char>>;

/// Relies on `image_webp::WebPDecoder::new` over an in-memory reader, which reads
/// the container header, and on the accessors `dimensions`, `has_alpha`,
/// `is_animated` and `num_frames`, which return what `new` stored. A failure is
/// rendered with the derived `Debug` of `image_webp::DecodingError`. The source of
/// `new` reads a chunk header and a fourcc before it can succeed, so fewer than
/// twelve bytes always fail.
#[verifier::external_body]
fn read_webp_header(data: &[u8]) -> (r: Result<HeaderFields, String>)
    ensures
        match r {
            Ok(h) => webp_header_of(data@) == Ok::<HeaderFields, Seq<char>>(h),
            Err(e) => webp_header_of(data@) == Err::<HeaderFields, Seq<char>>(e@),
        },
        data@.len() < 12 ==> r is Err,
{
    match image_webp::WebPDecoder::new(std::io::Cursor::new(data)) {
        Ok(d) => {
            let (width, height) = d.dimensions();
            Ok((width, height, d.has_alpha(), d.is_animated(), d.num_frames()))
        },
        Err(e) => Err(format!("{:?}", e)),
    }
}

/// The text that every validation error starts with.
pub open spec fn failure_prefix() -> Seq<char> {
    "webp format validation failed: "@
}

/// The record made of the fields the decoder reported.
pub open spec fn info_of(h: HeaderFields) -> WebpInfo {
    WebpInfo { width: h.0, height: h.1, has_alpha: h.2, is_animated: h.3, num_frames: h.4 }
}

/// `r` is what validation gives for the decoder outcome `h`: the record of its
/// fields, or the failure prefix followed by the decoder's description.
pub open spec fn outcome_matches(h: Result<HeaderFields, Seq<char>>, r: Result<WebpInfo, String>) -> bool {
    match h {
        Ok(f) => r == Ok::<WebpInfo, String>(info_of(f)),
        Err(d) => r is Err && r->Err_0@ == failure_prefix() + d,
    }
}

/// `r` is what validating the bytes `data` gives.
pub open spec fn validates_to(data: Seq<u8>, r: Result<WebpInfo, String>) -> bool {
    outcome_matches(webp_header_of(data), r)
}

impl WebpInfo {
    /// The record of the fields that the decoder reported.
    pub fn new_valid(h: HeaderFields) -> (r: WebpInfo)
        ensures
            r == info_of(h),
    {
        WebpInfo { width: h.0, height: h.1, has_alpha: h.2, is_animated: h.3, num_frames: h.4 }
    }
}

/// Turns a decoder outcome into the validation result: the metadata on success,
/// otherwise the failure prefix followed by the decoder's description.
pub fn validation_outcome(h: Result<HeaderFields, String>) -> (r: Result<WebpInfo, String>)
    ensures
        match h {
            Ok(f) => outcome_matches(Ok(f), r),
            Err(d) => outcome_matches(Err(d@), r),
        },
{
    match h {
        Ok(f) => Ok(WebpInfo::new_valid(f)),
        Err(d) => {
            let prefix = String::from_str("webp format validation failed: ");
            proof {
                reveal_strlit("webp format validation failed: ");
            }
            Err(prefix.concat(d.as_str()))
        },
    }
}

/// Validates `data` as a WebP container and reads its metadata, without decoding
/// pixels.
pub fn validate_webp(data: &[u8]) -> (r: Result<WebpInfo, String>)
    ensures
        validates_to(data@, r),
        data@.len() < 12 ==> r is Err,
{
    validation_outcome(read_webp_header(data))
}

/// Validating the same bytes twice gives the same result: both succeed with the
/// same metadata, or both fail with the same error text.
pub proof fn lemma_validation_deterministic(
    data: Seq<u8>,
    r1: Result<WebpInfo, String>,
    r2: Result<WebpInfo, String>,
)
    requires
        validates_to(data, r1),
        validates_to(data, r2),
    ensures
        r1 is Ok <==> r2 is Ok,
        r1 is Ok ==> r1->Ok_0 == r2->Ok_0,
        r1 is Err ==> r1->Err_0@ == r2->Err_0@,
{
}

/// A failed validation reports the failure prefix, then the decoder's own
/// description of why it rejected the bytes.
pub proof fn lemma_failure_message(data: Seq<u8>, r: Result<WebpInfo, String>)
    requires
        validates_to(data, r),
        r is Err,
    ensures
        webp_header_of(data) is Err,
        r->Err_0@.len() == failure_prefix().len() + webp_header_of(data)->Err_0.len(),
        r->Err_0@.subrange(0, failure_prefix().len() as int) == failure_prefix(),
        r->Err_0@.subrange(failure_prefix().len() as int, r->Err_0@.len() as int)
            == webp_header_of(data)->Err_0,
{
    let p = failure_prefix();
    let d = webp_header_of(data)->Err_0;
    assert((p + d).subrange(0, p.len() as int) =~= p);
    assert((p + d).subrange(p.len() as int, (p + d).len() as int) =~= d);
}

/// A successful validation reports exactly the metadata the decoder read.
pub proof fn lemma_success_metadata(data: Seq<u8>, r: Result<WebpInfo, String>)
    requires
        validates_to(data, r),
        r is Ok,
    ensures
        webp_header_of(data) is Ok,
        r->Ok_0 == info_of(webp_header_of(data)->Ok_0),
{
}

} // verus!
