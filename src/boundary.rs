use vstd::prelude::*;
use crate::decoder::{failure_prefix, info_of, validate_webp, validates_to, webp_header_of, HeaderFields, WebpInfo};

verus! {

/// The flat record reported to a foreign caller: a validity flag, the metadata
/// fields (all zero when invalid) and an owned error message, present exactly
/// when the data was not valid.
pub struct WebpValidationResult {
    pub is_valid: bool,
    pub width: u32,
    pub height: u32,
    pub has_alpha: bool,
    pub is_animated: bool,
    pub num_frames: u32,
    pub error_message: Option<String>,
}

/// The message reported when no data buffer was supplied.
pub open spec fn null_input_message() -> Seq<char> {
    "data pointer is null"@
}

/// `r` is the record that reports the validation result `outcome`.
pub open spec fn reports(outcome: Result<WebpInfo, String>, r: WebpValidationResult) -> bool {
    match outcome {
        Ok(info) => r.is_valid && r.width == info.width && r.height == info.height
            && r.has_alpha == info.has_alpha && r.is_animated == info.is_animated
            && r.num_frames == info.num_frames && r.error_message is None,
        Err(e) => r.is_zeroed() && r.error_message == Some(e),
    }
}

/// `r` is the record that reports the decoder outcome `h`: its metadata, or the
/// failure prefix followed by the decoder's description.
pub open spec fn reports_header(h: Result<HeaderFields, Seq<char>>, r: WebpValidationResult) -> bool {
    match h {
        Ok(f) => r.is_valid && r.info() == info_of(f) && r.error_message is None,
        Err(d) => r.is_zeroed() && r.error_message is Some
            && r.error_message->Some_0@ == failure_prefix() + d,
    }
}

impl WebpValidationResult {
    /// The metadata fields of the record.
    pub open spec fn info(&self) -> WebpInfo {
        WebpInfo {
            width: self.width,
            height: self.height,
            has_alpha: self.has_alpha,
            is_animated: self.is_animated,
            num_frames: self.num_frames,
        }
    }

    /// The record reports failure: not valid and every metadata field zero.
    pub open spec fn is_zeroed(&self) -> bool {
        !self.is_valid && self.width == 0 && self.height == 0 && !self.has_alpha
            && !self.is_animated && self.num_frames == 0
    }

    /// Exactly one of valid metadata and an error message is present, and an
    /// invalid record carries no metadata.
    pub open spec fn wf(&self) -> bool {
        &&& self.is_valid <==> self.error_message is None
        &&& !self.is_valid ==> self.is_zeroed()
    }

    /// The record of valid metadata.
    pub fn from_info(info: WebpInfo) -> (r: WebpValidationResult)
        ensures
            r.wf(),
            reports(Ok(info), r),
    {
        WebpValidationResult {
            is_valid: true,
            width: info.width,
            height: info.height,
            has_alpha: info.has_alpha,
            is_animated: info.is_animated,
            num_frames: info.num_frames,
            error_message: None,
        }
    }

    /// The record of a failure described by `message`.
    pub fn from_error(message: String) -> (r: WebpValidationResult)
        ensures
            r.wf(),
            reports(Err(message), r),
    {
        WebpValidationResult {
            is_valid: false,
            width: 0,
            height: 0,
            has_alpha: false,
            is_animated: false,
            num_frames: 0,
            error_message: Some(message),
        }
    }

    /// The record of a validation result.
    pub fn from_outcome(outcome: Result<WebpInfo, String>) -> (r: WebpValidationResult)
        ensures
            r.wf(),
            reports(outcome, r),
    {
        match outcome {
            Ok(info) => WebpValidationResult::from_info(info),
            Err(e) => WebpValidationResult::from_error(e),
        }
    }

    /// The record reported when no data buffer was supplied.
    pub fn null_input() -> (r: WebpValidationResult)
        ensures
            r.wf(),
            r.is_zeroed(),
            r.error_message is Some && r.error_message->Some_0@ == null_input_message(),
    {
        let message = String::from_str("data pointer is null");
        proof {
            reveal_strlit("data pointer is null");
        }
        WebpValidationResult::from_error(message)
    }
}

/// Validates a buffer handed over by a foreign caller, `None` standing for a
/// null pointer, and reports the result as a flat record.
pub fn validate_webp_buffer(data: Option<&[u8]>) -> (r: WebpValidationResult)
    ensures
        r.wf(),
        match data {
            None => r.is_zeroed() && r.error_message is Some
                && r.error_message->Some_0@ == null_input_message(),
            Some(d) => reports_header(webp_header_of(d@), r),
        },
        data matches Some(d) && d@.len() < 12 ==> !r.is_valid,
{
    match data {
        None => WebpValidationResult::null_input(),
        Some(d) => WebpValidationResult::from_outcome(validate_webp(d)),
    }
}

/// The record for a buffer agrees with validating it directly: it is valid
/// exactly when validation succeeds, then with the same metadata, and otherwise
/// it carries the same error text.
pub proof fn lemma_record_agrees_with_validation(
    data: Seq<u8>,
    v: Result<WebpInfo, String>,
    r: WebpValidationResult,
)
    requires
        validates_to(data, v),
        reports_header(webp_header_of(data), r),
    ensures
        r.is_valid <==> v is Ok,
        v is Ok ==> r.info() == v->Ok_0,
        v is Err ==> r.error_message is Some && r.error_message->Some_0@ == v->Err_0@,
{
}

/// Two records for the same buffer hold the same flag, the same metadata and
/// the same error text.
pub proof fn lemma_record_deterministic(data: Seq<u8>, r1: WebpValidationResult, r2: WebpValidationResult)
    requires
        reports_header(webp_header_of(data), r1),
        reports_header(webp_header_of(data), r2),
    ensures
        r1.is_valid == r2.is_valid,
        r1.info() == r2.info(),
        r1.error_message is Some <==> r2.error_message is Some,
        r1.error_message is Some ==> r1.error_message->Some_0@ == r2.error_message->Some_0@,
{
}

} // verus!
