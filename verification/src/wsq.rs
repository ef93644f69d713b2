//! Decision logic of the safe codec wrapper.
//!
//! The native codec is reached through a foreign call that hands back a
//! status code, a pointer to memory the native side allocated, and either an
//! output length (encode) or the image dimensions (decode). Everything the
//! wrapper decides around that call is pure and verified here:
//!
//! - `plan_encode` validates a request and either rejects it as
//!   `InvalidInput` — planning no foreign call at all — or fixes the exact
//!   parameters of the invocation;
//! - `encode_outcome` / `decode_outcome` interpret what the native call
//!   reported and order the rest of the bridge: which typed result to return,
//!   how many bytes to copy, and whether the foreign buffer must be released.
//!
//! The caller that owns the raw pointers performs exactly the copy and the
//! release these plans order; the plans guarantee the release happens if and
//! only if a buffer was acquired, once, on every path.

use vstd::prelude::*;

verus! {

/// Errors of the codec wrapper. Native status codes are carried verbatim:
/// they are the native library's own diagnostic vocabulary and are never
/// reinterpreted.
#[derive(Clone, Copy, Debug, PartialEq, Eq, Structural)]
pub enum WsqError {
    /// The native encode call returned the carried nonzero status, or
    /// reported success with an invalid output (carried code `-1`).
    EncodingFailed(i32),
    /// The native decode call returned the carried nonzero status, or
    /// reported success with an invalid output (carried code `-1`).
    DecodingFailed(i32),
    /// A request precondition was violated; no foreign call was made.
    InvalidInput,
}

/// Bit depth of the grayscale pixel data handed to the native encoder.
pub const PIXEL_DEPTH: i32 = 8;

/// Sampling density (pixels per inch) recorded with every encoded image,
/// the standard value for fingerprint captures.
pub const SAMPLING_DENSITY_PPI: i32 = 500;

/// Status code reserved for a native call that reported success but handed
/// back a null pointer or an empty output.
pub const INVALID_OUTPUT_CODE: i32 = -1;

/// An encode request is valid when both dimensions and the bitrate are
/// positive and the pixel buffer holds exactly one byte per pixel. The
/// bitrate is carried in thousandths of a bit per pixel, so `750` stands
/// for a target of 0.75.
pub open spec fn valid_encode_input(
    pixels_len: nat,
    width: i32,
    height: i32,
    bitrate_millis: u32,
) -> bool {
    &&& width > 0
    &&& height > 0
    &&& bitrate_millis > 0
    &&& pixels_len == width * height
}

/// What the wrapper does with an encode request: reject it before any
/// foreign call, or invoke the native encoder with exactly these parameters.
#[derive(Clone, Copy, Debug, PartialEq, Eq, Structural)]
pub enum EncodePlan {
    /// The request violates a precondition; no foreign call is planned.
    Reject(WsqError),
    /// Invoke the native encoder with these parameters.
    Invoke { width: i32, height: i32, depth: i32, ppi: i32, bitrate_millis: u32 },
}

/// The plan for a given encode request.
pub open spec fn plan_encode_spec(
    pixels_len: nat,
    width: i32,
    height: i32,
    bitrate_millis: u32,
) -> EncodePlan {
    if valid_encode_input(pixels_len, width, height, bitrate_millis) {
        EncodePlan::Invoke {
            width,
            height,
            depth: PIXEL_DEPTH,
            ppi: SAMPLING_DENSITY_PPI,
            bitrate_millis,
        }
    } else {
        EncodePlan::Reject(WsqError::InvalidInput)
    }
}

/// Validates an encode request and plans the native invocation.
///
/// A request with a pixel buffer whose length differs from `width * height`,
/// or with a non-positive width, height or bitrate, is rejected as
/// `InvalidInput`; only a valid request yields an invocation, and that
/// invocation carries the request's dimensions, the fixed pixel depth and
/// sampling density, and the requested bitrate.
pub fn plan_encode(pixels: &[u8], width: i32, height: i32, bitrate_millis: u32) -> (r:
    EncodePlan)
    ensures
        r == plan_encode_spec(pixels@.len(), width, height, bitrate_millis),
{
    if width <= 0 || height <= 0 || bitrate_millis == 0 {
        return EncodePlan::Reject(WsqError::InvalidInput);
    }
    proof {
        assert(0 < (width as int) * (height as int) < 0x4000_0000_0000_0000)
            by (nonlinear_arith)
            requires
                0 < width < 0x8000_0000,
                0 < height < 0x8000_0000,
        ;
    }
    let expected: u64 = (width as u64) * (height as u64);
    if (pixels.len() as u64) != expected {
        return EncodePlan::Reject(WsqError::InvalidInput);
    }
    EncodePlan::Invoke {
        width,
        height,
        depth: PIXEL_DEPTH,
        ppi: SAMPLING_DENSITY_PPI,
        bitrate_millis,
    }
}

/// The foreign buffer must be released exactly when one was acquired, that
/// is, when the native call left a non-null output pointer — on the success
/// path and on every error path alike.
pub open spec fn must_release(out_null: bool) -> bool {
    !out_null
}

/// The typed result of an encode call, from what the native encoder
/// reported: its status, whether the output pointer is null, and the output
/// length. On success the value is the exact number of bytes to copy out of
/// the foreign buffer.
pub open spec fn encode_result_spec(status: i32, out_null: bool, out_len: i32) -> Result<
    usize,
    WsqError,
> {
    if status != 0 {
        Err(WsqError::EncodingFailed(status))
    } else if out_null || out_len <= 0 {
        Err(WsqError::EncodingFailed(INVALID_OUTPUT_CODE))
    } else {
        Ok(out_len as usize)
    }
}

/// Interprets what the native encoder reported.
///
/// Returns the typed result — the number of bytes to copy on success, the
/// native status verbatim on failure, `-1` for a claimed success with a
/// null or empty output — paired with whether the foreign buffer must be
/// released.
pub fn encode_outcome(status: i32, out_null: bool, out_len: i32) -> (r: (
    Result<usize, WsqError>,
    bool,
))
    ensures
        r.0 == encode_result_spec(status, out_null, out_len),
        r.1 == must_release(out_null),
        status != 0 ==> r.0 == Err::<usize, WsqError>(WsqError::EncodingFailed(status)),
{
    let result: Result<usize, WsqError> = if status != 0 {
        Err(WsqError::EncodingFailed(status))
    } else if out_null || out_len <= 0 {
        Err(WsqError::EncodingFailed(INVALID_OUTPUT_CODE))
    } else {
        Ok(out_len as usize)
    };
    (result, !out_null)
}

/// What the native decoder reported about a decoded image. The dimensions
/// are authoritative outputs of the native library, never caller inputs.
#[derive(Clone, Copy, Debug, PartialEq, Eq, Structural)]
pub struct DecodedHeader {
    pub width: i32,
    pub height: i32,
    pub depth: i32,
    pub ppi: i32,
    /// Nonzero when the native library reports the image was compressed
    /// lossily; carried verbatim.
    pub lossy: i32,
}

impl DecodedHeader {
    /// A header accepted by the wrapper has positive dimensions.
    pub open spec fn wf(self) -> bool {
        self.width > 0 && self.height > 0
    }

    /// The decoded pixel buffer holds one byte per pixel.
    pub open spec fn pixel_count_spec(self) -> int {
        self.width * self.height
    }

    /// Number of bytes to copy out of the foreign buffer, derived from the
    /// native library's own reported dimensions.
    pub fn pixel_count(&self) -> (r: u64)
        requires
            self.wf(),
        ensures
            r == self.pixel_count_spec(),
            r > 0,
    {
        proof {
            assert(0 < (self.width as int) * (self.height as int)
                < 0x4000_0000_0000_0000) by (nonlinear_arith)
                requires
                    0 < self.width < 0x8000_0000,
                    0 < self.height < 0x8000_0000,
            ;
        }
        (self.width as u64) * (self.height as u64)
    }
}

/// The typed result of a decode call, from what the native decoder reported.
/// A nonzero status carries that status verbatim; a claimed success with a
/// null output pointer or non-positive dimensions is a failure with code
/// `-1`; otherwise the header is exactly what the native library reported.
pub open spec fn decode_result_spec(
    status: i32,
    out_null: bool,
    width: i32,
    height: i32,
    depth: i32,
    ppi: i32,
    lossy: i32,
) -> Result<DecodedHeader, WsqError> {
    if status != 0 {
        Err(WsqError::DecodingFailed(status))
    } else if out_null || width <= 0 || height <= 0 {
        Err(WsqError::DecodingFailed(INVALID_OUTPUT_CODE))
    } else {
        Ok(DecodedHeader { width, height, depth, ppi, lossy })
    }
}

/// Interprets what the native decoder reported.
///
/// On success the returned header carries the dimensions exactly as the
/// native library reported them; the second component says whether the
/// foreign buffer must be released.
pub fn decode_outcome(
    status: i32,
    out_null: bool,
    width: i32,
    height: i32,
    depth: i32,
    ppi: i32,
    lossy: i32,
) -> (r: (Result<DecodedHeader, WsqError>, bool))
    ensures
        r.0 == decode_result_spec(status, out_null, width, height, depth, ppi, lossy),
        r.1 == must_release(out_null),
        r.0 matches Ok(h) ==> h.width == width && h.height == height && h.wf(),
{
    let result: Result<DecodedHeader, WsqError> = if status != 0 {
        Err(WsqError::DecodingFailed(status))
    } else if out_null || width <= 0 || height <= 0 {
        Err(WsqError::DecodingFailed(INVALID_OUTPUT_CODE))
    } else {
        Ok(DecodedHeader { width, height, depth, ppi, lossy })
    };
    (result, !out_null)
}

/// How many times a driver that follows the bridge plan releases the
/// foreign buffer.
pub open spec fn releases_performed(out_null: bool) -> int {
    if must_release(out_null) {
        1
    } else {
        0
    }
}

/// Precondition enforcement: an encode request whose pixel buffer length
/// does not equal `width * height`, or whose width, height or bitrate is not
/// positive, is rejected as `InvalidInput`, and no invocation of the native
/// codec is planned for it.
pub proof fn lemma_invalid_encode_rejected(
    pixels_len: nat,
    width: i32,
    height: i32,
    bitrate_millis: u32,
)
    requires
        !valid_encode_input(pixels_len, width, height, bitrate_millis),
    ensures
        plan_encode_spec(pixels_len, width, height, bitrate_millis) == EncodePlan::Reject(
            WsqError::InvalidInput,
        ),
        !(plan_encode_spec(pixels_len, width, height, bitrate_millis) matches EncodePlan::Invoke {
            ..
        }),
{
}

/// Memory safety of the bridge under every outcome: a driver that follows
/// the plan releases an acquired foreign buffer exactly once and releases
/// nothing when no buffer was acquired — in particular, a nonzero native
/// status yields a typed error and still balances the ledger, with no leak
/// and no double release.
pub proof fn lemma_release_exactly_once(status: i32, out_null: bool, out_len: i32)
    ensures
        !out_null ==> releases_performed(out_null) == 1,
        out_null ==> releases_performed(out_null) == 0,
        status != 0 ==> (encode_result_spec(status, out_null, out_len) matches Err(e) && e
            == WsqError::EncodingFailed(status)),
{
}

/// Round-trip at the bridge level: take a valid encode request for a
/// `width` by `height` image. Its plan invokes the native encoder with
/// exactly those dimensions; and when decoding the encoded image later
/// succeeds with the native library reporting those same dimensions back,
/// the decoded header orders a pixel buffer of exactly the original
/// request's length, `width * height` bytes. (That the native library does
/// report the same dimensions is its own contract, outside this model.)
pub proof fn lemma_round_trip_length(
    pixels_len: nat,
    width: i32,
    height: i32,
    bitrate_millis: u32,
    depth: i32,
    ppi: i32,
    lossy: i32,
)
    requires
        valid_encode_input(pixels_len, width, height, bitrate_millis),
    ensures
        plan_encode_spec(pixels_len, width, height, bitrate_millis) == (EncodePlan::Invoke {
            width,
            height,
            depth: PIXEL_DEPTH,
            ppi: SAMPLING_DENSITY_PPI,
            bitrate_millis,
        }),
        decode_result_spec(0, false, width, height, depth, ppi, lossy) matches Ok(h)
            && h.pixel_count_spec() == pixels_len,
{
}

/// Dimension authority: whenever decoding succeeds, the header's width and
/// height are exactly those the native library reported — decode takes no
/// caller-supplied dimensions that could override them.
pub proof fn lemma_dimension_authority(
    status: i32,
    out_null: bool,
    width: i32,
    height: i32,
    depth: i32,
    ppi: i32,
    lossy: i32,
)
    ensures
        decode_result_spec(status, out_null, width, height, depth, ppi, lossy) matches Ok(h)
            ==> h.width == width && h.height == height,
{
}

} // verus!
