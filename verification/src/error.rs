//! Why a match produced no result.

use vstd::prelude::*;

verus! {

/// The kinds of failure that callers tell apart.
#[derive(Clone, Copy, Debug, PartialEq, Eq, Structural)]
pub enum ErrorKind {
    /// An input could not be read as an image, or the image is empty.
    DecodeError,
    /// The scaled needle is larger than the haystack.
    InvalidArgument,
    /// An image operation failed for another reason.
    InternalFailure,
}

/// How a failure is rated towards the host: as a fault of the arguments or
/// as a fault of the work.
#[derive(Clone, Copy, Debug, PartialEq, Eq, Structural)]
pub enum HostStatus {
    /// The caller handed in something that cannot be matched.
    InvalidArg,
    /// Decoding or an image operation failed.
    GenericFailure,
}

/// The image operations that can fail once both images are decoded.
#[derive(Clone, Copy, Debug, PartialEq, Eq, Structural)]
pub enum Operation {
    /// Resizing the needle.
    Resize,
    /// Allocating the correlation surface.
    SurfaceAllocation,
    /// Computing the correlation surface.
    Correlation,
    /// Searching the surface for its maximum.
    PeakSearch,
}

/// A failed match.
#[derive(Clone, Copy, Debug, PartialEq, Eq, Structural)]
pub enum MatchError {
    /// The haystack's bytes are no image.
    HaystackUnreadable,
    /// The needle's bytes are no image.
    NeedleUnreadable,
    /// The haystack or the needle decoded to an image without pixels.
    EmptyImage,
    /// The scaled needle is wider or taller than the haystack.
    NeedleTooLarge,
    /// The named operation failed.
    Internal(Operation),
}

impl MatchError {
    /// The kind of each failure.
    pub open spec fn spec_kind(self) -> ErrorKind {
        match self {
            MatchError::HaystackUnreadable => ErrorKind::DecodeError,
            MatchError::NeedleUnreadable => ErrorKind::DecodeError,
            MatchError::EmptyImage => ErrorKind::DecodeError,
            MatchError::NeedleTooLarge => ErrorKind::InvalidArgument,
            MatchError::Internal(_) => ErrorKind::InternalFailure,
        }
    }

    /// The text that describes each failure. A failed resize has none of its
    /// own: the host's account of it is the whole description.
    pub open spec fn spec_message(self) -> Seq<char> {
        match self {
            MatchError::HaystackUnreadable => "解码大图失败"@,
            MatchError::NeedleUnreadable => "解码模板图失败"@,
            MatchError::EmptyImage => "图片数据为空"@,
            MatchError::NeedleTooLarge => "模板图尺寸大于大图，无法匹配"@,
            MatchError::Internal(Operation::Resize) => ""@,
            MatchError::Internal(Operation::SurfaceAllocation) => "创建结果矩阵失败"@,
            MatchError::Internal(Operation::Correlation) => "模板匹配失败"@,
            MatchError::Internal(Operation::PeakSearch) => "查找最值失败"@,
        }
    }

    /// The text that describes this failure.
    pub fn message(self) -> (text: &'static str)
        ensures
            text@ == self.spec_message(),
    {
        match self {
            MatchError::HaystackUnreadable => "解码大图失败",
            MatchError::NeedleUnreadable => "解码模板图失败",
            MatchError::EmptyImage => "图片数据为空",
            MatchError::NeedleTooLarge => "模板图尺寸大于大图，无法匹配",
            MatchError::Internal(Operation::Resize) => "",
            MatchError::Internal(Operation::SurfaceAllocation) => "创建结果矩阵失败",
            MatchError::Internal(Operation::Correlation) => "模板匹配失败",
            MatchError::Internal(Operation::PeakSearch) => "查找最值失败",
        }
    }

    /// The rating of each failure towards the host: images without pixels
    /// and needles that are too large are the caller's fault.
    pub open spec fn spec_status(self) -> HostStatus {
        match self {
            MatchError::EmptyImage => HostStatus::InvalidArg,
            MatchError::NeedleTooLarge => HostStatus::InvalidArg,
            _ => HostStatus::GenericFailure,
        }
    }

    /// The rating of this failure towards the host.
    #[verifier::when_used_as_spec(spec_status)]
    pub fn status(self) -> (status: HostStatus)
        ensures
            status == self.spec_status(),
    {
        match self {
            MatchError::EmptyImage => HostStatus::InvalidArg,
            MatchError::NeedleTooLarge => HostStatus::InvalidArg,
            _ => HostStatus::GenericFailure,
        }
    }

    /// The kind of this failure.
    #[verifier::when_used_as_spec(spec_kind)]
    pub fn kind(self) -> (kind: ErrorKind)
        ensures
            kind == self.spec_kind(),
    {
        match self {
            MatchError::HaystackUnreadable => ErrorKind::DecodeError,
            MatchError::NeedleUnreadable => ErrorKind::DecodeError,
            MatchError::EmptyImage => ErrorKind::DecodeError,
            MatchError::NeedleTooLarge => ErrorKind::InvalidArgument,
            MatchError::Internal(_) => ErrorKind::InternalFailure,
        }
    }
}

} // verus!
