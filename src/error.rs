use vstd::prelude::*;

verus! {

/// Why one acquisition job stopped.
#[derive(Debug, Clone, Copy, PartialEq, Eq, Structural)]
pub enum AcqError {
    /// The source URL does not carry a numeric video identifier.
    MalformedUrl,
    /// The metadata request failed or its body was not valid JSON.
    MetadataFetchFailed,
    /// The metadata carries none of the playback-reference fields.
    MissingPlaybackReference,
    /// A playlist request failed, or a playlist entry is not a valid URL.
    PlaylistFetchFailed,
    /// The variant playlist body is empty or holds only whitespace.
    EmptyPlaylist,
    /// A segment request or the write of its body failed.
    SegmentTransferFailed,
    /// The transcoder could not be run or exited with an error.
    ConversionFailed,
    /// The transcoder executable could not be located or acquired.
    ProvisioningFailed,
}

/// The user-facing explanation of an error.
pub open spec fn message_of(e: AcqError) -> Seq<char> {
    match e {
        AcqError::MalformedUrl => "Could not extract video ID from URL"@,
        AcqError::MetadataFetchFailed => "Could not fetch the video metadata"@,
        AcqError::MissingPlaybackReference => "Could not find a video playlist field in API response."@,
        AcqError::PlaylistFetchFailed => "Could not fetch or resolve the playlist"@,
        AcqError::EmptyPlaylist => "Variant playlist is empty or not found."@,
        AcqError::SegmentTransferFailed => "Segment download failed"@,
        AcqError::ConversionFailed => "Conversion failed"@,
        AcqError::ProvisioningFailed => "Failed to download and unpack ffmpeg"@,
    }
}

impl AcqError {
    /// The user-facing explanation of this error.
    pub fn message(&self) -> (r: &'static str)
        ensures
            r@ == message_of(*self),
    {
        match self {
            AcqError::MalformedUrl => "Could not extract video ID from URL",
            AcqError::MetadataFetchFailed => "Could not fetch the video metadata",
            AcqError::MissingPlaybackReference => "Could not find a video playlist field in API response.",
            AcqError::PlaylistFetchFailed => "Could not fetch or resolve the playlist",
            AcqError::EmptyPlaylist => "Variant playlist is empty or not found.",
            AcqError::SegmentTransferFailed => "Segment download failed",
            AcqError::ConversionFailed => "Conversion failed",
            AcqError::ProvisioningFailed => "Failed to download and unpack ffmpeg",
        }
    }
}

} // verus!
