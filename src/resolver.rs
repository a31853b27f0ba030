//! Choosing the media directory among the development location and the two
//! packaged-resource locations, from what a read-only probe found.

use vstd::prelude::*;

verus! {

/// The base directory that a candidate location is relative to.
#[derive(Clone, Copy, Debug, PartialEq, Eq)]
pub enum MediaBase {
    /// The process's current working directory.
    WorkingDir,
    /// The application's packaged-resource root.
    ResourceRoot,
}

/// A candidate location of the media directory.
#[derive(Clone, Copy, Debug, PartialEq, Eq)]
pub enum MediaSource {
    /// `<cwd>/static/videos`, the development layout.
    WorkingDirStatic,
    /// `<resourceRoot>/videos`.
    ResourceVideos,
    /// `<resourceRoot>/static/videos`.
    ResourceStatic,
}

/// Whether each candidate location exists. A candidate whose base could not
/// be determined (no working directory, no resource root) counts as absent.
#[derive(Clone, Copy, Debug, PartialEq, Eq)]
pub struct MediaProbe {
    pub working_dir_static: bool,
    pub resource_videos: bool,
    pub resource_static: bool,
}

/// The first candidate that exists, in the order development location,
/// resource `videos`, resource `static/videos`.
pub open spec fn chosen_source(p: MediaProbe) -> Option<MediaSource> {
    if p.working_dir_static {
        Some(MediaSource::WorkingDirStatic)
    } else if p.resource_videos {
        Some(MediaSource::ResourceVideos)
    } else if p.resource_static {
        Some(MediaSource::ResourceStatic)
    } else {
        None
    }
}

/// The base directory of a candidate.
pub open spec fn base_of(s: MediaSource) -> MediaBase {
    match s {
        MediaSource::WorkingDirStatic => MediaBase::WorkingDir,
        _ => MediaBase::ResourceRoot,
    }
}

/// The path of a candidate relative to its base.
pub open spec fn relative_path_of(s: MediaSource) -> Seq<char> {
    match s {
        MediaSource::ResourceVideos => "videos"@,
        _ => "static/videos"@,
    }
}

/// Picks the media directory from the probe: the first location that exists,
/// or none when no candidate exists.
pub fn choose_media_source(p: MediaProbe) -> (r: Option<MediaSource>)
    ensures
        r == chosen_source(p),
        r is None <==> !p.working_dir_static && !p.resource_videos && !p.resource_static,
{
    if p.working_dir_static {
        Some(MediaSource::WorkingDirStatic)
    } else if p.resource_videos {
        Some(MediaSource::ResourceVideos)
    } else if p.resource_static {
        Some(MediaSource::ResourceStatic)
    } else {
        None
    }
}

impl MediaSource {
    /// The base directory this location is relative to.
    pub fn base(&self) -> (r: MediaBase)
        ensures
            r == base_of(*self),
    {
        match self {
            MediaSource::WorkingDirStatic => MediaBase::WorkingDir,
            _ => MediaBase::ResourceRoot,
        }
    }

    /// This location's path relative to its base, with `/` between parts.
    pub fn relative_path(&self) -> (r: &'static str)
        ensures
            r@ == relative_path_of(*self),
    {
        match self {
            MediaSource::ResourceVideos => "videos",
            _ => "static/videos",
        }
    }
}

} // verus!
