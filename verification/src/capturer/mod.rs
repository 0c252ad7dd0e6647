use vstd::prelude::*;

/// The platform capture engines.
pub mod engine;

verus! {

/// The resolution a capturer scales its output down to.
#[derive(Debug, Clone, Copy, Default, PartialEq, Eq, Structural)]
pub enum Resolution {
    _480p,
    _720p,
    _1080p,
    _1440p,
    _2160p,
    _4320p,
    /// Keep the resolution that was captured.
    #[default]
    Captured,
}

/// The width in pixels of a standard resolution.
pub open spec fn spec_base_width(resolution: Resolution) -> u32 {
    match resolution {
        Resolution::_480p => 640,
        Resolution::_720p => 1280,
        Resolution::_1080p => 1920,
        Resolution::_1440p => 2560,
        Resolution::_2160p => 3840,
        Resolution::_4320p => 7680,
        Resolution::Captured => 0,
    }
}

impl Resolution {
    /// The width in pixels of a standard resolution; the height follows
    /// from it and the aspect ratio of the captured area. `Captured` has no
    /// width of its own.
    pub fn base_width(&self) -> (width: u32)
        requires
            *self != Resolution::Captured,
        ensures
            width == spec_base_width(*self),
            width > 0,
    {
        match *self {
            Resolution::_480p => 640,
            Resolution::_720p => 1280,
            Resolution::_1080p => 1920,
            Resolution::_1440p => 2560,
            Resolution::_2160p => 3840,
            Resolution::_4320p => 7680,
            Resolution::Captured => 0,
        }
    }
}

/// Why a capturer could not be built.
#[derive(Debug, Clone, Copy, PartialEq, Eq, Structural)]
pub enum CapturerBuildError {
    /// Screen capture is not supported on this system.
    NotSupported,
    /// This process may not capture the screen.
    PermissionNotGranted,
}

impl CapturerBuildError {
    /// The message that describes the error.
    pub fn message(&self) -> (msg: &'static str)
        ensures
            msg@ == match *self {
                CapturerBuildError::NotSupported => "屏幕捕获不支持"@,
                CapturerBuildError::PermissionNotGranted => "未获得屏幕捕获权限"@,
            },
    {
        match *self {
            CapturerBuildError::NotSupported => "屏幕捕获不支持",
            CapturerBuildError::PermissionNotGranted => "未获得屏幕捕获权限",
        }
    }
}

/// The checks made before a capturer is built: the platform must support
/// capture, and then the process must hold the permission to capture.
pub fn capture_precheck(supported: bool, permitted: bool) -> (res: Result<(), CapturerBuildError>)
    ensures
        res == if !supported {
            Err(CapturerBuildError::NotSupported)
        } else if !permitted {
            Err(CapturerBuildError::PermissionNotGranted)
        } else {
            Ok(())
        },
{
    if !supported {
        return Err(CapturerBuildError::NotSupported);
    }
    if !permitted {
        return Err(CapturerBuildError::PermissionNotGranted);
    }
    Ok(())
}

} // verus!
