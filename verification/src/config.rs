//! Startup configuration: the target URL and the initial window size.
//!
//! The window size may be left unspecified, in which case it defaults to
//! 800 by 600; a size that is supplied must be strictly positive.

use vstd::prelude::*;

verus! {

/// Width used when the caller does not supply one.
pub const DEFAULT_WIDTH: i32 = 800;

/// Height used when the caller does not supply one.
pub const DEFAULT_HEIGHT: i32 = 600;

/// Why a requested configuration was rejected.
#[derive(Debug, Clone, Copy, PartialEq, Eq, Structural)]
pub enum ConfigError {
    /// The requested width was zero or negative.
    NonPositiveWidth,
    /// The requested height was zero or negative.
    NonPositiveHeight,
}

/// The validated startup parameters: the URL to display and the window's
/// initial dimensions, both strictly positive.
#[derive(Debug)]
pub struct WindowConfig {
    pub url: String,
    pub width: i32,
    pub height: i32,
}

/// The width that a request resolves to: the supplied value, or the default.
pub open spec fn resolved_width(width: Option<i32>) -> int {
    match width {
        Some(w) => w as int,
        None => DEFAULT_WIDTH as int,
    }
}

/// The height that a request resolves to: the supplied value, or the default.
pub open spec fn resolved_height(height: Option<i32>) -> int {
    match height {
        Some(h) => h as int,
        None => DEFAULT_HEIGHT as int,
    }
}

impl WindowConfig {
    /// A configuration is well formed when both dimensions are positive.
    pub open spec fn wf(self) -> bool {
        self.width > 0 && self.height > 0
    }

    /// Builds the configuration from the caller's URL and optional
    /// dimensions, applying the 800 by 600 default and rejecting any
    /// dimension that is zero or negative.
    pub fn new(url: String, width: Option<i32>, height: Option<i32>) -> (r: Result<
        WindowConfig,
        ConfigError,
    >)
        ensures
            r is Ok <==> resolved_width(width) > 0 && resolved_height(height) > 0,
            r matches Ok(c) ==> {
                &&& c.url@ == url@
                &&& c.width == resolved_width(width)
                &&& c.height == resolved_height(height)
                &&& c.wf()
            },
            resolved_width(width) <= 0 ==> r == Err::<WindowConfig, ConfigError>(
                ConfigError::NonPositiveWidth,
            ),
            resolved_width(width) > 0 && resolved_height(height) <= 0 ==> r == Err::<
                WindowConfig,
                ConfigError,
            >(ConfigError::NonPositiveHeight),
    {
        let w: i32 = match width {
            Some(w) => w,
            None => DEFAULT_WIDTH,
        };
        let h: i32 = match height {
            Some(h) => h,
            None => DEFAULT_HEIGHT,
        };
        if w <= 0 {
            Err(ConfigError::NonPositiveWidth)
        } else if h <= 0 {
            Err(ConfigError::NonPositiveHeight)
        } else {
            Ok(WindowConfig { url, width: w, height: h })
        }
    }
}

} // verus!
