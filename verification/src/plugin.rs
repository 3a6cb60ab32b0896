//! The plugin: it resolves the screen size once and publishes it.

use crate::platform::Platform;
use crate::registry::{insert, is_thread_bound, published, thread_bound};
use crate::size::ScreenFixedSize;
use bevy_app::App;
use bevy_math::Vec2;
use vstd::prelude::*;

verus! {

/// Fixes the screen size when running on an iOS device.
///
/// In Bevy the touch position is not correct when the application runs on a
/// real iOS device (it is fine in the simulator), so the touch position has to
/// be corrected with the real screen size. Building the plugin publishes that
/// size as the [`ScreenFixedSize`] resource.
pub struct ScreenSizeFixPlugin;

impl ScreenSizeFixPlugin {
    /// The value the plugin publishes on `platform`, given the size of the
    /// main screen that was measured there.
    pub open spec fn resolved(platform: Platform, measured: Option<Vec2>) -> ScreenFixedSize {
        ScreenFixedSize { size: if platform.needs_native_size() { measured } else { None } }
    }

    /// Resolves the screen size for `platform`.
    ///
    /// `measured` is the size of the main screen as the native UI reports it.
    /// It must be there on a platform that needs it: without it there is
    /// nothing to publish, and the application cannot start. On any other
    /// platform it is ignored, and the caller need not have measured anything.
    pub fn initialize(&self, platform: Platform, measured: Option<Vec2>) -> (size: ScreenFixedSize)
        requires
            platform.needs_native_size() ==> measured is Some,
        ensures
            size == Self::resolved(platform, measured),
            platform.needs_native_size() ==> size.size is Some && size.size == measured,
            !platform.needs_native_size() ==> size.size is None,
    {
        if platform.queries_native_size() {
            ScreenFixedSize { size: measured }
        } else {
            ScreenFixedSize { size: None }
        }
    }

    /// Resolves the screen size for `platform` and publishes it in `app`.
    ///
    /// Whatever `app` held before, it holds the newly resolved size afterwards:
    /// building the plugin a second time replaces what the first build
    /// published, and a build leaves `app` fit for the next one.
    ///
    /// `app` must not have the type of the screen size registered for a value
    /// bound to one thread; [`ScreenSizeFixPlugin::try_build`] tests that.
    pub fn build(&self, app: &mut App, platform: Platform, measured: Option<Vec2>)
        requires
            platform.needs_native_size() ==> measured is Some,
            !thread_bound(*old(app)),
        ensures
            published(*final(app)) == Some(Self::resolved(platform, measured)),
            !thread_bound(*final(app)),
    {
        let size = self.initialize(platform, measured);
        insert(app, size);
    }

    /// Builds the plugin into `app` where `app` accepts the screen size as a
    /// resource, and says whether it did.
    ///
    /// Where `app` has the type registered for a value bound to one thread,
    /// nothing is published and `app` is left exactly as it was.
    pub fn try_build(
        &self,
        app: &mut App,
        platform: Platform,
        measured: Option<Vec2>,
    ) -> (built: bool)
        requires
            platform.needs_native_size() ==> measured is Some,
        ensures
            built == !thread_bound(*old(app)),
            built ==> published(*final(app)) == Some(Self::resolved(platform, measured)),
            built ==> !thread_bound(*final(app)),
            !built ==> *final(app) == *old(app),
    {
        if is_thread_bound(app) {
            false
        } else {
            self.build(app, platform, measured);
            true
        }
    }
}

} // verus!
