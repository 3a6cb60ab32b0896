//! The application's resources, as far as the screen size is concerned.

use crate::size::ScreenFixedSize;
use bevy_app::App;
use bevy_ecs::component::{ComponentId, ComponentInfo};
use bevy_ecs::system::Resource;
use vstd::prelude::*;

verus! {

/// Bevy's application, whose world holds the resources. Opaque here.
#[verifier::external_type_specification]
#[verifier::external_body]
pub struct ExApp(App);

/// The id under which a world has registered a type. Opaque here.
#[verifier::external_type_specification]
#[verifier::external_body]
pub struct ExComponentId(ComponentId);

/// What a world has on record about a registered type. Opaque here.
#[verifier::external_type_specification]
#[verifier::external_body]
pub struct ExComponentInfo(ComponentInfo);

impl Resource for ScreenFixedSize {

}

/// The screen size that the world of `app` holds as a resource, or `None`
/// where it holds none.
pub uninterp spec fn published(app: App) -> Option<ScreenFixedSize>;

/// The id under which the world of `app` has registered the type of the
/// screen size as a resource, or `None` where it has not registered it.
pub uninterp spec fn registered_id(app: App) -> Option<ComponentId>;

/// The record that the world of `app` keeps under `id`, or `None` where it
/// keeps none.
pub uninterp spec fn record(app: App, id: ComponentId) -> Option<ComponentInfo>;

/// Whether `info` is the record of a type whose values may be shared between
/// threads, as an ordinary resource is.
pub uninterp spec fn shareable(info: ComponentInfo) -> bool;

/// Whether the world of `app` has the type of the screen size registered, but
/// not as an ordinary resource: somebody stored a screen size there as a value
/// bound to one thread. Bevy registers a type once, so such a world refuses
/// the screen size as a resource from then on.
pub open spec fn thread_bound(app: App) -> bool {
    match registered_id(app) {
        None => false,
        Some(id) => match record(app, id) {
            None => true,
            Some(info) => !shareable(info),
        },
    }
}

/// Calls `Components::resource_id` on the components of the application's
/// world, which looks the type up among the registered resources.
#[verifier::external_body]
fn resource_id(app: &App) -> (id: Option<ComponentId>)
    ensures
        id == registered_id(*app),
{
    app.world.components().resource_id::<ScreenFixedSize>()
}

/// Calls `Components::get_info` on the components of the application's world,
/// which hands out the record kept under `id`, or `None` where there is none.
#[verifier::external_body]
fn info(app: &App, id: ComponentId) -> (found: Option<&ComponentInfo>)
    ensures
        match found {
            Some(info) => record(*app, id) == Some(*info),
            None => record(*app, id) is None,
        },
{
    app.world.components().get_info(id)
}

/// `ComponentInfo::is_send_and_sync` reads the flag that the record was made
/// with: set for an ordinary resource, clear for a value bound to one thread.
pub assume_specification[ ComponentInfo::is_send_and_sync ](info: &ComponentInfo) -> (flag: bool)
    ensures
        flag == shareable(*info),
;

/// Calls `App::insert_resource`, which stores `value` in the application's
/// world as the resource of its type and overwrites the one that was stored
/// before, if there was one. It registers the type as an ordinary resource
/// where it was not registered, and panics where it finds it registered
/// otherwise: the precondition leaves such an application out.
#[verifier::external_body]
pub(crate) fn insert(app: &mut App, value: ScreenFixedSize)
    requires
        !thread_bound(*old(app)),
    ensures
        published(*final(app)) == Some(value),
        !thread_bound(*final(app)),
{
    app.insert_resource(value);
}

/// Calls `World::get_resource` on the application's world, which hands out
/// the stored resource of the type, or `None` where none is stored.
#[verifier::external_body]
pub(crate) fn lookup(app: &App) -> (found: Option<&ScreenFixedSize>)
    ensures
        match found {
            Some(size) => published(*app) == Some(*size),
            None => published(*app) is None,
        },
{
    app.world.get_resource::<ScreenFixedSize>()
}

/// Tells whether `app` refuses the screen size as a resource, because its
/// world has the type registered for a value bound to one thread.
pub fn is_thread_bound(app: &App) -> (bound: bool)
    ensures
        bound == thread_bound(*app),
{
    match resource_id(app) {
        None => false,
        Some(id) => match info(app, id) {
            None => true,
            Some(info) => !info.is_send_and_sync(),
        },
    }
}

impl ScreenFixedSize {
    /// Reads the screen size that the plugin published in `app`.
    ///
    /// The plugin has to be built into `app` before anything reads from it.
    pub fn read(app: &App) -> (size: &ScreenFixedSize)
        requires
            published(*app) is Some,
        ensures
            published(*app) == Some(*size),
    {
        lookup(app).unwrap()
    }
}

/// Reading is repeatable: whatever two reads of one application return, they
/// return the same value. As [`ScreenFixedSize::read`] takes the application
/// by shared reference, the published size stays as it is for as long as
/// nothing builds the plugin again.
pub proof fn lemma_reads_agree(app: App, first: ScreenFixedSize, second: ScreenFixedSize)
    requires
        published(app) == Some(first),
        published(app) == Some(second),
    ensures
        first == second,
{
}

} // verus!
