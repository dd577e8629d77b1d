use crate::cycle::rotate_once;
use crate::settings::CameraSettings;
use vstd::prelude::*;

verus! {

/// On the tick the zoom input is first pressed, advances the zoom cycle and
/// returns the new scale to apply; otherwise changes nothing and returns
/// `None`.
pub fn cycle_zoom<S: Copy>(camera_settings: &mut CameraSettings<S>, zoom_just_pressed: bool) -> (r:
    Option<S>)
    requires
        old(camera_settings).wf(),
    ensures
        final(camera_settings).wf(),
        final(camera_settings).tile_size == old(camera_settings).tile_size,
        !zoom_just_pressed ==> r is None && final(camera_settings).transform_scale_ring@ == old(
            camera_settings,
        ).transform_scale_ring@,
        zoom_just_pressed ==> final(camera_settings).transform_scale_ring@ == rotate_once(
            old(camera_settings).transform_scale_ring@,
        ) && r == Some(final(camera_settings).transform_scale_ring@[0]),
{
    if !zoom_just_pressed {
        return None;
    }
    let scale = camera_settings.transform_scale_ring.next();
    Some(scale)
}

} // verus!
