//! The camera: image-plane coordinates to primary rays, with an optional
//! lens jitter for depth of field.

use vstd::prelude::*;
use crate::fixed::{fits, sp_mul, sp_div, fmul, fdiv, ONE};
use crate::vec::{Vec3, sp_vadd, sp_vsub, sp_vmul, sp_vscale, sp_cross, sp_normalize};
use crate::ray::Ray;
use crate::util::{Rng, random_in_unit_disk, sp_unit_disk};
use crate::approx::{sp_tan, ftan};

verus! {

/// A camera whose basis is derived once at construction and immutable
/// thereafter.
#[derive(Clone, Copy)]
pub struct Camera {
    pub origin: Vec3,
    pub lower_left_corner: Vec3,
    pub horizontal: Vec3,
    pub vertical: Vec3,
    pub u: Vec3,
    pub v: Vec3,
    pub _w: Vec3,
    pub lens_radius: i128,
}

/// What `Camera::new` builds from the look-at parameters.
pub open spec fn sp_camera(
    look_from: Vec3,
    look_at: Vec3,
    vup: Vec3,
    vfov: int,
    aspect: int,
    apeture: int,
    focus_distance: int,
) -> Camera {
    let half_height = sp_tan(sp_div(vfov, 2 * ONE));
    let half_width = sp_mul(aspect, half_height);
    let w = sp_normalize(sp_vsub(look_from, look_at));
    let u = sp_cross(vup, w);
    let v = sp_cross(w, u);
    let lower_left_corner = sp_vsub(
        sp_vsub(
            sp_vsub(look_from, sp_vscale(u, sp_mul(half_width, focus_distance))),
            sp_vscale(v, sp_mul(half_height, focus_distance)),
        ),
        sp_vscale(w, focus_distance),
    );
    Camera {
        origin: look_from,
        lower_left_corner,
        horizontal: sp_vscale(u, sp_mul(sp_mul(2 * ONE, half_width), focus_distance)),
        vertical: sp_vscale(v, sp_mul(sp_mul(2 * ONE, half_height), focus_distance)),
        u,
        v,
        _w: w,
        lens_radius: sp_div(apeture, 2 * ONE) as i128,
    }
}

/// The primary ray for normalized image coordinates `(u, v)`, after a lens
/// jitter drawn from the generator.
pub open spec fn sp_get_ray(cam: Camera, u: int, v: int, s: u64) -> (Ray, u64) {
    let sampled = sp_unit_disk(s, 64);
    let rd = sp_vscale(sampled.0, cam.lens_radius as int);
    let offset = sp_vadd(sp_vmul(cam.u, rd), sp_vmul(cam.v, rd));
    (
        Ray {
            origin: sp_vadd(cam.origin, offset),
            direction: sp_vsub(
                sp_vsub(
                    sp_vadd(
                        sp_vadd(cam.lower_left_corner, sp_vscale(cam.horizontal, u)),
                        sp_vscale(cam.vertical, v),
                    ),
                    cam.origin,
                ),
                offset,
            ),
        },
        sampled.1,
    )
}

impl Camera {
    pub open spec fn wf(self) -> bool {
        self.origin.wf() && self.lower_left_corner.wf() && self.horizontal.wf()
            && self.vertical.wf() && self.u.wf() && self.v.wf() && self._w.wf() && fits(
            self.lens_radius as int,
        )
    }

    /// Derives the camera basis from look-from/look-at/up, the vertical
    /// field of view (radians), aspect ratio, aperture and focus distance.
    pub fn new(
        look_from: Vec3,
        look_at: Vec3,
        vup: Vec3,
        vfov: i128,
        aspect: i128,
        apeture: i128,
        focus_distance: i128,
    ) -> (cam: Camera)
        requires
            look_from.wf(),
            look_at.wf(),
            vup.wf(),
            fits(vfov as int),
            fits(aspect as int),
            fits(apeture as int),
            fits(focus_distance as int),
        ensures
            cam == sp_camera(
                look_from,
                look_at,
                vup,
                vfov as int,
                aspect as int,
                apeture as int,
                focus_distance as int,
            ),
            cam.wf(),
    {
        let half_height = ftan(fdiv(vfov, 2 * ONE));
        let half_width = fmul(aspect, half_height);
        let w = look_from.sub(look_at).normalize();
        let u = Vec3::cross(vup, w);
        let v = Vec3::cross(w, u);
        let lower_left_corner = look_from.sub(u.scale(fmul(half_width, focus_distance))).sub(
            v.scale(fmul(half_height, focus_distance)),
        ).sub(w.scale(focus_distance));
        Camera {
            origin: look_from,
            lower_left_corner,
            horizontal: u.scale(fmul(fmul(2 * ONE, half_width), focus_distance)),
            vertical: v.scale(fmul(fmul(2 * ONE, half_height), focus_distance)),
            u,
            v,
            _w: w,
            lens_radius: fdiv(apeture, 2 * ONE),
        }
    }

    /// The primary ray for normalized image coordinates `(u, v)`.
    pub fn get_ray(&self, u: i128, v: i128, rng: &mut Rng) -> (r: Ray)
        requires
            self.wf(),
            fits(u as int),
            fits(v as int),
        ensures
            (r, final(rng).state) == sp_get_ray(*self, u as int, v as int, old(rng).state),
            r.wf(),
    {
        let rd = random_in_unit_disk(rng).scale(self.lens_radius);
        let offset = self.u.mul(rd).add(self.v.mul(rd));
        Ray::new(
            self.origin.add(offset),
            self.lower_left_corner.add(self.horizontal.scale(u)).add(self.vertical.scale(v)).sub(
                self.origin,
            ).sub(offset),
        )
    }
}

} // verus!
