//! The camera: viewport derivation from view parameters, per-pixel ray
//! construction with antialiasing jitter and defocus-disk lens sampling, the
//! recursive shading loop, and the assembly of the textual image.

use vstd::prelude::*;
use vstd::string::StringExecFns;
use crate::colour::{
    Colour, C3, c3_black, c3_add, c3_scale, c3_mul, c3_wf, c3_unit_range, lemma_c3_mul_unit,
    colour_text, dec_seq, u64_to_dec,
};
use crate::fixed::{
    fx_add, fx_sub, fx_mul, fx_div, fx_wf,
    add_fx, sub_fx, mul_fx, div_fx, SCALE, FX_MAX,
};
use crate::hittable::{HitRecord, Hittable};
use crate::interval::Interval;
use crate::material::{c3_white, material_attenuation};
use crate::random::{random_fx, random_in_unit_disk};
use crate::ray::Ray;
use crate::util::{deg_to_rad, degrees_to_radians, tan_s, tan_fx};
use crate::vec3::{
    Vec3, Point3, V3, v3_wf, v3_add, v3_sub, v3_neg, v3_scale, v3_div_scale, v3_cross,
    v3_unit, v3_dot, v3_zero,
};

verus! {

/// One half, in fixed point.
pub const HALF_SCALE: i64 = 32768;

/// The green channel of the sky colour: seven tenths.
pub const SKY_GREEN: i64 = 45875;

/// The lower search bound of every shading query, just above zero, which
/// suppresses self-intersection with the surface a ray originates on.
pub const RAY_T_MIN: i64 = 66;

/// The upper search bound of every shading query: the largest scalar.
pub const RAY_T_MAX: i64 = FX_MAX;

/// The sky colour at the top of the background gradient.
pub open spec fn c3_sky() -> C3 {
    C3 { r: HALF_SCALE as int, g: SKY_GREEN as int, b: SCALE as int }
}

/// The blend factor of the background gradient: half of one plus the unit
/// direction's height, held within `[0, 1]` against the overshoot a
/// normalized near-zero vector can carry.
pub open spec fn gradient_blend(y: int) -> int {
    let a = fx_mul(HALF_SCALE as int, fx_add(y, SCALE as int));
    if a < 0 {
        0
    } else if a > SCALE {
        SCALE as int
    } else {
        a
    }
}

/// The background gradient for the unit direction `u`: a vertical blend
/// from white at the bottom to sky blue at the top.
pub open spec fn gradient(u: V3) -> C3 {
    let a = gradient_blend(u.y);
    c3_add(c3_scale(fx_sub(SCALE as int, a), c3_white()), c3_scale(a, c3_sky()))
}

/// At a straight-down unit direction the background is pure white; at a
/// straight-up one it is exactly the sky colour.
pub proof fn lemma_gradient_extremes(u: V3)
    ensures
        u.y == -SCALE ==> gradient(u) == c3_white(),
        u.y == SCALE ==> gradient(u) == c3_sky(),
{
}

/// The background gradient never leaves the unit colour cube.
pub proof fn lemma_gradient_unit_range(u: V3)
    ensures
        c3_unit_range(gradient(u)),
{
    let a = gradient_blend(u.y);
    crate::fixed::lemma_fx_mul_unit(fx_sub(SCALE as int, a), SCALE as int);
    crate::fixed::lemma_fx_mul_unit(a, HALF_SCALE as int);
    crate::fixed::lemma_fx_mul_unit(a, SKY_GREEN as int);
    crate::fixed::lemma_fx_mul_unit(a, SCALE as int);
}

/// Whether `p` lies on the camera's defocus disk: the center, offset along
/// the two disk basis vectors by a point strictly inside the unit disk.
pub open spec fn on_defocus_disk(cam: Camera, p: V3) -> bool {
    exists|dx: int, dy: int|
        fx_wf(dx) && fx_wf(dy) && v3_dot(
            V3 { x: dx, y: dy, z: 0 },
            V3 { x: dx, y: dy, z: 0 },
        ) < SCALE && p == v3_add(
            v3_add(cam.center@, #[trigger] v3_scale(dx, cam.defocus_disk_u@)),
            #[trigger] v3_scale(dy, cam.defocus_disk_v@),
        )
}

/// The sum of a sequence of sample colours, accumulated left to right from
/// black.
pub open spec fn c3_sum(samples: Seq<C3>) -> C3
    decreases samples.len(),
{
    if samples.len() == 0 {
        c3_black()
    } else {
        c3_add(c3_sum(samples.drop_last()), samples.last())
    }
}

/// Whether a line of text is the pixel text of `scale` times the sum of
/// `spp` well-formed sample colours.
pub open spec fn is_sampled_pixel_line(s: Seq<char>, spp: int, scale: int) -> bool {
    exists|samples: Seq<C3>|
        samples.len() == spp && (forall|i: int|
            0 <= i < samples.len() ==> c3_wf(#[trigger] samples[i])) && s == colour_text(
            c3_scale(scale, c3_sum(samples)),
        )
}

/// A configured camera: the view parameters and the derived, immutable
/// rendering state.
pub struct Camera {
    /// Ratio of image width over height.
    pub aspect_ratio: i64,
    /// Rendered image width in pixels.
    pub image_width: u32,
    /// Count of random samples for each pixel.
    pub samples_per_pixel: u32,
    /// Maximum number of ray bounces into the scene.
    pub max_depth: u32,
    /// Vertical view angle (field of view), in fixed-point degrees.
    pub vfov: i64,
    /// Point the camera is looking from.
    pub lookfrom: Point3,
    /// Point the camera is looking at.
    pub lookat: Point3,
    /// Camera-relative "up" direction.
    pub vup: Vec3,
    /// Variation angle of rays through each pixel, in fixed-point degrees.
    pub defocus_angle: i64,
    /// Distance from `lookfrom` to the plane of perfect focus.
    pub focus_dist: i64,
    /// Rendered image height.
    pub image_height: u32,
    /// Camera center.
    pub center: Point3,
    /// Location of pixel (0, 0).
    pub pixel00_loc: Point3,
    /// Offset to the pixel to the right.
    pub pixel_delta_u: Vec3,
    /// Offset to the pixel below.
    pub pixel_delta_v: Vec3,
    /// Colour scale factor for a sum of pixel samples.
    pub pixel_sample_scale: i64,
    /// Camera frame basis vector.
    pub u: Vec3,
    /// Camera frame basis vector.
    pub v: Vec3,
    /// Camera frame basis vector.
    pub w: Vec3,
    /// Defocus disk horizontal radius.
    pub defocus_disk_u: Vec3,
    /// Defocus disk vertical radius.
    pub defocus_disk_v: Vec3,
}

/// The view parameters a camera is configured from, assembled fluently.
#[derive(Clone, Copy, Debug)]
pub struct CameraBuilder {
    pub aspect_ratio: i64,
    pub image_width: u32,
    pub samples_per_pixel: u32,
    pub max_depth: u32,
    pub vfov: i64,
    pub lookfrom: Point3,
    pub lookat: Point3,
    pub vup: Vec3,
    pub defocus_angle: i64,
    pub focus_dist: i64,
}

/// The derived rendering state, in mathematical form.
pub struct CamDerived {
    pub image_height: int,
    pub pixel_sample_scale: int,
    pub center: V3,
    pub pixel00_loc: V3,
    pub pixel_delta_u: V3,
    pub pixel_delta_v: V3,
    pub u: V3,
    pub v: V3,
    pub w: V3,
    pub defocus_disk_u: V3,
    pub defocus_disk_v: V3,
}

/// The image height: the width over the aspect ratio, floored, kept within
/// pixel-count range, and at least one.
pub open spec fn derived_height(width: int, aspect: int) -> int {
    let h = (width * SCALE) / aspect;
    let capped = if h > u32::MAX {
        u32::MAX as int
    } else {
        h
    };
    if capped < 1 {
        1
    } else {
        capped
    }
}

/// Everything `CameraBuilder::build` derives from the view parameters.
pub open spec fn derive_camera(b: CameraBuilder) -> CamDerived {
    let height = derived_height(b.image_width as int, b.aspect_ratio as int);
    let sample_scale = fx_div(SCALE as int, (b.samples_per_pixel as int) * SCALE);
    let center = b.lookfrom@;
    let theta = deg_to_rad(b.vfov as int);
    let h = tan_s(fx_div(theta, 2 * SCALE));
    let viewport_height = fx_mul(fx_mul(2 * SCALE, h), b.focus_dist as int);
    let ratio = fx_div((b.image_width as int) * SCALE, height * SCALE);
    let viewport_width = fx_mul(viewport_height, ratio);
    let wb = v3_unit(v3_sub(b.lookfrom@, b.lookat@));
    let ub = v3_unit(v3_cross(b.vup@, wb));
    let vb = v3_cross(wb, ub);
    let viewport_u = v3_scale(viewport_width, ub);
    let viewport_v = v3_scale(viewport_height, v3_neg(vb));
    let pixel_delta_u = v3_div_scale(viewport_u, (b.image_width as int) * SCALE);
    let pixel_delta_v = v3_div_scale(viewport_v, height * SCALE);
    let upper_left = v3_sub(
        v3_sub(
            v3_sub(center, v3_scale(b.focus_dist as int, wb)),
            v3_div_scale(viewport_u, 2 * SCALE),
        ),
        v3_div_scale(viewport_v, 2 * SCALE),
    );
    let pixel00_loc = v3_add(
        upper_left,
        v3_scale(HALF_SCALE as int, v3_add(pixel_delta_u, pixel_delta_v)),
    );
    let defocus_radius = fx_mul(
        b.focus_dist as int,
        tan_s(deg_to_rad(fx_div(b.defocus_angle as int, 2 * SCALE))),
    );
    CamDerived {
        image_height: height,
        pixel_sample_scale: sample_scale,
        center,
        pixel00_loc,
        pixel_delta_u,
        pixel_delta_v,
        u: ub,
        v: vb,
        w: wb,
        defocus_disk_u: v3_scale(defocus_radius, ub),
        defocus_disk_v: v3_scale(defocus_radius, vb),
    }
}

impl CameraBuilder {
    /// Well-formed view parameters: positive aspect ratio, at least one
    /// pixel and one sample, and every scalar in range.
    pub open spec fn wf(&self) -> bool {
        &&& fx_wf(self.aspect_ratio as int)
        &&& self.aspect_ratio > 0
        &&& self.image_width >= 1
        &&& self.samples_per_pixel >= 1
        &&& fx_wf(self.vfov as int)
        &&& v3_wf(self.lookfrom@)
        &&& v3_wf(self.lookat@)
        &&& v3_wf(self.vup@)
        &&& fx_wf(self.defocus_angle as int)
        &&& fx_wf(self.focus_dist as int)
    }

    /// Ratio of image width over height.
    pub fn aspect_ratio(self, aspect_ratio: i64) -> (r: CameraBuilder)
        ensures
            r == (CameraBuilder { aspect_ratio, ..self }),
    {
        CameraBuilder { aspect_ratio, ..self }
    }

    /// Rendered image width in pixels.
    pub fn image_width(self, image_width: u32) -> (r: CameraBuilder)
        ensures
            r == (CameraBuilder { image_width, ..self }),
    {
        CameraBuilder { image_width, ..self }
    }

    /// Count of random samples for each pixel.
    pub fn samples_per_pixel(self, samples_per_pixel: u32) -> (r: CameraBuilder)
        ensures
            r == (CameraBuilder { samples_per_pixel, ..self }),
    {
        CameraBuilder { samples_per_pixel, ..self }
    }

    /// Maximum number of ray bounces into the scene.
    pub fn max_depth(self, max_depth: u32) -> (r: CameraBuilder)
        ensures
            r == (CameraBuilder { max_depth, ..self }),
    {
        CameraBuilder { max_depth, ..self }
    }

    /// Vertical view angle (field of view), in fixed-point degrees.
    pub fn vfov(self, vfov: i64) -> (r: CameraBuilder)
        ensures
            r == (CameraBuilder { vfov, ..self }),
    {
        CameraBuilder { vfov, ..self }
    }

    /// Point the camera is looking from.
    pub fn lookfrom(self, lookfrom: Vec3) -> (r: CameraBuilder)
        ensures
            r == (CameraBuilder { lookfrom, ..self }),
    {
        CameraBuilder { lookfrom, ..self }
    }

    /// Point the camera is looking at.
    pub fn lookat(self, lookat: Vec3) -> (r: CameraBuilder)
        ensures
            r == (CameraBuilder { lookat, ..self }),
    {
        CameraBuilder { lookat, ..self }
    }

    /// Camera-relative "up" direction.
    pub fn vup(self, vup: Vec3) -> (r: CameraBuilder)
        ensures
            r == (CameraBuilder { vup, ..self }),
    {
        CameraBuilder { vup, ..self }
    }

    /// Variation angle of rays through each pixel, in fixed-point degrees.
    pub fn defocus_angle(self, defocus_angle: i64) -> (r: CameraBuilder)
        ensures
            r == (CameraBuilder { defocus_angle, ..self }),
    {
        CameraBuilder { defocus_angle, ..self }
    }

    /// Distance from `lookfrom` to the plane of perfect focus.
    pub fn focus_dist(self, focus_dist: i64) -> (r: CameraBuilder)
        ensures
            r == (CameraBuilder { focus_dist, ..self }),
    {
        CameraBuilder { focus_dist, ..self }
    }

    /// Derive the camera's rendering state from the view parameters.
    pub fn build(self) -> (cam: Camera)
        requires
            self.wf(),
        ensures
            cam.aspect_ratio == self.aspect_ratio,
            cam.image_width == self.image_width,
            cam.samples_per_pixel == self.samples_per_pixel,
            cam.max_depth == self.max_depth,
            cam.vfov == self.vfov,
            cam.lookfrom == self.lookfrom,
            cam.lookat == self.lookat,
            cam.vup == self.vup,
            cam.defocus_angle == self.defocus_angle,
            cam.focus_dist == self.focus_dist,
            cam.image_height as int == derive_camera(self).image_height,
            cam.pixel_sample_scale as int == derive_camera(self).pixel_sample_scale,
            cam.center@ == derive_camera(self).center,
            cam.pixel00_loc@ == derive_camera(self).pixel00_loc,
            cam.pixel_delta_u@ == derive_camera(self).pixel_delta_u,
            cam.pixel_delta_v@ == derive_camera(self).pixel_delta_v,
            cam.u@ == derive_camera(self).u,
            cam.v@ == derive_camera(self).v,
            cam.w@ == derive_camera(self).w,
            cam.defocus_disk_u@ == derive_camera(self).defocus_disk_u,
            cam.defocus_disk_v@ == derive_camera(self).defocus_disk_v,
            cam.wf(),
    {
        let raw_height: u64 = ((self.image_width as u64) * (SCALE as u64))
            / (self.aspect_ratio as u64);
        let capped_height: u32 = if raw_height > (u32::MAX as u64) {
            u32::MAX
        } else {
            raw_height as u32
        };
        let image_height: u32 = if capped_height < 1 {
            1
        } else {
            capped_height
        };
        let pixel_sample_scale: i64 = div_fx(SCALE, (self.samples_per_pixel as i64) * SCALE);
        let center: Point3 = self.lookfrom;

        // Determine the viewport dimensions.
        let theta: i64 = degrees_to_radians(self.vfov);
        let h: i64 = tan_fx(div_fx(theta, 2 * SCALE));
        let viewport_height: i64 = mul_fx(mul_fx(2 * SCALE, h), self.focus_dist);
        let ratio: i64 = div_fx(
            (self.image_width as i64) * SCALE,
            (image_height as i64) * SCALE,
        );
        let viewport_width: i64 = mul_fx(viewport_height, ratio);

        // The orthonormal basis of the camera frame.
        let w: Vec3 = self.lookfrom.vsub(&self.lookat).normalize();
        let u: Vec3 = self.vup.cross(&w).normalize();
        let v: Vec3 = w.cross(&u);

        // The vectors along the horizontal and down the vertical viewport edges.
        let viewport_u: Vec3 = u.scale(viewport_width);
        let viewport_v: Vec3 = v.vneg().scale(viewport_height);

        // The per-pixel delta vectors.
        let pixel_delta_u: Vec3 = viewport_u.div_scale((self.image_width as i64) * SCALE);
        let pixel_delta_v: Vec3 = viewport_v.div_scale((image_height as i64) * SCALE);

        // The location of the upper left pixel.
        let viewport_upper_left: Vec3 = center
            .vsub(&w.scale(self.focus_dist))
            .vsub(&viewport_u.div_scale(2 * SCALE))
            .vsub(&viewport_v.div_scale(2 * SCALE));
        let pixel00_loc: Vec3 = viewport_upper_left
            .vadd(&pixel_delta_u.vadd(&pixel_delta_v).scale(HALF_SCALE));

        // The defocus disk basis vectors.
        let defocus_radius: i64 = mul_fx(
            self.focus_dist,
            tan_fx(degrees_to_radians(div_fx(self.defocus_angle, 2 * SCALE))),
        );
        let defocus_disk_u: Vec3 = u.scale(defocus_radius);
        let defocus_disk_v: Vec3 = v.scale(defocus_radius);

        Camera {
            aspect_ratio: self.aspect_ratio,
            image_width: self.image_width,
            samples_per_pixel: self.samples_per_pixel,
            max_depth: self.max_depth,
            vfov: self.vfov,
            lookfrom: self.lookfrom,
            lookat: self.lookat,
            vup: self.vup,
            defocus_angle: self.defocus_angle,
            focus_dist: self.focus_dist,
            image_height,
            center,
            pixel00_loc,
            pixel_delta_u,
            pixel_delta_v,
            pixel_sample_scale,
            u,
            v,
            w,
            defocus_disk_u,
            defocus_disk_v,
        }
    }
}

impl Default for CameraBuilder {
    /// The default view: square aspect, a hundred pixels wide, ten samples,
    /// depth ten, a ninety-degree field of view, looking from the origin
    /// toward negative `z`, no defocus blur.
    fn default() -> (b: CameraBuilder)
        ensures
            b.aspect_ratio == SCALE,
            b.image_width == 100,
            b.samples_per_pixel == 10,
            b.max_depth == 10,
            b.vfov == 90 * SCALE,
            b.lookfrom@ == v3_zero(),
            b.lookat@ == (V3 { x: 0, y: 0, z: -(SCALE as int) }),
            b.vup@ == (V3 { x: 0, y: SCALE as int, z: 0 }),
            b.defocus_angle == 0,
            b.focus_dist == 0,
            b.wf(),
    {
        CameraBuilder {
            aspect_ratio: SCALE,
            image_width: 100,
            samples_per_pixel: 10,
            max_depth: 10,
            vfov: 90 * SCALE,
            lookfrom: Vec3::zero(),
            lookat: Vec3::new(0, 0, -SCALE),
            vup: Vec3::new(0, SCALE, 0),
            defocus_angle: 0,
            focus_dist: 0,
        }
    }
}

impl Camera {
    /// The invariant the rendering loop relies on.
    pub open spec fn wf(&self) -> bool {
        &&& self.image_width >= 1
        &&& self.image_height >= 1
        &&& self.samples_per_pixel >= 1
        &&& fx_wf(self.pixel_sample_scale as int)
        &&& fx_wf(self.defocus_angle as int)
        &&& v3_wf(self.center@)
        &&& v3_wf(self.pixel00_loc@)
        &&& v3_wf(self.pixel_delta_u@)
        &&& v3_wf(self.pixel_delta_v@)
        &&& v3_wf(self.defocus_disk_u@)
        &&& v3_wf(self.defocus_disk_v@)
    }

    /// A random offset in the half-open unit square around a pixel center.
    fn sample_square(&self) -> (o: Vec3)
        ensures
            o.wf(),
            -HALF_SCALE <= o@.x <= HALF_SCALE,
            -HALF_SCALE <= o@.y <= HALF_SCALE,
            o@.z == 0,
    {
        Vec3::new(random_fx() - HALF_SCALE, random_fx() - HALF_SCALE, 0)
    }

    /// A random point on the camera's defocus disk: the center, offset
    /// along the two disk basis vectors by a point strictly inside the unit
    /// disk.
    fn defocus_disk_sample(&self) -> (p: Point3)
        requires
            self.wf(),
        ensures
            p.wf(),
            on_defocus_disk(*self, p@),
    {
        let d: Vec3 = random_in_unit_disk();
        let result: Point3 = self
            .center
            .vadd(&self.defocus_disk_u.scale(d.x))
            .vadd(&self.defocus_disk_v.scale(d.y));
        proof {
            assert(d@ == (V3 { x: d@.x, y: d@.y, z: 0 }));
            assert(fx_wf(d@.x) && fx_wf(d@.y)
                && v3_dot(V3 { x: d@.x, y: d@.y, z: 0 }, V3 { x: d@.x, y: d@.y, z: 0 }) < SCALE
                && result@ == v3_add(
                v3_add(self.center@, v3_scale(d@.x, self.defocus_disk_u@)),
                v3_scale(d@.y, self.defocus_disk_v@),
            ));
        }
        result
    }

    /// Construct a camera ray originating on the defocus disk (or at the
    /// camera center where the defocus angle is not positive), directed at a
    /// randomly jittered point around pixel `(i, j)`.
    pub fn get_ray(&self, i: u32, j: u32) -> (r: Ray)
        requires
            self.wf(),
        ensures
            r.wf(),
            self.defocus_angle <= 0 ==> r.orig == self.center,
            self.defocus_angle > 0 ==> on_defocus_disk(*self, r.orig@),
            exists|ox: int, oy: int|
                -HALF_SCALE <= ox <= HALF_SCALE && -HALF_SCALE <= oy <= HALF_SCALE
                    && r.dir@ == v3_sub(
                    v3_add(
                        v3_add(
                            self.pixel00_loc@,
                            #[trigger] v3_scale((i as int) * SCALE + ox, self.pixel_delta_u@),
                        ),
                        #[trigger] v3_scale((j as int) * SCALE + oy, self.pixel_delta_v@),
                    ),
                    r.orig@,
                ),
    {
        let offset: Vec3 = self.sample_square();
        let px_i: i64 = (i as i64) * SCALE + offset.x;
        let px_j: i64 = (j as i64) * SCALE + offset.y;
        let pixel_sample: Vec3 = self
            .pixel00_loc
            .vadd(&self.pixel_delta_u.scale(px_i))
            .vadd(&self.pixel_delta_v.scale(px_j));

        let ray_origin: Point3 = if self.defocus_angle <= 0 {
            self.center
        } else {
            self.defocus_disk_sample()
        };
        let ray_direction: Vec3 = pixel_sample.vsub(&ray_origin);

        let result: Ray = Ray::new(ray_origin, ray_direction);
        proof {
            let ox = offset@.x;
            let oy = offset@.y;
            assert(-HALF_SCALE <= ox <= HALF_SCALE && -HALF_SCALE <= oy <= HALF_SCALE
                && result.dir@ == v3_sub(
                v3_add(
                    v3_add(
                        self.pixel00_loc@,
                        v3_scale((i as int) * SCALE + ox, self.pixel_delta_u@),
                    ),
                    v3_scale((j as int) * SCALE + oy, self.pixel_delta_v@),
                ),
                result.orig@,
            ));
        }
        result
    }

    /// The recursive light transport: black once the bounce budget is spent,
    /// the background gradient where the scene is missed, and otherwise the
    /// scattered colour attenuated by the struck material (black where the
    /// ray is absorbed).
    pub fn ray_colour<H: Hittable>(&self, r: &Ray, depth: u32, world: &H) -> (c: Colour)
        requires
            r.wf(),
            world.wf(),
        ensures
            c.wf(),
            depth == 0 ==> c@ == c3_black(),
            depth > 0 && world.hit_model(*r, RAY_T_MIN as int, RAY_T_MAX as int, None)
                is None ==> c@ == gradient(v3_unit(r.dir@)),
            ({
                let model = world.hit_model(*r, RAY_T_MIN as int, RAY_T_MAX as int, None);
                depth > 0 && model is Some && (model->Some_0).mat is None ==> c@ == c3_black()
            }),
            ({
                let model = world.hit_model(*r, RAY_T_MIN as int, RAY_T_MAX as int, None);
                depth > 0 && model is Some && (model->Some_0).mat is Some ==> exists|inner: C3|
                    c3_wf(inner) && c@ == c3_mul(
                        material_attenuation((model->Some_0).mat->Some_0),
                        inner,
                    )
            }),
            world.unit_albedos() ==> c3_unit_range(c@),
        decreases depth,
    {
        if depth == 0 {
            return Colour::black();
        }
        let mut rec: HitRecord = HitRecord::default();
        if world.hit(r, Interval::new(RAY_T_MIN, RAY_T_MAX), &mut rec) {
            match rec.mat {
                Some(m) => {
                    match m.scatter(r, &rec) {
                        Some(sr) => {
                            let inner: Colour = self.ray_colour(&sr.scattered, depth - 1, world);
                            let shaded: Colour = sr.attenuation.cmul(&inner);
                            proof {
                                assert(c3_wf(inner@)
                                    && shaded@ == c3_mul(material_attenuation(m), inner@));
                                if world.unit_albedos() {
                                    lemma_c3_mul_unit(sr.attenuation@, inner@);
                                }
                            }
                            shaded
                        },
                        None => Colour::black(),
                    }
                },
                None => Colour::black(),
            }
        } else {
            let unit_direction: Vec3 = r.direction().normalize();
            let raw_blend: i64 = mul_fx(HALF_SCALE, add_fx(unit_direction.y, SCALE));
            let a: i64 = if raw_blend < 0 {
                0
            } else if raw_blend > SCALE {
                SCALE
            } else {
                raw_blend
            };
            let white: Colour = Colour::new(SCALE, SCALE, SCALE);
            let sky: Colour = Colour::new(HALF_SCALE, SKY_GREEN, SCALE);
            let blended: Colour = white.cscale(sub_fx(SCALE, a)).cadd(&sky.cscale(a));
            proof {
                lemma_gradient_unit_range(v3_unit(r.dir@));
            }
            blended
        }
    }

    /// Render the scene into the lines of a plain-text pixmap: the three
    /// header lines, then one pixel line per pixel in row-major order, each
    /// the average of `samples_per_pixel` jittered samples.
    pub fn render<H: Hittable>(&self, world: &H) -> (out: Vec<String>)
        requires
            self.wf(),
            world.wf(),
        ensures
            out@.len() == 3 + (self.image_width as int) * (self.image_height as int),
            out@[0]@ == seq!['P', '3'],
            out@[1]@ == dec_seq(self.image_width as int) + seq![' ']
                + dec_seq(self.image_height as int),
            out@[2]@ == dec_seq(255),
            forall|k: int| 3 <= k < out@.len() ==> is_sampled_pixel_line(
                #[trigger] out@[k]@,
                self.samples_per_pixel as int,
                self.pixel_sample_scale as int,
            ),
    {
        let ghost width = self.image_width as int;
        let ghost height = self.image_height as int;
        let mut out: Vec<String> = Vec::new();

        let magic: String = String::from_str("P3");
        proof {
            reveal_strlit("P3");
            assert(magic@ =~= seq!['P', '3']);
        }
        out.push(magic);

        let mut dims: String = u64_to_dec(self.image_width as u64);
        let space: &str = " ";
        proof {
            reveal_strlit(" ");
            assert(space@ =~= seq![' ']);
        }
        dims.append(space);
        let height_text: String = u64_to_dec(self.image_height as u64);
        dims.append(height_text.as_str());
        proof {
            assert(dims@ =~= dec_seq(self.image_width as int) + seq![' ']
                + dec_seq(self.image_height as int));
        }
        out.push(dims);

        out.push(u64_to_dec(255));

        let mut j: u32 = 0;
        while j < self.image_height
            invariant
                self.wf(),
                world.wf(),
                j <= self.image_height,
                out@.len() == 3 + (j as int) * width,
                width == self.image_width as int,
                height == self.image_height as int,
                out@[0]@ == seq!['P', '3'],
                out@[1]@ == dec_seq(width) + seq![' '] + dec_seq(height),
                out@[2]@ == dec_seq(255),
                forall|k: int| 3 <= k < out@.len() ==> is_sampled_pixel_line(
                    #[trigger] out@[k]@,
                    self.samples_per_pixel as int,
                    self.pixel_sample_scale as int,
                ),
            decreases self.image_height - j,
        {
            let mut i: u32 = 0;
            while i < self.image_width
                invariant
                    self.wf(),
                    world.wf(),
                    j < self.image_height,
                    i <= self.image_width,
                    out@.len() == 3 + (j as int) * width + i as int,
                    width == self.image_width as int,
                    height == self.image_height as int,
                    out@[0]@ == seq!['P', '3'],
                    out@[1]@ == dec_seq(width) + seq![' '] + dec_seq(height),
                    out@[2]@ == dec_seq(255),
                    forall|k: int| 3 <= k < out@.len() ==> is_sampled_pixel_line(
                        #[trigger] out@[k]@,
                        self.samples_per_pixel as int,
                        self.pixel_sample_scale as int,
                    ),
                decreases self.image_width - i,
            {
                let mut pixel_colour: Colour = Colour::black();
                let ghost mut samples: Seq<C3> = Seq::empty();
                let mut s: u32 = 0;
                while s < self.samples_per_pixel
                    invariant
                        self.wf(),
                        world.wf(),
                        pixel_colour.wf(),
                        s <= self.samples_per_pixel,
                        samples.len() == s as int,
                        forall|q: int| 0 <= q < samples.len() ==> c3_wf(#[trigger] samples[q]),
                        pixel_colour@ == c3_sum(samples),
                    decreases self.samples_per_pixel - s,
                {
                    let ray: Ray = self.get_ray(i, j);
                    let sample: Colour = self.ray_colour(&ray, self.max_depth, world);
                    pixel_colour = pixel_colour.cadd(&sample);
                    proof {
                        let prev = samples;
                        samples = samples.push(sample@);
                        assert(samples.drop_last() =~= prev);
                        assert(samples.last() == sample@);
                    }
                    s = s + 1;
                }
                let scaled: Colour = pixel_colour.cscale(self.pixel_sample_scale);
                let line: String = scaled.to_text();
                proof {
                    assert(line@ == colour_text(
                        c3_scale(self.pixel_sample_scale as int, c3_sum(samples)),
                    ));
                    assert(is_sampled_pixel_line(
                        line@,
                        self.samples_per_pixel as int,
                        self.pixel_sample_scale as int,
                    ));
                }
                out.push(line);
                i = i + 1;
            }
            proof {
                assert(3 + (j as int) * width + width == 3 + ((j as int) + 1) * width)
                    by (nonlinear_arith)
                {
                }
            }
            j = j + 1;
        }
        proof {
            assert((j as int) * width == width * height) by (nonlinear_arith)
                requires
                    j as int == height,
                    width == width,
            {
            }
        }
        out
    }
}

} // verus!
