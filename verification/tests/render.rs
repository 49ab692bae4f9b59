//! Scene-level behavior: intersections, materials, the integrator, the
//! quantizer, and seeded reproducibility.

use raytrace::aabb::AABB;
use raytrace::bvh::BVHNode;
use raytrace::camera::Camera;
use raytrace::constant_medium::ConstantMedium;
use raytrace::cuboid::Cuboid;
use raytrace::fixed::ONE;
use raytrace::hittable::Hittable;
use raytrace::hittable_list::HittableList;
use raytrace::material::{
    reflect, refract, schlick, Dielectric, DiffuseLight, Isotropic, Lambertian, Material,
    NormalMaterial,
};
use raytrace::modify::{Rotate, Translate};
use raytrace::quaternion::Quaternion;
use raytrace::ray::Ray;
use raytrace::renderer::{quantize_channel, GradientBackground, Renderer};
use raytrace::sphere::Sphere;
use raytrace::texture::{ConstantTexture, ImageTexture, Texture};
use raytrace::util::{human_readable_time, mm_shuffle, Rng, PI};
use raytrace::vec::Vec3;

fn s(x: i128) -> i128 {
    x * ONE
}

fn white() -> Texture {
    Texture::Constant(ConstantTexture::new(Vec3::new(ONE, ONE, ONE)))
}

#[test]
fn drand48() {
    let mut rng = Rng::new(7);
    let mut saw_positive = false;
    for _ in 0..8 {
        let v = raytrace::util::drand48(&mut rng);
        assert!(0 <= v && v < ONE);
        if v > 0 {
            saw_positive = true;
        }
    }
    assert!(saw_positive);
}

#[test]
fn degrees_to_radians() {
    assert_eq!(raytrace::util::degrees_to_radians(s(180)), PI);
}

#[test]
fn radians_to_degrees() {
    assert_eq!(raytrace::util::radians_to_degrees(PI), s(180));
}

#[test]
fn reflection() {
    let v = reflect(Vec3::new(s(-1), s(-1), 0), Vec3::new(0, s(1), 0));
    assert_eq!(v._x, s(-1));
    assert_eq!(v._y, s(1));
    assert_eq!(v._z, 0);
}

#[test]
fn merge_behaves_as_union() {
    let a = AABB::new(Vec3::new(0, 0, 0), Vec3::new(s(1), s(1), s(1)));
    let b = AABB::new(Vec3::new(s(-2), s(1), 0), Vec3::new(s(3), s(2), s(1)));
    let m = AABB::merge(&a, &b);
    assert_eq!(m.min, Vec3::new(s(-2), 0, 0));
    assert_eq!(m.max, Vec3::new(s(3), s(2), s(1)));
    let mm = AABB::merge(&a, &a);
    assert_eq!(mm.min, a.min);
    assert_eq!(mm.max, a.max);
    let ba = AABB::merge(&b, &a);
    assert_eq!(m, ba);
}

#[test]
fn sphere_nearest_hit() {
    let sph = Sphere::new(Vec3::new(0, 0, 0), s(1), 0);
    let ray = Ray::new(Vec3::new(0, 0, s(-5)), Vec3::new(0, 0, s(1)));
    let rec = sph.hit(ray, 0, s(100000)).unwrap();
    assert_eq!(rec.t, s(4));
    assert_eq!(rec.p, Vec3::new(0, 0, s(-1)));
    assert_eq!(rec.normal, Vec3::new(0, 0, s(-1)));
}

#[test]
fn bvh_root_box_covers_leaves() {
    let mut rng = Rng::new(42);
    let objects = vec![
        Hittable::Sphere(Sphere::new(Vec3::new(0, 0, 0), s(1), 0)),
        Hittable::Sphere(Sphere::new(Vec3::new(s(4), s(2), s(-3)), s(2), 0)),
        Hittable::Sphere(Sphere::new(Vec3::new(s(-5), s(1), s(6)), s(1), 0)),
    ];
    let node = BVHNode::construct(objects, &mut rng);
    let root = node.bounding_box();
    assert_eq!(root.min, Vec3::new(s(-6), s(-1), s(-5)));
    assert_eq!(root.max, Vec3::new(s(6), s(4), s(7)));
}

#[test]
fn bvh_finds_nearest() {
    let mut rng = Rng::new(3);
    let objects = vec![
        Hittable::Sphere(Sphere::new(Vec3::new(0, 0, s(10)), s(1), 1)),
        Hittable::Sphere(Sphere::new(Vec3::new(0, 0, s(4)), s(1), 2)),
        Hittable::Sphere(Sphere::new(Vec3::new(0, 0, s(20)), s(1), 3)),
    ];
    let node = BVHNode::construct(objects, &mut rng);
    let ray = Ray::new(Vec3::new(0, 0, 0), Vec3::new(0, 0, s(1)));
    let rec = node.hit(ray, 0, s(100000), &mut rng).unwrap();
    assert_eq!(rec.t, s(3));
    assert_eq!(rec.material, 2);
}

#[test]
fn hittable_list_scans_all() {
    let mut list = HittableList::new();
    list.add(Hittable::Sphere(Sphere::new(Vec3::new(0, 0, s(10)), s(1), 1)));
    list.add(Hittable::Sphere(Sphere::new(Vec3::new(0, 0, s(4)), s(1), 2)));
    let ray = Ray::new(Vec3::new(0, 0, 0), Vec3::new(0, 0, s(1)));
    let mut rng = Rng::new(1);
    let rec = list.hit(ray, 0, s(100000), &mut rng).unwrap();
    assert_eq!(rec.material, 2);
}

#[test]
fn cuboid_faces() {
    let c = Cuboid::new(Vec3::new(0, 0, 0), Vec3::new(s(1), s(1), s(1)), 5);
    let ray = Ray::new(Vec3::new(ONE / 2, ONE / 2, s(-3)), Vec3::new(0, 0, s(1)));
    let rec = c.hit(ray, 0, s(100000)).unwrap();
    assert_eq!(rec.t, s(3));
    assert_eq!(rec.normal, Vec3::new(0, 0, s(-1)));
    assert_eq!(rec.material, 5);
    let miss = c.hit(Ray::new(Vec3::new(s(5), s(5), s(-3)), Vec3::new(0, 0, s(1))), 0, s(100000));
    assert!(miss.is_none());
}

#[test]
fn translate_shifts_hits() {
    let sph = Hittable::Sphere(Sphere::new(Vec3::new(0, 0, 0), s(1), 0));
    let moved = Translate::new(Box::new(sph), Vec3::new(s(2), 0, 0));
    let ray = Ray::new(Vec3::new(s(2), 0, s(-5)), Vec3::new(0, 0, s(1)));
    let mut rng = Rng::new(1);
    let rec = moved.hit(ray, 0, s(100000), &mut rng).unwrap();
    assert_eq!(rec.t, s(4));
    assert_eq!(rec.p, Vec3::new(s(2), 0, s(-1)));
}

#[test]
fn identity_rotation_keeps_hits() {
    let sph = Hittable::Sphere(Sphere::new(Vec3::new(0, 0, 0), s(1), 0));
    let rotated = Rotate::new(Box::new(sph), Quaternion::identity());
    let ray = Ray::new(Vec3::new(0, 0, s(-5)), Vec3::new(0, 0, s(1)));
    let mut rng = Rng::new(1);
    let rec = rotated.hit(ray, 0, s(100000), &mut rng).unwrap();
    assert_eq!(rec.t, s(4));
    assert_eq!(rec.p, Vec3::new(0, 0, s(-1)));
    assert_eq!(Quaternion::identity().rotate_vector(Vec3::new(s(3), s(-2), s(7))), Vec3::new(s(3), s(-2), s(7)));
}

#[test]
fn dielectric_unit_index_keeps_direction() {
    let r = refract(Vec3::new(0, 0, s(1)), Vec3::new(0, 0, s(-1)), ONE).unwrap();
    assert_eq!(r, Vec3::new(0, 0, s(1)));
    assert_eq!(schlick(ONE, ONE), 0);
    let mat = Material::Dielectric(Dielectric::new(ONE));
    let rec = raytrace::hittable::HitRecord::new(s(4), Vec3::new(0, 0, 0), Vec3::new(0, 0, s(-1)), 0, 0, 0);
    let ray = Ray::new(Vec3::new(0, 0, s(-5)), Vec3::new(0, 0, s(1)));
    let mut rng = Rng::new(9);
    let (scattered, attenuation) = mat.scatter(&ray, &rec, &mut rng).unwrap();
    assert_eq!(scattered.direction, Vec3::new(0, 0, s(1)));
    assert_eq!(attenuation, Vec3::new(ONE, ONE, ONE));
}

#[test]
fn metal_absorbs_into_surface() {
    // a reflection that ends up pointing into the surface is absorbed
    let mat = Material::Metal(raytrace::material::Metal::new(white(), 0));
    let rec = raytrace::hittable::HitRecord::new(s(4), Vec3::new(0, 0, 0), Vec3::new(0, 0, s(1)), 0, 0, 0);
    let ray = Ray::new(Vec3::new(0, 0, s(-5)), Vec3::new(0, 0, s(1)));
    let mut rng = Rng::new(11);
    assert!(mat.scatter(&ray, &rec, &mut rng).is_none());
}

fn light_scene() -> Renderer {
    let materials = vec![
        Material::DiffuseLight(DiffuseLight::new(Texture::Constant(ConstantTexture::new(
            Vec3::new(s(15), s(15), s(15)),
        )))),
        Material::Lambertian(Lambertian::new(white())),
    ];
    let objects = vec![
        Hittable::Cuboid(Cuboid::new(Vec3::new(s(-1), s(-1), s(9)), Vec3::new(s(1), s(1), s(10)), 0)),
        Hittable::Sphere(Sphere::new(Vec3::new(s(30), 0, 0), s(1), 1)),
    ];
    let mut rng = Rng::new(77);
    let root = BVHNode::construct(objects, &mut rng);
    let camera = Camera::new(
        Vec3::new(0, 0, 0),
        Vec3::new(0, 0, s(1)),
        Vec3::new(0, s(1), 0),
        raytrace::util::degrees_to_radians(s(40)),
        ONE,
        0,
        s(10),
    );
    Renderer::new(8, 8, 2, camera, Hittable::Node(root), None, materials)
}

#[test]
fn depth_cap_returns_emission_alone() {
    let ren = light_scene();
    let ray = Ray::new(Vec3::new(0, 0, 0), Vec3::new(0, 0, s(1)));
    let mut rng = Rng::new(5);
    let col = ren.color_from_ray(ray, 50, &mut rng);
    // at the cap the emitted term comes back alone, with no recursion
    assert_eq!(col, Vec3::new(s(15), s(15), s(15)));
}

#[test]
fn background_when_missing() {
    let ren = light_scene();
    let ray = Ray::new(Vec3::new(0, 0, 0), Vec3::new(0, s(1), 0));
    let mut rng = Rng::new(5);
    let col = ren.color_from_ray(ray, 0, &mut rng);
    assert_eq!(col, Vec3::new(0, 0, 0));
    let bg = GradientBackground {};
    let sky = bg.get(Ray::new(Vec3::new(0, 0, 0), Vec3::new(0, s(1), 0)));
    // straight up: fully the blue endpoint of the gradient
    assert_eq!(sky, Vec3::new(32768, 45875, ONE));
}

#[test]
fn quantization() {
    assert_eq!(quantize_channel(ONE), 255);
    assert_eq!(quantize_channel(0), 0);
    assert_eq!(quantize_channel(ONE / 2), 127);
    assert_eq!(quantize_channel(s(10)), 255);
    assert_eq!(quantize_channel(s(-3)), 0);
}

#[test]
fn seeded_render_round_trip() {
    let ren = light_scene();
    let mut first: Vec<Vec3> = Vec::new();
    let mut rng = Rng::new(12345);
    for y in 0..4i128 {
        for x in 0..4i128 {
            first.push(ren.color_at(s(x), s(y), &mut rng));
        }
    }
    let mut second: Vec<Vec3> = Vec::new();
    let mut rng2 = Rng::new(12345);
    for y in 0..4i128 {
        for x in 0..4i128 {
            second.push(ren.color_at(s(x), s(y), &mut rng2));
        }
    }
    assert_eq!(first, second);
    let mut rng3 = Rng::new(54321);
    let other = ren.color_at(0, 0, &mut rng3);
    let _ = other;
}

fn diffuse_scene(samples: u32) -> Renderer {
    let materials = vec![Material::Lambertian(Lambertian::new(white()))];
    let objects = vec![Hittable::Sphere(Sphere::new(Vec3::new(0, 0, s(5)), s(2), 0))];
    let mut rng = Rng::new(1);
    let root = BVHNode::construct(objects, &mut rng);
    let camera = Camera::new(
        Vec3::new(0, 0, 0),
        Vec3::new(0, 0, s(1)),
        Vec3::new(0, s(1), 0),
        raytrace::util::degrees_to_radians(s(60)),
        ONE,
        0,
        s(10),
    );
    Renderer::new(4, 4, samples, camera, Hittable::Node(root), Some(GradientBackground {}), materials)
}

fn render_block(ren: &Renderer, seed: u64) -> Vec<Vec3> {
    let mut rng = Rng::new(seed);
    let mut out = Vec::new();
    for y in 0..4i128 {
        for x in 0..4i128 {
            out.push(ren.color_at(s(x), s(y), &mut rng));
        }
    }
    out
}

fn mean_diff(a: &[Vec3], b: &[Vec3]) -> i128 {
    let mut total: i128 = 0;
    for (p, q) in a.iter().zip(b.iter()) {
        total += (p._x - q._x).abs() + (p._y - q._y).abs() + (p._z - q._z).abs();
    }
    total / a.len() as i128
}

#[test]
fn estimates_converge_with_samples() {
    let reference = render_block(&diffuse_scene(128), 999);
    let coarse = mean_diff(&render_block(&diffuse_scene(2), 1), &reference);
    let fine = mean_diff(&render_block(&diffuse_scene(32), 1), &reference);
    assert!(fine <= coarse);
}

#[test]
fn medium_scatters_inside_boundary() {
    let boundary = Hittable::Cuboid(Cuboid::new(
        Vec3::new(s(-10), s(-10), s(2)),
        Vec3::new(s(10), s(10), s(40)),
        0,
    ));
    // an extremely dense medium scatters almost immediately
    let medium = ConstantMedium::new(Box::new(boundary), s(1000), 4);
    let ray = Ray::new(Vec3::new(0, 0, 0), Vec3::new(0, 0, s(1)));
    let mut rng = Rng::new(2);
    let rec = medium.hit(ray, 0, s(100000), &mut rng).unwrap();
    assert_eq!(rec.material, 4);
    assert!(s(2) <= rec.t && rec.t < s(40));
}

#[test]
fn isotropic_always_scatters() {
    let mat = Material::Isotropic(Isotropic::new(white()));
    let rec = raytrace::hittable::HitRecord::new(s(1), Vec3::new(0, 0, 0), Vec3::new(s(1), 0, 0), 0, 0, 0);
    let ray = Ray::new(Vec3::new(0, 0, s(-5)), Vec3::new(0, 0, s(1)));
    let mut rng = Rng::new(8);
    assert!(mat.scatter(&ray, &rec, &mut rng).is_some());
}

#[test]
fn normal_material_colors_by_normal() {
    let mat = Material::Normal(NormalMaterial::new());
    let rec = raytrace::hittable::HitRecord::new(s(1), Vec3::new(0, 0, 0), Vec3::new(s(1), 0, 0), 0, 0, 0);
    let ray = Ray::new(Vec3::new(0, 0, s(-5)), Vec3::new(0, 0, s(1)));
    let mut rng = Rng::new(8);
    let (_, attenuation) = mat.scatter(&ray, &rec, &mut rng).unwrap();
    // 0.5 * (normal + 1) for normal (1, 0, 0)
    assert_eq!(attenuation, Vec3::new(ONE, ONE / 2, ONE / 2));
}

#[test]
fn image_texture_lookup() {
    let img = ImageTexture::new(vec![255, 0, 127], 1, 1);
    let t = Texture::Image(img);
    let c = t.value(0, 0, Vec3::new(0, 0, 0));
    assert_eq!(c._x, ONE);
    assert_eq!(c._y, 0);
    assert_eq!(c._z, 127 * ONE / 255);
    // out-of-range coordinates clamp defensively
    let c2 = t.value(s(9), s(-9), Vec3::new(0, 0, 0));
    assert_eq!(c2._x, ONE);
}

#[test]
fn marble_is_deterministic() {
    let t = Texture::Marble(raytrace::texture::MarbleTexture::new(s(4), 99));
    let p = Vec3::new(s(1) / 3, s(2) / 7, s(3) / 5);
    let a = t.value(0, 0, p);
    let b = t.value(0, 0, p);
    assert_eq!(a, b);
    assert!(-4 <= a._x && a._x <= ONE + 4);
}

#[test]
fn human_readable_time_splits() {
    assert_eq!(human_readable_time(3725), (1, 2, 5));
    assert_eq!(human_readable_time(59), (0, 0, 59));
    assert_eq!(human_readable_time(7200), (2, 0, 0));
}

#[test]
fn mm_shuffle_packs_selectors() {
    assert_eq!(mm_shuffle(3, 2, 1, 0), 0b1110_0100);
    assert_eq!(mm_shuffle(0, 0, 0, 0), 0);
}

#[test]
fn normalize_axis_is_unit() {
    // a vector along an axis with an exactly representable square
    let v = Vec3::new(0, 0, s(4));
    let n = v.normalize();
    assert_eq!(n, Vec3::new(0, 0, ONE));
    assert_eq!(n.length(), ONE);
    // arbitrary vectors are unit up to representation tolerance
    let w = Vec3::new(s(3), s(-7), s(2)).normalize();
    let len = w.length();
    assert!((len - ONE).abs() <= 8);
}

#[test]
fn sampler_stays_inside_sphere() {
    let mut rng = Rng::new(31);
    for _ in 0..16 {
        let p = raytrace::util::random_in_unit_sphere(&mut rng);
        assert!(p.length_squared() < ONE);
    }
    for _ in 0..16 {
        let p = raytrace::util::random_in_unit_disk(&mut rng);
        assert!(Vec3::dot(p, p) < ONE);
        assert_eq!(p._z, 0);
    }
}
