use compass::prelude::vec2d;
use compass::prelude::vec3d;
use compass::prelude::Vec2D;
use compass::prelude::Vec3D;

#[test]
fn vec2d_test() {
    {
        let vec1 = Vec2D::new(2.0, 3.0);
        let vec2 = Vec2D::from((2, 3));
        let cast: Option<Vec2D<f64>> =
            Vec2D::from_components(num_traits::cast(vec2.x), num_traits::cast(vec2.y));

        assert_eq!(vec1, cast.unwrap());
    }
    {
        let vec1: Vec2D<u8> = Vec2D::default();
        let vec2 = Vec2D::from((0u8, 0u8));

        assert_eq!(vec1, vec2);
    }
    {
        let vec1 = Vec2D::new(2u16, 3u16);
        let vec2 = Vec2D::from([4i64, 5i64]);
        let result = vec1.cast().unwrap() + vec2;

        assert_eq!(result, Vec2D::new(6i64, 8i64));
    }
    {
        let vec = vec2d(4u16, 3u16);
        let scalar = 6u16;

        assert_eq!(vec * scalar, vec2d(24u16, 18u16));
    }
    {
        let vec = vec2d(4i32, 3i32);

        assert_eq!(vec.dot(&vec), 5i32 * 5i32);
    }
    {
        let normal_vec1 = vec![3u16, 7u16];
        let normal_vec2 = Vec::from(vec2d(3u16, 7u16));
        assert_eq!(normal_vec1, normal_vec2);
    }
    {
        let slice = [4f64, 8f64];
        let vec = Vec2D::from(slice);

        assert_eq!(vec, vec2d(4f64, 8f64));
    }
}

#[test]
fn vec3d_test() {
    {
        let vec1 = Vec3D::new(2.0, 3.0, 5.0);
        let vec2 = Vec3D::from((2u128, 3u128, 5u128));
        let cast: Option<Vec3D<f64>> = Vec3D::from_components(
            num_traits::cast(vec2.x),
            num_traits::cast(vec2.y),
            num_traits::cast(vec2.z),
        );

        assert_eq!(vec1, cast.unwrap());
    }
    {
        let vec1: Vec3D<u8> = Vec3D::default();
        let vec2 = Vec3D::from([0u8, 0u8, 0u8]);

        assert_eq!(vec1, vec2);
    }
    {
        let normal_vec = vec![4u16, 5u16, 3u16];

        let vec1 = vec3d(2i64, 3i64, 13i64);
        let vec2 = Vec3D::try_from(normal_vec).unwrap();
        let result = vec1.cast().unwrap() + vec2;

        assert_eq!(result, vec3d(6u16, 8u16, 16u16));
    }
    {
        let vec = vec3d(2i64, 3i64, 13i64);
        let scalar = 5i64;

        assert_eq!(vec * scalar, vec3d(10i64, 15i64, 65i64));
    }
}
