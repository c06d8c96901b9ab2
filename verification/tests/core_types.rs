use camera_viz::cloud::{Point, SharedPointCloud};
use camera_viz::color_mode::PointColorMode;
use camera_viz::fixed::{qadd, qdiv, qmul, SCALE};
use camera_viz::geometry::Vec3;
use camera_viz::message::{
    FuseMessage, ImageBgr, Kiss3dMessage, KneronMessage, OpencvMessage, OtobriteMessage,
    SharedAssocVec,
};

fn q(units: i64) -> i64 {
    units * SCALE
}

#[test]
fn fixed_point_product_is_exact() {
    // 2.5 * 4 = 10
    assert_eq!(qmul(q(5) / 2, q(4)), Some(q(10)));
    // Rounds toward zero: -1.5 * 0.5 = -0.75
    assert_eq!(qmul(-(q(3) / 2), SCALE / 2), Some(-(q(3) / 4)));
}

#[test]
fn fixed_point_product_reports_overflow() {
    assert_eq!(qmul(i64::MAX, q(2)), None);
}

#[test]
fn fixed_point_quotient_is_exact() {
    // 10 / 4 = 2.5
    assert_eq!(qdiv(q(10), q(4)), Some(q(5) / 2));
    assert_eq!(qdiv(q(1), 0), None);
}

#[test]
fn fixed_point_sum_checks_its_range() {
    assert_eq!(qadd(q(1), q(2)), Some(q(3)));
    assert_eq!(qadd(i64::MAX, 1), None);
}

#[test]
fn cloud_handles_share_one_buffer() {
    let cloud = SharedPointCloud::new(vec![
        Point { position: Vec3 { x: q(1), y: q(2), z: q(3) }, intensity: q(4) },
        Point { position: Vec3 { x: 0, y: 0, z: 0 }, intensity: 0 },
    ]);
    let other = cloud.clone();
    assert_eq!(cloud.len(), 2);
    assert_eq!(other.len(), 2);
    assert!(!cloud.is_empty());
    assert_eq!(other.get(0).intensity, q(4));

    let pr = cloud.point_ref(1);
    assert_eq!(pr.index, 1);
    assert_eq!(pr.get().position, Vec3 { x: 0, y: 0, z: 0 });
    let pr2 = pr.clone();
    assert_eq!(pr2.index, 1);
}

#[test]
fn color_mode_cycles_through_all_modes_and_wraps() {
    let start = PointColorMode::default();
    assert_eq!(start, PointColorMode::Uniform);
    let a = start.next();
    let b = a.next();
    let c = b.next();
    let d = c.next();
    assert_eq!(a, PointColorMode::Intensity);
    assert_eq!(b, PointColorMode::Distance);
    assert_eq!(c, PointColorMode::ObjectClass);
    assert_eq!(d, PointColorMode::Uniform);
}

#[test]
fn fuse_messages_wrap_each_modality() {
    let points = SharedPointCloud::new(vec![]);
    let kiss = Kiss3dMessage { points, kneron_assocs: None };
    assert!(matches!(FuseMessage::from(kiss), FuseMessage::Kiss3d(_)));

    let kneron = KneronMessage { rects: None, assocs: None };
    assert!(matches!(FuseMessage::from(kneron), FuseMessage::Kneron(_)));

    let oto = OtobriteMessage { image: None, assocs: Some(SharedAssocVec::new(vec![])) };
    assert!(matches!(FuseMessage::from(oto), FuseMessage::Otobrite(_)));

    let kneron2 = KneronMessage { rects: None, assocs: None };
    assert!(matches!(OpencvMessage::from(kneron2), OpencvMessage::Kneron(_)));

    let image = ImageBgr { rows: 2, cols: 2, data: vec![0u8; 12] };
    let oto2 = OtobriteMessage { image: Some(image), assocs: None };
    assert!(matches!(OpencvMessage::from(oto2), OpencvMessage::Otobrite(_)));
}

#[test]
fn shared_assoc_vec_shares_without_copying() {
    let assocs = SharedAssocVec::new(vec![]);
    let other = assocs.clone();
    assert_eq!(assocs.len(), 0);
    assert_eq!(other.len(), 0);
}
