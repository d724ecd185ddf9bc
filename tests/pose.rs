use std::rc::Rc;

use apriltag::{Matd, Pose, PoseEstimation, TagParams};

fn matd(rows: usize, cols: usize, data: Vec<f64>) -> Matd<f64> {
    Matd::from_vec(rows, cols, data).unwrap()
}

fn identity() -> Vec<f64> {
    vec![1.0, 0.0, 0.0, 0.0, 1.0, 0.0, 0.0, 0.0, 1.0]
}

#[test]
fn pose_views_read_back_input() {
    let rot = vec![0.1, 0.2, 0.3, 0.4, 0.5, 0.6, 0.7, 0.8, 0.9];
    let tr = vec![-1.25, 2.5, 3.75];
    let pose = Pose::new(matd(3, 3, rot.clone()), matd(3, 1, tr.clone()));
    let r = pose.rotation();
    assert_eq!((r.rows(), r.cols()), (3, 3));
    assert_eq!(r.data(), &rot[..]);
    let t = pose.translation();
    assert_eq!((t.rows(), t.cols()), (3, 1));
    assert_eq!(t.data(), &tr[..]);
}

#[test]
fn dropping_poses_releases_each_buffer_once() {
    let rot_token = Rc::new(0u8);
    let tr_token = Rc::new(0u8);
    let n: usize = 5;
    let mut poses = Vec::new();
    for _ in 0..n {
        let rot = matd_of_tokens(3, 3, &rot_token);
        let tr = matd_of_tokens(3, 1, &tr_token);
        poses.push(Pose::new(rot, tr));
    }
    assert_eq!(Rc::strong_count(&rot_token), 1 + 9 * n);
    assert_eq!(Rc::strong_count(&tr_token), 1 + 3 * n);
    drop(poses);
    assert_eq!(Rc::strong_count(&rot_token), 1);
    assert_eq!(Rc::strong_count(&tr_token), 1);
}

fn matd_of_tokens(rows: usize, cols: usize, token: &Rc<u8>) -> Matd<Rc<u8>> {
    let data = (0..rows * cols).map(|_| Rc::clone(token)).collect();
    Matd::from_vec(rows, cols, data).unwrap()
}

#[test]
fn dropping_an_estimate_releases_its_pose() {
    let token = Rc::new(0u8);
    let est = PoseEstimation {
        pose: Pose::new(matd_of_tokens(3, 3, &token), matd_of_tokens(3, 1, &token)),
        error: Rc::clone(&token),
    };
    assert_eq!(Rc::strong_count(&token), 14);
    drop(est);
    assert_eq!(Rc::strong_count(&token), 1);
}

#[test]
fn identity_rotation_round_trip() {
    let pose = Pose::new(matd(3, 3, identity()), matd(3, 1, vec![4.5, -7.0, 0.25]));
    let rigid = pose.to_rigid();
    let r = rigid.rotation();
    assert_eq!((r.rows(), r.cols()), (3, 3));
    assert_eq!(r.data(), &identity()[..]);
    let t = rigid.translation();
    assert_eq!((t.rows(), t.cols()), (3, 1));
    assert_eq!(t.data(), &[4.5, -7.0, 0.25][..]);
}

#[test]
fn rigid_rotation_is_transpose_of_stored() {
    // 90 degrees about z, row by row.
    let rz = vec![0.0, -1.0, 0.0, 1.0, 0.0, 0.0, 0.0, 0.0, 1.0];
    let pose = Pose::new(matd(3, 3, rz.clone()), matd(3, 1, vec![0.0, 0.0, 0.0]));
    let rigid = pose.to_rigid();
    assert_eq!(
        rigid.rotation().data(),
        &[0.0, 1.0, 0.0, -1.0, 0.0, 0.0, 0.0, 0.0, 1.0][..]
    );
    // The pose is still usable and unchanged.
    assert_eq!(pose.rotation().data(), &rz[..]);
}

#[test]
fn transpose_of_a_wide_matrix() {
    let m = matd(2, 3, vec![1.0, 2.0, 3.0, 4.0, 5.0, 6.0]);
    let t = m.as_view().transpose();
    assert_eq!((t.rows(), t.cols()), (3, 2));
    assert_eq!(t.as_view().data(), &[1.0, 4.0, 2.0, 5.0, 3.0, 6.0][..]);
}

#[test]
fn copy_keeps_dimensions_and_elements() {
    let m = matd(1, 2, vec![8.0, 9.0]);
    let c = m.as_view().to_matd();
    assert_eq!((c.rows(), c.cols()), (1, 2));
    assert_eq!(c.as_view().data(), &[8.0, 9.0][..]);
}

#[test]
fn from_vec_rejects_wrong_length() {
    assert!(Matd::from_vec(3, 3, vec![1.0; 8]).is_none());
    assert!(Matd::from_vec(3, 1, vec![1.0; 4]).is_none());
    assert!(Matd::<f64>::from_vec(usize::MAX, 2, vec![]).is_none());
    assert!(Matd::<f64>::from_vec(0, 5, vec![]).is_some());
}

#[test]
fn tag_params_structural_equality() {
    let a = TagParams { tagsize: 0.16, fx: 600.0, fy: 601.0, cx: 320.0, cy: 240.0 };
    assert_eq!(a, a.clone());
    let mut b = a.clone();
    b.tagsize = 0.17;
    assert_ne!(a, b);
    let mut b = a.clone();
    b.fx = 1.0;
    assert_ne!(a, b);
    let mut b = a.clone();
    b.fy = 1.0;
    assert_ne!(a, b);
    let mut b = a.clone();
    b.cx = 1.0;
    assert_ne!(a, b);
    let mut b = a.clone();
    b.cy = 1.0;
    assert_ne!(a, b);
}

#[test]
fn pose_estimation_keeps_fields() {
    let rot = vec![0.0, 0.0, 1.0, 0.0, 1.0, 0.0, -1.0, 0.0, 0.0];
    let est = PoseEstimation {
        pose: Pose::new(matd(3, 3, rot.clone()), matd(3, 1, vec![1.0, 2.0, 3.0])),
        error: 0.0123,
    };
    assert_eq!(est.error, 0.0123);
    assert_eq!(est.pose.rotation().data(), &rot[..]);
}

#[test]
fn end_to_end_identity_pose() {
    let est = PoseEstimation {
        pose: Pose::new(matd(3, 3, identity()), matd(3, 1, vec![0.0, 0.0, 1.5])),
        error: 0.002,
    };
    assert_eq!(est.pose.translation().data(), &[0.0, 0.0, 1.5][..]);
    assert_eq!(est.error, 0.002);
    let rigid = est.pose.to_rigid();
    assert_eq!(rigid.translation().data(), &[0.0, 0.0, 1.5][..]);
    assert_eq!(rigid.rotation().data(), &identity()[..]);
}
