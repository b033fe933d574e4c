use humanship::config::{MembershipDataType, MembershipType};
use humanship::seeds::{
    deletion_signer_seeds, membership_group_signer_seeds, membership_signer_seeds,
    registration_signer_seeds,
};
use humanship::sizing::creation_steps;

#[test]
fn registration_seeds() {
    let seeds = registration_signer_seeds(&[7; 32], 0x01020304, 250, 9);
    assert_eq!(
        seeds,
        vec![
            vec![b"membership_slot".to_vec(), vec![7u8; 32], vec![4, 3, 2, 1], vec![250]],
            vec![b"tree".to_vec(), vec![9]],
        ]
    );
}

#[test]
fn deletion_seeds() {
    let seeds = deletion_signer_seeds(&[1; 32], &[2; 32], 255);
    assert_eq!(seeds, vec![b"unique_document".to_vec(), vec![1u8; 32], vec![2u8; 32], vec![255]]);
}

#[test]
fn creation_seeds() {
    let m = membership_signer_seeds(&[3; 32], [5, 9], 0x0a0b0c0d, MembershipType::Birthday, MembershipDataType::Identification, 254);
    assert_eq!(
        m,
        vec![
            b"membership".to_vec(),
            vec![3u8; 32],
            vec![5, 0, 0, 0, 9, 0, 0, 0],
            vec![0x0d, 0x0c, 0x0b, 0x0a, 0, 0],
            vec![254]
        ]
    );
    let g = membership_group_signer_seeds(&[3; 32], 1, MembershipType::Birthday, MembershipDataType::Identification, 253);
    assert_eq!(g, vec![b"membership_group".to_vec(), vec![3u8; 32], vec![1, 0, 0, 0, 0, 0], vec![253]]);
}

#[test]
fn creation_step_decisions() {
    let s = creation_steps(0, 0);
    assert!(s.create_group && s.create_membership);
    let s = creation_steps(96, 0);
    assert!(!s.create_group && s.create_membership);
    let s = creation_steps(0, 10240);
    assert!(s.create_group && !s.create_membership);
}
