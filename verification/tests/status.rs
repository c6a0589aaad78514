use blk_mq_ops::error::{
    EAGAIN, EBADE, EBUSY, EILSEQ, EINVAL, EIO, ENODATA, ENOLINK, ENOMEM, ENOSPC, ENXIO,
    EOPNOTSUPP, EREMOTEIO, ETIMEDOUT, MAX_ERRNO,
};
use blk_mq_ops::operations::poll_result;
use blk_mq_ops::{BlkStatus, Error};

#[test]
fn error_keeps_a_valid_errno() {
    assert_eq!(Error::from_errno(-1).to_errno(), -1);
    assert_eq!(Error::from_errno(-EBUSY).to_errno(), -16);
    assert_eq!(Error::from_errno(-MAX_ERRNO).to_errno(), -4095);
    assert_eq!(Error::from_errno(-ENXIO), Error::from_errno(-6));
    assert_ne!(Error::from_errno(-ENXIO), Error::from_errno(-EIO));
}

#[test]
fn error_out_of_range_is_invalid_argument() {
    assert_eq!(Error::from_errno(0).to_errno(), -EINVAL);
    assert_eq!(Error::from_errno(16).to_errno(), -22);
    assert_eq!(Error::from_errno(-MAX_ERRNO - 1).to_errno(), -22);
    assert_eq!(Error::from_errno(i32::MIN).to_errno(), -22);
    assert_eq!(Error::from_errno(i32::MAX).to_errno(), -22);
    assert_eq!(Error::from_errno(0), Error::from_errno(-EINVAL));
}

#[test]
fn each_error_has_its_status() {
    let table = [
        (EOPNOTSUPP, BlkStatus::NotSupp),
        (ETIMEDOUT, BlkStatus::Timeout),
        (ENOSPC, BlkStatus::NoSpc),
        (ENOLINK, BlkStatus::Transport),
        (EREMOTEIO, BlkStatus::Target),
        (EBADE, BlkStatus::ResvConflict),
        (ENODATA, BlkStatus::Medium),
        (EILSEQ, BlkStatus::Protection),
        (ENOMEM, BlkStatus::Resource),
        (EAGAIN, BlkStatus::Again),
        (EBUSY, BlkStatus::DevResource),
        (EIO, BlkStatus::IoErr),
    ];
    for (errno, status) in table {
        assert_eq!(Error::from_errno(-errno).to_blk_status(), status, "errno {}", errno);
    }
}

#[test]
fn other_errors_are_io_errors() {
    assert_eq!(Error::from_errno(-EINVAL).to_blk_status(), BlkStatus::IoErr);
    assert_eq!(Error::from_errno(-ENXIO).to_blk_status(), BlkStatus::IoErr);
    assert_eq!(Error::from_errno(-1).to_blk_status(), BlkStatus::IoErr);
    assert_eq!(Error::from_errno(-MAX_ERRNO).to_blk_status(), BlkStatus::IoErr);
    assert_eq!(Error::from_errno(7).to_blk_status(), BlkStatus::IoErr);
}

#[test]
fn no_error_maps_to_success() {
    for errno in -MAX_ERRNO..0 {
        let status = Error::from_errno(errno).to_blk_status();
        assert_ne!(status, BlkStatus::Success, "errno {}", errno);
        assert!(!status.is_ok());
        assert_ne!(status.code(), 0);
    }
}

#[test]
fn status_codes() {
    let codes = [
        (BlkStatus::Success, 0u8),
        (BlkStatus::NotSupp, 1),
        (BlkStatus::Timeout, 2),
        (BlkStatus::NoSpc, 3),
        (BlkStatus::Transport, 4),
        (BlkStatus::Target, 5),
        (BlkStatus::ResvConflict, 6),
        (BlkStatus::Medium, 7),
        (BlkStatus::Protection, 8),
        (BlkStatus::Resource, 9),
        (BlkStatus::IoErr, 10),
        (BlkStatus::Again, 12),
        (BlkStatus::DevResource, 13),
    ];
    for (status, code) in codes {
        assert_eq!(status.code(), code, "{:?}", status);
        assert_eq!(status.is_ok(), code == 0);
    }
}

#[test]
fn poll_result_is_zero_or_one() {
    assert_eq!(poll_result(true), 1);
    assert_eq!(poll_result(false), 0);
}
