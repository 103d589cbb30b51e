use wasi_bridge::diagnostics::{failure_record, signal_name};
use wasi_bridge::resolve::{ERRNO_INVAL, ERRNO_LAST, ERRNO_NOSYS, ERRNO_SUCCESS};
use wasi_common::wasm32::{__WASI_EINVAL, __WASI_ENOSYS, __WASI_ENOTCAPABLE, __WASI_ESUCCESS};

#[test]
fn signals_are_those_of_the_host_library() {
    assert_eq!(ERRNO_SUCCESS, __WASI_ESUCCESS);
    assert_eq!(ERRNO_INVAL, __WASI_EINVAL);
    assert_eq!(ERRNO_NOSYS, __WASI_ENOSYS);
    assert_eq!(ERRNO_LAST, __WASI_ENOTCAPABLE);
}

#[test]
fn every_named_signal_has_its_name() {
    assert_eq!(signal_name(0), Some("__WASI_ESUCCESS"));
    assert_eq!(signal_name(28), Some("__WASI_EINVAL"));
    assert_eq!(signal_name(52), Some("__WASI_ENOSYS"));
    assert_eq!(signal_name(76), Some("__WASI_ENOTCAPABLE"));
    for signal in 0..=76u16 {
        let name = signal_name(signal).unwrap();
        assert_eq!(name, wasi_common::wasm32::strerror(signal));
        assert!(name.starts_with("__WASI_E"));
    }
}

#[test]
fn a_signal_without_a_name_has_none() {
    assert_eq!(signal_name(77), None);
    assert_eq!(signal_name(u16::MAX), None);
    assert_eq!(failure_record(77), None);
    assert_eq!(failure_record(u16::MAX), None);
}

#[test]
fn failure_record_names_the_signal() {
    assert_eq!(failure_record(28), Some(String::from("    -> errno=__WASI_EINVAL")));
    assert_eq!(failure_record(52), Some(String::from("    -> errno=__WASI_ENOSYS")));
    assert_eq!(failure_record(8), Some(String::from("    -> errno=__WASI_EBADF")));
}
