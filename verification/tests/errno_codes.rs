use wasix_core::errno::{Errno, ExitCode};

#[test]
fn wire_codes_match_the_guest_enumeration() {
    assert_eq!(Errno::Success.code(), 0);
    assert_eq!(Errno::Inval.code(), 28);
    assert_eq!(Errno::Io.code(), 29);
    assert_eq!(Errno::Noexec.code(), 45);
    assert_eq!(Errno::Notsup.code(), 58);
}

#[test]
fn exit_codes_carry_the_wire_code() {
    assert_eq!(Errno::Success.to_exit_code(), ExitCode { code: 0 });
    assert_eq!(Errno::Noexec.to_exit_code(), ExitCode { code: 45 });
    assert!(Errno::Success.to_exit_code().is_success());
    assert!(!Errno::Inval.to_exit_code().is_success());
    assert!(ExitCode::new(0).is_success());
    assert!(!ExitCode::new(7).is_success());
}
