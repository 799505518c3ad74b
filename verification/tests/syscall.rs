use yaminabe::syscall::X86_64Syscalls;

#[test]
fn syscall_numbers_and_names() {
    assert_eq!(X86_64Syscalls::from_number(0), Some(X86_64Syscalls::Read));
    assert_eq!(X86_64Syscalls::from_number(1), Some(X86_64Syscalls::Write));
    assert_eq!(X86_64Syscalls::from_number(14), Some(X86_64Syscalls::RtSigprocmask));
    assert_eq!(X86_64Syscalls::from_number(16), Some(X86_64Syscalls::Ioctl));
    assert_eq!(X86_64Syscalls::from_number(24), Some(X86_64Syscalls::SchedYield));
    assert_eq!(X86_64Syscalls::from_number(35), Some(X86_64Syscalls::Nanosleep));
    assert_eq!(X86_64Syscalls::from_number(59), Some(X86_64Syscalls::Execve));
    assert_eq!(X86_64Syscalls::from_number(60), Some(X86_64Syscalls::Exit));
    assert_eq!(X86_64Syscalls::from_number(257), Some(X86_64Syscalls::Openat));
    assert_eq!(X86_64Syscalls::from_number(334), Some(X86_64Syscalls::Rseq));
    assert_eq!(X86_64Syscalls::from_number(424), Some(X86_64Syscalls::PidfdSendSignal));
    assert_eq!(X86_64Syscalls::from_number(435), Some(X86_64Syscalls::Clone3));
    assert_eq!(X86_64Syscalls::from_number(461), Some(X86_64Syscalls::LsmListModules));
    assert_eq!(X86_64Syscalls::Execve.number(), 59);
    assert_eq!(X86_64Syscalls::LsmListModules.number(), 461);
}

#[test]
fn unknown_syscall_number_has_no_name() {
    assert_eq!(X86_64Syscalls::from_number(15), None);
    assert_eq!(X86_64Syscalls::from_number(335), None);
    assert_eq!(X86_64Syscalls::from_number(423), None);
    assert_eq!(X86_64Syscalls::from_number(462), None);
    assert_eq!(X86_64Syscalls::from_number(1000), None);
    assert_eq!(X86_64Syscalls::from_number(u32::MAX), None);
}

#[test]
fn syscall_number_round_trip() {
    let mut named = 0;
    for nr in 0..600 {
        if let Some(syscall) = X86_64Syscalls::from_number(nr) {
            assert_eq!(syscall.number(), nr);
            named += 1;
        }
    }
    assert_eq!(named, 372);
}
