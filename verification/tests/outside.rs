use intentrace::errno::{
    errno_check, Errno, EAGAIN, EDEADLK, EHWPOISON, EINTR, ENOENT, EOPNOTSUPP, EPERM, ESRCH,
};
use intentrace::syscall::{
    label, sysno_is_exit, sysno_is_memory, SYS_BRK, SYS_EXIT, SYS_EXIT_GROUP, SYS_MMAP,
    SYS_MREMAP, SYS_MUNMAP,
};
use syscalls::Sysno;

#[test]
fn the_numbers_of_the_calls_the_engine_knows_by_name() {
    assert_eq!(Sysno::exit.id() as u64, SYS_EXIT);
    assert_eq!(Sysno::exit_group.id() as u64, SYS_EXIT_GROUP);
    assert_eq!(Sysno::brk.id() as u64, SYS_BRK);
    assert_eq!(Sysno::mmap.id() as u64, SYS_MMAP);
    assert_eq!(Sysno::munmap.id() as u64, SYS_MUNMAP);
    assert_eq!(Sysno::mremap.id() as u64, SYS_MREMAP);
}

#[test]
fn exit_calls_are_the_calls_named_exit() {
    for sysno in Sysno::iter() {
        let expected = sysno.name() == "exit" || sysno.name() == "exit_group";
        assert_eq!(sysno_is_exit(sysno.id() as u64), expected, "{}", sysno.name());
    }
}

#[test]
fn memory_calls_are_the_calls_of_the_break_and_of_mappings() {
    for sysno in Sysno::iter() {
        let expected = ["brk", "mmap", "munmap", "mremap"].contains(&sysno.name());
        assert_eq!(sysno_is_memory(sysno.id() as u64), expected, "{}", sysno.name());
    }
}

#[test]
fn every_system_call_is_labelled_with_its_name() {
    for sysno in Sysno::iter() {
        assert_eq!(label(sysno.id() as u64), sysno.name());
    }
    let gap = (0..1000u64).find(|id| Sysno::new(*id as usize).is_none()).unwrap();
    assert_eq!(label(gap), format!("syscall_{gap}"));
}

#[test]
fn the_error_numbers_by_name() {
    assert_eq!(nix::errno::Errno::EPERM as i32, EPERM);
    assert_eq!(nix::errno::Errno::ENOENT as i32, ENOENT);
    assert_eq!(nix::errno::Errno::ESRCH as i32, ESRCH);
    assert_eq!(nix::errno::Errno::EINTR as i32, EINTR);
    assert_eq!(nix::errno::Errno::EAGAIN as i32, EAGAIN);
    assert_eq!(nix::errno::Errno::EDEADLK as i32, EDEADLK);
    assert_eq!(nix::errno::Errno::EOPNOTSUPP as i32, EOPNOTSUPP);
    assert_eq!(nix::errno::Errno::EHWPOISON as i32, EHWPOISON);
}

#[test]
fn an_error_is_recovered_exactly_where_the_lookup_knows_the_number() {
    for code in 1..=4095i32 {
        let raw = (-(code as i64)) as u64;
        let known = nix::errno::Errno::from_raw(code);
        let expected = if known == nix::errno::Errno::UnknownErrno {
            None
        } else {
            Some(Errno { code: known as i32 })
        };
        assert_eq!(errno_check(raw), expected, "code {code}");
    }
}
