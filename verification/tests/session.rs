use claritty::flags::nonblocking_flags;
use claritty::session::{
    shell_launch, ForkSide, Phase, SessionSetup, SetupAction, SetupError, SetupEvent,
};
use nix::errno::Errno;
use nix::fcntl::OFlag;

fn forked_parent(master: i32) -> (SessionSetup<i32>, SetupAction) {
    let (setup, action) = SessionSetup::new().step(SetupEvent::Start);
    assert_eq!(action, SetupAction::ForkPty);
    setup.step(SetupEvent::Forked(Ok(ForkSide::Parent(master))))
}

#[test]
fn new_setup_is_uninitialized() {
    let setup: SessionSetup<i32> = SessionSetup::new();
    assert_eq!(setup.phase(), &Phase::Uninitialized);
    assert_eq!(setup.master(), None);
    assert_eq!(setup.error(), None);
    assert!(setup.into_session().is_none());
}

#[test]
fn setup_reaches_an_active_session() {
    let (setup, action) = SessionSetup::<i32>::new().step(SetupEvent::Start);
    assert_eq!(action, SetupAction::ForkPty);
    assert_eq!(setup.phase(), &Phase::Allocating);
    assert_eq!(setup.master(), None);

    let (setup, action) = setup.step(SetupEvent::Forked(Ok(ForkSide::Parent(7))));
    assert_eq!(action, SetupAction::ReadFlags);
    assert_eq!(setup.phase(), &Phase::ReadingFlags { master: 7 });
    assert_eq!(setup.master(), Some(&7));

    let current = (OFlag::O_RDWR | OFlag::O_NOCTTY).bits();
    let (setup, action) = setup.step(SetupEvent::FlagsRead(Ok(current)));
    let wanted = (OFlag::O_RDWR | OFlag::O_NOCTTY | OFlag::O_NONBLOCK).bits();
    assert_eq!(action, SetupAction::WriteFlags(wanted));
    assert_eq!(setup.phase(), &Phase::WritingFlags { master: 7 });

    let (setup, action) = setup.step(SetupEvent::FlagsWritten(Ok(())));
    assert_eq!(action, SetupAction::Run);
    assert_eq!(setup.phase(), &Phase::Active { master: 7 });
    assert_eq!(setup.error(), None);

    let session = setup.into_session().expect("an active setup yields its session");
    assert_eq!(session.master(), &7);
}

#[test]
fn failed_pty_allocation_aborts_before_any_descriptor() {
    let (setup, _) = SessionSetup::<i32>::new().step(SetupEvent::Start);
    let code = Errno::ENOENT as i32;
    let (setup, action) = setup.step(SetupEvent::Forked(Err(code)));
    assert_eq!(action, SetupAction::Abort(SetupError::PtyAllocation(code)));
    assert_eq!(setup.phase(), &Phase::Failed { error: SetupError::PtyAllocation(code) });
    assert_eq!(setup.master(), None);
    assert_eq!(setup.error(), Some(SetupError::PtyAllocation(code)));
    assert!(setup.into_session().is_none());
}

#[test]
fn failed_setup_stays_failed() {
    let (setup, _) = SessionSetup::<i32>::new().step(SetupEvent::Start);
    let (setup, _) = setup.step(SetupEvent::Forked(Err(12)));
    let error = SetupError::PtyAllocation(12);
    let (setup, action) = setup.step(SetupEvent::Forked(Ok(ForkSide::Parent(3))));
    assert_eq!(action, SetupAction::Abort(error));
    let (setup, action) = setup.step(SetupEvent::FlagsRead(Ok(0)));
    assert_eq!(action, SetupAction::Abort(error));
    let (setup, action) = setup.step(SetupEvent::FlagsWritten(Ok(())));
    assert_eq!(action, SetupAction::Abort(error));
    let (setup, action) = setup.step(SetupEvent::Start);
    assert_eq!(action, SetupAction::Abort(error));
    assert_eq!(setup.master(), None);
    assert!(setup.into_session().is_none());
}

#[test]
fn child_side_launches_the_shell() {
    let (setup, _) = SessionSetup::<i32>::new().step(SetupEvent::Start);
    let (setup, action) = setup.step(SetupEvent::Forked(Ok(ForkSide::Child)));
    assert_eq!(action, SetupAction::LaunchShell(shell_launch()));
    assert_eq!(setup.phase(), &Phase::Launching);
    assert_eq!(setup.master(), None);
    assert!(setup.into_session().is_none());
}

#[test]
fn shell_launch_is_zsh_with_a_plain_prompt() {
    let launch = shell_launch();
    assert_eq!(launch.program, "zsh");
    assert_eq!(launch.cleared_variable, "PROMPT_COMMAND");
    assert_eq!(launch.prompt_variable, "PS1");
    assert_eq!(launch.prompt, "$ ");
}

#[test]
fn failed_shell_launch_is_fatal() {
    let (setup, _) = SessionSetup::<i32>::new().step(SetupEvent::Start);
    let (setup, _) = setup.step(SetupEvent::Forked(Ok(ForkSide::Child)));
    let code = Errno::ENOENT as i32;
    let (setup, action) = setup.step(SetupEvent::LaunchFailed(code));
    assert_eq!(action, SetupAction::Abort(SetupError::ShellLaunch(code)));
    assert_eq!(setup.error(), Some(SetupError::ShellLaunch(code)));
}

#[test]
fn failed_flag_read_is_fatal() {
    let (setup, _) = forked_parent(5);
    let code = Errno::EBADF as i32;
    let (setup, action) = setup.step(SetupEvent::FlagsRead(Err(code)));
    assert_eq!(action, SetupAction::Abort(SetupError::FlagsRead(code)));
    assert_eq!(setup.phase(), &Phase::Failed { error: SetupError::FlagsRead(code) });
    assert_eq!(setup.master(), None);
    assert!(setup.into_session().is_none());
}

#[test]
fn failed_flag_write_is_fatal() {
    let (setup, _) = forked_parent(5);
    let (setup, _) = setup.step(SetupEvent::FlagsRead(Ok(0)));
    let code = Errno::EINVAL as i32;
    let (setup, action) = setup.step(SetupEvent::FlagsWritten(Err(code)));
    assert_eq!(action, SetupAction::Abort(SetupError::FlagsWrite(code)));
    assert_eq!(setup.error(), Some(SetupError::FlagsWrite(code)));
    assert!(setup.into_session().is_none());
}

#[test]
fn session_is_not_active_before_the_flags_are_written() {
    let (setup, _) = forked_parent(5);
    assert!(setup.into_session().is_none());
    let (setup, _) = forked_parent(5);
    let (setup, _) = setup.step(SetupEvent::FlagsRead(Ok(0)));
    assert_eq!(setup.master(), Some(&5));
    assert!(setup.into_session().is_none());
}

#[test]
fn unexpected_result_fails_the_setup() {
    let (setup, action) = SessionSetup::<i32>::new().step(SetupEvent::FlagsWritten(Ok(())));
    assert_eq!(action, SetupAction::Abort(SetupError::Protocol));
    assert_eq!(setup.error(), Some(SetupError::Protocol));

    let (setup, _) = SessionSetup::<i32>::new().step(SetupEvent::Start);
    let (_, action) = setup.step(SetupEvent::Start);
    assert_eq!(action, SetupAction::Abort(SetupError::Protocol));

    let (setup, _) = forked_parent(9);
    let (setup, action) = setup.step(SetupEvent::FlagsWritten(Ok(())));
    assert_eq!(action, SetupAction::Abort(SetupError::Protocol));
    assert!(setup.into_session().is_none());

    let (setup, _) = forked_parent(9);
    let (setup, _) = setup.step(SetupEvent::FlagsRead(Ok(0)));
    let (_, action) = setup.step(SetupEvent::FlagsRead(Ok(0)));
    assert_eq!(action, SetupAction::Abort(SetupError::Protocol));

    let (setup, _) = SessionSetup::<i32>::new().step(SetupEvent::Start);
    let (setup, _) = setup.step(SetupEvent::Forked(Ok(ForkSide::Child)));
    let (_, action) = setup.step(SetupEvent::FlagsRead(Ok(0)));
    assert_eq!(action, SetupAction::Abort(SetupError::Protocol));
}

#[test]
fn active_session_stays_active() {
    let (setup, _) = forked_parent(4);
    let (setup, _) = setup.step(SetupEvent::FlagsRead(Ok(2)));
    let (setup, _) = setup.step(SetupEvent::FlagsWritten(Ok(())));
    let (setup, action) = setup.step(SetupEvent::FlagsRead(Err(5)));
    assert_eq!(action, SetupAction::Run);
    let (setup, action) = setup.step(SetupEvent::Start);
    assert_eq!(action, SetupAction::Run);
    assert_eq!(setup.phase(), &Phase::Active { master: 4 });
    assert_eq!(setup.into_session().map(|s| *s.master()), Some(4));
}

#[test]
fn setup_owns_a_descriptor_that_cannot_be_copied() {
    let (setup, _) = SessionSetup::<String>::new().step(SetupEvent::Start);
    let (setup, _) = setup.step(SetupEvent::Forked(Ok(ForkSide::Parent("master".to_string()))));
    let (setup, _) = setup.step(SetupEvent::FlagsRead(Ok(0)));
    let (setup, _) = setup.step(SetupEvent::FlagsWritten(Ok(())));
    let session = setup.into_session().expect("active");
    assert_eq!(session.master(), "master");
}

#[test]
fn nonblocking_flags_sets_the_nonblocking_bit() {
    let nonblock = OFlag::O_NONBLOCK.bits();
    assert_ne!(nonblock, 0);
    assert_eq!(nonblocking_flags(0), nonblock);
    let rdwr = OFlag::O_RDWR.bits();
    assert_eq!(nonblocking_flags(rdwr), rdwr | nonblock);
    assert_eq!(nonblocking_flags(rdwr | nonblock), rdwr | nonblock);
    let append = (OFlag::O_WRONLY | OFlag::O_APPEND).bits();
    assert_eq!(nonblocking_flags(append), append | nonblock);
}

#[test]
fn nonblocking_flags_keeps_every_bit_of_the_current_flags() {
    let nonblock = OFlag::O_NONBLOCK.bits();
    for current in [-1i32, i32::MAX, i32::MIN, 0x5555_5555, 0x2aaa_aaaa, 0o100002] {
        let flags = nonblocking_flags(current);
        assert_eq!(flags, current | nonblock);
        assert_eq!(flags & current, current);
        assert_eq!(flags & nonblock, nonblock);
        assert_eq!(flags & !(current | nonblock), 0);
    }
}

#[test]
fn nonblocking_flags_of_a_nonblocking_descriptor_are_its_own() {
    let nonblock = OFlag::O_NONBLOCK.bits();
    for current in [nonblock, nonblock | OFlag::O_RDWR.bits(), nonblock | 0o100002, -1i32] {
        assert_eq!(nonblocking_flags(current), current);
    }
    for current in [0i32, OFlag::O_RDWR.bits(), 0o100002, i32::MIN] {
        let once = nonblocking_flags(current);
        assert_eq!(nonblocking_flags(once), once);
    }
}

#[test]
fn configuring_twice_writes_the_same_flags_back() {
    let (setup, _) = forked_parent(6);
    let (_, first) = setup.step(SetupEvent::FlagsRead(Ok(OFlag::O_RDWR.bits())));
    let written = match first {
        SetupAction::WriteFlags(flags) => flags,
        other => panic!("expected a flag write, got {:?}", other),
    };
    let (setup, _) = forked_parent(6);
    let (_, second) = setup.step(SetupEvent::FlagsRead(Ok(written)));
    assert_eq!(second, SetupAction::WriteFlags(written));
}
