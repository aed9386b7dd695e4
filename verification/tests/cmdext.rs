//! Requests for a child process: their order, and carrying them out.
use cap_std::fs::Dir;
use cap_std_ext::cmdext::{CapStdExtCommandExt, ChildSetup, Hook, Next};
use rustix::fd::{AsRawFd, OwnedFd};
use std::cell::{Cell, RefCell};
use std::io::Write;
use std::sync::Arc;

fn recorded(setup: &ChildSetup<u64, u8>) -> Vec<String> {
    let mut seen = Vec::new();
    let mut done = 0;
    loop {
        match setup.next::<()>(done, Ok(())) {
            Next::Run(Hook::TakeFd { fd, target }) => seen.push(format!("fd {} -> {}", fd, target)),
            Next::Run(Hook::CwdDir { dir }) => seen.push(format!("cwd {}", dir)),
            Next::Launch => return seen,
            Next::Abort(()) => unreachable!(),
        }
        done += 1;
    }
}

#[test]
fn new_setup_launches_at_once() {
    let setup: ChildSetup<u64, u8> = ChildSetup::new();
    assert_eq!(setup.next::<&str>(0, Ok(())), Next::Launch);
    assert_eq!(setup.run(|_| Err::<(), &str>("never asked")), Ok(()));
}

#[test]
fn requests_keep_their_order() {
    let mut setup: ChildSetup<u64, u8> = ChildSetup::new();
    let shared = Arc::new(7u64);
    setup.take_fd_n(shared.clone(), 5).cwd_dir(2).take_fd_n(shared, 6).take_fd_n(Arc::new(8), 5);
    assert_eq!(recorded(&setup), vec!["fd 7 -> 5", "cwd 2", "fd 7 -> 6", "fd 8 -> 5"]);
}

#[test]
fn next_follows_the_queue() {
    let mut setup: ChildSetup<u64, u8> = ChildSetup::new();
    setup.take_fd_n(Arc::new(7), 5);
    setup.cwd_dir(2);
    assert_eq!(
        setup.next::<&str>(0, Ok(())),
        Next::Run(&Hook::TakeFd { fd: Arc::new(7), target: 5 })
    );
    assert_eq!(setup.next::<&str>(1, Ok(())), Next::Run(&Hook::CwdDir { dir: 2 }));
    assert_eq!(setup.next::<&str>(2, Ok(())), Next::Launch);
    assert_eq!(setup.next::<&str>(3, Ok(())), Next::Launch);
}

#[test]
fn next_aborts_on_failure() {
    let mut setup: ChildSetup<u64, u8> = ChildSetup::new();
    setup.take_fd_n(Arc::new(7), 5).cwd_dir(2);
    assert_eq!(setup.next(1, Err("bad descriptor")), Next::Abort("bad descriptor"));
    assert_eq!(setup.next(2, Err("no such directory")), Next::Abort("no such directory"));
}

#[test]
fn take_dirfd_n_and_take_file_n_convert() {
    let mut setup: ChildSetup<u64, u32> = ChildSetup::new();
    setup.take_dirfd_n(9u32, 3).take_file_n(4u8, 10);
    assert_eq!(
        setup.next::<()>(0, Ok(())),
        Next::Run(&Hook::TakeFd { fd: Arc::new(9u64), target: 3 })
    );
    assert_eq!(
        setup.next::<()>(1, Ok(())),
        Next::Run(&Hook::TakeFd { fd: Arc::new(4u64), target: 10 })
    );
    assert_eq!(setup.next::<()>(2, Ok(())), Next::Launch);
}

#[test]
fn run_performs_all_in_order() {
    let mut setup: ChildSetup<u64, u8> = ChildSetup::new();
    setup.take_fd_n(Arc::new(7), 5).cwd_dir(2).take_fd_n(Arc::new(8), 6);
    let seen = RefCell::new(Vec::new());
    let out = setup.run(|hook| {
        seen.borrow_mut().push(match hook {
            Hook::TakeFd { target, .. } => *target,
            Hook::CwdDir { .. } => -1,
        });
        Ok::<(), &str>(())
    });
    assert_eq!(out, Ok(()));
    assert_eq!(seen.into_inner(), vec![5, -1, 6]);
}

#[test]
fn run_stops_at_first_failure() {
    let mut setup: ChildSetup<u64, u8> = ChildSetup::new();
    setup.take_fd_n(Arc::new(7), 5).cwd_dir(2).take_fd_n(Arc::new(8), 6);
    let calls = Cell::new(0);
    let out = setup.run(|hook| {
        calls.set(calls.get() + 1);
        match hook {
            Hook::CwdDir { .. } => Err("no such directory"),
            Hook::TakeFd { .. } => Ok(()),
        }
    });
    assert_eq!(out, Err("no such directory"));
    assert_eq!(calls.get(), 2);
}

fn perform(hook: &Hook<OwnedFd, Dir>, slots: &RefCell<Vec<OwnedFd>>) -> std::io::Result<()> {
    match hook {
        Hook::TakeFd { fd, target } => {
            let mut slots = slots.borrow_mut();
            let slot = slots.iter_mut().find(|slot| slot.as_raw_fd() == *target).unwrap();
            rustix::io::dup2(&**fd, slot)?;
            Ok(())
        }
        Hook::CwdDir { dir } => {
            rustix::process::fchdir(dir)?;
            Ok(())
        }
    }
}

#[test]
fn taken_descriptor_is_readable_at_its_number() -> std::io::Result<()> {
    let (r, w) = rustix::pipe::pipe()?;
    let (occupied, _other_end) = rustix::pipe::pipe()?;
    let target = occupied.as_raw_fd();
    let slots = RefCell::new(vec![occupied]);

    let mut setup: ChildSetup<OwnedFd, Dir> = ChildSetup::new();
    setup.take_fd_n(Arc::new(r), target);
    let mut w = cap_std::fs::File::from(w);
    w.write_all(b"hello world")?;
    drop(w);
    setup.run(|hook| perform(hook, &slots))?;
    drop(setup);

    let slots = slots.into_inner();
    assert_eq!(slots[0].as_raw_fd(), target);
    let mut read = Vec::new();
    let mut buffer = [0u8; 64];
    loop {
        let count = rustix::io::read(&slots[0], &mut buffer)?;
        if count == 0 {
            break;
        }
        read.extend_from_slice(&buffer[..count]);
    }
    assert_eq!(read.len(), 11);
    assert_eq!(read.as_slice(), b"hello world");
    Ok(())
}

#[test]
fn working_directory_is_the_handle() -> std::io::Result<()> {
    let td = cap_tempfile::tempdir(cap_std::ambient_authority())?;
    td.write("somefile", "hello world")?;

    let mut setup: ChildSetup<OwnedFd, Dir> = ChildSetup::new();
    setup.cwd_dir(td.open_dir(".")?);
    let slots = RefCell::new(Vec::new());
    setup.run(|hook| perform(hook, &slots))?;

    let here = Dir::open_ambient_dir(".", cap_std::ambient_authority())?;
    assert_eq!(here.read("somefile")?.as_slice(), b"hello world");
    Ok(())
}

#[test]
fn failed_duplicate_aborts() {
    let (r, _w) = rustix::pipe::pipe().unwrap();
    let (occupied, _other_end) = rustix::pipe::pipe().unwrap();
    let target = occupied.as_raw_fd();
    let slots = RefCell::new(vec![occupied]);
    let calls = Cell::new(0);

    let mut setup: ChildSetup<OwnedFd, Dir> = ChildSetup::new();
    setup.take_fd_n(Arc::new(r), target).take_fd_n(Arc::new(_w), target);
    let out = setup.run(|hook| {
        calls.set(calls.get() + 1);
        perform(hook, &slots)?;
        Err::<(), std::io::Error>(std::io::Error::new(std::io::ErrorKind::Other, "stop here"))
    });
    assert!(out.err().unwrap().to_string().contains("stop here"));
    assert_eq!(calls.get(), 1);
}
