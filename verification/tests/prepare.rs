use nix::fcntl::OFlag;
use nix::sys::stat::Mode;

fn read_file(path: &str) -> Vec<u8> {
    let fd = nix::fcntl::open(path, OFlag::O_RDONLY, Mode::empty()).unwrap();
    let mut out = Vec::new();
    let mut buf = [0u8; 256];
    loop {
        let n = nix::unistd::read(&fd, &mut buf).unwrap();
        if n == 0 {
            break;
        }
        out.extend_from_slice(&buf[..n]);
    }
    out
}

// A configuration whose working directory does not exist fails at the
// directory step, naming it; nothing later (mask, streams) is touched.
#[test]
fn unreachable_workdir_is_reported() {
    let result = dmon::options()
        .working_directory(Some("/tmp/dmon_no_such_dir_zzz"))
        .prepare();
    assert_eq!(
        result,
        Err(dmon::error::SetupError::Workdir {
            path: "/tmp/dmon_no_such_dir_zzz".to_string(),
            detail: "No such file or directory".to_string(),
        })
    );
}

// The whole ordered setup, applied to this very process and undone again:
// afterwards the working directory and the file mode creation mask equal the
// configured ones, and the redirected streams landed in the configured files.
#[test]
fn prepare_applies_directory_mask_and_streams() {
    let pid = nix::unistd::getpid().as_raw();
    let dir = format!("/tmp/dmon_prepare_dir_{pid}");
    let out_path = format!("/tmp/dmon_prepare_out_{pid}");
    let err_path = format!("/tmp/dmon_prepare_err_{pid}");
    let _ = nix::unistd::unlink(out_path.as_str());
    let _ = nix::unistd::unlink(err_path.as_str());
    let _ = nix::unistd::mkdir(dir.as_str(), Mode::from_bits_truncate(0o755));

    // Remember the state this test must put back.
    let old_cwd = nix::unistd::getcwd().unwrap();
    let old_mask = nix::sys::stat::umask(Mode::empty());
    nix::sys::stat::umask(old_mask);
    let saved_in = nix::unistd::dup(std::io::stdin()).unwrap();
    let saved_out = nix::unistd::dup(std::io::stdout()).unwrap();
    let saved_err = nix::unistd::dup(std::io::stderr()).unwrap();

    let result = dmon::options()
        .working_directory(Some(dir.as_str()))
        .umask(Some(0o077))
        .stdout(Some(out_path.as_str()))
        .stderr(Some(err_path.as_str()))
        .prepare();

    // While redirected: both streams write into their files, and standard
    // input yields an immediate end of stream from the null device.
    nix::unistd::write(std::io::stdout(), b"to stdout\n").unwrap();
    nix::unistd::write(std::io::stderr(), b"to stderr\n").unwrap();
    let mut buf = [0u8; 8];
    let stdin_read = nix::unistd::read(std::io::stdin(), &mut buf).unwrap();

    // Observe, then restore.
    let observed_cwd = nix::unistd::getcwd().unwrap();
    let observed_mask = nix::sys::stat::umask(old_mask);
    nix::unistd::dup2_stdin(&saved_in).unwrap();
    nix::unistd::dup2_stdout(&saved_out).unwrap();
    nix::unistd::dup2_stderr(&saved_err).unwrap();
    nix::unistd::chdir(&old_cwd).unwrap();

    assert_eq!(result, Ok(None));
    assert_eq!(observed_cwd.to_str().unwrap(), dir);
    assert_eq!(observed_mask.bits(), 0o077);
    assert_eq!(stdin_read, 0);
    assert_eq!(read_file(&out_path), b"to stdout\n");
    assert_eq!(read_file(&err_path), b"to stderr\n");

    let _ = nix::unistd::unlink(out_path.as_str());
    let _ = nix::unistd::unlink(err_path.as_str());
}
