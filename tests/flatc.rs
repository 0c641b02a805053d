use flatc_rust::{
    run, Args, ConfigError, Error, Flatc, Outcome, RunFailure, Step, ToolError,
};

fn request(lang: &str, inputs: &[&str], out_dir: &str, includes: &[&str]) -> Args {
    Args {
        lang: lang.to_string(),
        inputs: inputs.iter().map(|p| p.as_bytes().to_vec()).collect(),
        out_dir: out_dir.as_bytes().to_vec(),
        includes: includes.iter().map(|p| p.as_bytes().to_vec()).collect(),
    }
}

fn printed(text: &[u8]) -> Outcome {
    Outcome::Finished { success: true, stdout: text.to_vec() }
}

fn tokens(v: &[&str]) -> Vec<Vec<u8>> {
    v.iter().map(|t| t.as_bytes().to_vec()).collect()
}

#[test]
fn version() {
    Flatc::from_env_path()
        .version(&printed(b"flatc version 2.0.8\n"))
        .expect("version");
}

#[test]
fn default_args() {
    let a = Args::default();
    assert_eq!(a.lang, "rust");
    assert!(a.inputs.is_empty());
    assert!(a.out_dir.is_empty());
    assert!(a.includes.is_empty());
}

#[test]
fn command_line_exact_tokens() {
    let a = request("rust", &["a.fbs"], "out", &["inc"]);
    assert_eq!(
        a.command_line().unwrap(),
        tokens(&["--rust", "-o", "out", "a.fbs", "-Iinc"])
    );
}

#[test]
fn command_line_keeps_order() {
    let a = request("cpp", &["b.fbs", "a.fbs"], "gen", &["x", "y/z"]);
    assert_eq!(
        a.command_line().unwrap(),
        tokens(&["--cpp", "-o", "gen", "b.fbs", "a.fbs", "-Ix", "-Iy/z"])
    );
}

#[test]
fn command_line_non_ascii_lang() {
    let a = request("ü", &["a.fbs"], "out", &[]);
    assert_eq!(a.command_line().unwrap(), tokens(&["--ü", "-o", "out", "a.fbs"]));
}

#[test]
fn empty_out_dir_refused() {
    let a = request("rust", &["a.fbs"], "", &[]);
    assert_eq!(a.command_line(), Err(Error::Config(ConfigError::OutDirEmpty)));
    let b = request("", &[], "", &[]);
    assert_eq!(b.command_line(), Err(Error::Config(ConfigError::OutDirEmpty)));
}

#[test]
fn empty_lang_refused() {
    let a = request("", &["a.fbs"], "out", &[]);
    assert_eq!(a.command_line(), Err(Error::Config(ConfigError::LangEmpty)));
}

#[test]
fn no_inputs_refused() {
    let a = request("rust", &[], "out", &["inc"]);
    assert_eq!(a.command_line(), Err(Error::Config(ConfigError::InputsEmpty)));
}

#[test]
fn non_utf8_out_dir_refused() {
    let mut a = request("rust", &["a.fbs"], "out", &[]);
    a.out_dir = vec![b'o', 0xff, b't'];
    assert_eq!(a.command_line(), Err(Error::Encoding));
}

#[test]
fn raw_paths_pass_through() {
    let mut a = request("rust", &[], "out", &[]);
    a.inputs = vec![vec![0xfe, b'a']];
    a.includes = vec![vec![0xff]];
    let line = a.command_line().unwrap();
    assert_eq!(line[3], vec![0xfe, b'a']);
    assert_eq!(line[4], vec![b'-', b'I', 0xff]);
}

#[test]
fn version_is_rest_of_first_line() {
    let v = Flatc::from_env_path()
        .version(&printed(b"flatc version 1.12.0\nmore output\n"))
        .unwrap();
    assert_eq!(v.version(), "1.12.0");
}

#[test]
fn version_line_with_crlf() {
    let v = Flatc::from_env_path()
        .version(&printed(b"flatc version 23.5.26\r\n"))
        .unwrap();
    assert_eq!(v.version(), "23.5.26");
}

#[test]
fn version_without_newline() {
    let v = Flatc::from_env_path().version(&printed(b"flatc version 1.10")).unwrap();
    assert_eq!(v.version(), "1.10");
}

#[test]
fn version_prefix_missing() {
    let r = Flatc::from_env_path().version(&printed(b"flatc v1.12.0\n"));
    assert_eq!(r.unwrap_err(), Error::ToolUnavailable(ToolError::MissingPrefix));
}

#[test]
fn version_prefix_on_second_line_only() {
    let r = Flatc::from_env_path().version(&printed(b"\nflatc version 1.12.0\n"));
    assert_eq!(r.unwrap_err(), Error::ToolUnavailable(ToolError::MissingPrefix));
}

#[test]
fn version_failed_exit() {
    let out = Outcome::Finished { success: false, stdout: b"flatc version 1.12.0\n".to_vec() };
    let r = Flatc::from_env_path().version(&out);
    assert_eq!(r.unwrap_err(), Error::ToolUnavailable(ToolError::ExitFailure));
    let out = Outcome::Finished { success: false, stdout: Vec::new() };
    assert_eq!(
        Flatc::from_env_path().check(&out),
        Err(Error::ToolUnavailable(ToolError::ExitFailure))
    );
}

#[test]
fn version_not_started() {
    let r = Flatc::from_env_path().check(&Outcome::NotStarted);
    assert_eq!(r, Err(Error::ToolUnavailable(ToolError::NotStarted)));
}

#[test]
fn version_output_empty() {
    let r = Flatc::from_env_path().version(&printed(b""));
    assert_eq!(r.unwrap_err(), Error::ToolUnavailable(ToolError::OutputEmpty));
}

#[test]
fn version_output_not_utf8() {
    let r = Flatc::from_env_path().version(&printed(b"flatc version 1.0\n\xff\n"));
    assert_eq!(r.unwrap_err(), Error::ToolUnavailable(ToolError::OutputNotUtf8));
}

#[test]
fn version_empty_after_prefix() {
    let r = Flatc::from_env_path().version(&printed(b"flatc version \n"));
    assert_eq!(r.unwrap_err(), Error::ToolUnavailable(ToolError::VersionEmpty));
}

#[test]
fn version_not_digit() {
    let r = Flatc::from_env_path().version(&printed(b"flatc version v1.0\n"));
    assert_eq!(r.unwrap_err(), Error::ToolUnavailable(ToolError::VersionNotDigit));
}

#[test]
fn check_accepts_usable_tool() {
    let r = Flatc::from_path(b"/opt/bin/flatc".to_vec()).check(&printed(b"flatc version 1.12.0\n"));
    assert_eq!(r, Ok(()));
}

#[test]
fn handles_name_their_program() {
    assert_eq!(Flatc::from_env_path().program(), &b"flatc".to_vec());
    assert_eq!(Flatc::from_path(b"/x/flatc".to_vec()).program(), &b"/x/flatc".to_vec());
    let q = Flatc::from_path(b"/x/flatc".to_vec()).version_command();
    assert_eq!(q.program, b"/x/flatc".to_vec());
    assert_eq!(q.args, tokens(&["--version"]));
}

#[test]
fn command_for_request() {
    let c = Flatc::from_path(b"/x/flatc".to_vec())
        .command(&request("rust", &["a.fbs"], "out", &[]))
        .unwrap();
    assert_eq!(c.program, b"/x/flatc".to_vec());
    assert_eq!(c.args, tokens(&["--rust", "-o", "out", "a.fbs"]));
}

#[test]
fn session_success() {
    let mut s = run(request("rust", &["a.fbs"], "out", &["inc"]));
    assert_eq!(s.step(), Step::QueryVersion);
    let q = s.command();
    assert_eq!(q.program, b"flatc".to_vec());
    assert_eq!(q.args, tokens(&["--version"]));
    s.resume(printed(b"flatc version 1.12.0\n"));
    assert_eq!(s.step(), Step::Compile);
    let c = s.command();
    assert_eq!(c.args, tokens(&["--rust", "-o", "out", "a.fbs", "-Iinc"]));
    s.resume(Outcome::Finished { success: true, stdout: Vec::new() });
    assert_eq!(s.step(), Step::Done(Ok(())));
}

#[test]
fn session_stops_on_unusable_tool() {
    let mut s = run(request("rust", &["a.fbs"], "out", &[]));
    s.resume(printed(b"flatc v1.12.0\n"));
    assert_eq!(s.step(), Step::Done(Err(Error::ToolUnavailable(ToolError::MissingPrefix))));
    s.resume(Outcome::NotStarted);
    assert_eq!(s.step(), Step::Done(Err(Error::ToolUnavailable(ToolError::MissingPrefix))));
}

#[test]
fn session_never_compiles_incomplete_request() {
    let mut s = run(request("rust", &["a.fbs"], "", &[]));
    s.resume(printed(b"flatc version 1.12.0\n"));
    assert_eq!(s.step(), Step::Done(Err(Error::Config(ConfigError::OutDirEmpty))));
}

#[test]
fn session_compile_failures() {
    let mut s = Flatc::from_env_path().run(request("rust", &["a.fbs"], "out", &[]));
    assert_eq!(s.step(), Step::Compile);
    s.resume(Outcome::Finished { success: false, stdout: Vec::new() });
    assert_eq!(s.step(), Step::Done(Err(Error::Execution(RunFailure::ExitFailure))));
    let mut s = Flatc::from_env_path().run(request("rust", &["a.fbs"], "out", &[]));
    s.resume(Outcome::NotStarted);
    assert_eq!(s.step(), Step::Done(Err(Error::Execution(RunFailure::NotStarted))));
}

#[test]
fn handle_run_refuses_incomplete_request() {
    let s = Flatc::from_env_path().run(request("rust", &[], "out", &[]));
    assert_eq!(s.step(), Step::Done(Err(Error::Config(ConfigError::InputsEmpty))));
}
