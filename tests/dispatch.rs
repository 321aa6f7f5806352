use shell_starter_rust::command::{
    builtin_of, classify_type, dispatch, Builtin, Command, DispatchError, TypeTarget,
};
use shell_starter_rust::path_env::{resolve_in, DirListing, PathEnv};
use shell_starter_rust::redirect::{extract_redirections, RedirectError};
use shell_starter_rust::report::{
    cd_destination, cd_error_message, echo_line, file_name, type_report,
};

fn strings(v: &[&str]) -> Vec<String> {
    v.iter().map(|s| s.to_string()).collect()
}

fn listing(dir: &str, entries: Option<&[&str]>) -> DirListing {
    DirListing {
        dir: dir.to_string(),
        entries: entries.map(strings),
    }
}

fn sample_path() -> Vec<DirListing> {
    vec![
        listing("/nonexistent", None),
        listing("/usr/local/bin", Some(&["custom_exe"])),
        listing("/usr/bin", Some(&["ls", "cat", "custom_exe"])),
        listing("/bin/", Some(&["sh"])),
    ]
}

#[test]
fn redirection_round_trip() {
    let (args, redir) = extract_redirections(&strings(&["ls", "1>", "out.txt"])).unwrap();
    assert_eq!(args, strings(&["ls"]));
    assert_eq!(redir.stdout, Some("out.txt".to_string()));
    assert_eq!(redir.stderr, None);
}

#[test]
fn redirection_of_both_streams() {
    let (args, redir) =
        extract_redirections(&strings(&["cat", "a", ">", "o", "b", "2>", "e"])).unwrap();
    assert_eq!(args, strings(&["cat", "a", "b"]));
    assert_eq!(redir.stdout, Some("o".to_string()));
    assert_eq!(redir.stderr, Some("e".to_string()));
}

#[test]
fn later_redirection_replaces_earlier() {
    let (args, redir) = extract_redirections(&strings(&["ls", ">", "a", "1>", "b"])).unwrap();
    assert_eq!(args, strings(&["ls"]));
    assert_eq!(redir.stdout, Some("b".to_string()));
}

#[test]
fn redirection_without_target_fails() {
    assert_eq!(
        extract_redirections(&strings(&["ls", ">"])).unwrap_err(),
        RedirectError::MissingRedirectionTarget
    );
    assert_eq!(
        extract_redirections(&strings(&["ls", "2>"])).unwrap_err(),
        RedirectError::MissingRedirectionTarget
    );
}

#[test]
fn path_env_splits_on_colons() {
    assert_eq!(PathEnv::from_str("/usr/bin:/bin").dirs, strings(&["/usr/bin", "/bin"]));
    assert_eq!(PathEnv::from_str("a::b").dirs, strings(&["a", "", "b"]));
    assert_eq!(PathEnv::from_str("").dirs, strings(&[""]));
}

#[test]
fn path_env_ignores_surrounding_whitespace() {
    assert_eq!(
        PathEnv::from_str("  /usr/bin:/bin\n").dirs,
        strings(&["/usr/bin", "/bin"])
    );
    assert_eq!(PathEnv::from_str(" \t ").dirs, strings(&[""]));
    assert_eq!(PathEnv::from_str(" a b :c").dirs, strings(&["a b ", "c"]));
}

#[test]
fn first_directory_wins() {
    let path = sample_path();
    assert_eq!(
        resolve_in(&path, "custom_exe"),
        Some("/usr/local/bin/custom_exe".to_string())
    );
    assert_eq!(resolve_in(&path, "ls"), Some("/usr/bin/ls".to_string()));
    assert_eq!(resolve_in(&path, "sh"), Some("/bin/sh".to_string()));
    assert_eq!(resolve_in(&path, "nope"), None);
}

#[test]
fn path_names_resolve_to_themselves() {
    let path = sample_path();
    assert_eq!(resolve_in(&path, "/opt/tool"), Some("/opt/tool".to_string()));
    assert_eq!(resolve_in(&path, "./run"), Some("./run".to_string()));
}

#[test]
fn builtin_names() {
    assert_eq!(builtin_of(&"echo".to_string()), Some(Builtin::Echo));
    assert_eq!(builtin_of(&"cd".to_string()), Some(Builtin::Cd));
    assert_eq!(builtin_of(&"ls".to_string()), None);
    assert_eq!(Builtin::Pwd.name(), "pwd");
    assert_eq!(Builtin::Exit.name(), "exit");
}

#[test]
fn type_of_builtin() {
    let d = dispatch("type echo", &sample_path()).unwrap();
    match &d.command {
        Command::Type(t) => {
            assert!(matches!(t, TypeTarget::Builtin(Builtin::Echo)));
            let r = type_report(t);
            assert_eq!(r.text, "echo is a shell builtin");
            assert!(!r.to_stderr);
        }
        other => panic!("unexpected command {:?}", other),
    }
}

#[test]
fn type_of_unknown() {
    let t = classify_type(&sample_path(), &"nonexistent_cmd_xyz".to_string());
    let r = type_report(&t);
    assert_eq!(r.text, "nonexistent_cmd_xyz: not found");
    assert!(r.to_stderr);
}

#[test]
fn type_of_resolvable_name() {
    let t = classify_type(&sample_path(), &"cat".to_string());
    assert!(matches!(&t, TypeTarget::Local(p) if p == "/usr/bin/cat"));
    assert_eq!(type_report(&t).text, "cat is /usr/bin/cat");
}

#[test]
fn file_name_is_last_component() {
    assert_eq!(file_name("/usr/bin/ls"), "ls");
    assert_eq!(file_name("ls"), "ls");
    assert_eq!(file_name("/usr/bin/"), "");
}

#[test]
fn cd_home_and_bare() {
    let home = Some("/home/user".to_string());
    assert_eq!(cd_destination(&"~".to_string(), &home), home);
    assert_eq!(cd_destination(&"".to_string(), &home), home);
    assert_eq!(cd_destination(&"~".to_string(), &None), None);
    assert_eq!(
        cd_destination(&"/tmp".to_string(), &home),
        Some("/tmp".to_string())
    );
    let d = dispatch("cd", &sample_path()).unwrap();
    assert!(matches!(&d.command, Command::Cd(p) if p.is_empty()));
}

#[test]
fn cd_failure_message() {
    assert_eq!(
        cd_error_message("/does/not/exist"),
        "cd: /does/not/exist: No such file or directory"
    );
}

#[test]
fn echo_normalizes_whitespace() {
    let d = dispatch("echo   hello    'big   world'  > out.txt", &sample_path()).unwrap();
    match &d.command {
        Command::Echo(args) => {
            assert_eq!(args, &strings(&["hello", "big   world"]));
            assert_eq!(echo_line(args), "hello big   world");
        }
        other => panic!("unexpected command {:?}", other),
    }
    assert_eq!(d.redirections.stdout, Some("out.txt".to_string()));
    assert_eq!(echo_line(&Vec::new()), "");
}

#[test]
fn external_command() {
    let d = dispatch("ls -l 2> err.txt /tmp", &sample_path()).unwrap();
    match &d.command {
        Command::External { name, path, args } => {
            assert_eq!(name, "ls");
            assert_eq!(path, "/usr/bin/ls");
            assert_eq!(args, &strings(&["-l", "/tmp"]));
        }
        other => panic!("unexpected command {:?}", other),
    }
    assert_eq!(d.redirections.stdout, None);
    assert_eq!(d.redirections.stderr, Some("err.txt".to_string()));
}

#[test]
fn exit_and_pwd() {
    let d = dispatch("exit 0", &sample_path()).unwrap();
    assert!(matches!(&d.command, Command::Exit(a) if a == &strings(&["0"])));
    let d = dispatch("pwd", &sample_path()).unwrap();
    assert!(matches!(d.command, Command::Pwd));
}

#[test]
fn dispatch_errors() {
    let path = sample_path();
    let e = dispatch("nope arg", &path).unwrap_err();
    assert!(matches!(&e, DispatchError::CommandNotFound(n) if n == "nope"));
    assert_eq!(e.message(), "nope: command not found");
    let e = dispatch("echo 'open", &path).unwrap_err();
    assert!(matches!(e, DispatchError::UnterminatedQuote));
    assert_eq!(e.message(), "syntax error: unterminated quote");
    let e = dispatch("echo hi >", &path).unwrap_err();
    assert!(matches!(e, DispatchError::MissingRedirectionTarget));
    let e = dispatch("   ", &path).unwrap_err();
    assert!(matches!(e, DispatchError::EmptyLine));
    assert_eq!(e.message(), "");
    let e = dispatch("> out.txt", &path).unwrap_err();
    assert!(matches!(e, DispatchError::EmptyLine));
}
