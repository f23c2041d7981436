use jago::config::Circumstances;
use jago::error::JagoError;
use jago::resolve::{get_destination_dir, resolve};

#[test]
fn get_destination_dir_works() {
    let context = Circumstances::new("/tmp".to_string());
    let dest = get_destination_dir(context, "https://github.com/xi-editor/xi-editor.git");

    assert_eq!(dest.unwrap(), "/tmp/github.com/xi-editor/xi-editor");

    let context = Circumstances::new("/tmp".to_string());
    let dest = get_destination_dir(context, "git@github.com:xi-editor/xi-editor.git");

    assert_eq!(dest.unwrap(), "/tmp/github.com/xi-editor/xi-editor");
}

#[test]
fn standard_form_with_extension() {
    let dest = resolve("/tmp", "https://github.com/xi-editor/xi-editor.git");
    assert_eq!(dest.unwrap(), "/tmp/github.com/xi-editor/xi-editor");
}

#[test]
fn scp_shorthand_with_extension() {
    let dest = resolve("/tmp", "git@github.com:xi-editor/xi-editor.git");
    assert_eq!(dest.unwrap(), "/tmp/github.com/xi-editor/xi-editor");
}

#[test]
fn standard_form_without_extension() {
    let dest = resolve("/tmp", "https://example.com/group/sub/project");
    assert_eq!(dest.unwrap(), "/tmp/example.com/group/sub/project");
}

#[test]
fn not_a_url_is_rejected() {
    let dest = resolve("/tmp", "not-a-url");
    assert!(matches!(dest, Err(JagoError::Parse(_))));
}

#[test]
fn scp_shorthand_matches_standard_form() {
    let from_shorthand = resolve("/home/someone/src", "git@gitlab.com:group/project.git");
    let from_standard = resolve("/home/someone/src", "ssh://git@gitlab.com/group/project.git");
    assert_eq!(from_shorthand.unwrap(), from_standard.unwrap());
}

#[test]
fn resolving_twice_gives_the_same_destination() {
    let first = resolve("/tmp", "https://github.com/xi-editor/xi-editor.git");
    let second = resolve("/tmp", "https://github.com/xi-editor/xi-editor.git");
    assert_eq!(first.unwrap(), second.unwrap());
}

#[test]
fn remote_without_host_is_invalid() {
    let dest = resolve("/tmp", "unix:/run/foo.socket");
    assert!(matches!(dest, Err(JagoError::InvalidRemote)));
}

#[test]
fn mailto_remote_has_no_host() {
    let dest = resolve("/tmp", "mailto:someone@example.com");
    assert!(matches!(dest, Err(JagoError::InvalidRemote)));
}

#[test]
fn any_trailing_extension_is_stripped() {
    let dest = resolve("/tmp", "https://example.com/group/my.project");
    assert_eq!(dest.unwrap(), "/tmp/example.com/group/my");
}

#[test]
fn dot_in_earlier_segment_is_kept() {
    let dest = resolve("/tmp", "https://example.com/my.group/project");
    assert_eq!(dest.unwrap(), "/tmp/example.com/my.group/project");
}

#[test]
fn hidden_final_segment_is_kept() {
    let dest = resolve("/tmp", "https://example.com/group/.config");
    assert_eq!(dest.unwrap(), "/tmp/example.com/group/.config");
}

#[test]
fn colon_form_without_user_has_no_host() {
    let dest = resolve("/tmp", "gitlab.com:group/project.git");
    assert!(matches!(dest, Err(JagoError::InvalidRemote)));
}

#[test]
fn port_is_not_part_of_the_host() {
    let dest = resolve("/tmp", "https://example.com:8443/group/project.git");
    assert_eq!(dest.unwrap(), "/tmp/example.com/group/project");
}

#[test]
fn root_is_used_verbatim() {
    let dest = resolve("/home/someone/src", "https://github.com/xi-editor/xi-editor.git");
    assert_eq!(dest.unwrap(), "/home/someone/src/github.com/xi-editor/xi-editor");
}

#[test]
fn host_only_remote_resolves_to_host_directory() {
    let dest = resolve("/tmp", "https://github.com");
    assert_eq!(dest.unwrap(), "/tmp/github.com");
}

#[test]
fn circumstances_keep_the_given_root() {
    let context = Circumstances::new("/srv/repos".to_string());
    assert_eq!(context.repository_directory, "/srv/repos");
}
