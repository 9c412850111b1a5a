use clap_library::error::{LibraryError, PathIssue};
use clap_library::library::LoadRequest;
use clap_library::path::NativePath;

#[test]
fn relative_path_is_anchored_to_working_directory() {
    let req = LoadRequest::resolve(
        &NativePath::Text("/home/user".to_string()),
        &NativePath::Text("plugin.clap".to_string()),
    )
    .unwrap();
    assert_eq!(req.resolved_path().as_str(), "/home/user/plugin.clap");
}

#[test]
fn absolute_path_is_kept_as_is() {
    let req = LoadRequest::resolve(
        &NativePath::Text("/somewhere/else".to_string()),
        &NativePath::Text("/opt/plugins/synth.clap".to_string()),
    )
    .unwrap();
    assert_eq!(req.resolved_path().as_str(), "/opt/plugins/synth.clap");
}

#[test]
fn absolute_path_needs_no_working_directory() {
    let req = LoadRequest::resolve(
        &NativePath::NotUnicode,
        &NativePath::Text("/opt/plugins/synth.clap".to_string()),
    )
    .unwrap();
    assert_eq!(req.resolved_path().as_str(), "/opt/plugins/synth.clap");
}

#[test]
fn non_unicode_path_fails_with_path_error() {
    let r = LoadRequest::resolve(
        &NativePath::Text("/home/user".to_string()),
        &NativePath::NotUnicode,
    );
    assert_eq!(
        r.unwrap_err(),
        LibraryError::PathError { issue: PathIssue::NotUnicode }
    );
}

#[test]
fn relative_path_with_non_unicode_working_directory_fails() {
    let r = LoadRequest::resolve(
        &NativePath::NotUnicode,
        &NativePath::Text("plugin.clap".to_string()),
    );
    assert_eq!(
        r.unwrap_err(),
        LibraryError::PathError { issue: PathIssue::NotUnicode }
    );
}

#[test]
fn path_with_embedded_nul_fails_with_path_error() {
    let r = LoadRequest::resolve(
        &NativePath::Text("/home/user".to_string()),
        &NativePath::Text("plug\0in.clap".to_string()),
    );
    assert_eq!(
        r.unwrap_err(),
        LibraryError::PathError { issue: PathIssue::ContainsNul }
    );
}
