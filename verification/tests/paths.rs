use jrip::{derive_audio_output, parent_of, PathError};

#[test]
fn derive_replaces_extension_with_mp3() {
    assert_eq!(
        derive_audio_output("/a/b/movie.mkv"),
        Ok("/a/b/movie.mp3".to_string())
    );
}

#[test]
fn derive_preserves_base_name_case() {
    assert_eq!(
        derive_audio_output("/a/b/MOVIE.MKV"),
        Ok("/a/b/MOVIE.mp3".to_string())
    );
}

#[test]
fn derive_appends_mp3_when_there_is_no_extension() {
    assert_eq!(derive_audio_output("/a/b/movie"), Ok("/a/b/movie.mp3".to_string()));
}

#[test]
fn derive_strips_only_the_last_extension() {
    assert_eq!(derive_audio_output("/x/a.b.mkv"), Ok("/x/a.b.mp3".to_string()));
}

#[test]
fn derive_treats_a_leading_dot_as_part_of_the_stem() {
    assert_eq!(derive_audio_output("/a/.conf"), Ok("/a/.conf.mp3".to_string()));
}

#[test]
fn derive_works_on_relative_paths() {
    assert_eq!(derive_audio_output("movie.mkv"), Ok("movie.mp3".to_string()));
}

#[test]
fn derive_refuses_a_path_without_a_file_name() {
    assert_eq!(derive_audio_output(""), Err(PathError::InvalidPath));
    assert_eq!(derive_audio_output("/a/b/"), Err(PathError::InvalidPath));
    assert_eq!(derive_audio_output("/"), Err(PathError::InvalidPath));
}

#[test]
fn parent_strips_the_final_component() {
    assert_eq!(parent_of("/a/b"), Some("/a".to_string()));
    assert_eq!(parent_of("a/b"), Some("a".to_string()));
    assert_eq!(parent_of("/a/b/c.mkv"), Some("/a/b".to_string()));
}

#[test]
fn parent_of_a_top_level_component_is_the_root() {
    assert_eq!(parent_of("/a"), Some("/".to_string()));
}

#[test]
fn parent_of_the_root_is_the_root() {
    assert_eq!(parent_of("/"), Some("/".to_string()));
}

#[test]
fn a_bare_name_has_no_parent() {
    assert_eq!(parent_of("a"), None);
    assert_eq!(parent_of(""), None);
}
