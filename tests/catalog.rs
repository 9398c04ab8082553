use music_player::{catalog, find_song, has_audio_extension, song_path, DirListing, MusicError};

fn names(v: &[&str]) -> Vec<String> {
    v.iter().map(|s| s.to_string()).collect()
}

#[test]
fn catalog_keeps_audio_files_in_any_case() {
    let r = catalog(DirListing::Entries(names(&["a.mp3", "b.MP3", "c.txt"])));
    assert_eq!(r, Ok(names(&["a.mp3", "b.MP3"])));
}

#[test]
fn catalog_keeps_listing_order() {
    let r = catalog(DirListing::Entries(names(&["z.mp3", "notes", "a.Mp3", "m.mp3"])));
    assert_eq!(r, Ok(names(&["z.mp3", "a.Mp3", "m.mp3"])));
}

#[test]
fn missing_folder_is_not_found() {
    assert_eq!(catalog(DirListing::Missing), Err(MusicError::FolderNotFound));
}

#[test]
fn unreadable_folder_is_read_error() {
    assert_eq!(catalog(DirListing::Unreadable), Err(MusicError::ReadError));
}

#[test]
fn empty_folder_has_no_music() {
    assert_eq!(catalog(DirListing::Entries(Vec::new())), Err(MusicError::NoMusicFiles));
}

#[test]
fn folder_without_audio_has_no_music() {
    let r = catalog(DirListing::Entries(names(&["c.txt", "d.wav", "mp3"])));
    assert_eq!(r, Err(MusicError::NoMusicFiles));
    assert_ne!(r, catalog(DirListing::Missing));
}

#[test]
fn audio_extension_rules() {
    assert!(has_audio_extension("a.mp3"));
    assert!(has_audio_extension("b.MP3"));
    assert!(has_audio_extension("c.mP3"));
    assert!(has_audio_extension("..mp3"));
    assert!(has_audio_extension("x.y.mp3"));
    assert!(!has_audio_extension(".mp3"));
    assert!(!has_audio_extension("mp3"));
    assert!(!has_audio_extension("a.mp4"));
    assert!(!has_audio_extension("a.mp3.txt"));
    assert!(!has_audio_extension("amp3"));
    assert!(!has_audio_extension(""));
}

#[test]
fn song_path_joins_like_unix_paths() {
    assert_eq!(song_path("music", "a.mp3"), "music/a.mp3");
    assert_eq!(song_path("music/", "a.mp3"), "music/a.mp3");
    assert_eq!(song_path("", "a.mp3"), "a.mp3");
    assert_eq!(song_path("music", "/abs/a.mp3"), "/abs/a.mp3");
    assert_eq!(song_path("a/b", "c d.mp3"), "a/b/c d.mp3");
}

#[test]
fn find_song_locates_existing_path() {
    assert_eq!(find_song("/", "etc"), Some("/etc".to_string()));
    assert_eq!(find_song("", "/"), Some("/".to_string()));
}

#[test]
fn find_song_reports_absence() {
    assert_eq!(find_song("/", "no such song here.mp3"), None);
    assert_eq!(find_song("/no/such/folder", "a.mp3"), None);
}

#[test]
fn errors_read_as_the_console_shows_them() {
    assert_eq!(MusicError::FolderNotFound.message(), "Folder 'music/' does not exist.");
    assert_eq!(MusicError::ReadError.message(), "Could not read music folder.");
    assert_eq!(MusicError::NoMusicFiles.message(), "No music files in music folder.");
    assert_eq!(MusicError::PlaybackError.message(), "Could not play song");
}
