use vstd::prelude::*;

verus! {

/// The ways in which building the catalog or starting playback can fail.
#[derive(Debug, Clone, Copy, PartialEq, Eq, Structural)]
pub enum MusicError {
    /// The music folder does not exist.
    FolderNotFound,
    /// The folder, or one of its entries, could not be read.
    ReadError,
    /// The folder holds no file with the audio extension.
    NoMusicFiles,
    /// The output device could not be opened or the file could not be decoded.
    PlaybackError,
}

/// The line shown for each error.
pub open spec fn error_line(e: MusicError) -> Seq<char> {
    match e {
        MusicError::FolderNotFound => "Folder 'music/' does not exist."@,
        MusicError::ReadError => "Could not read music folder."@,
        MusicError::NoMusicFiles => "No music files in music folder."@,
        MusicError::PlaybackError => "Could not play song"@,
    }
}

impl MusicError {
    /// The line to show on the error stream.
    pub fn message(&self) -> (r: &'static str)
        ensures
            r@ == error_line(*self),
    {
        match self {
            MusicError::FolderNotFound => "Folder 'music/' does not exist.",
            MusicError::ReadError => "Could not read music folder.",
            MusicError::NoMusicFiles => "No music files in music folder.",
            MusicError::PlaybackError => "Could not play song",
        }
    }
}

} // verus!
