//! The catalog of audio files in the music folder, and locating one of them.
use vstd::prelude::*;
use vstd::string::StringExecFns;

use crate::error::MusicError;
use crate::text::chars_of;

verus! {

/// What reading the music folder gave: it was missing, it (or one of its
/// entries) could not be read, or the names of its entries in the order the
/// directory listed them.
pub enum DirListing {
    Missing,
    Unreadable,
    Entries(Vec<String>),
}

/// `c` folded to ASCII lower case.
pub open spec fn ascii_lower(c: char) -> char {
    if 'A' <= c && c <= 'Z' {
        ((c as u32) + 32) as char
    } else {
        c
    }
}

/// A file name whose extension is `mp3` in any case. The extension is what
/// follows the last dot, and a name whose only dot is its first character has
/// none; so the name has a non-empty stem, a dot, and the three letters.
pub open spec fn is_audio_name(n: Seq<char>) -> bool {
    &&& n.len() >= 5
    &&& n[n.len() - 4] == '.'
    &&& ascii_lower(n[n.len() - 3]) == 'm'
    &&& ascii_lower(n[n.len() - 2]) == 'p'
    &&& n[n.len() - 1] == '3'
}

/// The audio file names among `names`, in their order.
pub open spec fn audio_names(names: Seq<String>) -> Seq<String>
    decreases names.len(),
{
    if names.len() == 0 {
        Seq::empty()
    } else {
        let rest = audio_names(names.drop_last());
        if is_audio_name(names.last()@) {
            rest.push(names.last())
        } else {
            rest
        }
    }
}

/// The catalog that a listing gives: its audio file names, or the error that
/// stands for why there are none.
pub open spec fn catalog_of(listing: DirListing) -> Result<Seq<String>, MusicError> {
    match listing {
        DirListing::Missing => Err(MusicError::FolderNotFound),
        DirListing::Unreadable => Err(MusicError::ReadError),
        DirListing::Entries(v) => if audio_names(v@).len() == 0 {
            Err(MusicError::NoMusicFiles)
        } else {
            Ok(audio_names(v@))
        },
    }
}

/// The catalog holds a name exactly when the listing holds it and it carries
/// the audio extension.
pub proof fn catalog_holds_exactly_audio_names(names: Seq<String>)
    ensures
        forall|x: String| #[trigger]
            audio_names(names).contains(x) <==> (names.contains(x) && is_audio_name(x@)),
    decreases names.len(),
{
    if names.len() > 0 {
        let rest = names.drop_last();
        catalog_holds_exactly_audio_names(rest);
        assert(names =~= rest.push(names.last()));
        assert forall|x: String| #[trigger]
            audio_names(names).contains(x) <==> (names.contains(x) && is_audio_name(x@)) by {
            if names.contains(x) && is_audio_name(x@) {
                let i = choose|i: int| 0 <= i < names.len() && names[i] == x;
                let a = audio_names(rest);
                if i < names.len() - 1 {
                    assert(rest[i] == x);
                    assert(rest.contains(x));
                    assert(a.contains(x));
                    let k = choose|k: int| 0 <= k < a.len() && a[k] == x;
                    assert(audio_names(names)[k] == x);
                } else {
                    let l = audio_names(names).len() - 1;
                    assert(audio_names(names)[l] == x);
                }
            }
            if audio_names(names).contains(x) {
                let a = audio_names(rest);
                let j = choose|j: int|
                    0 <= j < audio_names(names).len() && audio_names(names)[j] == x;
                if j < a.len() {
                    assert(a[j] == x);
                    assert(a.contains(x));
                    let k = choose|k: int| 0 <= k < rest.len() && rest[k] == x;
                    assert(names[k] == x);
                } else {
                    assert(names[names.len() - 1] == x);
                }
            }
        }
    }
}

fn is_lower_or_upper(c: char, lower: char) -> (r: bool)
    requires
        'a' <= lower <= 'z',
    ensures
        r == (ascii_lower(c) == lower),
{
    c == lower || (c as u32) + 32 == lower as u32
}

/// Whether `name` carries the audio extension, in any case.
pub fn has_audio_extension(name: &str) -> (r: bool)
    ensures
        r == is_audio_name(name@),
{
    let cs = chars_of(name);
    let n = cs.len();
    if n < 5 {
        return false;
    }
    cs[n - 4] == '.' && is_lower_or_upper(cs[n - 3], 'm') && is_lower_or_upper(cs[n - 2], 'p')
        && cs[n - 1] == '3'
}

/// The catalog of a folder from what reading it gave: the audio file names in
/// listing order, or the error for a missing folder, an unreadable one, or one
/// without audio files.
pub fn catalog(listing: DirListing) -> (r: Result<Vec<String>, MusicError>)
    ensures
        match catalog_of(listing) {
            Ok(names) => r is Ok && r->Ok_0@ == names,
            Err(e) => r == Err::<Vec<String>, MusicError>(e),
        },
{
    match listing {
        DirListing::Missing => Err(MusicError::FolderNotFound),
        DirListing::Unreadable => Err(MusicError::ReadError),
        DirListing::Entries(v) => {
            let mut songs: Vec<String> = Vec::new();
            let mut i: usize = 0;
            while i < v.len()
                invariant
                    i <= v@.len(),
                    songs@ == audio_names(v@.subrange(0, i as int)),
                decreases v@.len() - i,
            {
                assert(v@.subrange(0, i + 1).drop_last() =~= v@.subrange(0, i as int));
                if has_audio_extension(v[i].as_str()) {
                    songs.push(v[i].clone());
                }
                i = i + 1;
            }
            assert(v@.subrange(0, v@.len() as int) =~= v@);
            if songs.len() == 0 {
                Err(MusicError::NoMusicFiles)
            } else {
                Ok(songs)
            }
        }
    }
}

/// The path of `name` inside `folder`, joined as Unix paths join: an
/// absolute `name` stands alone, and a separator goes between the two unless
/// `folder` is empty or already ends with one.
pub open spec fn joined(folder: Seq<char>, name: Seq<char>) -> Seq<char> {
    if name.len() > 0 && name[0] == '/' {
        name
    } else if folder.len() == 0 || folder.last() == '/' {
        folder + name
    } else {
        folder + seq!['/'] + name
    }
}

/// The path of the song `name` in `folder`.
pub fn song_path(folder: &str, name: &str) -> (r: String)
    ensures
        r@ == joined(folder@, name@),
{
    let f = chars_of(folder);
    let n = chars_of(name);
    if n.len() > 0 && n[0] == '/' {
        return String::from_str(name);
    }
    proof {
        reveal_strlit("/");
    }
    let mut p = String::from_str(folder);
    if f.len() > 0 && f[f.len() - 1] != '/' {
        p.append("/");
        assert("/"@ =~= seq!['/']);
    }
    p.append(name);
    p
}

/// Relies on std::path::Path::exists: asks the file system whether `p` names
/// an existing entry. The answer depends on the disk, so nothing is promised.
#[verifier::external_body]
fn path_exists(p: &String) -> (r: bool) {
    std::path::Path::new(p.as_str()).exists()
}

/// The path of the listed song `song_name` in `folder`, if that path exists at
/// the time of the call; `None` when it has gone since it was listed.
pub fn find_song(folder: &str, song_name: &str) -> (r: Option<String>)
    ensures
        r matches Some(p) ==> p@ == joined(folder@, song_name@),
{
    let path = song_path(folder, song_name);
    if path_exists(&path) {
        Some(path)
    } else {
        None
    }
}

} // verus!
