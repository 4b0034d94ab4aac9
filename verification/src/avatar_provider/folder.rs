//! A provider backed by a finite list of image files discovered once.
//! It owns the only exhaustible backing set: paths are handed out one at
//! a time until none is left, which is terminal.

use vstd::prelude::*;
use vstd::string::StrSliceExecFns;
use crate::avatar_image::{decode_avatar, decoded_dims, Avatar};
use crate::avatar_provider::FetchError;

verus! {

/// Lower-case code of an ASCII letter; other characters unchanged.
pub open spec fn lower_code(c: char) -> int {
    if 65 <= c as int <= 90 {
        c as int + 32
    } else {
        c as int
    }
}

/// The position right after the last `/`, or the start of the text.
pub open spec fn file_name_start(s: Seq<char>, i: int) -> int
    decreases i,
{
    if 0 < i <= s.len() && s[i - 1] != '/' {
        file_name_start(s, i - 1)
    } else {
        i
    }
}

/// The position right after the last `.` of the file name, where a
/// non-empty stem precedes that dot; `None` where the name has no
/// extension.
pub open spec fn extension_start(s: Seq<char>, i: int) -> Option<int>
    decreases i,
{
    if 0 < i <= s.len() && s[i - 1] != '/' {
        if s[i - 1] == '.' && file_name_start(s, i - 1) < i - 1 {
            Some(i)
        } else {
            extension_start(s, i - 1)
        }
    } else {
        None
    }
}

/// The extension is one of the recognized image extensions, in any case.
pub open spec fn is_recognized_extension(e: Seq<char>) -> bool {
    ||| (e.len() == 3 && lower_code(e[0]) == 112 && lower_code(e[1]) == 110 && lower_code(e[2])
        == 103)  // png
    ||| (e.len() == 3 && lower_code(e[0]) == 106 && lower_code(e[1]) == 112 && lower_code(e[2])
        == 103)  // jpg
    ||| (e.len() == 4 && lower_code(e[0]) == 106 && lower_code(e[1]) == 112 && lower_code(e[2])
        == 101 && lower_code(e[3]) == 103)  // jpeg
}

/// The path names a file whose extension is a recognized image format.
pub open spec fn is_image_path(s: Seq<char>) -> bool {
    match extension_start(s, s.len() as int) {
        Some(e) => is_recognized_extension(s.subrange(e, s.len() as int)),
        None => false,
    }
}

proof fn lemma_file_name_start(s: Seq<char>, i: int)
    requires
        0 <= i <= s.len(),
    ensures
        0 <= file_name_start(s, i) <= i,
    decreases i,
{
    if 0 < i && s[i - 1] != '/' {
        lemma_file_name_start(s, i - 1);
    }
}

proof fn lemma_extension_start(s: Seq<char>, i: int)
    requires
        0 <= i <= s.len(),
    ensures
        extension_start(s, i) matches Some(e) ==> 0 < e <= i,
    decreases i,
{
    if 0 < i && s[i - 1] != '/' {
        lemma_extension_start(s, i - 1);
    }
}

/// Finds where the extension of the path's file name starts, scanning
/// from the end of the text.
fn find_extension_start(path: &str) -> (r: Option<usize>)
    ensures
        match r {
            Some(e) => extension_start(path@, path@.len() as int) == Some(e as int),
            None => extension_start(path@, path@.len() as int) is None,
        },
{
    let ghost s = path@;
    let n = path.unicode_len();
    let mut i: usize = n;
    while i > 0
        invariant
            s == path@,
            n == s.len(),
            0 <= i <= n,
            extension_start(s, n as int) == extension_start(s, i as int),
        decreases i,
    {
        let c = path.get_char(i - 1);
        if c == '/' {
            return None;
        }
        if c == '.' {
            // the stem before this dot must be non-empty
            let stem_nonempty = if i >= 2 {
                path.get_char(i - 2) != '/'
            } else {
                false
            };
            proof {
                if i >= 2 && s[i - 2] != '/' {
                    lemma_file_name_start(s, i - 2);
                    assert(file_name_start(s, i - 1) <= i - 2);
                } else {
                    assert(file_name_start(s, i - 1) == i - 1);
                }
            }
            if stem_nonempty {
                return Some(i);
            } else {
                proof {
                    assert(extension_start(s, i as int - 1) is None);
                }
                return None;
            }
        }
        i -= 1;
    }
    None
}

/// Whether the character at `j`, lowered, has the given code.
fn lower_at_is(path: &str, j: usize, code: u32) -> (b: bool)
    requires
        j < path@.len(),
    ensures
        b == (lower_code(path@[j as int]) == code),
{
    let u = path.get_char(j) as u32;
    let lowered = if 65 <= u && u <= 90 {
        u + 32
    } else {
        u
    };
    lowered == code
}

/// Whether the path names a file with a recognized image extension
/// (`png`, `jpg` or `jpeg`, in any case).
pub fn has_image_extension(path: &str) -> (b: bool)
    ensures
        b == is_image_path(path@),
{
    let ghost s = path@;
    let n = path.unicode_len();
    let e = match find_extension_start(path) {
        Some(e) => e,
        None => {
            return false;
        },
    };
    proof {
        lemma_extension_start(s, s.len() as int);
    }
    let len = n - e;
    if len == 3 {
        let b = (lower_at_is(path, e, 112) && lower_at_is(path, e + 1, 110) && lower_at_is(
            path,
            e + 2,
            103,
        )) || (lower_at_is(path, e, 106) && lower_at_is(path, e + 1, 112) && lower_at_is(
            path,
            e + 2,
            103,
        ));
        b
    } else if len == 4 {
        let b = lower_at_is(path, e, 106) && lower_at_is(path, e + 1, 112) && lower_at_is(
            path,
            e + 2,
            101,
        ) && lower_at_is(path, e + 3, 103);
        b
    } else {
        false
    }
}

/// Predicate form of `is_image_path` over owned path strings.
pub open spec fn image_path_pred() -> spec_fn(String) -> bool {
    |p: String| is_image_path(p@)
}

/// A provider holding the finite list of image files found in a source
/// directory. Paths are handed out from the back of the list; the list
/// only ever shrinks, so exhaustion cannot be undone.
#[derive(Debug)]
pub struct FolderProvider {
    images: Vec<String>,
}

impl FolderProvider {
    /// The paths not yet handed out.
    pub closed spec fn images(&self) -> Seq<String> {
        self.images@
    }

    /// Keeps, of the directory entries it is given, exactly the paths
    /// with a recognized image extension, in order. The entries are
    /// expected to be paths of regular files, as a directory listing
    /// yields them: telling files from directories is the lister's
    /// duty, not this filter's.
    pub fn new(entries: Vec<String>) -> (r: Self)
        ensures
            r.images() == entries@.filter(image_path_pred()),
    {
        let ghost pred = image_path_pred();
        let mut images: Vec<String> = Vec::new();
        proof {
            reveal(Seq::filter);
            assert(entries@.subrange(0, 0).filter(pred) =~= images@);
        }
        let mut k: usize = 0;
        while k < entries.len()
            invariant
                0 <= k <= entries@.len(),
                images@ == entries@.subrange(0, k as int).filter(pred),
                pred == image_path_pred(),
            decreases entries@.len() - k,
        {
            let keep = has_image_extension(entries[k].as_str());
            proof {
                reveal(Seq::filter);
                let prefix = entries@.subrange(0, k as int);
                let extended = entries@.subrange(0, k as int + 1);
                assert(extended.drop_last() =~= prefix);
                assert(extended.last() == entries@[k as int]);
            }
            if keep {
                let path = entries[k].clone();
                images.push(path);
            }
            k += 1;
        }
        proof {
            assert(entries@.subrange(0, entries@.len() as int) =~= entries@);
        }
        FolderProvider { images }
    }

    /// How many image files are still backed.
    pub fn how_much_is_left(&self) -> (r: Option<usize>)
        ensures
            r == Some(self.images().len() as usize),
    {
        Some(self.images.len())
    }

    /// Removes and returns one path, or reports exhaustion once none is
    /// left. A path once handed out never comes back, so after the list
    /// empties every later call reports exhaustion again.
    pub fn next_image_path(&mut self) -> (r: Result<String, FetchError>)
        ensures
            old(self).images().len() == 0 ==> r == Err::<String, FetchError>(
                FetchError::NoMoreAvatars,
            ) && final(self).images() == old(self).images(),
            old(self).images().len() > 0 ==> r == Ok::<String, FetchError>(
                old(self).images().last(),
            ) && final(self).images() == old(self).images().drop_last(),
    {
        match self.images.pop() {
            Some(path) => {
                proof {
                    assert(self.images@ =~= old(self).images@.drop_last());
                }
                Ok(path)
            },
            None => Err(FetchError::NoMoreAvatars),
        }
    }

    /// Decodes the bytes read from one of its paths: it succeeds
    /// exactly where the bytes hold a decodable image, so a directory
    /// of decodable files yields one avatar per path handed out. A file
    /// that does not decode is a transient failure of this cycle, never
    /// exhaustion: the backing list is unaffected.
    pub fn decode_image(bytes: &[u8]) -> (r: Result<Avatar, FetchError>)
        ensures
            r is Ok <==> decoded_dims(bytes@) is Some,
            r matches Ok(av) ==> decoded_dims(bytes@) == Some((av.width(), av.height())),
            r matches Err(e) ==> e == FetchError::ImageError && e.is_transient(),
    {
        decode_avatar(bytes)
    }

    /// The backing list is held in one vector, so the count it reports
    /// always fits a machine word: callers may decrement or compare it
    /// without truncation.
    pub proof fn lemma_count_bounded(&self)
        ensures
            self.images().len() <= usize::MAX,
    {
        broadcast use vstd::std_specs::vec::axiom_spec_len;

        assert(vstd::std_specs::vec::spec_vec_len(&self.images) == self.images@.len());
    }
}

/// After `k` paths have been handed out of a backing list of `n`, the
/// list holds `n - k` paths; so exactly `n` fetches find a path, and
/// from then on every fetch reports exhaustion: the remaining count
/// falls by one per success and never goes below zero.
pub proof fn lemma_folder_drain(images: Seq<String>, k: int)
    requires
        0 <= k <= images.len(),
    ensures
        drained(images, k).len() == images.len() - k,
        drained(images, k).len() == 0 <==> k == images.len(),
    decreases k,
{
    if k > 0 {
        lemma_folder_drain(images, k - 1);
    }
}

/// The backing list after `k` pops.
pub open spec fn drained(images: Seq<String>, k: int) -> Seq<String>
    decreases k,
{
    if k <= 0 {
        images
    } else {
        drained(images, k - 1).drop_last()
    }
}

} // verus!
