//! Entry records and the explorer's state: the current directory path and its
//! ordered listing. Reading the filesystem is the caller's business; the
//! explorer only holds and updates the state it is handed.

use vstd::prelude::*;
use vstd::string::StrSliceExecFns;
use vstd::string::StringExecFns;

verus! {

/// Immutable snapshot of one filesystem entry. `modified` is seconds since the
/// Unix epoch, when known.
#[derive(Debug)]
pub struct FileInfo {
    pub path: String,
    pub name: String,
    pub is_directory: bool,
    pub size: u64,
    pub modified: Option<u64>,
}

impl Clone for FileInfo {
    fn clone(&self) -> (r: Self)
        ensures
            r == *self,
    {
        FileInfo {
            path: self.path.clone(),
            name: self.name.clone(),
            is_directory: self.is_directory,
            size: self.size,
            modified: self.modified,
        }
    }
}

/// `i` is the position of the last `/` in `path`.
pub open spec fn last_slash_at(path: Seq<char>, i: int) -> bool {
    &&& 0 <= i < path.len()
    &&& path[i] == '/'
    &&& forall|j: int| i < j < path.len() ==> #[trigger] path[j] != '/'
}

/// The parent of a canonical absolute path: everything before the last `/`,
/// the root itself for a top-level entry, and nothing for the root or for a
/// path without separators.
pub open spec fn parent_of(path: Seq<char>) -> Option<Seq<char>> {
    if exists|i: int| last_slash_at(path, i) {
        let i = choose|i: int| last_slash_at(path, i);
        if i == 0 {
            if path.len() == 1 {
                None
            } else {
                Some(path.take(1))
            }
        } else {
            Some(path.take(i))
        }
    } else {
        None
    }
}

proof fn lemma_last_slash_unique(path: Seq<char>, i1: int, i2: int)
    requires
        last_slash_at(path, i1),
        last_slash_at(path, i2),
    ensures
        i1 == i2,
{
    if i1 < i2 {
        assert(path[i2] != '/');
    }
    if i2 < i1 {
        assert(path[i1] != '/');
    }
}

/// The explorer's state: where we are and what the listing there holds. The
/// fields are public so that contracts elsewhere can speak about them; callers
/// refresh the listing by handing a new one to `navigate_to` or `go_up`.
pub struct FileExplorer {
    pub current_path: String,
    pub files: Vec<FileInfo>,
}

impl FileExplorer {
    pub fn new(path: String, files: Vec<FileInfo>) -> (e: Self)
        ensures
            e.current_path == path,
            e.files == files,
    {
        FileExplorer { current_path: path, files }
    }

    pub fn current_path(&self) -> (p: &String)
        ensures
            *p == self.current_path,
    {
        &self.current_path
    }

    pub fn files(&self) -> (f: &Vec<FileInfo>)
        ensures
            *f == self.files,
    {
        &self.files
    }

    /// Move to `path`, whose listing the caller has read.
    pub fn navigate_to(&mut self, path: String, listing: Vec<FileInfo>)
        ensures
            final (self).current_path == path,
            final (self).files == listing,
    {
        self.current_path = path;
        self.files = listing;
    }

    /// The parent directory of the current path, if there is one.
    pub fn parent_path(&self) -> (r: Option<String>)
        ensures
            match r {
                Some(p) => parent_of(self.current_path@) == Some(p@),
                None => parent_of(self.current_path@) is None,
            },
    {
        let s = self.current_path.as_str();
        let n = s.unicode_len();
        let mut last: usize = 0;
        let mut found = false;
        let mut i: usize = 0;
        while i < n
            invariant
                n == s@.len(),
                i <= n,
                found ==> last < i && s@[last as int] == '/' && forall|j: int|
                    last < j < i ==> #[trigger] s@[j] != '/',
                !found ==> forall|j: int| 0 <= j < i ==> #[trigger] s@[j] != '/',
            decreases n - i,
        {
            if s.get_char(i) == '/' {
                last = i;
                found = true;
            }
            i = i + 1;
        }
        if !found {
            proof {
                assert forall|k: int| !last_slash_at(s@, k) by {
                    if 0 <= k < s@.len() {
                        assert(s@[k] != '/');
                    }
                }
            }
            return None;
        }
        proof {
            assert(last_slash_at(s@, last as int));
            let c = choose|k: int| last_slash_at(s@, k);
            lemma_last_slash_unique(s@, c, last as int);
        }
        if last == 0 {
            if n == 1 {
                None
            } else {
                let p = s.substring_char(0, 1);
                proof {
                    assert(p@ =~= s@.take(1));
                }
                Some(String::from_str(p))
            }
        } else {
            let p = s.substring_char(0, last);
            proof {
                assert(p@ =~= s@.take(last as int));
            }
            Some(String::from_str(p))
        }
    }

    /// Move up to the parent directory, whose listing the caller has read.
    pub fn go_up(&mut self, listing: Vec<FileInfo>)
        requires
            parent_of(old(self).current_path@) is Some,
        ensures
            Some(final (self).current_path@) == parent_of(old(self).current_path@),
            final (self).files == listing,
    {
        let parent = self.parent_path();
        match parent {
            Some(p) => {
                self.current_path = p;
                self.files = listing;
            },
            None => {
                proof {
                    assert(false);
                }
            },
        }
    }
}

} // verus!
