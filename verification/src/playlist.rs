//! The playlist: an ordered list of file names played in a loop, built
//! either from a single item or from the entries of an m3u file.

use vstd::prelude::*;

verus! {

/// Whether an m3u line names a playlist entry: non-empty and not a comment.
pub open spec fn m3u_keeps(s: String) -> bool {
    s@.len() > 0 && s@[0] != '#'
}

/// The playlist entries among a sequence of m3u lines, in order.
pub open spec fn kept_entries(lines: Seq<String>) -> Seq<String> {
    lines.filter(|s: String| m3u_keeps(s))
}

proof fn lemma_kept_entries_empty(lines: Seq<String>)
    requires
        lines.len() == 0,
    ensures
        kept_entries(lines).len() == 0,
{
    reveal(Seq::filter);
}

proof fn lemma_kept_entries_step(lines: Seq<String>, i: int)
    requires
        0 <= i < lines.len(),
    ensures
        kept_entries(lines.take(i + 1)) == (if m3u_keeps(lines[i]) {
            kept_entries(lines.take(i)).push(lines[i])
        } else {
            kept_entries(lines.take(i))
        }),
{
    reveal(Seq::filter);
    let a = lines.take(i + 1);
    assert(a.drop_last() =~= lines.take(i));
    assert(a.last() == lines[i]);
}

/// A looping list of file names, each played relative to `cwd`.
pub struct Playlist {
    cwd: String,
    files: Vec<String>,
    cursor: usize,
}

impl Playlist {
    /// The prefix glued before every entry.
    pub closed spec fn cwd_spec(&self) -> Seq<char> {
        self.cwd@
    }

    /// The entries, in play order.
    pub closed spec fn files_strings(&self) -> Seq<String> {
        self.files@
    }

    /// The index of the entry returned by the next call.
    pub closed spec fn cursor_spec(&self) -> int {
        self.cursor as int
    }

    /// At least one entry, and the cursor points at one.
    pub open spec fn wf(&self) -> bool {
        &&& self.files_strings().len() > 0
        &&& 0 <= self.cursor_spec() < self.files_strings().len()
    }

    /// A playlist of one file. An absolute path (leading '/') is kept as
    /// is; a relative one is played from the current directory.
    pub fn new_with_single_item(file: String) -> (r: Self)
        ensures
            r.wf(),
            r.files_strings() =~= seq![file],
            r.cursor_spec() == 0,
            file@.len() > 0 && file@[0] == '/' ==> r.cwd_spec() == Seq::<char>::empty(),
            !(file@.len() > 0 && file@[0] == '/') ==> r.cwd_spec() == "./"@,
    {
        let absolute = file.as_str().unicode_len() > 0 && file.as_str().get_char(0) == '/';
        let cwd = if absolute {
            String::new()
        } else {
            String::from_str("./")
        };
        let mut files: Vec<String> = Vec::new();
        files.push(file);
        Playlist { cwd, files, cursor: 0 }
    }

    /// A playlist of the entries among the given m3u lines, played relative
    /// to `cwd`; `None` when no line names an entry.
    pub fn from_m3u_lines(cwd: String, lines: Vec<String>) -> (r: Option<Self>)
        ensures
            r is Some <==> kept_entries(lines@).len() > 0,
            r is Some ==> ({
                &&& r.unwrap().wf()
                &&& r.unwrap().cwd_spec() == cwd@
                &&& r.unwrap().files_strings() == kept_entries(lines@)
                &&& r.unwrap().cursor_spec() == 0
            }),
    {
        let mut files: Vec<String> = Vec::new();
        let mut i: usize = 0;
        proof {
            lemma_kept_entries_empty(lines@.take(0));
            assert(files@ =~= kept_entries(lines@.take(0)));
        }
        while i < lines.len()
            invariant
                i <= lines@.len(),
                files@ == kept_entries(lines@.take(i as int)),
            decreases lines@.len() - i,
        {
            let line = lines[i].clone();
            let keep = line.as_str().unicode_len() > 0 && line.as_str().get_char(0) != '#';
            proof {
                lemma_kept_entries_step(lines@, i as int);
            }
            if keep {
                files.push(line);
            }
            i = i + 1;
        }
        proof {
            assert(lines@.take(lines@.len() as int) =~= lines@);
        }
        if files.len() == 0 {
            None
        } else {
            Some(Playlist { cwd, files, cursor: 0 })
        }
    }

    /// The path of the next entry to play: the prefix glued to the entry at
    /// the cursor. The cursor advances and wraps at the end of the list, so
    /// the playlist repeats forever.
    pub fn next_file(&mut self) -> (r: String)
        requires
            old(self).wf(),
        ensures
            final(self).wf(),
            r@ == old(self).cwd_spec() + old(self).files_strings()[old(self).cursor_spec()]@,
            final(self).cwd_spec() == old(self).cwd_spec(),
            final(self).files_strings() == old(self).files_strings(),
            final(self).cursor_spec() == (if old(self).cursor_spec() == old(
                self,
            ).files_strings().len() - 1 {
                0int
            } else {
                old(self).cursor_spec() + 1
            }),
    {
        let result = self.cwd.clone().concat(self.files[self.cursor].as_str());
        self.cursor = if self.cursor == self.files.len() - 1 {
            0
        } else {
            self.cursor + 1
        };
        result
    }
}

} // verus!
