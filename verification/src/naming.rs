//! Names of backup files: how they are built, recognised and turned into ids.

use vstd::prelude::*;
use vstd::string::*;
use crate::text::{ends_with, joined, same_text, starts_with};

verus! {

/// What every backup file name begins with.
pub open spec fn backup_prefix() -> Seq<char> {
    "salon_backup_"@
}

/// What every backup file name ends with.
pub open spec fn backup_suffix() -> Seq<char> {
    ".db"@
}

/// What is added to the data file's name for the copy kept during a restore.
pub open spec fn checkpoint_suffix() -> Seq<char> {
    ".bak"@
}

/// The name of the backup file that carries the time stamp `stamp`.
pub open spec fn backup_name(stamp: Seq<char>) -> Seq<char> {
    backup_prefix() + stamp + backup_suffix()
}

/// Whether a file name is that of a snapshot: something, then `.db`.
pub open spec fn is_backup_name(name: Seq<char>) -> bool {
    name.len() >= 4 && ends_with(name, backup_suffix())
}

/// A file name without `.db` at its end, if it ends so.
pub open spec fn stem_of(name: Seq<char>) -> Seq<char> {
    if ends_with(name, backup_suffix()) {
        name.subrange(0, name.len() - backup_suffix().len())
    } else {
        name
    }
}

/// The id of the backup in the file `name`: the name without `.db` at its end
/// and without `salon_backup_` at its start.
pub open spec fn backup_id_of(name: Seq<char>) -> Seq<char> {
    let stem = stem_of(name);
    if starts_with(stem, backup_prefix()) {
        stem.subrange(backup_prefix().len() as int, stem.len() as int)
    } else {
        stem
    }
}

/// Builds the file name for a backup taken at the time that `stamp` spells.
pub fn backup_filename(stamp: &str) -> (name: String)
    ensures
        name@ == backup_name(stamp@),
{
    let head = joined("salon_backup_", stamp);
    joined(head.as_str(), ".db")
}

/// Whether a directory entry of this name is a snapshot.
pub fn has_backup_extension(name: &str) -> (r: bool)
    ensures
        r == is_backup_name(name@),
{
    let n = name.unicode_len();
    proof {
        reveal_strlit(".db");
    }
    if n < 4 {
        return false;
    }
    let r = name.get_char(n - 3) == '.' && name.get_char(n - 2) == 'd' && name.get_char(n - 1)
        == 'b';
    proof {
        let tail = name@.subrange(name@.len() - 3, name@.len() as int);
        if r {
            assert(tail =~= ".db"@);
        } else {
            assert(tail[0] == name@[n - 3]);
            assert(tail[1] == name@[n - 2]);
            assert(tail[2] == name@[n - 1]);
        }
    }
    r
}

/// The id under which the backup file `name` is listed.
pub fn backup_id_from_filename(name: &str) -> (id: String)
    ensures
        id@ == backup_id_of(name@),
{
    let n = name.unicode_len();
    proof {
        reveal_strlit("salon_backup_");
        reveal_strlit(".db");
    }
    let stem = if n >= 3 && same_text(name.substring_char(n - 3, n), ".db") {
        name.substring_char(0, n - 3)
    } else {
        assert(name@.subrange(0, n as int) =~= name@);
        name.substring_char(0, n)
    };
    let m = stem.unicode_len();
    if m >= 13 && same_text(stem.substring_char(0, 13), "salon_backup_") {
        String::from_str(stem.substring_char(13, m))
    } else {
        String::from_str(stem)
    }
}

/// The name of the copy of the data file that a restore keeps until it is done.
pub fn checkpoint_name(live: &str) -> (name: String)
    ensures
        name@ == live@ + checkpoint_suffix(),
{
    joined(live, ".bak")
}

/// A backup's own name is recognised as a snapshot.
pub proof fn lemma_backup_name_is_recognised(stamp: Seq<char>)
    ensures
        is_backup_name(backup_name(stamp)),
        backup_id_of(backup_name(stamp)) == stamp,
{
    reveal_strlit("salon_backup_");
    reveal_strlit(".db");
    let name = backup_name(stamp);
    assert(name.subrange(name.len() - 3, name.len() as int) =~= backup_suffix());
    let stem = stem_of(name);
    assert(stem =~= backup_prefix() + stamp);
    assert(stem.subrange(0, 13) =~= backup_prefix());
    assert(stem.subrange(13, stem.len() as int) =~= stamp);
}

} // verus!
