//! Path of the backup file.

use vstd::prelude::*;
use vstd::string::*;

verus! {

/// `dir` without the slashes at its end.
pub open spec fn trimmed(dir: Seq<char>) -> Seq<char>
    decreases dir.len(),
{
    if dir.len() > 0 && dir.last() == '/' {
        trimmed(dir.drop_last())
    } else {
        dir
    }
}

/// `file` inside `dir`. A directory of slashes alone adds nothing.
pub open spec fn joined(dir: Seq<char>, file: Seq<char>) -> Seq<char> {
    if trimmed(dir).len() == 0 {
        file
    } else {
        trimmed(dir) + "/"@ + file
    }
}

/// The path of `file` inside `dir`.
pub fn join_dir(dir: &str, file: &str) -> (path: String)
    ensures
        path@ == joined(dir@, file@),
{
    let mut end: usize = dir.unicode_len();
    assert(dir@.take(end as int) =~= dir@);
    while end > 0 && dir.get_char(end - 1) == '/'
        invariant
            end <= dir@.len(),
            trimmed(dir@.take(end as int)) == trimmed(dir@),
        decreases end,
    {
        assert(dir@.take(end as int).drop_last() =~= dir@.take(end - 1));
        end = end - 1;
    }
    assert(trimmed(dir@) == dir@.take(end as int));
    if end == 0 {
        file.to_owned()
    } else {
        let head: &str = dir.substring_char(0, end);
        assert(head@ =~= trimmed(dir@));
        head.to_owned().concat("/").concat(file)
    }
}

/// Slashes at the end of the directory make no difference, however many.
pub proof fn law_trailing_slashes_make_no_difference(dir: Seq<char>, n: nat, file: Seq<char>)
    ensures
        joined(dir + Seq::new(n, |i: int| '/'), file) == joined(dir, file),
    decreases n,
{
    let slashed = dir + Seq::new(n, |i: int| '/');
    if n == 0 {
        assert(slashed =~= dir);
    } else {
        let fewer = (n - 1) as nat;
        law_trailing_slashes_make_no_difference(dir, fewer, file);
        assert(slashed.drop_last() =~= dir + Seq::new(fewer, |i: int| '/'));
    }
}

/// The path ends with the file's name.
pub proof fn law_path_ends_with_file(dir: Seq<char>, file: Seq<char>)
    ensures
        joined(dir, file).len() >= file.len(),
        joined(dir, file).skip(joined(dir, file).len() - file.len()) == file,
{
    let p = joined(dir, file);
    assert(p.skip(p.len() - file.len()) =~= file);
}

/// The file lies in the directory: after the directory, as it was given, come
/// one slash and the file's name.
pub proof fn law_file_lies_in_the_directory(dir: Seq<char>, file: Seq<char>)
    requires
        dir.len() > 0,
        dir.last() != '/',
    ensures
        joined(dir, file) == dir + seq!['/'] + file,
{
    reveal_strlit("/");
    assert("/"@ =~= seq!['/']);
}

/// No directory, or slashes alone, add nothing to the file's name.
pub proof fn law_slashes_alone_name_no_directory(n: nat, file: Seq<char>)
    ensures
        joined(Seq::new(n, |i: int| '/'), file) == file,
{
    let slashes = Seq::new(n, |i: int| '/');
    law_trailing_slashes_make_no_difference(Seq::empty(), n, file);
    assert(Seq::<char>::empty() + slashes =~= slashes);
}

/// Different directories give different paths.
pub proof fn law_directories_stay_apart(a: Seq<char>, b: Seq<char>, file: Seq<char>)
    requires
        a.len() > 0,
        a.last() != '/',
        b.len() > 0,
        b.last() != '/',
        joined(a, file) == joined(b, file),
    ensures
        a == b,
{
    law_file_lies_in_the_directory(a, file);
    law_file_lies_in_the_directory(b, file);
    let p = joined(a, file);
    assert(p.len() == a.len() + 1 + file.len());
    assert(p.len() == b.len() + 1 + file.len());
    assert(p.take(a.len() as int) =~= a);
    assert(p.take(b.len() as int) =~= b);
}

} // verus!
