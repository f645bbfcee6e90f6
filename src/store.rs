//! Where the content of a published version is stored.
use vstd::prelude::*;

verus! {

/// Relies on `String::push`, which appends one character.
#[verifier::external_body]
pub(crate) fn push_char(s: &mut String, c: char)
    ensures
        final(s)@ == old(s)@.push(c),
{
    s.push(c)
}

/// The characters of `s`, in order.
pub fn chars_of(s: &str) -> (r: Vec<char>)
    ensures
        r@ == s@,
{
    let mut r: Vec<char> = Vec::new();
    for c in it: s.chars()
        invariant
            r@ == it.seq().subrange(0, it.index() as int),
    {
        r.push(c);
    }
    r
}

/// Appends every character of `t` to `s`.
pub(crate) fn push_chars(s: &mut String, t: &Vec<char>)
    ensures
        final(s)@ == old(s)@ + t@,
{
    let mut i: usize = 0;
    while i < t.len()
        invariant
            i <= t.len(),
            s@ == old(s)@ + t@.subrange(0, i as int),
        decreases t.len() - i,
    {
        push_char(s, t[i]);
        assert(t@.subrange(0, i as int + 1) == t@.subrange(0, i as int).push(t@[i as int]));
        i = i + 1;
    }
    assert(t@.subrange(0, t.len() as int) == t@);
}

/// The shard directory of a package name, or `None` for an empty name: the
/// length for names of one or two characters, the length and the first
/// character for three, the first two and the next two characters otherwise.
pub open spec fn shard_spec(name: Seq<char>) -> Option<Seq<char>> {
    if name.len() == 0 {
        None
    } else if name.len() == 1 {
        Some(seq!['1'])
    } else if name.len() == 2 {
        Some(seq!['2'])
    } else if name.len() == 3 {
        Some(seq!['3', '/', name[0]])
    } else {
        Some(seq![name[0], name[1], '/', name[2], name[3]])
    }
}

/// The path of a version's content file relative to the store's base
/// directory: `<shard>/<name>-<version>.crate`.
pub open spec fn crate_path_spec(name: Seq<char>, version: Seq<char>) -> Option<Seq<char>> {
    match shard_spec(name) {
        None => None,
        Some(shard) => Some(
            shard + seq!['/'] + name + seq!['-'] + version + seq!['.', 'c', 'r', 'a', 't', 'e'],
        ),
    }
}

/// The shard directory for a package name; `None` when the name is empty.
pub fn shard(name: &str) -> (r: Option<String>)
    ensures
        r matches Some(s) ==> shard_spec(name@) == Some(s@),
        r is None ==> shard_spec(name@) is None,
{
    let cs = chars_of(name);
    let n = cs.len();
    if n == 0 {
        return None;
    }
    let mut s = String::new();
    if n == 1 {
        push_char(&mut s, '1');
    } else if n == 2 {
        push_char(&mut s, '2');
    } else if n == 3 {
        push_char(&mut s, '3');
        push_char(&mut s, '/');
        push_char(&mut s, cs[0]);
    } else {
        push_char(&mut s, cs[0]);
        push_char(&mut s, cs[1]);
        push_char(&mut s, '/');
        push_char(&mut s, cs[2]);
        push_char(&mut s, cs[3]);
    }
    assert(s@ == shard_spec(name@)->Some_0);
    Some(s)
}

/// The path, relative to the store's base directory, under which the content
/// of `name` at `version` is written; `None` when the name is empty.
pub fn crate_file_path(name: &str, version: &str) -> (r: Option<String>)
    ensures
        r matches Some(p) ==> crate_path_spec(name@, version@) == Some(p@),
        r is None ==> crate_path_spec(name@, version@) is None,
{
    let mut p = match shard(name) {
        Some(s) => s,
        None => return None,
    };
    push_char(&mut p, '/');
    push_chars(&mut p, &chars_of(name));
    push_char(&mut p, '-');
    push_chars(&mut p, &chars_of(version));
    push_char(&mut p, '.');
    push_char(&mut p, 'c');
    push_char(&mut p, 'r');
    push_char(&mut p, 'a');
    push_char(&mut p, 't');
    push_char(&mut p, 'e');
    Some(p)
}

} // verus!
