//! Paths as texts: joining, stems and parents.

use vstd::prelude::*;

use crate::text::to_chars;

verus! {

/// The character that separates the parts of a path.
pub open spec fn separator() -> char {
    '/'
}

/// The path of `name` inside the directory `base`. An absolute `name` stands
/// for itself. Otherwise `name` follows `base`, with a separator between them
/// unless `base` is empty or ends with one.
pub open spec fn joined_path(base: Seq<char>, name: Seq<char>) -> Seq<char> {
    if name.len() > 0 && name[0] == separator() {
        name
    } else if base.len() == 0 || base.last() == separator() {
        base + name
    } else {
        base.push(separator()) + name
    }
}

/// The path of `name` inside the directory `base`.
pub fn join_path(base: &str, name: &str) -> (r: String)
    ensures
        r@ == joined_path(base@, name@),
{
    let name_len = name.unicode_len();
    if name_len > 0 && name.get_char(0) == '/' {
        return name.to_owned();
    }
    let base_len = base.unicode_len();
    if base_len == 0 || base.get_char(base_len - 1) == '/' {
        base.to_owned().concat(name)
    } else {
        proof {
            reveal_strlit("/");
            assert("/"@ =~= seq![separator()]);
            assert(base@ + "/"@ =~= base@.push(separator()));
        }
        base.to_owned().concat("/").concat(name)
    }
}

/// The position of the last `c` in a text, or -1 where it has none.
pub open spec fn last_index(s: Seq<char>, c: char) -> int
    decreases s.len(),
{
    if s.len() == 0 {
        -1
    } else if s.last() == c {
        s.len() - 1
    } else {
        last_index(s.drop_last(), c)
    }
}

/// The position of the last `c` among the characters, if there is one.
pub fn find_last(chars: &Vec<char>, c: char) -> (r: Option<usize>)
    ensures
        match r {
            Some(i) => i == last_index(chars@, c) && i < chars@.len(),
            None => last_index(chars@, c) == -1,
        },
{
    let mut k: usize = chars.len();
    assert(chars@.take(k as int) =~= chars@);
    while k > 0 && chars[k - 1] != c
        invariant
            k <= chars@.len(),
            last_index(chars@, c) == last_index(chars@.take(k as int), c),
        decreases k,
    {
        assert(chars@.take(k as int).drop_last() =~= chars@.take(k - 1));
        k -= 1;
    }
    if k > 0 {
        assert(chars@.take(k as int).last() == c);
        Some(k - 1)
    } else {
        None
    }
}

/// The stem of a file name: the name up to its last dot. A name without a
/// dot, one whose only dot is its first character, and the name `..` are
/// their own stems.
pub open spec fn stem_of(name: Seq<char>) -> Seq<char> {
    if name == seq!['.', '.'] || last_index(name, '.') <= 0 {
        name
    } else {
        name.take(last_index(name, '.'))
    }
}

/// The stem of a file name.
pub fn file_stem(name: &str) -> (r: String)
    ensures
        r@ == stem_of(name@),
{
    let cs = to_chars(name);
    if cs.len() == 2 && cs[0] == '.' && cs[1] == '.' {
        assert(name@ =~= seq!['.', '.']);
        return name.to_owned();
    }
    match find_last(&cs, '.') {
        Some(i) => {
            if i == 0 {
                name.to_owned()
            } else {
                name.substring_char(0, i).to_owned()
            }
        },
        None => name.to_owned(),
    }
}

/// The part of a text behind its last `c`; the whole text where it has
/// none.
pub open spec fn part_after_last(s: Seq<char>, c: char) -> Seq<char> {
    s.skip(last_index(s, c) + 1)
}

/// The part of a text behind its last `c`.
pub fn after_last(s: &str, c: char) -> (r: String)
    ensures
        r@ == part_after_last(s@, c),
{
    let cs = to_chars(s);
    let n = cs.len();
    match find_last(&cs, c) {
        Some(i) => {
            assert(i < n);
            s.substring_char(i + 1, n).to_owned()
        },
        None => {
            assert(s@.skip(0) =~= s@);
            s.to_owned()
        },
    }
}

/// The text holds no `c`.
pub open spec fn is_free_of(s: Seq<char>, c: char) -> bool {
    forall|i: int| 0 <= i < s.len() ==> s[i] != c
}

/// A text that holds no `c` has no last one.
pub proof fn lemma_no_last_index(s: Seq<char>, c: char)
    requires
        is_free_of(s, c),
    ensures
        last_index(s, c) == -1,
        part_after_last(s, c) == s,
    decreases s.len(),
{
    if s.len() > 0 {
        assert(s.last() == s[s.len() - 1]);
        assert forall|i: int| 0 <= i < s.drop_last().len() implies s.drop_last()[i] != c by {
            assert(s.drop_last()[i] == s[i]);
        }
        lemma_no_last_index(s.drop_last(), c);
    }
    assert(s.skip(0) =~= s);
}

/// Behind the last `c` of a text stands what follows it, where that holds no
/// `c` itself.
pub proof fn lemma_part_after_last(head: Seq<char>, c: char, tail: Seq<char>)
    requires
        is_free_of(tail, c),
    ensures
        last_index(head.push(c) + tail, c) == head.len(),
        part_after_last(head.push(c) + tail, c) == tail,
    decreases tail.len(),
{
    let s = head.push(c) + tail;
    if tail.len() == 0 {
        assert(s =~= head.push(c));
    } else {
        assert(s.last() == tail[tail.len() - 1]);
        assert(s.drop_last() =~= head.push(c) + tail.drop_last());
        assert forall|i: int| 0 <= i < tail.drop_last().len() implies tail.drop_last()[i] != c by {
            assert(tail.drop_last()[i] == tail[i]);
        }
        lemma_part_after_last(head, c, tail.drop_last());
    }
    assert(s.skip(head.len() as int + 1) =~= tail);
}

/// The parent of a path, as `std::path::Path::parent` gives it: the path
/// without its last component, or nothing where the path is empty or ends in
/// a root.
pub uninterp spec fn path_parent(path: Seq<char>) -> Option<Seq<char>>;

/// Calls `std::path::Path::parent` on the path that the text spells. The
/// result is named `path_parent`; nothing more is claimed of it. The parent
/// of a path that is valid text is a part of that text, so handing it back
/// as text loses nothing.
#[verifier::external_body]
pub(crate) fn parent_dir(path: &str) -> (r: Option<String>)
    ensures
        crate::text::opt_text(r) == path_parent(path@),
{
    std::path::Path::new(path).parent().map(|p| p.to_string_lossy().into_owned())
}

} // verus!
