//! Request paths as text.
//!
//! A path is a sequence of characters in which `/` separates the segments.
//! Nothing here touches a file system: the functions of this module only
//! rewrite text.

use vstd::prelude::*;
use crate::text::{chars_of, push_char, text_from};

verus! {

/// The character that separates the segments of a path.
pub const SEPARATOR: char = '/';

/// The character that separates a file name from its extension.
pub const DOT: char = '.';

/// The text with each doubled separator replaced by a single one, reading
/// from the left and never looking twice at a character: three separators in
/// a row become two, four become two.
pub open spec fn collapse(s: Seq<char>) -> Seq<char>
    decreases s.len(),
{
    if s.len() < 2 {
        s
    } else if s[0] == SEPARATOR && s[1] == SEPARATOR {
        seq![SEPARATOR] + collapse(s.skip(2))
    } else {
        seq![s[0]] + collapse(s.skip(1))
    }
}

/// Whether the text begins with a separator.
pub open spec fn is_rooted(s: Seq<char>) -> bool {
    s.len() > 0 && s[0] == SEPARATOR
}

/// The text without its first character if that is a separator, else the
/// text itself.
pub open spec fn strip_leading(s: Seq<char>) -> Seq<char> {
    if is_rooted(s) {
        s.skip(1)
    } else {
        s
    }
}

/// `rel` appended to `base`: the two written one after the other, with one
/// separator put between them where `base` does not end with one and `rel`
/// does not begin with one. `base` is always the beginning of the result;
/// a `rel` that begins with a separator is appended like any other.
pub open spec fn join(base: Seq<char>, rel: Seq<char>) -> Seq<char> {
    if base.len() > 0 && base.last() != SEPARATOR && !is_rooted(rel) {
        base + seq![SEPARATOR] + rel
    } else {
        base + rel
    }
}

fn collapse_chars(s: &Vec<char>) -> (out: Vec<char>)
    ensures
        out@ == collapse(s@),
{
    let n = s.len();
    let mut out: Vec<char> = Vec::new();
    let mut i: usize = 0;
    assert(s@.skip(0) =~= s@);
    assert(out@ + collapse(s@) =~= collapse(s@));
    while i < n
        invariant
            n == s.len(),
            i <= n,
            out@ + collapse(s@.skip(i as int)) == collapse(s@),
        decreases n - i,
    {
        let ghost rest = s@.skip(i as int);
        if i + 1 < n && s[i] == SEPARATOR && s[i + 1] == SEPARATOR {
            assert(rest.skip(2) == s@.skip(i + 2));
            out.push(SEPARATOR);
            i += 2;
        } else {
            assert(rest.skip(1) == s@.skip(i + 1));
            out.push(s[i]);
            i += 1;
        }
        assert(out@ + collapse(s@.skip(i as int)) =~= collapse(s@));
    }
    assert(out@ + collapse(s@.skip(n as int)) =~= out@);
    out
}

/// Replaces each doubled separator of `path` by a single one.
pub fn collapse_separators(path: &str) -> (out: String)
    ensures
        out@ == collapse(path@),
{
    let chars = chars_of(path);
    let collapsed = collapse_chars(&chars);
    text_from(&collapsed, 0)
}

/// Appends `rel` to `base` as a path.
pub fn join_path(base: &str, rel: &str) -> (out: String)
    ensures
        out@ == join(base@, rel@),
{
    let rooted = rel.unicode_len() > 0 && rel.get_char(0) == SEPARATOR;
    let base_len = base.unicode_len();
    let mut out = String::from_str(base);
    if base_len > 0 && base.get_char(base_len - 1) != SEPARATOR && !rooted {
        push_char(&mut out, SEPARATOR);
    }
    out.append(rel);
    out
}

/// The location that a request path names below `root`: doubled separators
/// collapsed, one leading separator dropped, the rest appended to `root`.
/// The location always begins with `root`. No segment is interpreted, so
/// `..` stays in it as it came.
pub open spec fn locate(root: Seq<char>, request: Seq<char>) -> Seq<char> {
    join(root, strip_leading(collapse(request)))
}

/// Computes the location that `request` names below `root`.
pub fn locate_path(root: &str, request: &str) -> (out: String)
    ensures
        out@ == locate(root@, request@),
{
    let chars = chars_of(request);
    let collapsed = collapse_chars(&chars);
    let from: usize = if collapsed.len() > 0 && collapsed[0] == SEPARATOR {
        1
    } else {
        0
    };
    let rel = text_from(&collapsed, from);
    join_path(root, rel.as_str())
}

/// Whether two separators stand side by side somewhere in the text.
pub open spec fn has_doubled(s: Seq<char>) -> bool {
    exists|i: int| 0 <= i < s.len() - 1 && s[i] == SEPARATOR && #[trigger] s[i + 1] == SEPARATOR
}

/// A text without doubled separators is left as it is.
pub proof fn lemma_collapse_without_doubled(s: Seq<char>)
    requires
        !has_doubled(s),
    ensures
        collapse(s) == s,
    decreases s.len(),
{
    if s.len() >= 2 {
        assert(!(s[0] == SEPARATOR && s[0int + 1] == SEPARATOR));
        let rest = s.skip(1);
        assert forall|i: int| 0 <= i < rest.len() - 1 implies !(rest[i] == SEPARATOR
            && #[trigger] rest[i + 1] == SEPARATOR) by {
            assert(rest[i] == s[i + 1]);
            assert(rest[i + 1] == s[(i + 1) + 1]);
        }
        lemma_collapse_without_doubled(rest);
        assert(seq![s[0]] + rest =~= s);
    }
}

/// Collapsing keeps the last character of a text.
pub proof fn lemma_collapse_keeps_end(s: Seq<char>)
    requires
        s.len() > 0,
    ensures
        collapse(s).len() > 0,
        collapse(s).last() == s.last(),
    decreases s.len(),
{
    if s.len() >= 2 {
        if s[0] == SEPARATOR && s[1] == SEPARATOR {
            let rest = s.skip(2);
            if rest.len() > 0 {
                lemma_collapse_keeps_end(rest);
                assert(rest.last() == s.last());
            }
        } else {
            let rest = s.skip(1);
            lemma_collapse_keeps_end(rest);
            assert(rest.last() == s.last());
        }
    }
}

/// Where no doubled separator can straddle the place at which two texts
/// meet, collapsing their concatenation is collapsing each.
pub proof fn lemma_collapse_concat(s: Seq<char>, t: Seq<char>)
    requires
        s.len() == 0 || s.last() != SEPARATOR || t.len() == 0 || t[0] != SEPARATOR,
    ensures
        collapse(s + t) == collapse(s) + collapse(t),
    decreases s.len(),
{
    let st = s + t;
    if s.len() == 0 {
        assert(st =~= t);
        assert(collapse(s) + collapse(t) =~= collapse(t));
    } else if t.len() == 0 {
        assert(st =~= s);
        assert(collapse(s) + collapse(t) =~= collapse(s));
    } else if s.len() == 1 {
        assert(st[0] == s[0] && st[1] == t[0]);
        assert(st.skip(1) =~= t);
        assert(collapse(s) =~= seq![s[0]]);
    } else {
        assert(st[0] == s[0] && st[1] == s[1]);
        if s[0] == SEPARATOR && s[1] == SEPARATOR {
            let rest = s.skip(2);
            assert(st.skip(2) =~= rest + t);
            if rest.len() > 0 {
                assert(rest.last() == s.last());
            }
            lemma_collapse_concat(rest, t);
            assert(seq![SEPARATOR] + (collapse(rest) + collapse(t)) =~= (seq![SEPARATOR]
                + collapse(rest)) + collapse(t));
        } else {
            let rest = s.skip(1);
            assert(st.skip(1) =~= rest + t);
            assert(rest.last() == s.last());
            lemma_collapse_concat(rest, t);
            assert(seq![s[0]] + (collapse(rest) + collapse(t)) =~= (seq![s[0]] + collapse(
                rest,
            )) + collapse(t));
        }
    }
}

/// Whether the text is a single segment: not empty, and with no separator
/// in it.
pub open spec fn is_segment(name: Seq<char>) -> bool {
    name.len() > 0 && forall|i: int| 0 <= i < name.len() ==> name[i] != SEPARATOR
}

/// The request path for the entry `name` of the directory that the request
/// path `dir` names, whether or not `dir` ends with a separator.
pub open spec fn child_request(dir: Seq<char>, name: Seq<char>) -> Seq<char> {
    if dir.len() > 0 && dir.last() == SEPARATOR {
        dir + name
    } else {
        dir + seq![SEPARATOR] + name
    }
}

/// A separator followed by a segment holds no doubled separator, so
/// collapsing leaves it as it is.
proof fn lemma_separator_then_segment(name: Seq<char>)
    requires
        is_segment(name),
    ensures
        collapse(seq![SEPARATOR] + name) == seq![SEPARATOR] + name,
{
    let t = seq![SEPARATOR] + name;
    assert forall|i: int| 0 <= i < t.len() - 1 implies !(t[i] == SEPARATOR && #[trigger] t[i
        + 1] == SEPARATOR) by {
        assert(t[i + 1] == name[i]);
    }
    lemma_collapse_without_doubled(t);
}

/// Appending nothing and then a segment is appending the segment.
proof fn lemma_join_after_empty(root: Seq<char>, name: Seq<char>)
    requires
        is_segment(name),
    ensures
        join(join(root, Seq::empty()), name) == join(root, name),
{
    let base = join(root, Seq::empty());
    if root.len() > 0 && root.last() != SEPARATOR {
        assert(base =~= root + seq![SEPARATOR]);
        assert(base.last() == SEPARATOR);
        assert(base + name =~= root + seq![SEPARATOR] + name);
    } else {
        assert(base =~= root);
    }
}

/// Appending a text and then a segment is appending the two as one path.
proof fn lemma_join_twice(root: Seq<char>, rel: Seq<char>, name: Seq<char>)
    requires
        is_segment(name),
        rel.len() > 0,
    ensures
        join(join(root, rel), name) == join(root, child_request(rel, name)),
{
    let longer = child_request(rel, name);
    let base = join(root, rel);
    assert(longer[0] == rel[0]);
    assert(base.len() > 0 && base.last() == rel.last());
    if rel.last() == SEPARATOR {
        assert(longer =~= rel + name);
        if root.len() > 0 && root.last() != SEPARATOR && !is_rooted(rel) {
            assert(base + name =~= root + seq![SEPARATOR] + longer);
        } else {
            assert(base + name =~= root + longer);
        }
    } else {
        assert(longer =~= rel + seq![SEPARATOR] + name);
        if root.len() > 0 && root.last() != SEPARATOR && !is_rooted(rel) {
            assert(base + seq![SEPARATOR] + name =~= root + seq![SEPARATOR] + longer);
        } else {
            assert(base + seq![SEPARATOR] + name =~= root + longer);
        }
    }
}

/// Asking for an entry of a directory by its own path names the location
/// that appending the entry's name to the directory's location gives.
pub proof fn lemma_locate_child(root: Seq<char>, dir: Seq<char>, name: Seq<char>)
    requires
        is_segment(name),
    ensures
        locate(root, child_request(dir, name)) == join(locate(root, dir), name),
{
    let c = collapse(dir);
    let rel = strip_leading(c);
    let t = seq![SEPARATOR] + name;
    assert(!has_doubled(name));
    lemma_collapse_without_doubled(name);
    lemma_separator_then_segment(name);
    if dir.len() == 0 {
        assert(child_request(dir, name) =~= t);
        assert(strip_leading(t) =~= name);
        assert(rel =~= Seq::<char>::empty());
        lemma_join_after_empty(root, name);
    } else {
        lemma_collapse_keeps_end(dir);
        if dir.last() == SEPARATOR {
            lemma_collapse_concat(dir, name);
            assert(strip_leading(c + name) =~= rel + name);
            if rel.len() == 0 {
                assert(rel + name =~= name);
                assert(rel =~= Seq::<char>::empty());
                lemma_join_after_empty(root, name);
            } else {
                assert(rel.last() == c.last());
                assert(child_request(rel, name) =~= rel + name);
                lemma_join_twice(root, rel, name);
            }
        } else {
            assert(child_request(dir, name) =~= dir + t);
            lemma_collapse_concat(dir, t);
            assert(strip_leading(c + t) =~= rel + t);
            assert(rel.len() > 0);
            assert(rel.last() == c.last());
            assert(child_request(rel, name) =~= rel + t);
            lemma_join_twice(root, rel, name);
        }
    }
}

/// A request path and the path it collapses to name one location, where
/// collapsing once leaves no doubled separator behind.
pub proof fn lemma_locate_collapsed(root: Seq<char>, request: Seq<char>)
    requires
        !has_doubled(collapse(request)),
    ensures
        locate(root, request) == locate(root, collapse(request)),
{
    lemma_collapse_without_doubled(collapse(request));
}

/// The position of the last `c` in `s`, or -1 where `s` holds none.
pub open spec fn last_position(s: Seq<char>, c: char) -> int
    decreases s.len(),
{
    if s.len() == 0 {
        -1
    } else if s.last() == c {
        s.len() - 1
    } else {
        last_position(s.drop_last(), c)
    }
}

/// The last segment of a path: what follows its last separator.
pub open spec fn last_segment(path: Seq<char>) -> Seq<char> {
    path.skip(last_position(path, SEPARATOR) + 1)
}

/// The extension of a path: what follows the last dot of its last segment.
/// A segment without a dot has none, and neither has one whose only dot is
/// its first character; for these the extension is empty.
pub open spec fn extension(path: Seq<char>) -> Seq<char> {
    let name = last_segment(path);
    let dot = last_position(name, DOT);
    if dot <= 0 {
        Seq::empty()
    } else {
        name.skip(dot + 1)
    }
}

/// The last position of a character is a position of it, and none follows.
pub proof fn lemma_last_position(s: Seq<char>, c: char)
    ensures
        -1 <= last_position(s, c) < s.len(),
        last_position(s, c) >= 0 ==> s[last_position(s, c)] == c,
        forall|j: int| last_position(s, c) < j < s.len() ==> s[j] != c,
    decreases s.len(),
{
    if s.len() > 0 && s.last() != c {
        lemma_last_position(s.drop_last(), c);
        assert forall|j: int| last_position(s, c) < j < s.len() implies s[j] != c by {
            if j < s.len() - 1 {
                assert(s.drop_last()[j] == s[j]);
            }
        }
    }
}

/// A position of a character that none follows is its last position.
pub proof fn lemma_last_position_is(s: Seq<char>, c: char, i: int)
    requires
        -1 <= i < s.len(),
        i >= 0 ==> s[i] == c,
        forall|j: int| i < j < s.len() ==> s[j] != c,
    ensures
        last_position(s, c) == i,
{
    lemma_last_position(s, c);
}

/// The position of the last `c` at or after `from`.
fn find_last(chars: &Vec<char>, from: usize, c: char) -> (found: Option<usize>)
    requires
        from <= chars.len(),
    ensures
        match found {
            Some(i) => from <= i < chars.len() && last_position(chars@.skip(from as int), c) == i
                - from,
            None => last_position(chars@.skip(from as int), c) == -1,
        },
{
    let mut i: usize = chars.len();
    while i > from
        invariant
            from <= i <= chars.len(),
            forall|j: int| i <= j < chars.len() ==> chars@[j] != c,
        decreases i,
    {
        if chars[i - 1] == c {
            proof {
                lemma_last_position_is(chars@.skip(from as int), c, i - 1 - from);
            }
            return Some(i - 1);
        }
        i -= 1;
    }
    proof {
        lemma_last_position_is(chars@.skip(from as int), c, -1);
    }
    None
}

/// Computes the extension of `path`.
pub fn extension_of(path: &str) -> (out: String)
    ensures
        out@ == extension(path@),
{
    let chars = chars_of(path);
    assert(chars@.skip(0) =~= chars@);
    let start: usize = match find_last(&chars, 0, SEPARATOR) {
        Some(i) => i + 1,
        None => 0,
    };
    match find_last(&chars, start, DOT) {
        Some(i) => {
            if i > start {
                assert(chars@.skip(start as int).skip(i - start + 1) =~= chars@.skip(i + 1));
                text_from(&chars, i + 1)
            } else {
                String::new()
            }
        },
        None => String::new(),
    }
}

/// Appending a path to a base does not change its last segment, and so not
/// its extension.
pub proof fn lemma_extension_of_joined(base: Seq<char>, rel: Seq<char>)
    ensures
        last_segment(join(base, rel)) == last_segment(rel),
        extension(join(base, rel)) == extension(rel),
{
    let joined = join(base, rel);
    let before = joined.len() - rel.len();
    let p = last_position(rel, SEPARATOR);
    lemma_last_position(rel, SEPARATOR);
    assert(forall|j: int| 0 <= j < rel.len() ==> joined[before + j] == rel[j]);
    if p >= 0 {
        assert forall|j: int| before + p < j < joined.len() implies joined[j] != SEPARATOR by {
            assert(joined[before + (j - before)] == rel[j - before]);
        }
        lemma_last_position_is(joined, SEPARATOR, before + p);
        assert(joined.skip(before + p + 1) =~= rel.skip(p + 1));
    } else {
        assert(!is_rooted(rel));
        assert forall|j: int| before - 1 < j < joined.len() implies joined[j] != SEPARATOR by {
            assert(joined[before + (j - before)] == rel[j - before]);
        }
        if before > 0 {
            assert(joined[before - 1] == SEPARATOR);
        }
        lemma_last_position_is(joined, SEPARATOR, before - 1);
        assert(joined.skip(before) =~= rel.skip(0));
    }
}

/// Whether the text is the path of an entry as seen from the directory it
/// lies below: it does not begin with a separator, and no two separators
/// stand side by side in it.
pub open spec fn is_relative(rel: Seq<char>) -> bool {
    !is_rooted(rel) && !has_doubled(rel)
}

/// The request path for the entry at `rel` below the root.
pub open spec fn request_for(rel: Seq<char>) -> Seq<char> {
    seq![SEPARATOR] + rel
}

/// A request for an entry by its relative path, with or without the
/// separator in front, names the location of that entry below the root.
pub proof fn lemma_locate_relative(root: Seq<char>, rel: Seq<char>)
    requires
        is_relative(rel),
    ensures
        locate(root, request_for(rel)) == join(root, rel),
        locate(root, rel) == join(root, rel),
{
    let t = request_for(rel);
    lemma_collapse_without_doubled(rel);
    assert forall|i: int| 0 <= i < t.len() - 1 implies !(t[i] == SEPARATOR && #[trigger] t[i
        + 1] == SEPARATOR) by {
        if i > 0 {
            assert(t[i] == rel[i - 1]);
            assert(t[i + 1] == rel[(i - 1) + 1]);
        } else {
            assert(t[i + 1] == rel[0]);
        }
    }
    lemma_collapse_without_doubled(t);
    assert(strip_leading(t) =~= rel);
}

/// Every location lies below the root as text goes: it begins with the
/// root, whatever the request path holds.
pub proof fn lemma_locate_begins_with_root(root: Seq<char>, request: Seq<char>)
    ensures
        root.is_prefix_of(locate(root, request)),
{
    let rel = strip_leading(collapse(request));
    let location = join(root, rel);
    assert(location.subrange(0, root.len() as int) =~= root);
}

} // verus!
