//! Merging required directories into a separator-joined search path.
//!
//! The synthesis engine's interpreter finds its modules through a search
//! path held in an environment variable. Reading and writing that variable
//! is external work; the library computes the new value: the existing
//! entries with empty ones dropped, the engine directory inserted at the
//! front unless already present, and the working directory appended unless
//! already present.

use vstd::prelude::*;

verus! {

/// The non-empty pieces of `s[cur..]` split at `sep`, where `start` marks
/// the beginning of the piece being scanned.
pub open spec fn split_nonempty_from(s: Seq<char>, sep: char, start: int, cur: int) -> Seq<
    Seq<char>,
>
    decreases s.len() - cur,
{
    if cur >= s.len() {
        if start < s.len() {
            seq![s.subrange(start, s.len() as int)]
        } else {
            Seq::empty()
        }
    } else if s[cur] == sep {
        (if cur > start {
            seq![s.subrange(start, cur)]
        } else {
            Seq::empty()
        }) + split_nonempty_from(s, sep, cur + 1, cur + 1)
    } else {
        split_nonempty_from(s, sep, start, cur + 1)
    }
}

/// The non-empty pieces of `s` split at `sep`, in order.
pub open spec fn split_nonempty(s: Seq<char>, sep: char) -> Seq<Seq<char>> {
    split_nonempty_from(s, sep, 0, 0)
}

/// Whether some entry equals `x`.
pub open spec fn contains_part(parts: Seq<Seq<char>>, x: Seq<char>) -> bool {
    exists|i: int| 0 <= i < parts.len() && parts[i] == x
}

/// The entries with the two required directories merged in: the engine
/// directory at the front unless present, then the working directory at
/// the back unless present (checked after the first insertion, so that an
/// engine directory equal to the working directory is not added twice).
pub open spec fn with_required_dirs(
    parts: Seq<Seq<char>>,
    py_dir: Seq<char>,
    cwd: Seq<char>,
) -> Seq<Seq<char>> {
    let front = if contains_part(parts, py_dir) {
        parts
    } else {
        seq![py_dir] + parts
    };
    if contains_part(front, cwd) {
        front
    } else {
        front.push(cwd)
    }
}

/// The entries joined with `sep` between neighbours.
pub open spec fn joined(parts: Seq<Seq<char>>, sep: char) -> Seq<char>
    decreases parts.len(),
{
    if parts.len() == 0 {
        Seq::empty()
    } else if parts.len() == 1 {
        parts[0]
    } else {
        joined(parts.drop_last(), sep) + seq![sep] + parts.last()
    }
}

/// The views of a list of owned entries.
pub open spec fn views_of(parts: Seq<String>) -> Seq<Seq<char>> {
    parts.map_values(|p: String| p@)
}

/// Split `current` at the separator, dropping empty pieces.
fn split_entries(current: &str, sep: &str) -> (parts: Vec<String>)
    requires
        sep@.len() == 1,
    ensures
        views_of(parts@) == split_nonempty(current@, sep@[0]),
{
    let ghost sepc = sep@[0];
    let sep_char = sep.get_char(0);
    let len = current.unicode_len();
    let mut parts: Vec<String> = Vec::new();
    let mut start: usize = 0;
    let mut cur: usize = 0;
    assert(views_of(parts@) =~= Seq::<Seq<char>>::empty());
    while cur < len
        invariant
            len == current@.len(),
            sep@.len() == 1,
            sepc == sep@[0],
            sep_char == sepc,
            start <= cur <= len,
            views_of(parts@) + split_nonempty_from(current@, sepc, start as int, cur as int)
                =~= split_nonempty(current@, sepc),
        decreases len - cur,
    {
        let c = current.get_char(cur);
        if c == sep_char {
            if cur > start {
                let ghost before = parts@;
                let piece = current.substring_char(start, cur).to_owned();
                parts.push(piece);
                assert(views_of(parts@) =~= views_of(before).push(
                    current@.subrange(start as int, cur as int),
                ));
            }
            start = cur + 1;
        }
        cur = cur + 1;
    }
    if start < len {
        let ghost before = parts@;
        let piece = current.substring_char(start, len).to_owned();
        parts.push(piece);
        assert(views_of(parts@) =~= views_of(before).push(
            current@.subrange(start as int, len as int),
        ));
    }
    assert(views_of(parts@) =~= split_nonempty(current@, sepc));
    parts
}

/// Whether some entry equals `x`.
fn entries_contain(parts: &Vec<String>, x: &String) -> (r: bool)
    ensures
        r == contains_part(views_of(parts@), x@),
{
    let mut i: usize = 0;
    while i < parts.len()
        invariant
            i <= parts@.len(),
            forall|j: int| 0 <= j < i ==> views_of(parts@)[j] != x@,
        decreases parts@.len() - i,
    {
        let hit: bool = parts[i].eq(x);
        if hit {
            assert(views_of(parts@)[i as int] == x@);
            return true;
        }
        assert(views_of(parts@)[i as int] != x@);
        i = i + 1;
    }
    false
}

/// Join the entries with `sep` between neighbours.
fn join_entries(parts: &Vec<String>, sep: &str) -> (r: String)
    requires
        sep@.len() == 1,
    ensures
        r@ == joined(views_of(parts@), sep@[0]),
{
    let ghost sepc = sep@[0];
    let mut r = String::new();
    let mut i: usize = 0;
    assert(sep@ =~= seq![sepc]);
    while i < parts.len()
        invariant
            sep@.len() == 1,
            sepc == sep@[0],
            sep@ == seq![sepc],
            i <= parts@.len(),
            r@ == joined(views_of(parts@).take(i as int), sepc),
        decreases parts@.len() - i,
    {
        proof {
            let pv = views_of(parts@);
            assert(pv.take(i + 1).drop_last() =~= pv.take(i as int));
            assert(pv.take(i + 1).last() == pv[i as int]);
            if i == 0 {
                assert(joined(pv.take(1), sepc) == pv[0]);
            }
        }
        if i > 0 {
            r.append(sep);
        }
        r.append(parts[i].as_str());
        i = i + 1;
    }
    assert(views_of(parts@).take(parts@.len() as int) =~= views_of(parts@));
    r
}

/// The new search-path value: the existing non-empty entries of `current`,
/// the engine directory `py_dir` put first unless already listed, the
/// working directory `cwd` put last unless already listed, joined with the
/// platform's single-character separator.
pub fn updated_search_path(current: &str, py_dir: &str, cwd: &str, sep: &str) -> (r: String)
    requires
        sep@.len() == 1,
    ensures
        r@ == joined(
            with_required_dirs(split_nonempty(current@, sep@[0]), py_dir@, cwd@),
            sep@[0],
        ),
{
    let existing = split_entries(current, sep);
    let py = py_dir.to_owned();
    let wd = cwd.to_owned();
    let mut merged: Vec<String> = Vec::new();
    if !entries_contain(&existing, &py) {
        merged.push(py);
    }
    let mut i: usize = 0;
    while i < existing.len()
        invariant
            i <= existing@.len(),
            views_of(merged@) =~= (if contains_part(views_of(existing@), py_dir@) {
                views_of(existing@).take(i as int)
            } else {
                seq![py_dir@] + views_of(existing@).take(i as int)
            }),
        decreases existing@.len() - i,
    {
        let ghost before = merged@;
        merged.push(existing[i].clone());
        assert(views_of(merged@) =~= views_of(before).push(views_of(existing@)[i as int]));
        assert(views_of(existing@).take(i + 1) =~= views_of(existing@).take(i as int).push(
            views_of(existing@)[i as int],
        ));
        i = i + 1;
    }
    proof {
        assert(views_of(existing@).take(existing@.len() as int) =~= views_of(existing@));
    }
    if !entries_contain(&merged, &wd) {
        let ghost before = merged@;
        merged.push(wd);
        assert(views_of(merged@) =~= views_of(before).push(cwd@));
    }
    assert(views_of(merged@) =~= with_required_dirs(
        split_nonempty(current@, sep@[0]),
        py_dir@,
        cwd@,
    ));
    join_entries(&merged, sep)
}

} // verus!
