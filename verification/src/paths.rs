//! Absolute paths without detours.

use crate::datum::{Datum, Same};
use crate::text::{characters, joined};
use vstd::prelude::*;
use vstd::string::*;

verus! {

/// The segments of a path text, between its slashes, without empty ones.
pub open spec fn segments(text: Seq<char>) -> Seq<Seq<char>>
    decreases text.len(),
{
    if text.len() == 0 {
        Seq::empty()
    } else {
        let earlier = segments(text.drop_last());
        if text.last() == '/' {
            earlier
        } else if text.len() > 1 && text[text.len() - 2] != '/' {
            earlier.drop_last().push(earlier.last().push(text.last()))
        } else {
            earlier.push(seq![text.last()])
        }
    }
}

/// The segments without `.`, and without each `..` and the segment that it goes back over.
pub open spec fn straightened(parts: Seq<Seq<char>>) -> Seq<Seq<char>>
    decreases parts.len(),
{
    if parts.len() == 0 {
        parts
    } else {
        let earlier = straightened(parts.drop_last());
        if parts.last() == "."@ {
            earlier
        } else if parts.last() == ".."@ {
            if earlier.len() == 0 {
                earlier
            } else {
                earlier.drop_last()
            }
        } else {
            earlier.push(parts.last())
        }
    }
}

/// Whether a path text is absolute.
pub open spec fn is_absolute(text: Seq<char>) -> bool {
    text.len() > 0 && text[0] == '/'
}

/// A path as text.
pub open spec fn path_text(parts: Seq<Seq<char>>) -> Seq<char>
    decreases parts.len(),
{
    if parts.len() == 0 {
        "/"@
    } else if parts.len() == 1 {
        "/"@ + parts[0]
    } else {
        path_text(parts.drop_last()) + "/"@ + parts.last()
    }
}

/// An absolute path without `.` and `..`, by its segments.
#[derive(Clone, Debug, PartialEq)]
pub struct StorePath {
    pub parts: Vec<String>,
}

impl DeepView for StorePath {
    type V = Seq<Seq<char>>;

    open spec fn deep_view(&self) -> Seq<Seq<char>> {
        self.parts.deep_view()
    }
}

impl Datum for StorePath {
    fn replica(&self) -> (copy: Self) {
        StorePath { parts: self.parts.replica() }
    }
}

/// Whether a path text is absolute.
pub fn starts_at_root(text: &str) -> (absolute: bool)
    ensures
        absolute == is_absolute(text@),
{
    let all = characters(text);
    all.len() > 0 && all[0] == '/'
}

fn push_segments(parts: &mut Vec<String>, text: &str)
    ensures
        final(parts).deep_view() == old(parts).deep_view() + segments(text@),
{
    let ghost before = parts.deep_view();
    let all = characters(text);
    let mut found: Vec<String> = Vec::new();
    let mut index: usize = 0;
    assert(text@.take(0) =~= Seq::empty());
    assert(found.deep_view() =~= segments(text@.take(0)));
    while index < all.len()
        invariant
            all@ == text@,
            index <= all.len(),
            found.deep_view() == segments(text@.take(index as int)),
            index > 0 && text@[index - 1] != '/' ==> found.len() > 0,
        decreases all.len() - index,
    {
        let c = all[index];
        let ghost prefix = text@.take(index + 1);
        let ghost earlier = found.deep_view();
        assert(prefix.drop_last() =~= text@.take(index as int));
        assert(prefix.last() == c);
        if c != '/' {
            if index > 0 && all[index - 1] != '/' {
                assert(prefix[prefix.len() - 2] == text@[index - 1]);
                let last: usize = found.len() - 1;
                let mut segment = found[last].clone();
                segment.push(c);
                found.set(last, segment);
                assert(found.deep_view() =~= earlier.drop_last().push(earlier.last().push(c)));
            } else {
                let mut segment = String::new();
                segment.push(c);
                assert(segment@ =~= seq![c]);
                found.push(segment);
                assert(found.deep_view() =~= earlier.push(seq![c]));
            }
        }
        index += 1;
    }
    assert(text@.take(index as int) =~= text@);
    let ghost added = found.deep_view();
    parts.append(&mut found);
    assert(parts.deep_view() =~= before + added);
}

/// The path that segments lead to, from the root on.
fn straighten(parts: &Vec<String>) -> (path: StorePath)
    ensures
        path.deep_view() == straightened(parts.deep_view()),
{
    let ghost view = parts.deep_view();
    let mut kept: Vec<String> = Vec::new();
    let mut index: usize = 0;
    assert(kept.deep_view() =~= straightened(view.take(0)));
    while index < parts.len()
        invariant
            view == parts.deep_view(),
            index <= parts.len(),
            kept.deep_view() == straightened(view.take(index as int)),
        decreases parts.len() - index,
    {
        let ghost earlier = kept.deep_view();
        assert(view.take(index + 1).drop_last() =~= view.take(index as int));
        assert(view.take(index + 1).last() == parts[index as int]@);
        let part = &parts[index];
        if part.same(&".".to_string()) {
        } else if part.same(&"..".to_string()) {
            if kept.len() > 0 {
                kept.pop();
                assert(kept.deep_view() =~= earlier.drop_last());
            }
        } else {
            kept.push(part.clone());
            assert(kept.deep_view() =~= earlier.push(view[index as int]));
        }
        index += 1;
    }
    assert(view.take(index as int) =~= view);
    StorePath { parts: kept }
}

/// The segments of a path text as they are reached from a base directory and, where that is
/// relative too, from the working directory.
pub open spec fn reached(
    working_directory: Option<Seq<char>>,
    base: Seq<char>,
    raw: Seq<char>,
) -> Option<Seq<Seq<char>>> {
    if is_absolute(raw) {
        Some(straightened(segments(raw)))
    } else if is_absolute(base) {
        Some(straightened(segments(base) + segments(raw)))
    } else {
        match working_directory {
            Some(directory) => Some(
                straightened(segments(directory) + segments(base) + segments(raw)),
            ),
            None => None,
        }
    }
}

/// The absolute path that a path text denotes. It fails where the working directory is needed and
/// not known.
pub fn reach(working_directory: Option<&str>, base: &str, raw: &str) -> (path: Option<StorePath>)
    ensures
        path.deep_view() == reached(working_directory.deep_view(), base@, raw@),
{
    let mut parts: Vec<String> = Vec::new();
    assert(parts.deep_view() =~= Seq::empty());
    if !starts_at_root(raw) {
        if !starts_at_root(base) {
            match working_directory {
                Some(directory) => {
                    push_segments(&mut parts, directory);
                },
                None => {
                    return None;
                },
            }
            assert(parts.deep_view() =~= segments(working_directory->0@));
        }
        push_segments(&mut parts, base);
    }
    let ghost earlier = parts.deep_view();
    push_segments(&mut parts, raw);
    proof {
        if is_absolute(raw@) {
            assert(parts.deep_view() =~= segments(raw@));
        } else if is_absolute(base@) {
            assert(parts.deep_view() =~= segments(base@) + segments(raw@));
        } else {
            assert(parts.deep_view() =~= segments(working_directory->0@) + segments(base@)
                + segments(raw@));
        }
    }
    Some(straighten(&parts))
}

/// Whether one path is the other, or lies below it.
pub open spec fn overlap(left: Seq<Seq<char>>, right: Seq<Seq<char>>) -> bool {
    left.is_prefix_of(right) || right.is_prefix_of(left)
}

/// The path with a suffix on its last segment.
pub open spec fn suffixed(parts: Seq<Seq<char>>, suffix: Seq<char>) -> Seq<Seq<char>> {
    if parts.len() == 0 {
        seq![suffix]
    } else {
        parts.drop_last().push(parts.last() + suffix)
    }
}

fn begins_with(path: &StorePath, head: &StorePath) -> (begins: bool)
    ensures
        begins == head.deep_view().is_prefix_of(path.deep_view()),
{
    let ghost whole = path.deep_view();
    let ghost part = head.deep_view();
    if head.parts.len() > path.parts.len() {
        return false;
    }
    let mut index: usize = 0;
    while index < head.parts.len()
        invariant
            whole == path.deep_view(),
            part == head.deep_view(),
            index <= head.parts.len() <= path.parts.len(),
            forall|i: int| 0 <= i < index ==> part[i] == whole[i],
        decreases head.parts.len() - index,
    {
        if !head.parts[index].same(&path.parts[index]) {
            assert(part[index as int] != whole[index as int]);
            assert(whole.subrange(0, part.len() as int)[index as int] == whole[index as int]);
            return false;
        }
        index += 1;
    }
    assert(part =~= whole.subrange(0, part.len() as int));
    true
}

/// Whether one path is the other, or lies below it.
pub fn paths_overlap(left: &StorePath, right: &StorePath) -> (overlaps: bool)
    ensures
        overlaps == overlap(left.deep_view(), right.deep_view()),
{
    begins_with(right, left) || begins_with(left, right)
}

/// The path with a suffix on its last segment.
pub fn path_with_suffix(path: &StorePath, suffix: &str) -> (result: StorePath)
    ensures
        result.deep_view() == suffixed(path.deep_view(), suffix@),
{
    let ghost view = path.deep_view();
    let mut parts = path.parts.replica();
    if parts.len() == 0 {
        parts.push(suffix.to_string());
        assert(parts.deep_view() =~= seq![suffix@]);
    } else {
        let last: usize = parts.len() - 1;
        let segment = joined(&parts[last], suffix);
        parts.set(last, segment);
        assert(parts.deep_view() =~= suffixed(view, suffix@));
    }
    StorePath { parts }
}

impl StorePath {
    /// The path as text.
    pub fn text(&self) -> (text: String)
        ensures
            text@ == path_text(self.deep_view()),
    {
        let ghost view = self.deep_view();
        if self.parts.len() == 0 {
            return "/".to_string();
        }
        let mut text = joined("/", &self.parts[0]);
        let mut index: usize = 1;
        assert(view.take(1).len() == 1 && view.take(1)[0] == view[0]);
        while index < self.parts.len()
            invariant
                view == self.deep_view(),
                1 <= index <= self.parts.len(),
                text@ == path_text(view.take(index as int)),
            decreases self.parts.len() - index,
        {
            text.append("/");
            text.append(&self.parts[index]);
            assert(view.take(index + 1).drop_last() =~= view.take(index as int));
            index += 1;
        }
        assert(view.take(index as int) =~= view);
        text
    }
}

/// A straightened path holds neither `.` nor `..`.
pub proof fn straight_path_has_no_detours(parts: Seq<Seq<char>>)
    ensures
        forall|i: int|
            0 <= i < straightened(parts).len() ==> #[trigger] straightened(parts)[i] != "."@
                && straightened(parts)[i] != ".."@,
    decreases parts.len(),
{
    if parts.len() > 0 {
        straight_path_has_no_detours(parts.drop_last());
        let earlier = straightened(parts.drop_last());
        let whole = straightened(parts);
        assert forall|i: int| 0 <= i < whole.len() implies #[trigger] whole[i] != "."@ && whole[i]
            != ".."@ by {
            if i < earlier.len() {
                assert(whole[i] == earlier[i]);
            }
        }
    }
}

} // verus!
