//! The installed-package listing: one package name per line, as the platform's
//! package enumeration prints it.

use vstd::prelude::*;
use crate::model::InstalledPackageRecord;
use crate::text::{chars_of, lower_of, lowercase, string_of, trim_chars, trimmed};

verus! {

/// The pieces of `s` between newline characters; `k` newlines give `k + 1`
/// pieces.
pub open spec fn split_newlines(s: Seq<char>) -> Seq<Seq<char>>
    decreases s.len(),
{
    if s.len() == 0 {
        seq![Seq::empty()]
    } else {
        let p = split_newlines(s.drop_last());
        if s.last() == '\n' {
            p.push(Seq::empty())
        } else {
            p.update(p.len() - 1, p.last().push(s.last()))
        }
    }
}

/// The package names of a list of lines: each line trimmed, blank lines
/// dropped, the rest lower-cased, in order.
pub open spec fn names_of_lines(lines: Seq<Seq<char>>) -> Seq<Seq<char>>
    decreases lines.len(),
{
    if lines.len() == 0 {
        Seq::empty()
    } else {
        let rest = names_of_lines(lines.drop_last());
        if trimmed(lines.last()).len() == 0 {
            rest
        } else {
            rest.push(lower_of(trimmed(lines.last())))
        }
    }
}

/// The character sequences of a list of strings.
pub open spec fn string_views(v: Seq<String>) -> Seq<Seq<char>> {
    Seq::new(v.len(), |i: int| v[i]@)
}

/// Adds the name of one line, if it is not blank.
fn push_name(out: &mut Vec<String>, line: Vec<char>)
    ensures
        trimmed(line@).len() == 0 ==> final(out)@ == old(out)@,
        trimmed(line@).len() > 0 ==> string_views(final(out)@) == string_views(old(out)@).push(
            lower_of(trimmed(line@)),
        ),
{
    let t = trim_chars(line.as_slice());
    if t.len() > 0 {
        let text = string_of(t);
        let name = lowercase(text.as_str());
        out.push(name);
        assert(string_views(out@) =~= string_views(old(out)@).push(lower_of(trimmed(line@))));
    }
}

/// The package names in a listing, in order: every line trimmed, blank lines
/// dropped, names lower-cased.
pub fn package_names(listing: &str) -> (r: Vec<String>)
    ensures
        string_views(r@) == names_of_lines(split_newlines(listing@)),
{
    let chars = chars_of(listing);
    let mut out: Vec<String> = Vec::new();
    let mut cur: Vec<char> = Vec::new();
    let mut i: usize = 0;
    while i < chars.len()
        invariant
            chars@ == listing@,
            i <= chars@.len(),
            split_newlines(chars@.take(i as int)).len() >= 1,
            cur@ == split_newlines(chars@.take(i as int)).last(),
            string_views(out@) == names_of_lines(split_newlines(chars@.take(i as int)).drop_last()),
        decreases chars@.len() - i,
    {
        let ghost before = split_newlines(chars@.take(i as int));
        assert(chars@.take(i + 1).drop_last() =~= chars@.take(i as int));
        let c = chars[i];
        if c == '\n' {
            let line = cur;
            cur = Vec::new();
            proof {
                let after = split_newlines(chars@.take(i + 1));
                assert(after == before.push(Seq::empty()));
                assert(after.drop_last() =~= before);
            }
            push_name(&mut out, line);
        } else {
            cur.push(c);
            proof {
                let after = split_newlines(chars@.take(i + 1));
                assert(after.drop_last() =~= before.drop_last());
            }
        }
        i = i + 1;
    }
    assert(chars@.take(chars@.len() as int) =~= chars@);
    push_name(&mut out, cur);
    out
}

/// Records for a list of package names; the name stands as identifier and
/// display name, version and publisher are unknown.
pub fn records_from_names(names: &Vec<String>) -> (r: Vec<InstalledPackageRecord>)
    ensures
        r@.len() == names@.len(),
        forall|i: int|
            0 <= i < names@.len() ==> (#[trigger] r@[i]).identifier@ == names@[i]@
                && r@[i].display_name@ == names@[i]@ && r@[i].version@.len() == 0
                && r@[i].publisher@.len() == 0,
{
    let mut r: Vec<InstalledPackageRecord> = Vec::new();
    let mut i: usize = 0;
    while i < names.len()
        invariant
            i <= names@.len(),
            r@.len() == i,
            forall|k: int|
                0 <= k < i ==> (#[trigger] r@[k]).identifier@ == names@[k]@
                    && r@[k].display_name@ == names@[k]@ && r@[k].version@.len() == 0
                    && r@[k].publisher@.len() == 0,
        decreases names@.len() - i,
    {
        r.push(
            InstalledPackageRecord {
                identifier: names[i].clone(),
                display_name: names[i].clone(),
                version: String::new(),
                publisher: String::new(),
            },
        );
        i = i + 1;
    }
    r
}

} // verus!
