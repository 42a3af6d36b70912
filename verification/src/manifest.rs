//! Parsing of the encoder's segment manifest.
//!
//! The manifest is an append-only text file, one segment filename per
//! line, written by the encoder.  Reading the file is the caller's
//! business; this module turns its bytes into the list of entries: each
//! line split at a newline byte, one trailing carriage return removed,
//! empty lines dropped, and repeated filenames collapsed onto their
//! first occurrence.

use vstd::prelude::*;

verus! {

/// The index of the first newline byte in `s`, or `s.len()` if none.
pub open spec fn first_newline(s: Seq<u8>) -> int
    decreases s.len(),
{
    if s.len() == 0 {
        0
    } else if s[0] == 10 {
        0
    } else {
        1 + first_newline(s.skip(1))
    }
}

/// `first_newline` points at the first newline byte, if there is one.
pub proof fn lemma_first_newline(s: Seq<u8>)
    ensures
        0 <= first_newline(s) <= s.len(),
        first_newline(s) < s.len() ==> s[first_newline(s)] == 10,
        forall|j: int| 0 <= j < first_newline(s) ==> s[j] != 10,
    decreases s.len(),
{
    if s.len() == 0 {
    } else if s[0] == 10 {
    } else {
        lemma_first_newline(s.skip(1));
        assert forall|j: int| 0 <= j < first_newline(s) implies s[j] != 10 by {
            if j > 0 {
                assert(s.skip(1)[j - 1] != 10);
            }
        }
    }
}

/// Any index with the first-newline properties is the first newline.
pub proof fn lemma_first_newline_is(s: Seq<u8>, i: int)
    requires
        0 <= i <= s.len(),
        i < s.len() ==> s[i] == 10,
        forall|j: int| 0 <= j < i ==> s[j] != 10,
    ensures
        first_newline(s) == i,
    decreases s.len(),
{
    if s.len() == 0 {
    } else if s[0] == 10 {
    } else {
        assert(i > 0);
        lemma_first_newline_is(s.skip(1), i - 1);
    }
}

/// The raw lines of the manifest text: the chunks between newline
/// bytes, plus a final unterminated chunk if the text does not end in a
/// newline.
pub open spec fn raw_lines(s: Seq<u8>) -> Seq<Seq<u8>>
    decreases s.len(),
    via raw_lines_decreases
{
    if s.len() == 0 {
        Seq::empty()
    } else {
        let i = first_newline(s);
        if i == s.len() {
            seq![s]
        } else {
            seq![s.take(i)] + raw_lines(s.skip(i + 1))
        }
    }
}

#[via_fn]
proof fn raw_lines_decreases(s: Seq<u8>) {
    lemma_first_newline(s);
}

/// A raw line as the manifest reader sees it: one trailing carriage
/// return removed.
pub open spec fn stripped(line: Seq<u8>) -> Seq<u8> {
    if line.len() > 0 && line.last() == 13 {
        line.drop_last()
    } else {
        line
    }
}

/// The entries named by a list of raw lines: each stripped, empty ones
/// dropped, repeats collapsed onto their first occurrence.
pub open spec fn entries_of(lines: Seq<Seq<u8>>) -> Seq<Seq<u8>>
    decreases lines.len(),
{
    if lines.len() == 0 {
        Seq::empty()
    } else {
        let init = entries_of(lines.drop_last());
        let e = stripped(lines.last());
        if e.len() > 0 && !init.contains(e) {
            init.push(e)
        } else {
            init
        }
    }
}

/// The entries of a manifest text.
pub open spec fn manifest_entries(s: Seq<u8>) -> Seq<Seq<u8>> {
    entries_of(raw_lines(s))
}

/// The index of the first newline byte at or after `from`, or the
/// text's length if none follows.
fn find_newline(s: &[u8], from: usize) -> (r: usize)
    requires
        from <= s@.len(),
    ensures
        from <= r <= s@.len(),
        r < s@.len() ==> s@[r as int] == 10,
        forall|j: int| from <= j < r ==> s@[j] != 10,
{
    let mut k = from;
    while k < s.len()
        invariant
            from <= k <= s@.len(),
            forall|j: int| from <= j < k ==> s@[j] != 10,
        decreases s@.len() - k,
    {
        if s[k] == 10 {
            return k;
        }
        k = k + 1;
    }
    k
}

/// Copy `s[from..to]` into an owned buffer.
fn collect_range(s: &[u8], from: usize, to: usize) -> (r: Vec<u8>)
    requires
        from <= to <= s@.len(),
    ensures
        r@ == s@.subrange(from as int, to as int),
{
    let mut out: Vec<u8> = Vec::new();
    let mut k = from;
    while k < to
        invariant
            from <= k <= to <= s@.len(),
            out@ == s@.subrange(from as int, k as int),
        decreases to - k,
    {
        out.push(s[k]);
        proof {
            assert(out@ =~= s@.subrange(from as int, k + 1));
        }
        k = k + 1;
    }
    out
}

/// Split the manifest text into its raw lines.
fn parse_raw_lines(s: &[u8]) -> (r: Vec<Vec<u8>>)
    ensures
        r.deep_view() == raw_lines(s@),
{
    let mut out: Vec<Vec<u8>> = Vec::new();
    let mut pos: usize = 0;
    proof {
        assert(out.deep_view() =~= Seq::<Seq<u8>>::empty());
        assert(s@.skip(0) =~= s@);
    }
    while pos < s.len()
        invariant
            pos <= s@.len(),
            raw_lines(s@) == out.deep_view() + raw_lines(s@.skip(pos as int)),
        decreases s@.len() - pos,
    {
        let ghost before = out.deep_view();
        let ghost rest = s@.skip(pos as int);
        let j = find_newline(s, pos);
        let line = collect_range(s, pos, j);
        out.push(line);
        proof {
            assert(rest.len() == s@.len() - pos);
            assert forall|j2: int| 0 <= j2 < j - pos implies rest[j2] != 10 by {
                assert(s@[pos + j2] != 10);
            }
            lemma_first_newline_is(rest, j - pos);
            assert(out.deep_view() =~~= before.push(line@));
            if j == s.len() {
                assert(line@ =~= rest);
                assert(raw_lines(rest) == seq![rest]);
                assert(out.deep_view() =~~= before + raw_lines(rest));
                assert(s@.skip(s@.len() as int) =~= Seq::<u8>::empty());
            } else {
                assert(rest.take(j - pos) =~= s@.subrange(pos as int, j as int));
                assert(rest.skip(j - pos + 1) =~= s@.skip(j + 1));
                assert(raw_lines(rest) == seq![line@] + raw_lines(s@.skip(j + 1)));
                assert(out.deep_view() + raw_lines(s@.skip(j + 1)) =~~= before + raw_lines(rest));
            }
        }
        if j == s.len() {
            pos = j;
        } else {
            pos = j + 1;
        }
    }
    proof {
        assert(s@.skip(pos as int) =~= Seq::<u8>::empty());
        assert(raw_lines(s@) =~= out.deep_view());
    }
    out
}

/// Whether the list already holds this entry.
pub fn contains_entry(v: &Vec<Vec<u8>>, x: &Vec<u8>) -> (r: bool)
    ensures
        r == v.deep_view().contains(x@),
{
    let mut k: usize = 0;
    while k < v.len()
        invariant
            k <= v@.len(),
            forall|j: int| 0 <= j < k ==> v.deep_view()[j] != x@,
        decreases v@.len() - k,
    {
        if v[k] == *x {
            proof {
                assert(v@[k as int]@ =~= x@);
                assert(v.deep_view()[k as int] =~= x@);
            }
            return true;
        }
        proof {
            assert(v.deep_view()[k as int] == v@[k as int]@);
        }
        k = k + 1;
    }
    proof {
        if v.deep_view().contains(x@) {
            let w = choose|j: int| 0 <= j < v.deep_view().len() && v.deep_view()[j] == x@;
            assert(v.deep_view()[w] != x@);
        }
    }
    false
}

/// Strip one trailing carriage return.
fn strip_carriage_return(line: &mut Vec<u8>)
    ensures
        final(line)@ == stripped(old(line)@),
{
    if line.len() > 0 && line[line.len() - 1] == 13 {
        line.pop();
        proof {
            assert(line@ =~= stripped(old(line)@));
        }
    }
}

/// Collapse raw lines into manifest entries: strip each, drop empty
/// lines, keep only first occurrences.
fn dedup_entries(lines: Vec<Vec<u8>>) -> (r: Vec<Vec<u8>>)
    ensures
        r.deep_view() == entries_of(lines.deep_view()),
{
    let mut out: Vec<Vec<u8>> = Vec::new();
    proof {
        assert(lines.deep_view().take(0) =~= Seq::<Seq<u8>>::empty());
        assert(out.deep_view() =~= entries_of(lines.deep_view().take(0)));
    }
    let mut k: usize = 0;
    while k < lines.len()
        invariant
            k <= lines@.len(),
            lines.deep_view().len() == lines@.len(),
            out.deep_view() == entries_of(lines.deep_view().take(k as int)),
        decreases lines@.len() - k,
    {
        let ghost before = out.deep_view();
        let mut e = lines[k].clone();
        proof {
            assert(e@ =~= lines@[k as int]@);
        }
        strip_carriage_return(&mut e);
        let is_new = e.len() > 0 && !contains_entry(&out, &e);
        if is_new {
            out.push(e);
        }
        proof {
            let taken = lines.deep_view().take(k as int);
            let taken1 = lines.deep_view().take(k + 1);
            assert(taken1.drop_last() =~= taken);
            assert(taken1.last() =~= lines@[k as int]@);
            if is_new {
                assert(out.deep_view() =~~= before.push(stripped(lines@[k as int]@)));
            }
            assert(out.deep_view() =~~= entries_of(taken1));
        }
        k = k + 1;
    }
    proof {
        assert(lines.deep_view().take(lines@.len() as int) =~= lines.deep_view());
    }
    out
}

/// Read the entries out of a manifest text.
pub fn load_segment_list(s: &[u8]) -> (r: Vec<Vec<u8>>)
    ensures
        r.deep_view() == manifest_entries(s@),
{
    let lines = parse_raw_lines(s);
    dedup_entries(lines)
}

/// The manifest is append-only while the encoder lives: lines are only
/// added at the end.  The entries of the grown line list extend the
/// entries of the old one — earlier entries keep their places, so
/// discovery order follows manifest append order.
pub proof fn lemma_entries_monotone(lines: Seq<Seq<u8>>, appended: Seq<Seq<u8>>)
    ensures
        entries_of(lines).is_prefix_of(entries_of(lines + appended)),
    decreases appended.len(),
{
    if appended.len() == 0 {
        assert(lines + appended =~= lines);
        assert(entries_of(lines).is_prefix_of(entries_of(lines)));
    } else {
        lemma_entries_monotone(lines, appended.drop_last());
        let shorter = lines + appended.drop_last();
        let longer = lines + appended;
        assert(longer.drop_last() =~= shorter);
        assert(longer.len() > 0);
        let prev = entries_of(shorter);
        let e = stripped(appended.last());
        assert(entries_of(longer) == if e.len() > 0 && !prev.contains(e) {
            prev.push(e)
        } else {
            prev
        });
        assert(prev.is_prefix_of(prev.push(e))) by {
            assert(prev =~= prev.push(e).subrange(0, prev.len() as int));
        }
        let first = entries_of(lines);
        assert(first.is_prefix_of(entries_of(longer))) by {
            assert(first =~= prev.subrange(0, first.len() as int));
            assert(first =~= entries_of(longer).subrange(0, first.len() as int));
        }
    }
}

/// Manifest entries are pairwise distinct and never empty.
pub proof fn lemma_entries_distinct(lines: Seq<Seq<u8>>)
    ensures
        forall|i: int, j: int|
            0 <= i < j < entries_of(lines).len() ==> entries_of(lines)[i] != entries_of(lines)[j],
        forall|i: int| 0 <= i < entries_of(lines).len() ==> entries_of(lines)[i].len() > 0,
    decreases lines.len(),
{
    if lines.len() == 0 {
    } else {
        lemma_entries_distinct(lines.drop_last());
        let init = entries_of(lines.drop_last());
        let e = stripped(lines.last());
        if e.len() > 0 && !init.contains(e) {
            assert forall|i: int, j: int|
                0 <= i < j < entries_of(lines).len() implies entries_of(lines)[i]
                != entries_of(lines)[j] by {
                if j < init.len() {
                } else {
                    assert(entries_of(lines)[j] == e);
                    assert(init[i] != e) by {
                        if init[i] == e {
                            assert(init.contains(e));
                        }
                    }
                }
            }
        }
    }
}

} // verus!
