//! Directory listings: the order in which a folder's entries are shown
//! (folders first, then by file name), and the listing a folder read gives.

use vstd::prelude::*;
use crate::paths::{path_file_name, std_file_name};

verus! {

broadcast use vstd::seq_lib::group_seq_properties;

/// One entry of a directory, as read from the file system.
#[derive(Debug)]
pub struct Entry {
    /// The entry's full path.
    pub path: String,
    /// Whether the entry is a directory.
    pub is_dir: bool,
}

/// Lexicographic order on character sequences, by character value
/// (for UTF-8 text this is the byte order that `str` and `OsStr` use).
pub open spec fn chars_lt(a: Seq<char>, b: Seq<char>) -> bool
    decreases a.len(),
{
    if a.len() == 0 {
        b.len() > 0
    } else if b.len() == 0 {
        false
    } else if a[0] != b[0] {
        a[0] < b[0]
    } else {
        chars_lt(a.drop_first(), b.drop_first())
    }
}

/// The order of `Option<&OsStr>` file names: no name comes first.
pub open spec fn name_lt(a: Option<Seq<char>>, b: Option<Seq<char>>) -> bool {
    match (a, b) {
        (None, Some(_)) => true,
        (Some(x), Some(y)) => chars_lt(x, y),
        _ => false,
    }
}

/// `a` is shown strictly before `b`: directories before other entries,
/// then by file name.
pub open spec fn entry_lt(a: Entry, b: Entry) -> bool {
    if a.is_dir == b.is_dir {
        name_lt(path_file_name(a.path@), path_file_name(b.path@))
    } else {
        a.is_dir
    }
}

/// No entry is shown after one that it should precede.
pub open spec fn is_sorted(s: Seq<Entry>) -> bool {
    forall|i: int, j: int| 0 <= i < j < s.len() ==> !entry_lt(#[trigger] s[j], #[trigger] s[i])
}

/// Where a stable sort puts `x` among the sorted `s`: before the first
/// entry that `x` strictly precedes, so after every equal one.
pub open spec fn insert_pos(s: Seq<Entry>, x: Entry) -> nat
    decreases s.len(),
{
    if s.len() == 0 {
        0
    } else if entry_lt(x, s[0]) {
        0
    } else {
        1 + insert_pos(s.drop_first(), x)
    }
}

/// The entries of `s` in the order they are shown: a stable sort by
/// `entry_lt`, as `slice::sort_by` with that comparator gives.
pub open spec fn sorted_listing(s: Seq<Entry>) -> Seq<Entry>
    decreases s.len(),
{
    if s.len() == 0 {
        Seq::empty()
    } else {
        let rest = sorted_listing(s.drop_last());
        rest.insert(insert_pos(rest, s.last()) as int, s.last())
    }
}

/// The paths of a sequence of entries.
pub open spec fn entry_paths(s: Seq<Entry>) -> Seq<Seq<char>> {
    s.map_values(|e: Entry| e.path@)
}

/// The characters of each string.
pub open spec fn strings_view(s: Seq<String>) -> Seq<Seq<char>> {
    s.map_values(|x: String| x@)
}

/// What a folder read gives: the drive roots first, then the folder's
/// entries in the order they are shown; a failed read gives its error.
pub open spec fn spec_read_folder(
    drives: Seq<String>,
    entries: Result<Seq<Entry>, Seq<char>>,
) -> Result<Seq<Seq<char>>, Seq<char>> {
    match entries {
        Ok(es) => Ok(strings_view(drives) + entry_paths(sorted_listing(es))),
        Err(e) => Err(e),
    }
}

/// The characters of a listing that may have failed.
pub open spec fn listing_view(r: Result<Vec<String>, String>) -> Result<Seq<Seq<char>>, Seq<char>> {
    match r {
        Ok(v) => Ok(strings_view(v@)),
        Err(e) => Err(e@),
    }
}

/// The entries of a read that may have failed.
pub open spec fn entries_view(r: Result<Vec<Entry>, String>) -> Result<Seq<Entry>, Seq<char>> {
    match r {
        Ok(v) => Ok(v@),
        Err(e) => Err(e@),
    }
}

proof fn lemma_chars_lt_irreflexive(a: Seq<char>)
    ensures
        !chars_lt(a, a),
    decreases a.len(),
{
    if a.len() > 0 {
        lemma_chars_lt_irreflexive(a.drop_first());
    }
}

proof fn lemma_chars_lt_transitive(a: Seq<char>, b: Seq<char>, c: Seq<char>)
    requires
        chars_lt(a, b),
        chars_lt(b, c),
    ensures
        chars_lt(a, c),
    decreases a.len(),
{
    if a.len() > 0 && b.len() > 0 && c.len() > 0 {
        if a[0] == b[0] && b[0] == c[0] {
            lemma_chars_lt_transitive(a.drop_first(), b.drop_first(), c.drop_first());
        }
    }
}

/// `entry_lt` is a strict order.
pub proof fn lemma_entry_lt_strict(a: Entry, b: Entry, c: Entry)
    ensures
        !entry_lt(a, a),
        entry_lt(a, b) && entry_lt(b, c) ==> entry_lt(a, c),
{
    match path_file_name(a.path@) {
        Some(x) => lemma_chars_lt_irreflexive(x),
        None => {},
    }
    if entry_lt(a, b) && entry_lt(b, c) && a.is_dir == b.is_dir && b.is_dir == c.is_dir {
        match (path_file_name(a.path@), path_file_name(b.path@), path_file_name(c.path@)) {
            (Some(x), Some(y), Some(z)) => lemma_chars_lt_transitive(x, y, z),
            _ => {},
        }
    }
}

proof fn lemma_insert_pos(s: Seq<Entry>, x: Entry)
    ensures
        insert_pos(s, x) <= s.len(),
        forall|i: int| 0 <= i < insert_pos(s, x) ==> !entry_lt(x, #[trigger] s[i]),
        insert_pos(s, x) < s.len() ==> entry_lt(x, s[insert_pos(s, x) as int]),
    decreases s.len(),
{
    if s.len() > 0 && !entry_lt(x, s[0]) {
        lemma_insert_pos(s.drop_first(), x);
        assert forall|i: int| 0 <= i < insert_pos(s, x) implies !entry_lt(x, #[trigger] s[i]) by {
            if i > 0 {
                assert(s[i] == s.drop_first()[i - 1]);
            }
        }
    }
}

proof fn lemma_insert_pos_unique(s: Seq<Entry>, x: Entry, p: int)
    requires
        0 <= p <= s.len(),
        forall|i: int| 0 <= i < p ==> !entry_lt(x, #[trigger] s[i]),
        p < s.len() ==> entry_lt(x, s[p]),
    ensures
        insert_pos(s, x) == p,
    decreases s.len(),
{
    if s.len() > 0 && p > 0 {
        assert(!entry_lt(x, s[0]));
        assert forall|i: int| 0 <= i < p - 1 implies !entry_lt(x, #[trigger] s.drop_first()[i]) by {
            assert(s.drop_first()[i] == s[i + 1]);
        }
        lemma_insert_pos_unique(s.drop_first(), x, p - 1);
    }
}

proof fn lemma_insert_sorted(s: Seq<Entry>, x: Entry)
    requires
        is_sorted(s),
    ensures
        is_sorted(s.insert(insert_pos(s, x) as int, x)),
{
    lemma_insert_pos(s, x);
    let p = insert_pos(s, x) as int;
    let t = s.insert(p, x);
    assert forall|i: int, j: int| 0 <= i < j < t.len() implies !entry_lt(#[trigger] t[j], #[trigger] t[i]) by {
        if i < p && j < p {
        } else if i < p && j == p {
        } else if i < p {
            assert(t[j] == s[j - 1]);
        } else if i == p {
            assert(t[j] == s[j - 1]);
            assert(entry_lt(x, s[p]));
            lemma_entry_lt_strict(s[j - 1], x, s[p]);
            lemma_entry_lt_strict(s[p], x, s[p]);
            if j - 1 > p {
                assert(!entry_lt(s[j - 1], s[p]));
            }
        } else {
            assert(t[i] == s[i - 1]);
            assert(t[j] == s[j - 1]);
        }
    }
}

/// A listing is shown in order: no entry is shown after one it precedes,
/// so in particular every directory comes before every other entry.
pub proof fn lemma_sorted_listing_sorted(s: Seq<Entry>)
    ensures
        is_sorted(sorted_listing(s)),
        forall|i: int, j: int|
            0 <= i < j < sorted_listing(s).len() && (#[trigger] sorted_listing(s)[j]).is_dir
                ==> (#[trigger] sorted_listing(s)[i]).is_dir,
    decreases s.len(),
{
    if s.len() > 0 {
        lemma_sorted_listing_sorted(s.drop_last());
        lemma_insert_sorted(sorted_listing(s.drop_last()), s.last());
    }
    let t = sorted_listing(s);
    assert forall|i: int, j: int| 0 <= i < j < t.len() && (#[trigger] t[j]).is_dir implies (#[trigger] t[i]).is_dir by {
        assert(!entry_lt(t[j], t[i]));
    }
}

/// A listing shows exactly the entries that were read, each as often.
pub proof fn lemma_sorted_listing_permutation(s: Seq<Entry>)
    ensures
        sorted_listing(s).to_multiset() == s.to_multiset(),
        sorted_listing(s).len() == s.len(),
    decreases s.len(),
{
    broadcast use vstd::seq_lib::to_multiset_insert, vstd::seq_lib::to_multiset_build;
    if s.len() > 0 {
        lemma_sorted_listing_permutation(s.drop_last());
        let rest = sorted_listing(s.drop_last());
        lemma_insert_pos(rest, s.last());
        assert(s.drop_last().push(s.last()) =~= s);
    }
}

/// Whether `a` strictly precedes `b` in lexicographic character order.
fn chars_less(a: &str, b: &str) -> (r: bool)
    ensures
        r == chars_lt(a@, b@),
{
    let n = a.unicode_len();
    let m = b.unicode_len();
    let mut i: usize = 0;
    while i < n && i < m
        invariant
            i <= n,
            i <= m,
            n == a@.len(),
            m == b@.len(),
            chars_lt(a@, b@) == chars_lt(a@.skip(i as int), b@.skip(i as int)),
        decreases n - i,
    {
        let ca = a.get_char(i);
        let cb = b.get_char(i);
        assert(a@.skip(i as int)[0] == ca);
        assert(b@.skip(i as int)[0] == cb);
        if ca != cb {
            return ca < cb;
        }
        assert(a@.skip(i as int).drop_first() =~= a@.skip(i + 1));
        assert(b@.skip(i as int).drop_first() =~= b@.skip(i + 1));
        i = i + 1;
    }
    assert(i == n ==> a@.skip(i as int).len() == 0);
    assert(i == m ==> b@.skip(i as int).len() == 0);
    i == n && i < m
}

/// Whether entry `a` is shown strictly before entry `b`.
fn entry_less(a: &Entry, b: &Entry) -> (r: bool)
    ensures
        r == entry_lt(*a, *b),
{
    if a.is_dir != b.is_dir {
        return a.is_dir;
    }
    let na = std_file_name(a.path.as_str());
    let nb = std_file_name(b.path.as_str());
    match (na, nb) {
        (None, Some(_)) => true,
        (Some(x), Some(y)) => chars_less(x.as_str(), y.as_str()),
        _ => false,
    }
}

/// Sorts entries for display: directories first, then by file name; entries
/// that compare equal keep the order in which they were read.
pub fn sort_entries(entries: Vec<Entry>) -> (r: Vec<Entry>)
    ensures
        r@ == sorted_listing(entries@),
{
    let ghost orig = entries@;
    let total = entries.len();
    let mut rest = entries;
    let mut res: Vec<Entry> = Vec::new();
    let mut k: usize = 0;
    assert(orig.take(0) =~= Seq::<Entry>::empty());
    assert(orig.skip(0) =~= orig);
    while rest.len() > 0
        invariant
            k <= orig.len(),
            orig.len() == total,
            k + rest@.len() == orig.len(),
            rest@ == orig.skip(k as int),
            res@ == sorted_listing(orig.take(k as int)),
        decreases rest.len(),
    {
        let x = rest.remove(0);
        assert(x == orig[k as int]);
        let len = res.len();
        let mut p: usize = 0;
        while p < len && !entry_less(&x, &res[p])
            invariant
                p <= len,
                len == res@.len(),
                forall|i: int| 0 <= i < p ==> !entry_lt(x, #[trigger] res@[i]),
            decreases len - p,
        {
            p = p + 1;
        }
        proof {
            lemma_insert_pos_unique(res@, x, p as int);
            assert(orig.take(k + 1).drop_last() =~= orig.take(k as int));
            assert(orig.take(k + 1).last() == x);
            assert(rest@ =~= orig.skip(k + 1));
        }
        res.insert(p, x);
        k = k + 1;
    }
    assert(orig.take(k as int) =~= orig);
    res
}

/// The listing of a folder: the drive roots, then the sorted entries;
/// a failed read keeps its error.
pub fn read_folder(drives: Vec<String>, entries: Result<Vec<Entry>, String>) -> (r: Result<
    Vec<String>,
    String,
>)
    ensures
        listing_view(r) == spec_read_folder(drives@, entries_view(entries)),
{
    match entries {
        Ok(es) => {
            let sorted = sort_entries(es);
            let ghost s = sorted@;
            let total = sorted.len();
            let mut out = drives;
            let ghost d = out@;
            let mut rest = sorted;
            let mut k: usize = 0;
            assert(s.skip(0) =~= s);
            while rest.len() > 0
                invariant
                    k <= s.len(),
                    s.len() == total,
                    k + rest@.len() == s.len(),
                    rest@ == s.skip(k as int),
                    strings_view(out@) == strings_view(d) + entry_paths(s.take(k as int)),
                decreases rest.len(),
            {
                let e = rest.remove(0);
                assert(e == s[k as int]);
                let ghost before = out@;
                out.push(e.path);
                proof {
                    assert(rest@ =~= s.skip(k + 1));
                    assert(entry_paths(s.take(k + 1)) =~= entry_paths(s.take(k as int)).push(
                        s[k as int].path@,
                    ));
                    assert(strings_view(out@) =~= strings_view(before).push(s[k as int].path@));
                }
                k = k + 1;
            }
            assert(s.take(k as int) =~= s);
            Ok(out)
        },
        Err(e) => Err(e),
    }
}

/// The letter of drive `k` (bit `k` of a logical-drive mask): `A` for bit 0,
/// then the following characters in order.
pub open spec fn drive_letter(k: int) -> char {
    (65 + k) as char
}

/// The root of drive `k`, such as `A:\` for bit 0.
pub open spec fn drive_name(k: int) -> Seq<char> {
    seq![drive_letter(k)] + ":\\"@
}

/// Whether bit `k` of a logical-drive mask is set.
pub open spec fn drive_bit(mask: u32, k: u32) -> bool {
    mask & (1u32 << k) != 0
}

/// The roots of the drives whose bits, below bit `n`, are set in `mask`,
/// in ascending bit order.
pub open spec fn drive_names_below(mask: u32, n: nat) -> Seq<Seq<char>>
    decreases n,
{
    if n == 0 {
        Seq::empty()
    } else {
        let k = (n - 1) as nat;
        let rest = drive_names_below(mask, k);
        if drive_bit(mask, k as u32) {
            rest.push(drive_name(k as int))
        } else {
            rest
        }
    }
}

/// Calls `char::to_string`: the one-character string of `c`.
#[verifier::external_body]
fn std_char_to_string(c: char) -> (r: String)
    ensures
        r@ == seq![c],
{
    c.to_string()
}

/// The drive roots named by a logical-drive mask (as `GetLogicalDrives`
/// returns it): `A:\` for bit 0, `B:\` for bit 1, and so on, for each set
/// bit in ascending order.
pub fn drive_names(mask: u32) -> (r: Vec<String>)
    ensures
        strings_view(r@) == drive_names_below(mask, 32),
{
    let mut out: Vec<String> = Vec::new();
    let mut k: u32 = 0;
    assert(strings_view(out@) =~= drive_names_below(mask, 0));
    while k < 32
        invariant
            k <= 32,
            strings_view(out@) == drive_names_below(mask, k as nat),
        decreases 32 - k,
    {
        if mask & (1u32 << k) != 0 {
            let letter = ((65u8 + k as u8) as char);
            assert(letter == drive_letter(k as int));
            let name = std_char_to_string(letter).concat(":\\");
            let ghost before = out@;
            out.push(name);
            assert(strings_view(out@) =~= strings_view(before).push(drive_name(k as int)));
        }
        k = k + 1;
    }
    out
}

proof fn lemma_chars_lt_total(x: Seq<char>, y: Seq<char>)
    requires
        x != y,
    ensures
        chars_lt(x, y) || chars_lt(y, x),
    decreases x.len(),
{
    if x.len() == 0 {
        assert(y.len() > 0) by {
            if y.len() == 0 {
                assert(x =~= y);
            }
        }
    } else if y.len() == 0 {
    } else if x[0] == y[0] {
        if x.drop_first() == y.drop_first() {
            assert(x =~= y) by {
                assert(x.len() == x.drop_first().len() + 1);
                assert(y.len() == y.drop_first().len() + 1);
                assert forall|i: int| 0 <= i < x.len() implies x[i] == y[i] by {
                    if i > 0 {
                        assert(x[i] == x.drop_first()[i - 1]);
                        assert(y[i] == y.drop_first()[i - 1]);
                    }
                }
            }
        }
        lemma_chars_lt_total(x.drop_first(), y.drop_first());
    }
}

/// Entries of different kinds or with different file names are ordered one
/// way or the other.
pub proof fn lemma_entry_lt_total(a: Entry, b: Entry)
    requires
        a.is_dir != b.is_dir || path_file_name(a.path@) != path_file_name(b.path@),
    ensures
        entry_lt(a, b) || entry_lt(b, a),
{
    if a.is_dir == b.is_dir {
        match (path_file_name(a.path@), path_file_name(b.path@)) {
            (Some(x), Some(y)) => lemma_chars_lt_total(x, y),
            _ => {},
        }
    }
}

/// Two sorted sequences of the same entries, any two different ones of
/// which are ordered, are the same sequence.
pub proof fn lemma_sorted_unique(s: Seq<Entry>, t: Seq<Entry>)
    requires
        is_sorted(s),
        is_sorted(t),
        s.to_multiset() == t.to_multiset(),
        forall|a: Entry, b: Entry|
            s.contains(a) && s.contains(b) && a != b ==> entry_lt(a, b) || entry_lt(b, a),
    ensures
        s == t,
    decreases s.len(),
{
    broadcast use vstd::seq_lib::to_multiset_contains, vstd::seq_lib::to_multiset_len,
        vstd::seq_lib::to_multiset_remove;

    assert(s.len() == s.to_multiset().len());
    assert(t.len() == t.to_multiset().len());
    if s.len() > 0 {
        let a = s[0];
        let b = t[0];
        assert(s.to_multiset().count(b) > 0);
        assert(t.to_multiset().count(a) > 0);
        assert(s.contains(b));
        assert(t.contains(a));
        if a != b {
            let m = choose|m: int| 0 <= m < t.len() && t[m] == a;
            let k = choose|k: int| 0 <= k < s.len() && s[k] == b;
            assert(!entry_lt(t[m], t[0]));
            assert(!entry_lt(s[k], s[0]));
            assert(s.contains(a));
        }
        let s1 = s.drop_first();
        let t1 = t.drop_first();
        assert(s.remove(0) =~= s1);
        assert(t.remove(0) =~= t1);
        assert(s1.to_multiset() == s.to_multiset().remove(a));
        assert(t1.to_multiset() == t.to_multiset().remove(b));
        assert forall|i: int, j: int| 0 <= i < j < s1.len() implies !entry_lt(#[trigger] s1[j], #[trigger] s1[i]) by {
            assert(s1[j] == s[j + 1] && s1[i] == s[i + 1]);
        }
        assert forall|i: int, j: int| 0 <= i < j < t1.len() implies !entry_lt(#[trigger] t1[j], #[trigger] t1[i]) by {
            assert(t1[j] == t[j + 1] && t1[i] == t[i + 1]);
        }
        assert forall|x: Entry, y: Entry| s1.contains(x) && s1.contains(y) && x != y implies entry_lt(x, y) || entry_lt(y, x) by {
            let i = choose|i: int| 0 <= i < s1.len() && s1[i] == x;
            let j = choose|j: int| 0 <= j < s1.len() && s1[j] == y;
            assert(s[i + 1] == x && s[j + 1] == y);
            assert(s.contains(x) && s.contains(y));
        }
        lemma_sorted_unique(s1, t1);
        assert forall|i: int| 0 <= i < s.len() implies s[i] == t[i] by {
            if i > 0 {
                assert(s[i] == s1[i - 1] && t[i] == t1[i - 1]);
            }
        }
        assert(s =~= t);
    } else {
        assert(s =~= t);
    }
}

} // verus!
