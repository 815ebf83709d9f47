//! Device discovery: how the list of announced devices follows the sources
//! that the finder reports.
use vstd::prelude::*;

use crate::ndi::Source;

verus! {

/// What identifies a source: its name and its address.
pub open spec fn source_key(s: Source) -> (Seq<char>, Seq<char>) {
    (s.ndi_name@, s.url_address@)
}

/// The identities of a list of sources.
pub open spec fn source_keys(s: Seq<Source>) -> Seq<(Seq<char>, Seq<char>)> {
    s.map_values(|x: Source| source_key(x))
}

/// Keeps the identities that are not among `keys`.
pub open spec fn not_among(keys: Seq<(Seq<char>, Seq<char>)>) -> spec_fn(
    (Seq<char>, Seq<char>),
) -> bool {
    |k: (Seq<char>, Seq<char>)| !keys.contains(k)
}

/// How long the finder waits for new sources: one second at first, then five.
pub fn poll_timeout_ms(first: bool) -> (r: u32)
    ensures
        r == (if first {
            1000u32
        } else {
            5000u32
        }),
{
    if first {
        1000
    } else {
        5000
    }
}

/// Whether a source with the identity of `s` is in `list`.
pub fn contains_source(list: &Vec<Source>, s: &Source) -> (r: bool)
    ensures
        r == source_keys(list@).contains(source_key(*s)),
{
    let n = list.len();
    let mut i: usize = 0;
    while i < n
        invariant
            n == list@.len(),
            i <= n,
            forall|j: int| 0 <= j < i ==> source_key(#[trigger] list@[j]) != source_key(*s),
        decreases n - i,
    {
        if list[i].eq(s) {
            proof {
                assert(source_keys(list@)[i as int] == source_key(*s));
            }
            return true;
        }
        i = i + 1;
    }
    proof {
        if source_keys(list@).contains(source_key(*s)) {
            let j = choose|j: int|
                0 <= j < source_keys(list@).len() && source_keys(list@)[j] == source_key(*s);
            assert(source_key(list@[j]) == source_key(*s));
        }
    }
    false
}

/// Compares the devices announced so far (by their sources, `current`) with
/// the sources the finder now reports.
///
/// Returns, for each current device, whether it has expired (its source is no
/// longer reported), and the sources to announce as new devices: those
/// reported that no current device stands for, in the order reported.
pub fn update_devices(current: &Vec<Source>, sources: &Vec<Source>) -> (r: (Vec<bool>, Vec<
    Source,
>))
    ensures
        r.0@.len() == current@.len(),
        forall|i: int|
            0 <= i < current@.len() ==> #[trigger] r.0@[i] == !source_keys(sources@).contains(
                source_key(current@[i]),
            ),
        source_keys(r.1@) == source_keys(sources@).filter(not_among(source_keys(current@))),
{
    let mut expired: Vec<bool> = Vec::new();
    let mut remaining: Vec<Source> = Vec::new();
    let n = current.len();
    let mut i: usize = 0;
    while i < n
        invariant
            n == current@.len(),
            i <= n,
            expired@.len() == i,
            forall|j: int|
                0 <= j < i ==> #[trigger] expired@[j] == !source_keys(sources@).contains(
                    source_key(current@[j]),
                ),
            forall|k: (Seq<char>, Seq<char>)|
                #![trigger source_keys(remaining@).contains(k)]
                source_keys(remaining@).contains(k) <==> (source_keys(
                    current@.subrange(0, i as int),
                ).contains(k) && source_keys(sources@).contains(k)),
        decreases n - i,
    {
        let ghost rem0 = remaining@;
        let present = contains_source(sources, &current[i]);
        if present {
            expired.push(false);
            remaining.push(current[i].to_owned());
        } else {
            expired.push(true);
        }
        proof {
            let pre = current@.subrange(0, i as int);
            let post = current@.subrange(0, i + 1);
            assert(source_keys(post) =~= source_keys(pre).push(source_key(current@[i as int])));
            if present {
                assert(source_keys(remaining@) =~= source_keys(rem0).push(
                    source_key(current@[i as int]),
                ));
            } else {
                assert(remaining@ == rem0);
            }
            assert forall|k: (Seq<char>, Seq<char>)|
                #![trigger source_keys(remaining@).contains(k)]
                source_keys(remaining@).contains(k) <== (source_keys(post).contains(k)
                    && source_keys(sources@).contains(k)) by {
                if source_keys(post).contains(k) && source_keys(sources@).contains(k) {
                    let j = choose|j: int|
                        0 <= j < source_keys(post).len() && source_keys(post)[j] == k;
                    if j < i {
                        assert(source_keys(pre)[j] == k);
                        assert(source_keys(rem0).contains(k));
                        let m = choose|m: int|
                            0 <= m < source_keys(rem0).len() && source_keys(rem0)[m] == k;
                        assert(source_keys(remaining@)[m] == k);
                    } else {
                        assert(source_keys(remaining@)[source_keys(remaining@).len() - 1] == k);
                    }
                }
            }
            assert forall|k: (Seq<char>, Seq<char>)|
                #![trigger source_keys(remaining@).contains(k)]
                source_keys(remaining@).contains(k) ==> (source_keys(post).contains(k)
                    && source_keys(sources@).contains(k)) by {
                if source_keys(remaining@).contains(k) {
                    let m = choose|m: int|
                        0 <= m < source_keys(remaining@).len() && source_keys(remaining@)[m] == k;
                    if m < source_keys(rem0).len() {
                        assert(source_keys(rem0)[m] == k);
                        assert(source_keys(rem0).contains(k));
                        let j = choose|j: int|
                            0 <= j < source_keys(pre).len() && source_keys(pre)[j] == k;
                        assert(source_keys(post)[j] == k);
                    } else {
                        assert(source_keys(post)[i as int] == k);
                    }
                }
            }
        }
        i = i + 1;
    }
    proof {
        assert(current@.subrange(0, n as int) =~= current@);
    }

    let ghost keep = not_among(source_keys(current@));
    let mut appeared: Vec<Source> = Vec::new();
    let m = sources.len();
    let mut j: usize = 0;
    while j < m
        invariant
            m == sources@.len(),
            j <= m,
            keep == not_among(source_keys(current@)),
            forall|k: (Seq<char>, Seq<char>)|
                #![trigger source_keys(remaining@).contains(k)]
                source_keys(remaining@).contains(k) <==> (source_keys(current@).contains(k)
                    && source_keys(sources@).contains(k)),
            source_keys(appeared@) == source_keys(sources@.subrange(0, j as int)).filter(keep),
        decreases m - j,
    {
        let ghost app0 = appeared@;
        let s = &sources[j];
        let known = contains_source(&remaining, s);
        proof {
            assert(source_keys(sources@)[j as int] == source_key(*s));
            assert(source_keys(sources@).contains(source_key(*s)));
            assert(known == source_keys(current@).contains(source_key(*s)));
        }
        if !known {
            appeared.push(s.to_owned());
        }
        proof {
            let pre = source_keys(sources@.subrange(0, j as int));
            let post = source_keys(sources@.subrange(0, j + 1));
            assert(post =~= pre.push(source_key(*s)));
            assert(post.drop_last() =~= pre);
            reveal_with_fuel(Seq::filter, 1);
            if !known {
                assert(source_keys(appeared@) =~= source_keys(app0).push(source_key(*s)));
            } else {
                assert(appeared@ == app0);
            }
        }
        j = j + 1;
    }
    proof {
        assert(sources@.subrange(0, m as int) =~= sources@);
    }
    (expired, appeared)
}

/// Every element kept by a filter comes from the filtered sequence.
pub proof fn lemma_filter_from_source<A>(s: Seq<A>, pred: spec_fn(A) -> bool, i: int)
    requires
        0 <= i < s.filter(pred).len(),
    ensures
        s.contains(s.filter(pred)[i]),
    decreases s.len(),
{
    reveal_with_fuel(Seq::filter, 1);
    if s.len() > 0 {
        let t = s.drop_last();
        if pred(s.last()) && i == s.filter(pred).len() - 1 {
            assert(s[s.len() - 1] == s.filter(pred)[i]);
        } else {
            assert(t.filter(pred)[i] == s.filter(pred)[i]);
            lemma_filter_from_source(t, pred, i);
            let j = choose|j: int| 0 <= j < t.len() && t[j] == t.filter(pred)[i];
            assert(s[j] == t[j]);
        }
    }
}

/// After an update the devices kept plus those announced stand exactly for the
/// reported sources: every reported source has a device, and every device a
/// reported source.
pub proof fn lemma_devices_follow_sources(
    current: Seq<Source>,
    sources: Seq<Source>,
    expired: Seq<bool>,
    appeared: Seq<Source>,
    k: (Seq<char>, Seq<char>),
)
    requires
        expired.len() == current.len(),
        forall|i: int|
            0 <= i < current.len() ==> #[trigger] expired[i] == !source_keys(sources).contains(
                source_key(current[i]),
            ),
        source_keys(appeared) == source_keys(sources).filter(not_among(source_keys(current))),
    ensures
        ((exists|i: int| 0 <= i < current.len() && !expired[i] && source_key(current[i]) == k)
            || source_keys(appeared).contains(k)) <==> source_keys(sources).contains(k),
{
    broadcast use vstd::seq_lib::group_filter_ensures;

    let keys = source_keys(sources);
    let pred = not_among(source_keys(current));
    if source_keys(sources).contains(k) {
        if source_keys(current).contains(k) {
            let i = choose|i: int|
                0 <= i < source_keys(current).len() && source_keys(current)[i] == k;
            assert(source_key(current[i]) == k);
            assert(!expired[i]);
        } else {
            let j = choose|j: int| 0 <= j < keys.len() && keys[j] == k;
            assert(pred(keys[j]));
            keys.lemma_filter_contains(pred, j);
        }
    }
    if source_keys(appeared).contains(k) {
        let j = choose|j: int|
            0 <= j < source_keys(appeared).len() && source_keys(appeared)[j] == k;
        assert(keys.filter(pred)[j] == k);
        lemma_filter_from_source(keys, pred, j);
    }
    if exists|i: int| 0 <= i < current.len() && !expired[i] && source_key(current[i]) == k {
        let i = choose|i: int| 0 <= i < current.len() && !expired[i] && source_key(current[i]) == k;
        assert(expired[i] == !source_keys(sources).contains(source_key(current[i])));
    }
}

} // verus!
