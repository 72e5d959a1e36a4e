//! Reductions of the readings that each probe collects: counter sums, disk
//! usage, the representative temperature and the running-container count.

use vstd::prelude::*;
use vstd::utf8::valid_utf8;

verus! {

/// Sum of a sequence of counters, as an unbounded integer.
pub open spec fn total(s: Seq<u64>) -> int
    decreases s.len(),
{
    if s.len() == 0 {
        0
    } else {
        total(s.drop_last()) + s.last()
    }
}

/// A prefix never sums to more than the whole sequence.
proof fn lemma_total_prefix(s: Seq<u64>, i: int)
    requires
        0 <= i <= s.len(),
    ensures
        total(s.take(i)) <= total(s),
    decreases s.len(),
{
    if i < s.len() {
        lemma_total_prefix(s.drop_last(), i);
        assert(s.drop_last().take(i) =~= s.take(i));
    } else {
        assert(s.take(i) =~= s);
    }
}

/// Counters never sum to less than zero.
pub proof fn lemma_total_nonneg(s: Seq<u64>)
    ensures
        total(s) >= 0,
{
    lemma_total_prefix(s, 0);
    assert(s.take(0) =~= Seq::<u64>::empty());
}

/// Sums counters. `None` when the sum does not fit in a `u64`: the probe is
/// then unavailable rather than wrong.
pub fn sum_counters(values: &Vec<u64>) -> (r: Option<u64>)
    ensures
        r == (if total(values@) <= u64::MAX {
            Some(total(values@) as u64)
        } else {
            None::<u64>
        }),
{
    let mut acc: u64 = 0;
    let mut i: usize = 0;
    while i < values.len()
        invariant
            i <= values@.len(),
            acc == total(values@.take(i as int)),
        decreases values@.len() - i,
    {
        assert(values@.take(i + 1).drop_last() =~= values@.take(i as int));
        match acc.checked_add(values[i]) {
            Some(next) => {
                acc = next;
            },
            None => {
                proof {
                    lemma_total_prefix(values@, i + 1);
                }
                return None;
            },
        }
        i = i + 1;
    }
    assert(values@.take(i as int) =~= values@);
    Some(acc)
}

/// Space of one mounted volume, in bytes.
#[derive(Clone, Copy, Debug, PartialEq, Eq, Structural)]
pub struct Volume {
    pub total: u64,
    pub available: u64,
}

/// Disk space over all volumes, in bytes.
#[derive(Clone, Copy, Debug, PartialEq, Eq, Structural)]
pub struct DiskUsage {
    pub total: u64,
    pub used: u64,
    pub free: u64,
}

pub open spec fn totals(v: Seq<Volume>) -> Seq<u64> {
    v.map_values(|d: Volume| d.total)
}

pub open spec fn availables(v: Seq<Volume>) -> Seq<u64> {
    v.map_values(|d: Volume| d.available)
}

/// Used space is total less free, and never below zero: the two figures of a
/// volume are read at different moments and may disagree.
pub open spec fn used_of(total: int, free: int) -> int {
    if free <= total {
        total - free
    } else {
        0
    }
}

/// Totals of disk space. `None` when a sum does not fit in a `u64`.
pub fn disk_usage(volumes: &Vec<Volume>) -> (r: Option<DiskUsage>)
    ensures
        (total(totals(volumes@)) <= u64::MAX && total(availables(volumes@)) <= u64::MAX)
            <==> r is Some,
        r matches Some(u) ==> {
            &&& u.total == total(totals(volumes@))
            &&& u.free == total(availables(volumes@))
            &&& u.used == used_of(u.total as int, u.free as int)
        },
{
    let mut sum_total: u64 = 0;
    let mut sum_free: u64 = 0;
    let mut ok_total = true;
    let mut ok_free = true;
    let mut i: usize = 0;
    while i < volumes.len()
        invariant
            i <= volumes@.len(),
            ok_total ==> sum_total == total(totals(volumes@).take(i as int)),
            !ok_total ==> total(totals(volumes@)) > u64::MAX,
            ok_free ==> sum_free == total(availables(volumes@).take(i as int)),
            !ok_free ==> total(availables(volumes@)) > u64::MAX,
        decreases volumes@.len() - i,
    {
        let v = volumes[i];
        assert(totals(volumes@).take(i + 1).drop_last() =~= totals(volumes@).take(i as int));
        assert(availables(volumes@).take(i + 1).drop_last() =~= availables(
            volumes@,
        ).take(i as int));
        if ok_total {
            match sum_total.checked_add(v.total) {
                Some(n) => {
                    sum_total = n;
                },
                None => {
                    proof {
                        lemma_total_prefix(totals(volumes@), i + 1);
                    }
                    ok_total = false;
                },
            }
        }
        if ok_free {
            match sum_free.checked_add(v.available) {
                Some(n) => {
                    sum_free = n;
                },
                None => {
                    proof {
                        lemma_total_prefix(availables(volumes@), i + 1);
                    }
                    ok_free = false;
                },
            }
        }
        i = i + 1;
    }
    assert(totals(volumes@).take(i as int) =~= totals(volumes@));
    assert(availables(volumes@).take(i as int) =~= availables(volumes@));
    if ok_total && ok_free {
        let used = if sum_free <= sum_total {
            sum_total - sum_free
        } else {
            0
        };
        Some(DiskUsage { total: sum_total, used, free: sum_free })
    } else {
        None
    }
}

/// The reading of the last sensor that reported one, or `default` when none
/// did. Each later reading overwrites an earlier one.
pub open spec fn last_present<R>(s: Seq<Option<R>>, default: R) -> R
    decreases s.len(),
{
    if s.len() == 0 {
        default
    } else {
        match s.last() {
            Some(x) => x,
            None => last_present(s.drop_last(), default),
        }
    }
}

/// With no sensor reporting, the default is what remains.
pub proof fn lemma_last_present_none<R>(s: Seq<Option<R>>, default: R)
    requires
        forall|i: int| 0 <= i < s.len() ==> (#[trigger] s[i]) is None,
    ensures
        last_present(s, default) == default,
    decreases s.len(),
{
    if s.len() > 0 {
        assert(s.last() is None);
        lemma_last_present_none(s.drop_last(), default);
    }
}

/// Picks the representative reading of a set of sensors: the last one that
/// reported a value, else `default`.
pub fn last_reading<R: Copy>(readings: &Vec<Option<R>>, default: R) -> (r: R)
    ensures
        r == last_present(readings@, default),
{
    let mut acc = default;
    let mut i: usize = 0;
    while i < readings.len()
        invariant
            i <= readings@.len(),
            acc == last_present(readings@.take(i as int), default),
        decreases readings@.len() - i,
    {
        assert(readings@.take(i + 1).drop_last() =~= readings@.take(i as int));
        match &readings[i] {
            Some(x) => {
                acc = *x;
            },
            None => {},
        }
        i = i + 1;
    }
    assert(readings@.take(i as int) =~= readings@);
    acc
}

pub const NEWLINE: u8 = 10;

/// Number of line feeds in a byte string.
pub open spec fn newlines(s: Seq<u8>) -> nat
    decreases s.len(),
{
    if s.len() == 0 {
        0
    } else {
        newlines(s.drop_last()) + if s.last() == 10 {
            1nat
        } else {
            0nat
        }
    }
}

proof fn lemma_newlines_bound(s: Seq<u8>)
    ensures
        newlines(s) <= s.len(),
    decreases s.len(),
{
    if s.len() > 0 {
        lemma_newlines_bound(s.drop_last());
    }
}

/// Number of lines of a text: one per line feed, and one more for a last line
/// that has no line feed after it. An empty text has no lines.
pub open spec fn line_count(s: Seq<u8>) -> nat {
    newlines(s) + if s.len() > 0 && s.last() != 10 {
        1nat
    } else {
        0nat
    }
}

/// Counts the lines of a text given as bytes: the line feeds, and a last
/// line that has none after it.
pub fn count_lines(text: &Vec<u8>) -> (r: usize)
    ensures
        r == line_count(text@),
{
    let mut n: usize = 0;
    let mut i: usize = 0;
    while i < text.len()
        invariant
            i <= text@.len(),
            n == newlines(text@.take(i as int)),
            n <= i,
        decreases text@.len() - i,
    {
        assert(text@.take(i + 1).drop_last() =~= text@.take(i as int));
        if text[i] == NEWLINE {
            n = n + 1;
        }
        i = i + 1;
    }
    assert(text@.take(i as int) =~= text@);
    if text.len() > 0 && text[text.len() - 1] != NEWLINE {
        proof {
            lemma_newlines_bound(text@.drop_last());
        }
        n = n + 1;
    }
    n
}

/// Relies on `std::str::from_utf8`: it returns `Ok` exactly when the bytes
/// are well-formed UTF-8.
#[verifier::external_body]
fn is_utf8(bytes: &Vec<u8>) -> (r: bool)
    ensures
        r == valid_utf8(bytes@),
{
    std::str::from_utf8(bytes.as_slice()).is_ok()
}

/// What a container-listing query that could be run gave back: whether it
/// exited successfully, and its output, one container identifier per line.
pub struct ContainerListing {
    pub succeeded: bool,
    pub output: Vec<u8>,
}

/// Running containers according to a listing: the lines of a successful
/// listing that is UTF-8 text. A query that could not be run (`None`), that
/// failed, or whose output cannot be read as text counts none, as does a
/// count too large for the reported type.
pub open spec fn containers_of(listing: Option<ContainerListing>) -> nat {
    match listing {
        Some(l) => if l.succeeded && valid_utf8(l.output@) && line_count(l.output@) <= u32::MAX {
            line_count(l.output@)
        } else {
            0
        },
        None => 0,
    }
}

/// The number of running containers, 0 whenever the listing cannot be had or
/// read.
pub fn container_count(listing: &Option<ContainerListing>) -> (r: u32)
    ensures
        r == containers_of(*listing),
{
    match listing {
        Some(l) => {
            if !l.succeeded || !is_utf8(&l.output) {
                return 0;
            }
            let n = count_lines(&l.output);
            if n <= u32::MAX as usize {
                n as u32
            } else {
                0
            }
        },
        None => 0,
    }
}

} // verus!
