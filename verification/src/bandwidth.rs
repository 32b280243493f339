//! Interface counters from `/proc/net/dev`, and the differences between
//! two readings that rates are computed from.
//!
//! Reading the file inside a namespace, and dividing by the time between
//! readings, are left to the caller.
use vstd::prelude::*;
use crate::lines::{lemma_words_of_spaced, lines, lines_of, plain_field, spaced, split_whitespace, trim, trim_spec, words_of};
use crate::paths::{keys_of, last_with_key, merge_by_id, with_key, Keyed};
use crate::text::{chars_of, find_char, find_first, lemma_find_char, parse_u64, parse_u64_spec, string_from_chars, subvec};

verus! {

/// The counters of one interface.
#[derive(Debug, Clone)]
pub struct InterfaceCounters {
    pub name: String,
    pub rx_bytes: u64,
    pub rx_packets: u64,
    pub rx_errors: u64,
    pub rx_dropped: u64,
    pub tx_bytes: u64,
    pub tx_packets: u64,
    pub tx_errors: u64,
    pub tx_dropped: u64,
}

impl Keyed for InterfaceCounters {
    open spec fn key(&self) -> Seq<char> {
        self.name@
    }

    fn id_str(&self) -> (r: &str) {
        self.name.as_str()
    }
}

/// A counter field: its value, or 0 when it does not read as one.
pub open spec fn counter(w: Seq<char>) -> u64 {
    match parse_u64_spec(w) {
        Some(n) => n as u64,
        None => 0,
    }
}

/// The counters of a line `name: f0 f1 ... f15`: the name trimmed, and
/// from its fields the received bytes, packets, errors and drops (fields
/// 0 to 3) and the transmitted ones (fields 8 to 11). A line without `:`
/// or with fewer than 16 fields gives nothing.
pub open spec fn line_counters(line: Seq<char>) -> Option<(Seq<char>, Seq<u64>)> {
    let i = find_char(line, ':');
    if i >= line.len() {
        None
    } else {
        let f = words_of(line.subrange((i + 1) as int, line.len() as int));
        if f.len() < 16 {
            None
        } else {
            Some(
                (
                    trim_spec(line.subrange(0, i as int)),
                    seq![
                        counter(f[0]),
                        counter(f[1]),
                        counter(f[2]),
                        counter(f[3]),
                        counter(f[8]),
                        counter(f[9]),
                        counter(f[10]),
                        counter(f[11]),
                    ],
                ),
            )
        }
    }
}

/// A `/proc/net/dev` line `name: f0 f1 ... f15` gives the trimmed name
/// and, in this order, the received bytes (f0), packets (f1), errors (f2)
/// and drops (f3), then the transmitted bytes (f8), packets (f9), errors
/// (f10) and drops (f11); the compression, multicast, fifo, frame,
/// collision and carrier columns are not read.
pub proof fn law_counters_read_their_columns(name: Seq<char>, fs: Seq<Seq<char>>)
    requires
        forall|j: int| 0 <= j < name.len() ==> name[j] != ':',
        fs.len() >= 16,
        forall|k: int| 0 <= k < fs.len() ==> plain_field(#[trigger] fs[k]),
    ensures
        line_counters(name + seq![':'] + spaced(fs)) matches Some((n, c)) && n == trim_spec(name)
            && c.len() == 8 && c[0] == counter(fs[0]) && c[1] == counter(fs[1]) && c[2] == counter(
            fs[2],
        ) && c[3] == counter(fs[3]) && c[4] == counter(fs[8]) && c[5] == counter(fs[9]) && c[6]
            == counter(fs[10]) && c[7] == counter(fs[11]),
{
    let line = name + seq![':'] + spaced(fs);
    assert forall|j: int| 0 <= j < name.len() implies line[j] != ':' by {
        assert(line[j] == name[j]);
    }
    assert(line[name.len() as int] == ':');
    lemma_find_char(line, ':', name.len() as int);
    assert(line.subrange(0, name.len() as int) =~= name);
    assert(line.subrange((name.len() + 1) as int, line.len() as int) =~= spaced(fs));
    lemma_words_of_spaced(fs);
}

/// The counters of the lines that give some, in order.
pub open spec fn counters_of_lines(ls: Seq<Seq<char>>) -> Seq<(Seq<char>, Seq<u64>)>
    decreases ls.len(),
{
    if ls.len() == 0 {
        Seq::empty()
    } else {
        counters_of_lines(ls.drop_last()) + match line_counters(ls.last()) {
            Some(c) => seq![c],
            None => Seq::empty(),
        }
    }
}

/// The lines of `/proc/net/dev` after its two header lines.
pub open spec fn data_lines(contents: Seq<char>) -> Seq<Seq<char>> {
    let ls = lines_of(contents);
    if ls.len() <= 2 {
        Seq::empty()
    } else {
        ls.subrange(2, ls.len() as int)
    }
}

/// The name and counters of a record.
pub open spec fn counters_view(c: InterfaceCounters) -> (Seq<char>, Seq<u64>) {
    (
        c.name@,
        seq![
            c.rx_bytes,
            c.rx_packets,
            c.rx_errors,
            c.rx_dropped,
            c.tx_bytes,
            c.tx_packets,
            c.tx_errors,
            c.tx_dropped,
        ],
    )
}

fn counter_of(w: &String) -> (r: u64)
    ensures
        r == counter(w@),
{
    match parse_u64(w.as_str()) {
        Some(n) => n,
        None => 0,
    }
}

/// The counters of one line (see `line_counters`).
fn parse_line(line: &str) -> (r: Option<InterfaceCounters>)
    ensures
        match line_counters(line@) {
            Some(c) => r matches Some(x) && counters_view(x) == c,
            None => r is None,
        },
{
    let v = chars_of(line);
    let i = find_first(&v, ':');
    if i >= v.len() {
        return None;
    }
    let name_part = string_from_chars(&subvec(&v, 0, i));
    let stats_part = string_from_chars(&subvec(&v, i + 1, v.len()));
    let f = split_whitespace(stats_part.as_str());
    if f.len() < 16 {
        return None;
    }
    let c = InterfaceCounters {
        name: trim(name_part.as_str()),
        rx_bytes: counter_of(&f[0]),
        rx_packets: counter_of(&f[1]),
        rx_errors: counter_of(&f[2]),
        rx_dropped: counter_of(&f[3]),
        tx_bytes: counter_of(&f[8]),
        tx_packets: counter_of(&f[9]),
        tx_errors: counter_of(&f[10]),
        tx_dropped: counter_of(&f[11]),
    };
    proof {
        let ff = words_of(line@.subrange((i + 1) as int, line@.len() as int));
        assert(f.deep_view() == ff);
        assert(f@[0]@ == ff[0] && f@[1]@ == ff[1] && f@[2]@ == ff[2] && f@[3]@ == ff[3]);
        assert(f@[8]@ == ff[8] && f@[9]@ == ff[9] && f@[10]@ == ff[10] && f@[11]@ == ff[11]);
        let lc = line_counters(line@)->0;
        let (_, counts) = lc;
        assert(counters_view(c).1 =~= counts);
    }
    Some(c)
}

/// The counters in `/proc/net/dev` contents, one record per line that
/// gives some, in order (see `line_counters`).
pub fn parse_proc_net_dev(contents: &str) -> (r: Vec<InterfaceCounters>)
    ensures
        r@.map_values(|c: InterfaceCounters| counters_view(c)) == counters_of_lines(
            data_lines(contents@),
        ),
{
    let ls = lines(contents);
    let mut r: Vec<InterfaceCounters> = Vec::new();
    if ls.len() <= 2 {
        assert(r@.map_values(|c: InterfaceCounters| counters_view(c)) =~= Seq::<
            (Seq<char>, Seq<u64>),
        >::empty());
        return r;
    }
    let ghost data = data_lines(contents@);
    let mut i: usize = 2;
    while i < ls.len()
        invariant
            2 <= i <= ls@.len(),
            ls.deep_view() == lines_of(contents@),
            data == ls.deep_view().subrange(2, ls@.len() as int),
            r@.map_values(|c: InterfaceCounters| counters_view(c)) == counters_of_lines(
                data.subrange(0, i - 2),
            ),
        decreases ls.len() - i,
    {
        let ghost before = r@;
        proof {
            let next = data.subrange(0, i - 1);
            assert(next.drop_last() =~= data.subrange(0, i - 2));
            assert(next.last() == ls@[i as int]@);
        }
        match parse_line(ls[i].as_str()) {
            Some(c) => {
                r.push(c);
                assert(r@.map_values(|c: InterfaceCounters| counters_view(c)) =~= before.map_values(
                    |c: InterfaceCounters| counters_view(c),
                ).push(counters_view(c)));
            },
            None => {},
        }
        i = i + 1;
    }
    assert(data.subrange(0, ls@.len() - 2) =~= data);
    r
}

/// One record per interface name, the last one read for each: what keying
/// the records by name gives.
pub fn latest_by_interface(records: Vec<InterfaceCounters>) -> (r: Vec<InterfaceCounters>)
    ensures
        forall|i: int, j: int|
            0 <= i < j < r@.len() ==> #[trigger] keys_of(r@)[i] != #[trigger] keys_of(r@)[j],
        forall|k: Seq<char>| #[trigger] with_key(r@, k) == last_with_key(records@, k),
{
    merge_by_id(records)
}

/// What rates are computed from: the received and transmitted bytes since
/// the previous reading, and the time between the readings, each as a
/// difference that does not go below zero.
pub fn reading_deltas(
    current: &InterfaceCounters,
    current_time: u64,
    previous: &InterfaceCounters,
    previous_time: u64,
) -> (r: (u64, u64, u64))
    ensures
        r.0 == (if current.rx_bytes >= previous.rx_bytes {
            current.rx_bytes - previous.rx_bytes
        } else {
            0
        }),
        r.1 == (if current.tx_bytes >= previous.tx_bytes {
            current.tx_bytes - previous.tx_bytes
        } else {
            0
        }),
        r.2 == (if current_time >= previous_time {
            current_time - previous_time
        } else {
            0
        }),
{
    let rx = if current.rx_bytes >= previous.rx_bytes {
        current.rx_bytes - previous.rx_bytes
    } else {
        0
    };
    let tx = if current.tx_bytes >= previous.tx_bytes {
        current.tx_bytes - previous.tx_bytes
    } else {
        0
    };
    let t = if current_time >= previous_time {
        current_time - previous_time
    } else {
        0
    };
    (rx, tx, t)
}

} // verus!
