//! How busy the machine is, from what its kernel says.

use crate::text::{
    begins_with, chars_of, parse_u64, parsed_u64, same_text, split_at_first, split_once, stands_at,
    texts,
};
use crate::words::{lines, split_lines, split_words, words};
use vstd::prelude::*;

verus! {

/// The time that all processors spent, and what of it they were idle.
#[derive(Debug, Clone, Copy, PartialEq, Eq, Structural)]
pub struct CpuTimes {
    pub total: u64,
    pub idle: u64,
}

/// The time between two samples, and what of it was not idle.
#[derive(Debug, Clone, Copy, PartialEq, Eq, Structural)]
pub struct CpuLoad {
    pub busy: u64,
    pub total: u64,
}

pub struct SystemMetricsSampler {
    pub previous_cpu: Option<CpuTimes>,
}

/// What came of one sample.
#[derive(Debug, Clone, Copy, PartialEq, Eq, Structural)]
pub struct SystemMetrics {
    pub cpu: Option<CpuLoad>,
    pub memory_used_bytes: Option<u64>,
    pub memory_total_bytes: Option<u64>,
}

/// The load between two samples. Clocks that went backwards count as no time.
pub open spec fn load_between(previous: CpuTimes, current: CpuTimes) -> CpuLoad {
    let total = later(previous.total, current.total);
    let idle = later(previous.idle, current.idle);
    CpuLoad {
        busy: if idle <= total {
            (total - idle) as u64
        } else {
            0
        },
        total,
    }
}

pub open spec fn later(from: u64, to: u64) -> u64 {
    if to >= from {
        (to - from) as u64
    } else {
        0
    }
}

pub fn calculate_cpu_load(previous: CpuTimes, current: CpuTimes) -> (load: CpuLoad)
    ensures
        load == load_between(previous, current),
{
    let total: u64 = current.total.saturating_sub(previous.total);
    let idle: u64 = current.idle.saturating_sub(previous.idle);
    let busy: u64 = total.saturating_sub(idle);
    CpuLoad { busy, total }
}

/// A load lies between nothing and everything.
pub proof fn lemma_load_is_a_fraction(previous: CpuTimes, current: CpuTimes)
    ensures
        load_between(previous, current).busy <= load_between(previous, current).total,
{
}

impl SystemMetricsSampler {
    pub fn new() -> (sampler: Self)
        ensures
            sampler.previous_cpu is None,
    {
        SystemMetricsSampler { previous_cpu: None }
    }

    /// Takes a sample: what the kernel says now, as far as it could be read. There is
    /// a load from the second reading on.
    pub fn sample(&mut self, cpu: Option<CpuTimes>, memory: Option<(u64, u64)>) -> (metrics:
        SystemMetrics)
        ensures
            metrics.cpu == (match (old(self).previous_cpu, cpu) {
                (Some(previous), Some(current)) => Some(load_between(previous, current)),
                _ => None,
            }),
            metrics.memory_used_bytes == (match memory {
                Some((used, _)) => Some(used),
                None => None,
            }),
            metrics.memory_total_bytes == (match memory {
                Some((_, total)) => Some(total),
                None => None,
            }),
            final(self).previous_cpu == (match cpu {
                Some(current) => Some(current),
                None => old(self).previous_cpu,
            }),
    {
        let load = match (self.previous_cpu, cpu) {
            (Some(previous), Some(current)) => Some(calculate_cpu_load(previous, current)),
            _ => None,
        };
        match cpu {
            Some(current) => {
                self.previous_cpu = Some(current);
            },
            None => {},
        }
        let (memory_used_bytes, memory_total_bytes) = match memory {
            Some((used, total)) => (Some(used), Some(total)),
            None => (None, None),
        };
        SystemMetrics { cpu: load, memory_used_bytes, memory_total_bytes }
    }
}

/// The first line that begins with `prefix`, from `i` on.
pub open spec fn line_from(all: Seq<Seq<char>>, prefix: Seq<char>, i: nat) -> Option<Seq<char>>
    decreases all.len() - i,
{
    if i >= all.len() {
        None
    } else if begins_with(all[i as int], prefix) {
        Some(all[i as int])
    } else {
        line_from(all, prefix, i + 1)
    }
}

/// The numbers that words write, where all of them do.
pub open spec fn numbers(list: Seq<Seq<char>>) -> Option<Seq<u64>>
    decreases list.len(),
{
    if list.len() == 0 {
        Some(Seq::empty())
    } else {
        match (numbers(list.drop_last()), parsed_u64(list.last())) {
            (Some(front), Some(last)) => Some(front.push(last)),
            _ => None,
        }
    }
}

pub open spec fn sum(values: Seq<u64>) -> nat
    decreases values.len(),
{
    if values.len() == 0 {
        0
    } else {
        sum(values.drop_last()) + values.last() as nat
    }
}

/// The times of a line such as `cpu  10 0 10 80`: the fourth number and the fifth, if
/// there is one, are idle time.
pub open spec fn times_of(values: Seq<u64>) -> Option<CpuTimes> {
    if values.len() < 4 {
        None
    } else {
        let waiting: u64 = if values.len() > 4 {
            values[4]
        } else {
            0
        };
        Some(
            CpuTimes {
                total: sum(values) as u64,
                idle: if values[3] + waiting <= u64::MAX {
                    (values[3] + waiting) as u64
                } else {
                    u64::MAX
                },
            },
        )
    }
}

/// The numbers of the line about all processors.
pub open spec fn cpu_numbers(input: Seq<char>) -> Option<Seq<u64>> {
    match line_from(lines(input), "cpu "@, 0) {
        None => None,
        Some(line) => {
            let fields = words(line);
            if fields.len() == 0 {
                Some(Seq::empty())
            } else {
                numbers(fields.drop_first())
            }
        },
    }
}

fn find_cpu_line(input: &str) -> (line: Option<String>)
    ensures
        crate::text::opt_text(line) == line_from(lines(input@), "cpu "@, 0),
{
    let all = split_lines(input);
    let front = chars_of("cpu ");
    let ghost shown = lines(input@);
    let mut i: usize = 0;
    while i < all.len()
        invariant
            i <= all.len(),
            texts(all@) == shown,
            front@ == "cpu "@,
            shown == lines(input@),
            line_from(shown, "cpu "@, 0) == line_from(shown, "cpu "@, i as nat),
        decreases all.len() - i,
    {
        assert(texts(all@)[i as int] == all@[i as int]@);
        let line = chars_of(all[i].as_str());
        if line.len() >= front.len() {
            assert(line@.subrange(0, front@.len() as int) =~= line@.take(front@.len() as int));
            if stands_at(&line, 0, &front) {
                return Some(all[i].clone());
            }
        }
        i = i + 1;
    }
    None
}

/// The numbers of a list of words from the second on.
fn numbers_after_first(list: &Vec<String>) -> (values: Option<Vec<u64>>)
    ensures
        list@.len() == 0 ==> (values matches Some(found) && found@ == Seq::<u64>::empty()),
        list@.len() > 0 ==> match values {
            Some(found) => numbers(texts(list@).drop_first()) == Some(found@),
            None => numbers(texts(list@).drop_first()) is None,
        },
{
    let mut values: Vec<u64> = Vec::new();
    if list.len() == 0 {
        return Some(values);
    }
    let ghost all = texts(list@).drop_first();
    let mut i: usize = 1;
    assert(all.take(0) =~= Seq::empty());
    let mut failed = false;
    while i < list.len()
        invariant
            1 <= i <= list.len(),
            all == texts(list@).drop_first(),
            failed ==> numbers(all.take(i - 1)) is None,
            !failed ==> numbers(all.take(i - 1)) == Some(values@),
        decreases list.len() - i,
    {
        let word = chars_of(list[i].as_str());
        assert(all.take(i as int).drop_last() =~= all.take(i - 1));
        assert(all.take(i as int).last() == list@[i as int]@);
        match parse_u64(&word) {
            Some(value) => values.push(value),
            None => {
                failed = true;
            },
        }
        i = i + 1;
    }
    assert(all.take(i - 1) =~= all);
    if failed {
        None
    } else {
        Some(values)
    }
}

/// The times of all processors together. The counts of the kernel have to add up to
/// a number that it can count to.
pub fn parse_cpu_times(input: &str) -> (times: Option<CpuTimes>)
    requires
        cpu_numbers(input@) matches Some(values) ==> sum(values) <= u64::MAX,
    ensures
        times == (match cpu_numbers(input@) {
            Some(values) => times_of(values),
            None => None,
        }),
{
    let line = match find_cpu_line(input) {
        Some(line) => line,
        None => return None,
    };
    let fields = split_words(line.as_str());
    let ghost shown = words(line@);
    assert(texts(fields@).len() == fields@.len());
    let values = match numbers_after_first(&fields) {
        Some(values) => values,
        None => return None,
    };
    if values.len() < 4 {
        return None;
    }
    let mut total: u64 = 0;
    let mut i: usize = 0;
    proof {
        lemma_sum_of_front(values@, 0);
    }
    while i < values.len()
        invariant
            i <= values.len(),
            sum(values@) <= u64::MAX,
            total == sum(values@.take(i as int)),
        decreases values.len() - i,
    {
        proof {
            lemma_sum_of_front(values@, i + 1);
            assert(values@.take(i + 1).drop_last() =~= values@.take(i as int));
        }
        total = total + values[i];
        i = i + 1;
    }
    assert(values@.take(i as int) =~= values@);
    let waiting: u64 = if values.len() > 4 {
        values[4]
    } else {
        0
    };
    let idle: u64 = values[3].saturating_add(waiting);
    Some(CpuTimes { total, idle })
}

proof fn lemma_sum_of_front(values: Seq<u64>, n: int)
    requires
        0 <= n <= values.len(),
    ensures
        sum(values.take(n)) <= sum(values),
    decreases values.len(),
{
    if n < values.len() {
        assert(values.drop_last().take(n) =~= values.take(n));
        lemma_sum_of_front(values.drop_last(), n);
    } else {
        assert(values.take(n) =~= values);
    }
}

/// Reads the times, or nothing where the counts of the kernel do not add up.
pub fn read_cpu_times(input: &str) -> (times: Option<CpuTimes>)
    ensures
        times == (match cpu_numbers(input@) {
            Some(values) => if sum(values) <= u64::MAX {
                times_of(values)
            } else {
                None
            },
            None => None,
        }),
{
    let line = match find_cpu_line(input) {
        Some(line) => line,
        None => return None,
    };
    let fields = split_words(line.as_str());
    assert(texts(fields@).len() == fields@.len());
    let values = match numbers_after_first(&fields) {
        Some(values) => values,
        None => return None,
    };
    let mut total: u64 = 0;
    let mut i: usize = 0;
    while i < values.len()
        invariant
            i <= values.len(),
            total == sum(values@.take(i as int)),
            cpu_numbers(input@) == Some(values@),
        decreases values.len() - i,
    {
        proof {
            lemma_sum_of_front(values@, i + 1);
            assert(values@.take(i + 1).drop_last() =~= values@.take(i as int));
        }
        if values[i] > u64::MAX - total {
            return None;
        }
        total = total + values[i];
        i = i + 1;
    }
    assert(values@.take(i as int) =~= values@);
    parse_cpu_times(input)
}

/// The name and the number of a line such as `MemTotal: 1000 kB`.
pub open spec fn named_number(line: Seq<char>) -> Option<(Seq<char>, u64)> {
    match split_at_first(line, ':') {
        None => None,
        Some((name, rest)) => {
            let fields = words(rest);
            if fields.len() == 0 {
                None
            } else {
                match parsed_u64(fields[0]) {
                    Some(value) => Some((name, value)),
                    None => None,
                }
            }
        },
    }
}

/// The total and the available memory that the lines up to `n` name, the last of each
/// name counting; nothing where one of them is malformed.
pub open spec fn memory_named(all: Seq<Seq<char>>, n: nat) -> Option<(Option<u64>, Option<u64>)>
    decreases n,
{
    if n == 0 {
        Some((None, None))
    } else {
        match (memory_named(all, (n - 1) as nat), named_number(all[n - 1])) {
            (Some((total, available)), Some((name, value))) => if name == "MemTotal"@ {
                Some((Some(value), available))
            } else if name == "MemAvailable"@ {
                Some((total, Some(value)))
            } else {
                Some((total, available))
            },
            _ => None,
        }
    }
}

/// A number of kibibytes in bytes.
pub open spec fn kib_bytes(kib: u64) -> u64 {
    if kib * 1024 <= u64::MAX {
        (kib * 1024) as u64
    } else {
        u64::MAX
    }
}

/// The memory in use and the memory there is, in bytes.
pub open spec fn memory_of(named: Option<(Option<u64>, Option<u64>)>) -> Option<(u64, u64)> {
    match named {
        Some((Some(total), Some(available))) => {
            let all = kib_bytes(total);
            let free = kib_bytes(available);
            Some(
                (
                    if free <= all {
                        (all - free) as u64
                    } else {
                        0
                    },
                    all,
                ),
            )
        },
        _ => None,
    }
}

fn to_bytes(kib: u64) -> (bytes: u64)
    ensures
        bytes == kib_bytes(kib),
{
    if kib > u64::MAX / 1024 {
        u64::MAX
    } else {
        kib * 1024
    }
}

fn read_named_number(line: &str) -> (found: Option<(String, u64)>)
    ensures
        match (found, named_number(line@)) {
            (Some((name, value)), Some((expected, number))) => name@ == expected && value == number,
            (None, None) => true,
            _ => false,
        },
{
    let (name, rest) = match split_once(line, ':') {
        Some(parts) => parts,
        None => return None,
    };
    let fields = split_words(rest.as_str());
    assert(texts(fields@).len() == fields@.len());
    if fields.len() == 0 {
        return None;
    }
    assert(texts(fields@)[0] == fields@[0]@);
    let first = chars_of(fields[0].as_str());
    match parse_u64(&first) {
        Some(value) => Some((name, value)),
        None => None,
    }
}

/// The memory in use and the memory there is, in bytes, from the kernel's list.
pub fn parse_memory(input: &str) -> (memory: Option<(u64, u64)>)
    ensures
        memory == memory_of(memory_named(lines(input@), lines(input@).len())),
{
    let all = split_lines(input);
    let ghost shown = lines(input@);
    assert(texts(all@).len() == all@.len());
    let mut total: Option<u64> = None;
    let mut available: Option<u64> = None;
    let mut i: usize = 0;
    while i < all.len()
        invariant
            i <= all.len(),
            texts(all@) == shown,
            all@.len() == shown.len(),
            shown == lines(input@),
            memory_named(shown, i as nat) == Some((total, available)),
        decreases all.len() - i,
    {
        assert(texts(all@)[i as int] == all@[i as int]@);
        match read_named_number(all[i].as_str()) {
            None => {
                proof {
                    assert(memory_named(shown, (i + 1) as nat) is None);
                    lemma_malformed_stays(shown, (i + 1) as nat, shown.len());
                }
                return None;
            },
            Some((name, value)) => {
                if same_text(name.as_str(), "MemTotal") {
                    total = Some(value);
                } else if same_text(name.as_str(), "MemAvailable") {
                    available = Some(value);
                }
                proof {
                    reveal_strlit("MemTotal");
                    reveal_strlit("MemAvailable");
                }
            },
        }
        i = i + 1;
    }
    match (total, available) {
        (Some(total), Some(available)) => {
            let bytes: u64 = to_bytes(total);
            let free: u64 = to_bytes(available);
            Some((bytes.saturating_sub(free), bytes))
        },
        _ => None,
    }
}

proof fn lemma_malformed_stays(all: Seq<Seq<char>>, n: nat, m: nat)
    requires
        n <= m,
        memory_named(all, n) is None,
    ensures
        memory_named(all, m) is None,
    decreases m,
{
    if n < m {
        lemma_malformed_stays(all, n, (m - 1) as nat);
    }
}

/// No more memory is in use than there is.
pub proof fn lemma_used_memory_is_part_of_all(named: Option<(Option<u64>, Option<u64>)>)
    ensures
        memory_of(named) matches Some((used, total)) ==> used <= total,
{
}

} // verus!
