//! Figures about the machine, put together from what the system reports.

use vstd::prelude::*;
use vstd::string::StringExecFns;
use crate::text::chars_of;

verus! {

/// Figures about the machine.
#[derive(Clone, Debug, PartialEq, Eq)]
pub struct SystemStats {
    pub disk_total: u64,
    pub disk_free: u64,
    pub os_info: String,
    pub mac_address: String,
}

/// Mathematical model of [`SystemStats`].
pub struct SystemStatsView {
    pub disk_total: u64,
    pub disk_free: u64,
    pub os_info: Seq<char>,
    pub mac_address: Seq<char>,
}

impl DeepView for SystemStats {
    type V = SystemStatsView;

    open spec fn deep_view(&self) -> SystemStatsView {
        SystemStatsView {
            disk_total: self.disk_total,
            disk_free: self.disk_free,
            os_info: self.os_info@,
            mac_address: self.mac_address@,
        }
    }
}

impl View for SystemStats {
    type V = SystemStatsView;

    open spec fn view(&self) -> SystemStatsView {
        self.deep_view()
    }
}

/// Space of one disk, in bytes.
#[derive(Clone, Copy, Debug, PartialEq, Eq, Structural)]
pub struct DiskSpace {
    pub total: u64,
    pub available: u64,
}

/// How the lookup of the machine's hardware address ended.
#[derive(Clone, Debug, PartialEq, Eq)]
pub enum MacLookup {
    /// The machine has the address.
    Found(String),
    /// The machine has no address.
    Absent,
    /// The lookup failed.
    Failed,
}

/// Mathematical model of a [`MacLookup`].
pub enum MacLookupView {
    Found(Seq<char>),
    Absent,
    Failed,
}

impl DeepView for MacLookup {
    type V = MacLookupView;

    open spec fn deep_view(&self) -> MacLookupView {
        match self {
            MacLookup::Found(address) => MacLookupView::Found(address@),
            MacLookup::Absent => MacLookupView::Absent,
            MacLookup::Failed => MacLookupView::Failed,
        }
    }
}

impl View for MacLookup {
    type V = MacLookupView;

    open spec fn view(&self) -> MacLookupView {
        self.deep_view()
    }
}

/// Total space of the first `n` disks.
pub open spec fn total_space(disks: Seq<DiskSpace>, n: int) -> int
    decreases n,
{
    if n <= 0 || n > disks.len() {
        0
    } else {
        total_space(disks, n - 1) + disks[n - 1].total
    }
}

/// Available space of the first `n` disks.
pub open spec fn available_space(disks: Seq<DiskSpace>, n: int) -> int
    decreases n,
{
    if n <= 0 || n > disks.len() {
        0
    } else {
        available_space(disks, n - 1) + disks[n - 1].available
    }
}

/// A white-space character.
pub open spec fn is_whitespace(c: char) -> bool {
    ||| ('\u{9}' <= c && c <= '\u{d}')
    ||| c == ' '
    ||| c == '\u{85}'
    ||| c == '\u{a0}'
    ||| c == '\u{1680}'
    ||| ('\u{2000}' <= c && c <= '\u{200a}')
    ||| c == '\u{2028}'
    ||| c == '\u{2029}'
    ||| c == '\u{202f}'
    ||| c == '\u{205f}'
    ||| c == '\u{3000}'
}

/// Index of the first character at or after `i` that is no white space.
pub open spec fn skip_whitespace(s: Seq<char>, i: int) -> int
    decreases s.len() - i,
{
    if 0 <= i < s.len() && is_whitespace(s[i]) {
        skip_whitespace(s, i + 1)
    } else {
        i
    }
}

/// Length of `s.take(n)` once its trailing white space is removed, but not
/// less than `floor`.
pub open spec fn trimmed_whitespace_len(s: Seq<char>, floor: int, n: int) -> int
    decreases n,
{
    if 0 <= floor < n <= s.len() && is_whitespace(s[n - 1]) {
        trimmed_whitespace_len(s, floor, n - 1)
    } else {
        n
    }
}

/// `s` without the white space at its two ends.
pub open spec fn trimmed(s: Seq<char>) -> Seq<char> {
    let start = skip_whitespace(s, 0);
    s.subrange(start, trimmed_whitespace_len(s, start, s.len() as int))
}

/// Name and version of the operating system in one line.
pub open spec fn os_description(name: Option<Seq<char>>, version: Option<Seq<char>>) -> Seq<char> {
    let n = match name {
        Some(n) => n,
        None => "Unknown"@,
    };
    let v = match version {
        Some(v) => v,
        None => Seq::empty(),
    };
    trimmed(n + " "@ + v)
}

/// The text shown for the machine's hardware address.
pub open spec fn mac_description(lookup: MacLookupView) -> Seq<char> {
    match lookup {
        MacLookupView::Found(address) => address,
        MacLookupView::Absent => "No MAC Found"@,
        MacLookupView::Failed => "Unknown MAC"@,
    }
}

/// The lines that tell the machine's local and public addresses, each only
/// where the address is known.
pub open spec fn network_lines(local: Option<Seq<char>>, public: Option<Seq<char>>) -> Seq<
    Seq<char>,
> {
    (match local {
        Some(ip) => seq!["Local: "@ + ip],
        None => seq![],
    }) + (match public {
        Some(ip) => seq!["Public: "@ + ip],
        None => seq![],
    })
}

/// Tests whether `c` is a white-space character.
pub fn is_whitespace_char(c: char) -> (r: bool)
    ensures
        r == is_whitespace(c),
{
    ('\u{9}' <= c && c <= '\u{d}') || c == ' ' || c == '\u{85}' || c == '\u{a0}' || c
        == '\u{1680}' || ('\u{2000}' <= c && c <= '\u{200a}') || c == '\u{2028}' || c
        == '\u{2029}' || c == '\u{202f}' || c == '\u{205f}' || c == '\u{3000}'
}

/// Counts the white space at the start of `s`.
fn leading_whitespace(s: &[char]) -> (r: usize)
    ensures
        r == skip_whitespace(s@, 0),
        r <= s.len(),
{
    let mut i: usize = 0;
    while i < s.len()
        invariant
            i <= s.len(),
            skip_whitespace(s@, 0) == skip_whitespace(s@, i as int),
        decreases s.len() - i,
    {
        if !is_whitespace_char(s[i]) {
            return i;
        }
        i += 1;
    }
    i
}

/// Length of `s` once its trailing white space is removed, but not less
/// than `floor`.
fn trailing_whitespace_trimmed(s: &[char], floor: usize) -> (r: usize)
    requires
        floor <= s.len(),
    ensures
        r == trimmed_whitespace_len(s@, floor as int, s@.len() as int),
        floor <= r <= s.len(),
{
    let mut n: usize = s.len();
    while n > floor
        invariant
            floor <= n <= s.len(),
            trimmed_whitespace_len(s@, floor as int, s@.len() as int) == trimmed_whitespace_len(
                s@,
                floor as int,
                n as int,
            ),
        decreases n,
    {
        if !is_whitespace_char(s[n - 1]) {
            return n;
        }
        n -= 1;
    }
    n
}

/// Removes the white space at the two ends of `s`.
pub fn trim(s: &str) -> (r: String)
    ensures
        r@ == trimmed(s@),
{
    let chars = chars_of(s);
    let start = leading_whitespace(chars.as_slice());
    let end = trailing_whitespace_trimmed(chars.as_slice(), start);
    String::from_str(s.substring_char(start, end))
}

/// Sums the total and the available space of `disks`; `None` where a sum
/// does not fit.
pub fn sum_disk_space(disks: &Vec<DiskSpace>) -> (r: Option<(u64, u64)>)
    ensures
        match r {
            Some((total, available)) => {
                &&& total == total_space(disks@, disks@.len() as int)
                &&& available == available_space(disks@, disks@.len() as int)
            },
            None => {
                ||| total_space(disks@, disks@.len() as int) > u64::MAX
                ||| available_space(disks@, disks@.len() as int) > u64::MAX
            },
        },
{
    let mut total: u64 = 0;
    let mut available: u64 = 0;
    let mut i: usize = 0;
    while i < disks.len()
        invariant
            i <= disks.len(),
            total == total_space(disks@, i as int),
            available == available_space(disks@, i as int),
        decreases disks.len() - i,
    {
        let disk = disks[i];
        proof {
            lemma_space_grows(disks@, i + 1, disks@.len() as int);
        }
        total = match total.checked_add(disk.total) {
            Some(t) => t,
            None => {
                return None;
            },
        };
        available = match available.checked_add(disk.available) {
            Some(a) => a,
            None => {
                return None;
            },
        };
        i += 1;
    }
    Some((total, available))
}

/// The space of the first `n` disks is no more than that of the first `m`,
/// where `n <= m`.
proof fn lemma_space_grows(disks: Seq<DiskSpace>, n: int, m: int)
    requires
        0 <= n <= m <= disks.len(),
    ensures
        total_space(disks, n) <= total_space(disks, m),
        available_space(disks, n) <= available_space(disks, m),
    decreases m - n,
{
    if n < m {
        lemma_space_grows(disks, n, m - 1);
    }
}

/// Puts name and version of the operating system in one line.
pub fn describe_os(name: Option<&str>, version: Option<&str>) -> (r: String)
    ensures
        r@ == os_description(name.deep_view(), version.deep_view()),
{
    let n: &str = match name {
        Some(n) => n,
        None => "Unknown",
    };
    let v: &str = match version {
        Some(v) => v,
        None => "",
    };
    proof {
        reveal_strlit("");
    }
    let line = String::from_str(n).concat(" ").concat(v);
    trim(line.as_str())
}

/// The text shown for the machine's hardware address.
pub fn describe_mac(lookup: MacLookup) -> (r: String)
    ensures
        r@ == mac_description(lookup@),
{
    match lookup {
        MacLookup::Found(address) => address,
        MacLookup::Absent => String::from_str("No MAC Found"),
        MacLookup::Failed => String::from_str("Unknown MAC"),
    }
}

/// The lines that tell the machine's local and public addresses.
pub fn network_info_lines(local: Option<&str>, public: Option<&str>) -> (r: Vec<String>)
    ensures
        r.deep_view() == network_lines(local.deep_view(), public.deep_view()),
{
    let mut lines: Vec<String> = Vec::new();
    match local {
        Some(ip) => {
            lines.push(String::from_str("Local: ").concat(ip));
        },
        None => {},
    }
    match public {
        Some(ip) => {
            lines.push(String::from_str("Public: ").concat(ip));
        },
        None => {},
    }
    lines
}

impl SystemStats {
    /// Puts the figures together; `None` where the space of the disks does
    /// not fit.
    pub fn assemble(
        disks: &Vec<DiskSpace>,
        os_name: Option<&str>,
        os_version: Option<&str>,
        mac: MacLookup,
    ) -> (r: Option<SystemStats>)
        ensures
            match r {
                Some(stats) => {
                    &&& stats@.disk_total == total_space(disks@, disks@.len() as int)
                    &&& stats@.disk_free == available_space(disks@, disks@.len() as int)
                    &&& stats@.os_info == os_description(
                        os_name.deep_view(),
                        os_version.deep_view(),
                    )
                    &&& stats@.mac_address == mac_description(mac@)
                },
                None => {
                    ||| total_space(disks@, disks@.len() as int) > u64::MAX
                    ||| available_space(disks@, disks@.len() as int) > u64::MAX
                },
            },
    {
        match sum_disk_space(disks) {
            Some((disk_total, disk_free)) => Some(
                SystemStats {
                    disk_total,
                    disk_free,
                    os_info: describe_os(os_name, os_version),
                    mac_address: describe_mac(mac),
                },
            ),
            None => None,
        }
    }
}

} // verus!
