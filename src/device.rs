use vstd::prelude::*;

verus! {

/// `needle` occurs in `hay` starting at position `k`.
pub open spec fn occurs_at(hay: Seq<char>, needle: Seq<char>, k: int) -> bool {
    0 <= k && k + needle.len() <= hay.len() && hay.subrange(k, k + needle.len()) == needle
}

pub open spec fn contains_seq(hay: Seq<char>, needle: Seq<char>) -> bool {
    exists|k: int| occurs_at(hay, needle, k)
}

/// A lower-cased device name that marks a loopback (monitor) source, which is
/// preferred over a plain microphone.
pub open spec fn is_preferred_folded(lower: Seq<char>) -> bool {
    contains_seq(lower, "monitor"@) || contains_seq(lower, "analog stereo"@)
}

/// What `str::to_lowercase` returns for the characters `s`.
pub uninterp spec fn lower_of(s: Seq<char>) -> Seq<char>;

/// Relies on `str::to_lowercase`: its result depends on the characters alone.
#[verifier::external_body]
fn lowercase(s: &str) -> (r: String)
    ensures
        r@ == lower_of(s@),
{
    s.to_lowercase()
}

/// A device whose name could be read and whose lower-cased name is preferred.
pub open spec fn device_preferred(name: Option<String>) -> bool {
    match name {
        Some(s) => is_preferred_folded(lower_of(s@)),
        None => false,
    }
}

fn chars_of(s: &str) -> (r: Vec<char>)
    ensures
        r@ == s@,
{
    let n = s.unicode_len();
    let mut out: Vec<char> = Vec::new();
    let mut i: usize = 0;
    while i < n
        invariant
            n == s@.len(),
            i <= n,
            out@ == s@.take(i as int),
        decreases n - i,
    {
        out.push(s.get_char(i));
        i = i + 1;
        assert(out@ =~= s@.take(i as int));
    }
    assert(s@.take(n as int) =~= s@);
    out
}

fn occurs_at_exec(hay: &Vec<char>, needle: &Vec<char>, k: usize) -> (r: bool)
    requires
        k + needle@.len() <= hay@.len(),
    ensures
        r == occurs_at(hay@, needle@, k as int),
{
    let h = hay.len();
    let m = needle.len();
    let mut j: usize = 0;
    while j < m
        invariant
            h == hay@.len(),
            m == needle@.len(),
            k + m <= hay@.len(),
            j <= m,
            forall|t: int| 0 <= t < j ==> hay@[k + t] == needle@[t],
        decreases m - j,
    {
        if hay[k + j] != needle[j] {
            assert(hay@.subrange(k as int, k + m)[j as int] != needle@[j as int]);
            return false;
        }
        j = j + 1;
    }
    assert(hay@.subrange(k as int, k + m) =~= needle@);
    true
}

/// Whether `needle` occurs anywhere in `hay`.
pub fn contains_chars(hay: &Vec<char>, needle: &Vec<char>) -> (r: bool)
    ensures
        r == contains_seq(hay@, needle@),
{
    let h = hay.len();
    let m = needle.len();
    if m > h {
        assert forall|k: int| !occurs_at(hay@, needle@, k) by {}
        return false;
    }
    if m == 0 {
        assert(hay@.subrange(0, 0) =~= needle@);
        assert(occurs_at(hay@, needle@, 0));
        return true;
    }
    let last = h - m;
    let mut k: usize = 0;
    while k <= last
        invariant
            h == hay@.len(),
            m == needle@.len(),
            0 < m <= h,
            last == h - m,
            k <= last + 1,
            forall|t: int| 0 <= t < k ==> !occurs_at(hay@, needle@, t),
        decreases last + 1 - k,
    {
        if occurs_at_exec(hay, needle, k) {
            return true;
        }
        k = k + 1;
    }
    assert forall|t: int| !occurs_at(hay@, needle@, t) by {
        if 0 <= t < k {
        }
    }
    false
}

/// Whether an already lower-cased device name marks a preferred source: it holds
/// "monitor" or "analog stereo".
pub fn is_preferred_name_folded(lower: &str) -> (r: bool)
    ensures
        r == is_preferred_folded(lower@),
{
    let hay = chars_of(lower);
    let monitor = chars_of("monitor");
    let analog = chars_of("analog stereo");
    contains_chars(&hay, &monitor) || contains_chars(&hay, &analog)
}

/// Whether a device name, compared case-insensitively, marks a preferred source.
pub fn is_preferred_name(name: &str) -> (r: bool)
    ensures
        r == is_preferred_folded(lower_of(name@)),
{
    let lower = lowercase(name);
    is_preferred_name_folded(lower.as_str())
}

/// The input device to capture from.
#[derive(Clone, Copy, Debug, PartialEq, Eq, Structural)]
pub enum DeviceChoice {
    /// The device at this position of the enumeration.
    Listed(usize),
    /// No enumerated device is preferred: use the subsystem's default input device.
    SystemDefault,
}

/// `r` is the first entry for which `pref` holds, or the fallback when none does.
pub open spec fn is_first_preferred(pref: Seq<bool>, r: DeviceChoice) -> bool {
    match r {
        DeviceChoice::Listed(i) => i < pref.len() && pref[i as int] && forall|j: int|
            0 <= j < i ==> !pref[j],
        DeviceChoice::SystemDefault => forall|j: int| 0 <= j < pref.len() ==> !pref[j],
    }
}

pub open spec fn folded_preferred(lower: Option<String>) -> bool {
    match lower {
        Some(s) => is_preferred_folded(s@),
        None => false,
    }
}

/// Picks the first device whose already lower-cased name is preferred; an entry
/// is `None` where the device's name could not be read.
pub fn select_device_folded(lower_names: &Vec<Option<String>>) -> (r: DeviceChoice)
    ensures
        is_first_preferred(lower_names@.map_values(|n: Option<String>| folded_preferred(n)), r),
{
    let ghost pref = lower_names@.map_values(|n: Option<String>| folded_preferred(n));
    let n = lower_names.len();
    let mut i: usize = 0;
    while i < n
        invariant
            n == lower_names@.len(),
            pref == lower_names@.map_values(|n: Option<String>| folded_preferred(n)),
            i <= n,
            forall|j: int| 0 <= j < i ==> !pref[j],
        decreases n - i,
    {
        let hit = match &lower_names[i] {
            Some(s) => is_preferred_name_folded(s.as_str()),
            None => false,
        };
        if hit {
            return DeviceChoice::Listed(i);
        }
        i = i + 1;
    }
    DeviceChoice::SystemDefault
}

/// Picks the input device to capture from: the first enumerated device whose name,
/// compared case-insensitively, holds "monitor" or "analog stereo"; else the system
/// default. An entry is `None` where the device's name could not be read.
pub fn select_device(names: &Vec<Option<String>>) -> (r: DeviceChoice)
    ensures
        is_first_preferred(names@.map_values(|n: Option<String>| device_preferred(n)), r),
{
    let mut lower_names: Vec<Option<String>> = Vec::new();
    let n = names.len();
    let mut i: usize = 0;
    while i < n
        invariant
            n == names@.len(),
            i <= n,
            lower_names@.len() == i,
            forall|j: int|
                0 <= j < i ==> folded_preferred(#[trigger] lower_names@[j]) == device_preferred(
                    names@[j],
                ),
        decreases n - i,
    {
        let lowered = match &names[i] {
            Some(s) => Some(lowercase(s.as_str())),
            None => None,
        };
        lower_names.push(lowered);
        i = i + 1;
    }
    let r = select_device_folded(&lower_names);
    assert(lower_names@.map_values(|n: Option<String>| folded_preferred(n)) =~= names@.map_values(
        |n: Option<String>| device_preferred(n),
    ));
    r
}

} // verus!
