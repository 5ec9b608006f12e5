//! What the application knows of the GPU compute runtime: whether an adapter
//! was initialised, its identity and limits, and the vendor it belongs to.

use vstd::prelude::*;
use crate::text::{ascii_lower, chars_of, opt_text, string_of, to_ascii_lower, trim_chars, trimmed};

verus! {

/// Name of the environment variable that enables the debug CPU fallback.
pub const DEBUG_ALLOW_CPU_FALLBACK_ENV: &'static str = "PHOTOGRAPH_DEBUG_ALLOW_CPU_FALLBACK";

/// Identity and limits of an initialised GPU adapter.
pub struct AdapterInfo {
    pub name: String,
    pub backend: String,
    pub driver: String,
    pub vendor_id: u32,
    pub max_texture_dimension_2d: u32,
}

/// Snapshot of GPU preview runtime availability and adapter details.
pub struct RuntimeStatus {
    pub available: bool,
    pub adapter_vendor_id: Option<u32>,
    pub adapter_name: Option<String>,
    pub adapter_backend: Option<String>,
    pub adapter_driver: Option<String>,
}

/// The driver name shown for an adapter: `unknown` when the reported name
/// is blank.
pub open spec fn driver_label(driver: Seq<char>) -> Seq<char> {
    if trimmed(driver).len() == 0 { "unknown"@ } else { driver }
}

/// The driver name to show for a reported one; never empty.
pub fn display_driver(driver: &str) -> (r: String)
    ensures
        r@ == driver_label(driver@),
        r@.len() > 0,
{
    let t = trim_chars(driver);
    if t.len() == 0 {
        proof {
            reveal_strlit("unknown");
        }
        string_of(&chars_of("unknown"))
    } else {
        string_of(&chars_of(driver))
    }
}

/// Whether the GPU preview path is available: an adapter was initialised.
pub fn is_available(adapter: &Option<AdapterInfo>) -> (r: bool)
    ensures
        r == adapter is Some,
{
    adapter.is_some()
}

/// The device's largest 2D texture side, or 0 without a GPU.
pub fn max_texture_dimension(adapter: &Option<AdapterInfo>) -> (r: u32)
    ensures
        r == (match adapter {
            Some(a) => a.max_texture_dimension_2d,
            None => 0,
        }),
{
    match adapter {
        Some(a) => a.max_texture_dimension_2d,
        None => 0,
    }
}

/// Whether an image is too large for the device: a known limit (non-zero)
/// that either side exceeds.
pub fn exceeds_texture_limit(width: u32, height: u32, max_dim: u32) -> (r: bool)
    ensures
        r == (max_dim > 0 && (width > max_dim || height > max_dim)),
{
    max_dim > 0 && (width > max_dim || height > max_dim)
}

/// The runtime status for diagnostics: the adapter's details when there is
/// one, else unavailable with nothing known.
pub fn runtime_status(adapter: &Option<AdapterInfo>) -> (r: RuntimeStatus)
    ensures
        r.available == adapter is Some,
        adapter is None ==> r.adapter_vendor_id is None && r.adapter_name is None
            && r.adapter_backend is None && r.adapter_driver is None,
        adapter matches Some(a) ==> r.adapter_vendor_id == Some(a.vendor_id)
            && r.adapter_name == Some(a.name) && r.adapter_backend == Some(a.backend)
            && r.adapter_driver is Some && r.adapter_driver->0@ == driver_label(a.driver@)
            && r.adapter_driver->0@.len() > 0,
{
    match adapter {
        Some(a) => RuntimeStatus {
            available: true,
            adapter_vendor_id: Some(a.vendor_id),
            adapter_name: Some(a.name.clone()),
            adapter_backend: Some(a.backend.clone()),
            adapter_driver: Some(display_driver(a.driver.as_str())),
        },
        None => RuntimeStatus {
            available: false,
            adapter_vendor_id: None,
            adapter_name: None,
            adapter_backend: None,
            adapter_driver: None,
        },
    }
}

/// GPU makers the status badge knows.
#[derive(Clone, Copy, Debug, PartialEq, Eq, Structural)]
pub enum GpuVendor {
    Nvidia,
    Amd,
    Apple,
    Intel,
}

/// Whether `needle` occurs in `hay` as a contiguous run.
pub open spec fn occurs_in(hay: Seq<char>, needle: Seq<char>) -> bool {
    exists|i: int| 0 <= i && i + needle.len() <= hay.len() && #[trigger] hay.subrange(i, i + needle.len()) == needle
}

/// Whether `needle` occurs in `hay`.
pub fn contains_chars(hay: &Vec<char>, needle: &[char]) -> (r: bool)
    ensures
        r == occurs_in(hay@, needle@),
{
    let n = needle.len();
    if n > hay.len() {
        proof {
            assert forall|i: int| 0 <= i && i + needle@.len() <= hay@.len() implies #[trigger] hay@.subrange(i, i + needle@.len()) != needle@ by {}
        }
        return false;
    }
    let len = hay.len();
    let mut i: usize = 0;
    while i <= len - n
        invariant
            len == hay@.len(),
            n == needle@.len(),
            n <= hay@.len(),
            i <= hay@.len() - n + 1,
            forall|j: int| 0 <= j < i ==> #[trigger] hay@.subrange(j, j + n) != needle@,
        decreases hay@.len() - i,
    {
        let mut k: usize = 0;
        let mut same = true;
        while k < n
            invariant
                len == hay@.len(),
                n == needle@.len(),
                i + n <= hay@.len(),
                k <= n,
                same == (forall|m: int| 0 <= m < k ==> hay@[i + m] == needle@[m]),
            decreases n - k,
        {
            if hay[i + k] != needle[k] {
                same = false;
            }
            k = k + 1;
        }
        if same {
            proof {
                assert(hay@.subrange(i as int, i + n) =~= needle@);
            }
            return true;
        }
        proof {
            assert(hay@.subrange(i as int, i + n) != needle@) by {
                let m = choose|m: int| 0 <= m < n && hay@[i + m] != needle@[m];
                assert(hay@.subrange(i as int, i + n)[m] == hay@[i + m]);
            }
        }
        i = i + 1;
    }
    proof {
        assert forall|j: int| 0 <= j && j + needle@.len() <= hay@.len() implies #[trigger] hay@.subrange(j, j + needle@.len()) != needle@ by {
            assert(j < i);
        }
    }
    false
}

/// The text searched for vendor names: the lower-cased adapter name and
/// driver, separated by a space when both are present.
pub open spec fn vendor_haystack(name: Option<Seq<char>>, driver: Option<Seq<char>>) -> Seq<char> {
    let a = match name {
        Some(n) => ascii_lower(n),
        None => Seq::empty(),
    };
    match driver {
        Some(d) => if a.len() > 0 { a + seq![' '] + ascii_lower(d) } else { a + ascii_lower(d) },
        None => a,
    }
}

/// The vendor of an adapter: by PCI vendor id first, else by names in its
/// description.
pub open spec fn vendor_of(vendor_id: u32, hay: Seq<char>) -> Option<GpuVendor> {
    if vendor_id == 0x10DE {
        Some(GpuVendor::Nvidia)
    } else if vendor_id == 0x1002 || vendor_id == 0x1022 {
        Some(GpuVendor::Amd)
    } else if vendor_id == 0x8086 {
        Some(GpuVendor::Intel)
    } else if vendor_id == 0x106B {
        Some(GpuVendor::Apple)
    } else if occurs_in(hay, seq!['n', 'v', 'i', 'd', 'i', 'a']) {
        Some(GpuVendor::Nvidia)
    } else if occurs_in(hay, seq!['a', 'm', 'd']) || occurs_in(hay, seq!['r', 'a', 'd', 'e', 'o', 'n']) {
        Some(GpuVendor::Amd)
    } else if occurs_in(hay, seq!['i', 'n', 't', 'e', 'l']) || occurs_in(hay, seq!['i', 'r', 'i', 's'])
        || occurs_in(hay, seq!['a', 'r', 'c']) {
        Some(GpuVendor::Intel)
    } else if occurs_in(hay, seq!['a', 'p', 'p', 'l', 'e']) || occurs_in(hay, seq!['m', '1'])
        || occurs_in(hay, seq!['m', '2']) || occurs_in(hay, seq!['m', '3']) || occurs_in(hay, seq!['m', '4']) {
        Some(GpuVendor::Apple)
    } else {
        None
    }
}

fn string_chars(s: &String) -> (r: Vec<char>)
    ensures
        r@ == s@,
{
    crate::text::chars_of(s.as_str())
}

/// Identifies the GPU vendor of a runtime status.
pub fn detect_gpu_vendor(status: &RuntimeStatus) -> (r: Option<GpuVendor>)
    ensures
        r == vendor_of(
            match status.adapter_vendor_id {
                Some(v) => v,
                None => 0,
            },
            vendor_haystack(opt_text(status.adapter_name), opt_text(status.adapter_driver)),
        ),
{
    let vendor_id = match status.adapter_vendor_id {
        Some(v) => v,
        None => 0,
    };
    if vendor_id == 0x10DE {
        return Some(GpuVendor::Nvidia);
    }
    if vendor_id == 0x1002 || vendor_id == 0x1022 {
        return Some(GpuVendor::Amd);
    }
    if vendor_id == 0x8086 {
        return Some(GpuVendor::Intel);
    }
    if vendor_id == 0x106B {
        return Some(GpuVendor::Apple);
    }
    let mut hay: Vec<char> = Vec::new();
    match &status.adapter_name {
        Some(name) => {
            let lower = to_ascii_lower(&string_chars(name));
            crate::text::push_vec(&mut hay, &lower);
        },
        None => {},
    }
    match &status.adapter_driver {
        Some(driver) => {
            if hay.len() > 0 {
                hay.push(' ');
            }
            let lower = to_ascii_lower(&string_chars(driver));
            crate::text::push_vec(&mut hay, &lower);
        },
        None => {},
    }
    proof {
        let name = opt_text(status.adapter_name);
        let driver = opt_text(status.adapter_driver);
        assert(hay@ =~= vendor_haystack(name, driver));
        assert(['n', 'v', 'i', 'd', 'i', 'a']@ =~= seq!['n', 'v', 'i', 'd', 'i', 'a']);
        assert(['a', 'm', 'd']@ =~= seq!['a', 'm', 'd']);
        assert(['r', 'a', 'd', 'e', 'o', 'n']@ =~= seq!['r', 'a', 'd', 'e', 'o', 'n']);
        assert(['i', 'n', 't', 'e', 'l']@ =~= seq!['i', 'n', 't', 'e', 'l']);
        assert(['i', 'r', 'i', 's']@ =~= seq!['i', 'r', 'i', 's']);
        assert(['a', 'r', 'c']@ =~= seq!['a', 'r', 'c']);
        assert(['a', 'p', 'p', 'l', 'e']@ =~= seq!['a', 'p', 'p', 'l', 'e']);
        assert(['m', '1']@ =~= seq!['m', '1']);
        assert(['m', '2']@ =~= seq!['m', '2']);
        assert(['m', '3']@ =~= seq!['m', '3']);
        assert(['m', '4']@ =~= seq!['m', '4']);
    }
    if contains_chars(&hay, &['n', 'v', 'i', 'd', 'i', 'a']) {
        return Some(GpuVendor::Nvidia);
    }
    if contains_chars(&hay, &['a', 'm', 'd']) || contains_chars(&hay, &['r', 'a', 'd', 'e', 'o', 'n']) {
        return Some(GpuVendor::Amd);
    }
    if contains_chars(&hay, &['i', 'n', 't', 'e', 'l']) || contains_chars(&hay, &['i', 'r', 'i', 's'])
        || contains_chars(&hay, &['a', 'r', 'c']) {
        return Some(GpuVendor::Intel);
    }
    if contains_chars(&hay, &['a', 'p', 'p', 'l', 'e']) || contains_chars(&hay, &['m', '1'])
        || contains_chars(&hay, &['m', '2']) || contains_chars(&hay, &['m', '3'])
        || contains_chars(&hay, &['m', '4']) {
        return Some(GpuVendor::Apple);
    }
    None
}

impl GpuVendor {
    /// The badge colour, as red, green and blue.
    pub fn badge_fill(self) -> (r: (u8, u8, u8))
        ensures
            r == (match self {
                GpuVendor::Nvidia => (118u8, 185u8, 0u8),
                GpuVendor::Amd => (237u8, 28u8, 36u8),
                GpuVendor::Apple => (120u8, 120u8, 120u8),
                GpuVendor::Intel => (0u8, 113u8, 197u8),
            }),
    {
        match self {
            GpuVendor::Nvidia => (118, 185, 0),
            GpuVendor::Amd => (237, 28, 36),
            GpuVendor::Apple => (120, 120, 120),
            GpuVendor::Intel => (0, 113, 197),
        }
    }

    /// The text of the vendor badge.
    pub fn badge_text(self) -> (r: &'static str)
        ensures
            r@ == (match self {
                GpuVendor::Nvidia => "NVIDIA"@,
                GpuVendor::Amd => "AMD"@,
                GpuVendor::Apple => "APPLE"@,
                GpuVendor::Intel => "INTEL"@,
            }),
    {
        match self {
            GpuVendor::Nvidia => "NVIDIA",
            GpuVendor::Amd => "AMD",
            GpuVendor::Apple => "APPLE",
            GpuVendor::Intel => "INTEL",
        }
    }
}

} // verus!
